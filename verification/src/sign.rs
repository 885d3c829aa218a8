use vstd::prelude::*;

use crate::result::{Error, ErrorKind, error_of};
use crate::presigning::{too_long_text, within_one_week};
use crate::util::{ExpiresIn, PresignedConfig, configured_for, expiry_outcome};

verus! {

/// The HTTP method a URI is signed for.
#[derive(Debug, Clone, Copy, PartialEq, Eq, Structural)]
pub enum SignMethod {
    Get,
    Put,
    Head,
    Delete,
}

pub open spec fn method_text(m: SignMethod) -> Seq<char> {
    match m {
        SignMethod::Get => "GET"@,
        SignMethod::Put => "PUT"@,
        SignMethod::Head => "HEAD"@,
        SignMethod::Delete => "DELETE"@,
    }
}

impl SignMethod {
    /// The method's name.
    pub fn name(&self) -> (r: &'static str)
        ensures
            r@ == method_text(*self),
    {
        match self {
            SignMethod::Get => "GET",
            SignMethod::Put => "PUT",
            SignMethod::Head => "HEAD",
            SignMethod::Delete => "DELETE",
        }
    }
}

/// A pre-signed URI, the method it is signed for, and when it expires.
pub struct PresignedResponse {
    pub method: String,
    pub uri: String,
    pub expires_at: String,
}

/// The answer to a signing request.
pub fn presigned_response(method: SignMethod, uri: String, expires_at: String) -> (r: PresignedResponse)
    ensures
        r.method@ == method_text(method),
        r.uri == uri,
        r.expires_at == expires_at,
{
    PresignedResponse { method: String::from_str(method.name()), uri, expires_at }
}

pub open spec fn setup_prefix() -> Seq<char> {
    "Failed to create presigned uri: "@
}

/// A result that carries an expiry outcome for a signing request: a
/// configuration expiring at its text, or an error of the main layer that
/// tells the signing could not be set up, and why.
pub open spec fn setup_result_matches(o: Result<Seq<char>, Seq<char>>, r: Result<PresignedConfig, Error>) -> bool {
    match o {
        Ok(t) => r matches Ok(c) && c.expires_at@ == t,
        Err(m) => r matches Err(e) && e@ == error_of(setup_prefix() + m, ErrorKind::Main),
    }
}

/// The presigning configuration of a signing request, valid for `expires_in`
/// from now; a failure tells that the URI could not be created.
pub fn presign_setup(expires_in: ExpiresIn) -> (r: Result<PresignedConfig, Error>)
    requires
        expires_in.nanos < 1_000_000_000,
    ensures
        !within_one_week(expires_in.secs, expires_in.nanos) ==> (r matches Err(e)
            && e@ == error_of(setup_prefix() + too_long_text(), ErrorKind::Main)),
        r matches Ok(c) ==> configured_for(c, expires_in),
        within_one_week(expires_in.secs, expires_in.nanos) ==> exists|start: Option<u64>|
            setup_result_matches(#[trigger] expiry_outcome(start, expires_in.secs), r),
{
    let secs = expires_in.secs;
    let r0 = PresignedConfig::new(expires_in);
    match r0 {
        Ok(c) => Ok(c),
        Err(e) => {
            let text = e.to_text();
            let r = Err(Error::msg2("Failed to create presigned uri: ", text.as_str()));
            proof {
                if within_one_week(expires_in.secs, expires_in.nanos) {
                    let start = choose|start: Option<u64>|
                        crate::util::config_result_matches(#[trigger] expiry_outcome(start, secs), r0);
                    assert(setup_result_matches(expiry_outcome(start, secs), r));
                }
            }
            r
        },
    }
}

} // verus!
