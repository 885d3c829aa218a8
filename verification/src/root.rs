use vstd::prelude::*;
use vstd::string::*;

use crate::result::{Error, ErrorKind, SdkFailure, error_of, sdk_error};
use crate::text::opt_text;

verus! {

pub open spec fn no_such_bucket_text() -> Seq<char> {
    "The specified bucket does not exist"@
}

pub open spec fn no_such_key_text() -> Seq<char> {
    "The specified key does not exist"@
}

/// What a failed object request becomes: a missing bucket or key is reported
/// as such, any other failure as the S3 SDK reported it.
pub open spec fn object_error(code: Option<Seq<char>>, failure: SdkFailure) -> crate::result::ErrorView {
    if code == Some("NoSuchBucket"@) {
        error_of(no_such_bucket_text(), ErrorKind::Main)
    } else if code == Some("NoSuchKey"@) {
        error_of(no_such_key_text(), ErrorKind::Main)
    } else {
        sdk_error(failure@)
    }
}

/// Whether a service error code is the given one.
pub fn code_is(code: &Option<String>, expected: &str) -> (r: bool)
    ensures
        r == (opt_text(*code) == Some(expected@)),
{
    match code {
        Some(c) => {
            let e = String::from_str(expected);
            *c == e
        },
        None => false,
    }
}

/// The error for a failed get, put or delete of an object, given the error
/// code of the S3 service error, if the failure was one and carried a code.
pub fn object_exists(code: Option<String>, failure: SdkFailure) -> (e: Error)
    ensures
        e@ == object_error(opt_text(code), failure),
{
    proof {
        reveal_strlit("NoSuchBucket");
        reveal_strlit("NoSuchKey");
    }
    if code_is(&code, "NoSuchBucket") {
        Error::msg("The specified bucket does not exist")
    } else if code_is(&code, "NoSuchKey") {
        Error::msg("The specified key does not exist")
    } else {
        Error::from_sdk(failure)
    }
}

/// What a failed delete becomes: a key that does not exist is no failure,
/// since deleting it leaves the bucket as asked; any other failure is reported
/// as for the other object requests.
pub open spec fn deletion_outcome(code: Option<Seq<char>>, failure: SdkFailure) -> Result<(), crate::result::ErrorView> {
    if code == Some("NoSuchKey"@) {
        Ok(())
    } else {
        Err(object_error(code, failure))
    }
}

/// The outcome of a failed delete of an object, given the error code of the
/// S3 service error, if the failure was one and carried a code.
pub fn delete_outcome(code: Option<String>, failure: SdkFailure) -> (r: Result<(), Error>)
    ensures
        r is Ok <==> opt_text(code) == Some("NoSuchKey"@),
        deletion_outcome(opt_text(code), failure) is Ok ==> r is Ok,
        deletion_outcome(opt_text(code), failure) matches Err(v) ==> (r matches Err(e) && e@ == v),
{
    proof {
        reveal_strlit("NoSuchKey");
    }
    if code_is(&code, "NoSuchKey") {
        Ok(())
    } else {
        Err(object_exists(code, failure))
    }
}

} // verus!
