use vstd::prelude::*;

use aws_sdk_s3::presigning::PresigningConfig;

verus! {

#[verifier::external_type_specification]
#[verifier::external_body]
pub struct ExPresigningConfig(PresigningConfig);

/// The longest validity S3 accepts for a pre-signed URI: one week.
pub open spec fn within_one_week(secs: u64, nanos: u32) -> bool {
    secs < 604800 || (secs == 604800 && nanos == 0)
}

pub open spec fn too_long_text() -> Seq<char> {
    "`expires_in` must be no longer than one week"@
}

/// An S3 presigning configuration, together with what it holds: its validity,
/// in whole seconds and the nanoseconds beyond them, and its start time, in
/// whole seconds since the Unix epoch (none if it lies before it). Only
/// `presigning_config` makes one, so the readings always belong to the
/// configuration beside them.
pub struct SdkPresigning {
    config: PresigningConfig,
    validity_secs: u64,
    validity_nanos: u32,
    start_unix_secs: Option<u64>,
}

impl SdkPresigning {
    /// How long URIs signed with this configuration stay valid.
    pub closed spec fn validity(&self) -> (u64, u32) {
        (self.validity_secs, self.validity_nanos)
    }

    /// When URIs signed with this configuration become valid.
    pub closed spec fn start(&self) -> Option<u64> {
        self.start_unix_secs
    }

    /// The whole seconds of the validity.
    pub fn validity_secs(&self) -> (r: u64)
        ensures
            r == self.validity().0,
    {
        self.validity_secs
    }

    /// The start time, in whole seconds since the Unix epoch.
    pub fn start_unix_secs(&self) -> (r: Option<u64>)
        ensures
            r == self.start(),
    {
        self.start_unix_secs
    }

    /// The configuration, for signing.
    pub fn config(&self) -> &PresigningConfig {
        &self.config
    }

    /// The configuration, for signing.
    pub fn into_config(self) -> PresigningConfig {
        self.config
    }
}

/// Creates a presigning configuration with aws-sdk-s3's
/// `PresigningConfig::expires_in`, and reads what it holds back through its
/// `expires` and `start_time`. The source shows that it fails exactly when the
/// validity exceeds one week, with the text of `ExpiresInDurationTooLong`, and
/// that the configuration keeps the validity it was given. Its start is the
/// clock's current time: nothing is said of it.
#[verifier::external_body]
pub(crate) fn presigning_config(secs: u64, nanos: u32) -> (r: Result<SdkPresigning, String>)
    requires
        nanos < 1_000_000_000,
    ensures
        r is Ok <==> within_one_week(secs, nanos),
        r matches Ok(p) ==> p.validity() == (secs, nanos),
        r matches Err(m) ==> m@ == too_long_text(),
{
    let config = PresigningConfig::expires_in(std::time::Duration::new(secs, nanos)).map_err(|e| e.to_string())?;
    let validity = config.expires();
    let start = config.start_time().duration_since(std::time::UNIX_EPOCH).ok().map(|d| d.as_secs());
    Ok(SdkPresigning {
        config,
        validity_secs: validity.as_secs(),
        validity_nanos: validity.subsec_nanos(),
        start_unix_secs: start,
    })
}

} // verus!
