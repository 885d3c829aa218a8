use vstd::prelude::*;
use vstd::string::*;

use crate::presigning::{SdkPresigning, presigning_config, too_long_text, within_one_week};
use crate::result::{Error, ErrorKind, error_of};

verus! {

/// How long a pre-signed URI stays valid, in whole seconds and the nanoseconds
/// beyond them.
pub struct ExpiresIn {
    pub secs: u64,
    pub nanos: u32,
}

pub open spec fn before_epoch_text() -> Seq<char> {
    "start time must be after 1970-01-01 00:00:00 UTC"@
}

pub open spec fn too_small_text() -> Seq<char> {
    "expires_in is too small"@
}

/// The last second, counted from the Unix epoch, that a UTC timestamp can be
/// written for: the end of the year 262142.
pub open spec fn latest_instant() -> int {
    8210266876799
}

/// The RFC 3339 text of a UTC instant given in whole seconds since the Unix
/// epoch, with whole seconds and `Z` as the offset.
pub uninterp spec fn rfc3339_utc(unix_secs: int) -> Seq<char>;

/// Writes a UTC instant with chrono's `DateTime::<Utc>::to_rfc3339_opts`, whole
/// seconds and `Z` as the offset, after converting the instant with chrono's
/// `From<SystemTime>`, which accepts every instant up to the last writable one.
/// The text is named, not spelled out.
#[verifier::external_body]
fn format_rfc3339_secs(unix_secs: u64) -> (s: String)
    requires
        unix_secs <= latest_instant(),
    ensures
        s@ == rfc3339_utc(unix_secs as int),
{
    let instant = std::time::UNIX_EPOCH + std::time::Duration::from_secs(unix_secs);
    chrono::DateTime::<chrono::Utc>::from(instant).to_rfc3339_opts(chrono::SecondsFormat::Secs, true)
}

/// When a pre-signed request becomes valid and for how long: the start time in
/// whole seconds since the Unix epoch (none if it lies before it), and the
/// validity in whole seconds.
pub struct PresignWindow {
    pub start_unix_secs: Option<u64>,
    pub expires_secs: u64,
}

/// When a window's URIs expire, as text, or why that cannot be told: a start
/// before the epoch, or an end past the last instant that can be written.
pub open spec fn expiry_outcome(start: Option<u64>, expires_secs: u64) -> Result<Seq<char>, Seq<char>> {
    match start {
        None => Err(before_epoch_text()),
        Some(s) => if s + expires_secs <= latest_instant() {
            Ok(rfc3339_utc(s + expires_secs))
        } else {
            Err(too_small_text())
        },
    }
}

/// A result that carries an outcome: its text, or an error of the main layer
/// with its reason.
pub open spec fn string_result_matches(o: Result<Seq<char>, Seq<char>>, r: Result<String, Error>) -> bool {
    match o {
        Ok(t) => r matches Ok(s) && s@ == t,
        Err(m) => r matches Err(e) && e@ == error_of(m, ErrorKind::Main),
    }
}

/// Telling when pre-signed URIs expire.
pub trait GetTimestamp {
    spec fn timestamp_outcome(&self) -> Result<Seq<char>, Seq<char>>;

    /// The RFC 3339 timestamp the URIs expire at.
    fn get_timestamp(&self) -> (r: Result<String, Error>)
        ensures
            string_result_matches(self.timestamp_outcome(), r),
    ;
}

impl GetTimestamp for PresignWindow {
    open spec fn timestamp_outcome(&self) -> Result<Seq<char>, Seq<char>> {
        expiry_outcome(self.start_unix_secs, self.expires_secs)
    }

    /// The start, cut to whole seconds, plus the validity in whole seconds.
    fn get_timestamp(&self) -> (r: Result<String, Error>) {
        let start = match self.start_unix_secs {
            Some(s) => s,
            None => {
                return Err(Error::msg("start time must be after 1970-01-01 00:00:00 UTC"));
            },
        };
        match start.checked_add(self.expires_secs) {
            Some(end) => {
                if end <= 8210266876799u64 {
                    Ok(format_rfc3339_secs(end))
                } else {
                    Err(Error::msg("expires_in is too small"))
                }
            },
            None => Err(Error::msg("expires_in is too small")),
        }
    }
}

/// A presigning configuration, with the timestamp its URIs expire at.
pub struct PresignedConfig {
    pub presigning: SdkPresigning,
    pub expires_at: String,
}

/// A result that carries an expiry outcome: a configuration expiring at its
/// text, or an error of the main layer with its reason.
pub open spec fn config_result_matches(o: Result<Seq<char>, Seq<char>>, r: Result<PresignedConfig, Error>) -> bool {
    match o {
        Ok(t) => r matches Ok(c) && c.expires_at@ == t,
        Err(m) => r matches Err(e) && e@ == error_of(m, ErrorKind::Main),
    }
}

/// A configuration that is valid for `expires_in` and expires at the text it
/// carries: its own start plus the whole seconds of `expires_in`.
pub open spec fn configured_for(c: PresignedConfig, expires_in: ExpiresIn) -> bool {
    &&& c.presigning.validity() == (expires_in.secs, expires_in.nanos)
    &&& expiry_outcome(c.presigning.start(), expires_in.secs) == Ok::<Seq<char>, Seq<char>>(c.expires_at@)
}

impl PresignedConfig {
    /// The configuration for a presigning configuration that holds
    /// `expires_in`: it expires at its own start plus the whole seconds of
    /// `expires_in`, or fails as that expiry tells.
    pub fn from_presigning(presigning: SdkPresigning, expires_in: ExpiresIn) -> (r: Result<PresignedConfig, Error>)
        requires
            presigning.validity() == (expires_in.secs, expires_in.nanos),
        ensures
            config_result_matches(expiry_outcome(presigning.start(), expires_in.secs), r),
            r matches Ok(c) ==> c.presigning == presigning && configured_for(c, expires_in),
    {
        let window = PresignWindow {
            start_unix_secs: presigning.start_unix_secs(),
            expires_secs: presigning.validity_secs(),
        };
        match window.get_timestamp() {
            Ok(expires_at) => Ok(PresignedConfig { presigning, expires_at }),
            Err(e) => Err(e),
        }
    }

    /// A configuration for URIs valid for `expires_in` from now. A validity
    /// beyond one week is refused; otherwise the configuration holds
    /// `expires_in`, and its expiry follows from its start, the current time,
    /// whatever it is.
    pub fn new(expires_in: ExpiresIn) -> (r: Result<PresignedConfig, Error>)
        requires
            expires_in.nanos < 1_000_000_000,
        ensures
            !within_one_week(expires_in.secs, expires_in.nanos) ==> (r matches Err(e)
                && e@ == error_of(too_long_text(), ErrorKind::Main)),
            r matches Ok(c) ==> configured_for(c, expires_in),
            within_one_week(expires_in.secs, expires_in.nanos) ==> exists|start: Option<u64>|
                config_result_matches(#[trigger] expiry_outcome(start, expires_in.secs), r),
    {
        match presigning_config(expires_in.secs, expires_in.nanos) {
            Err(text) => Err(Error { source: text, kind: ErrorKind::Main }),
            Ok(presigning) => {
                let ghost start = presigning.start();
                let r = Self::from_presigning(presigning, expires_in);
                assert(config_result_matches(expiry_outcome(start, expires_in.secs), r));
                r
            },
        }
    }
}

} // verus!
