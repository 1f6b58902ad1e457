//! Telemetry submissions: the client's operating system, the version check,
//! and the bucket width of the dashboard's time series.

use vstd::prelude::*;

verus! {

/// The operating system a client reports.
#[derive(PartialEq, Eq, Structural, Clone, Copy, Debug)]
pub enum Os {
    Linux,
    MacOS,
    Windows,
}

impl Os {
    /// The name stored for this system.
    pub fn as_str(&self) -> (r: &'static str)
        ensures
            *self == Os::Linux ==> r@ == "Linux"@,
            *self == Os::MacOS ==> r@ == "macOS"@,
            *self == Os::Windows ==> r@ == "Windows"@,
    {
        match self {
            Os::Linux => "Linux",
            Os::MacOS => "macOS",
            Os::Windows => "Windows",
        }
    }
}

/// Whether `regex::Regex::new(pattern)` compiles and the compiled expression
/// matches somewhere in `hay`.
pub uninterp spec fn regex_accepts(pattern: Seq<char>, hay: Seq<char>) -> bool;

/// Relies on `regex::Regex::new` and `regex::Regex::is_match`, taken together
/// because a compiled expression is opaque here: the answer depends on the
/// pattern and the text alone, and a pattern that does not compile matches
/// nothing.
#[verifier::external_body]
fn regex_match(pattern: &str, hay: &str) -> (r: bool)
    ensures
        r == regex_accepts(pattern@, hay@),
{
    match regex::Regex::new(pattern) {
        Ok(re) => re.is_match(hay),
        Err(_) => false,
    }
}

/// The shape of an application version: three dot-separated digit runs.
pub open spec fn semver_pattern() -> Seq<char> {
    "^\\d+\\.\\d+\\.\\d+$"@
}

/// A version string that is not `major.minor.patch`.
#[derive(PartialEq, Eq, Structural, Clone, Copy, Debug)]
pub struct SemverError;

impl SemverError {
    /// The validation code reported for the failure.
    pub fn code(&self) -> (r: &'static str)
        ensures
            r@ == "invalid_semver_format"@,
    {
        "invalid_semver_format"
    }
}

/// Accepts an application version of the form `major.minor.patch`.
pub fn validate_semver(version: &str) -> (r: Result<(), SemverError>)
    ensures
        r is Ok <==> regex_accepts(semver_pattern(), version@),
{
    if regex_match("^\\d+\\.\\d+\\.\\d+$", version) {
        Ok(())
    } else {
        Err(SemverError)
    }
}

/// The bucket width, in seconds, for a raw interval of `interval` seconds:
/// the nearest of the usual dashboard steps at or above it.
pub open spec fn bucket_for(interval: int) -> i64 {
    if interval < 20 {
        10
    } else if interval < 60 {
        30
    } else if interval < 180 {
        60
    } else if interval < 450 {
        300
    } else if interval < 750 {
        600
    } else if interval < 1350 {
        900
    } else if interval < 3600 {
        1800
    } else if interval < 5400 {
        3600
    } else if interval < 10800 {
        7200
    } else if interval < 18000 {
        10800
    } else if interval < 32400 {
        21600
    } else if interval < 86400 {
        43200
    } else if interval < 432000 {
        86400
    } else {
        604800
    }
}

/// The bucket width for the range `from..to` (unix seconds), aiming at about
/// 150 points; an empty or reversed range counts as one second.
pub open spec fn bucket_interval(from: int, to: int) -> i64 {
    let span = if to - from > 1 { to - from } else { 1 };
    bucket_for(span / 150)
}

/// The bucket width, in seconds, for a time series over `from..to` (unix
/// seconds).
pub fn calculate_bucket_interval(from: i64, to: i64) -> (r: i64)
    ensures
        r == bucket_interval(from as int, to as int),
{
    let diff: i128 = to as i128 - from as i128;
    let span: i128 = if diff > 1 { diff } else { 1 };
    let interval: i128 = span / 150;
    if interval < 60 {
        if interval < 20 { 10 } else { 30 }
    } else if interval < 3600 {
        if interval < 180 {
            60
        } else if interval < 450 {
            300
        } else if interval < 750 {
            600
        } else if interval < 1350 {
            900
        } else {
            1800
        }
    } else if interval < 86400 {
        if interval < 5400 {
            3600
        } else if interval < 10800 {
            7200
        } else if interval < 18000 {
            10800
        } else if interval < 32400 {
            21600
        } else {
            43200
        }
    } else {
        if interval < 432000 {
            86400
        } else {
            604800
        }
    }
}

/// The replenish period of a rate limit allowing `requests` per
/// `duration_ms` milliseconds; with no requests, the whole duration.
pub fn rate_limit_period(requests: u32, duration_ms: u64) -> (r: u64)
    ensures
        requests > 0 ==> r == duration_ms / (requests as u64),
        requests == 0 ==> r == duration_ms,
{
    if requests > 0 {
        duration_ms / (requests as u64)
    } else {
        duration_ms
    }
}

} // verus!
