//! Calls into other crates and into the system clock, with what this library
//! relies on of each.
use vstd::prelude::*;
use rand::Rng;

verus! {

/// Relies on rand's `rng().random_range(0..n)`: a value drawn from `0..n`.
/// It panics on an empty range, hence `0 < n`.
#[verifier::external_body]
pub(crate) fn random_below(n: u32) -> (r: u32)
    requires
        0 < n,
    ensures
        r < n,
{
    rand::rng().random_range(0..n)
}

/// Relies on std's `SystemTime::now`, measured from the Unix epoch in whole
/// milliseconds; `None` when the clock stands before the epoch.
#[verifier::external_body]
pub(crate) fn now_unix_millis() -> (r: Option<u64>) {
    match std::time::SystemTime::now().duration_since(std::time::UNIX_EPOCH) {
        Ok(d) => Some(d.as_millis() as u64),
        Err(_) => None,
    }
}

/// Relies on chrono: `DateTime::from_timestamp_millis`, moved into the local
/// time zone by `with_timezone(&Local)` and written by `format(pattern)`.
/// `None` where the instant lies outside chrono's range of dates. Formatting
/// fails only on a malformed pattern, so the pattern is one of two known ones.
#[verifier::external_body]
pub(crate) fn local_time_text(unix_ms: u64, pattern: &str) -> (r: Option<String>)
    requires
        unix_ms <= i64::MAX,
        pattern@ == "%Y%m%d_%H%M%S"@ || pattern@ == "%Y-%m-%d %H:%M:%S"@,
{
    match chrono::DateTime::from_timestamp_millis(unix_ms as i64) {
        Some(t) => Some(t.with_timezone(&chrono::Local).format(pattern).to_string()),
        None => None,
    }
}

} // verus!
