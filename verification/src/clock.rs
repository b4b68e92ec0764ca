//! The wall clock. Times are counted in nanoseconds since the Unix epoch.

use vstd::prelude::*;

verus! {

/// The number of nanoseconds in one second.
pub const NANOS_PER_SECOND: i64 = 1_000_000_000;

/// Reads the clock with `chrono::Utc::now` and hands the reading on as
/// `DateTime::timestamp_nanos_opt` gives it: nanoseconds since the Unix
/// epoch, or nothing for a date that such a count cannot hold. Nothing is
/// claimed of the reading: it is whatever the machine's clock says. On a
/// machine whose clock stands before the year 1970, `Utc::now` does not
/// return.
#[verifier::external_body]
fn utc_now_nanos() -> Option<i64> {
    chrono::Utc::now().timestamp_nanos_opt()
}

/// The current time. A date too late to be counted reads as the latest time
/// that can be.
pub fn now() -> i64 {
    match utc_now_nanos() {
        Some(t) => t,
        None => i64::MAX,
    }
}

/// The time that has passed from `earlier` to `later`, negative where
/// `later` lies before `earlier`.
pub open spec fn elapsed(earlier: i64, later: i64) -> int {
    later - earlier
}

/// Whether more than `seconds` seconds have passed from `earlier` to `later`.
pub open spec fn longer_than(earlier: i64, later: i64, seconds: int) -> bool {
    elapsed(earlier, later) > seconds * NANOS_PER_SECOND
}

/// Whether more than `seconds` seconds have passed from `earlier` to `later`.
pub fn is_longer_than(earlier: i64, later: i64, seconds: u32) -> (r: bool)
    ensures
        r == longer_than(earlier, later, seconds as int),
{
    let gap: i128 = later as i128 - earlier as i128;
    let limit: i128 = seconds as i128 * 1_000_000_000;
    gap > limit
}

} // verus!
