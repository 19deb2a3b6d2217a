//! Device timestamps and the calendar instants that they name.

use vstd::prelude::*;

verus! {

/// Seconds since the epoch of the last whole second of the calendar:
/// 23:59:59 UTC on 31 December of the year 262142.
pub const LAST_INSTANT: u64 = 8_210_266_876_799;

/// Whether a device timestamp, in seconds since the epoch, names an
/// instant of the calendar.
pub open spec fn is_instant(timestamp: u64) -> bool {
    timestamp <= LAST_INSTANT
}

/// Trusted: `chrono::DateTime::<Utc>::from_timestamp` with no nanoseconds,
/// asked only whether it gives a value.
///
/// chrono builds the date from the day number `secs.div_euclid(86_400)` and
/// refuses a date after the year 262142; the time of day is always in
/// range. The contract claims that, from the epoch on, the call gives a
/// value exactly up to the last second of that year.
#[verifier::external_body]
pub(crate) fn names_instant(secs: i64) -> (known: bool)
    requires
        0 <= secs,
    ensures
        known == (secs <= LAST_INSTANT),
{
    chrono::DateTime::<chrono::Utc>::from_timestamp(secs, 0).is_some()
}

/// Trusted: `chrono::Local::now`, brought to UTC and cut to whole seconds.
///
/// The reading depends on the machine's clock, so nothing is claimed of it.
#[verifier::external_body]
pub(crate) fn wall_clock() -> i64 {
    chrono::Local::now().to_utc().timestamp()
}

/// Whether a device timestamp names an instant of the calendar. A
/// timestamp beyond the signed 64-bit range names none.
pub fn timestamp_is_instant(timestamp: u64) -> (known: bool)
    ensures
        known == is_instant(timestamp),
{
    if timestamp > i64::MAX as u64 {
        false
    } else {
        names_instant(timestamp as i64)
    }
}

} // verus!
