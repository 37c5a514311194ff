//! The wall clock.

use vstd::prelude::*;

verus! {

/// The latest time that the clock shows, in milliseconds since the Unix
/// epoch: the last millisecond of the year 262142, the last year that a
/// `chrono::DateTime` holds.
pub const LATEST_MILLIS: i64 = 8_210_266_876_799_999;

/// A time that the clock can show: not before the Unix epoch and not after
/// the latest time.
pub open spec fn shown_by_clock(now: i64) -> bool {
    0 <= now <= LATEST_MILLIS
}

/// The current time in milliseconds since the Unix epoch, read with
/// `chrono::Utc::now` and `DateTime::timestamp_millis`.
///
/// Nothing is proved of this function. `Utc::now` panics when the system
/// clock stands before the epoch, and when it stands after the last date
/// that a `DateTime` holds, so a time that is returned lies between the
/// two; which time it is depends on the moment of the call.
#[verifier::external_body]
pub(crate) fn now_millis() -> (now: i64)
    ensures
        shown_by_clock(now),
{
    chrono::Utc::now().timestamp_millis()
}

} // verus!
