//! The wall clock, read as Unix time in whole seconds.

use vstd::prelude::*;

verus! {

/// No reading of the clock reaches this many seconds after the epoch.
pub const CLOCK_BOUND: i64 = 0x1_0000_0000_0000;

/// Whether `now` is a value the clock can give: a moment at or after the
/// epoch, and before `CLOCK_BOUND`.
pub open spec fn is_clock_reading(now: i64) -> bool {
    0 <= now < CLOCK_BOUND
}

/// `chrono::Utc::now().timestamp()`: the current Unix time in seconds.
/// `Utc::now` takes the time that has passed since the epoch from the system
/// clock, and panics when the clock is set before the epoch, so the reading
/// is not negative. chrono computes the timestamp as a day count held in an
/// `i32`, times 86 400, plus a `u32` of seconds, so it stays below
/// `CLOCK_BOUND`.
#[verifier::external_body]
pub(crate) fn unix_now() -> (now: i64)
    ensures
        is_clock_reading(now),
{
    chrono::Utc::now().timestamp()
}

} // verus!
