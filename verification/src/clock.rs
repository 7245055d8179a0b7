//! The wall clock, read through `chrono`.

use vstd::prelude::*;

verus! {

/// A bound that no reading of the clock reaches: 2^48 seconds.
pub const CLOCK_END: i64 = 0x1_0000_0000_0000;

/// The instant is one the clock can show: not before the epoch, and before
/// `CLOCK_END`.
pub open spec fn on_the_clock(now: i64) -> bool {
    0 <= now < CLOCK_END
}

/// Reads the current time as whole seconds since the Unix epoch.
///
/// Calls `chrono::Utc::now()` and `DateTime::timestamp()`. The value depends
/// on the machine's clock. `Utc::now` measures the time since the epoch and
/// panics where the clock stands before it, so what comes back is never
/// negative; and it hands back only a date whose day count fits 32 bits,
/// which lies before `CLOCK_END`. Nothing else is promised.
#[verifier::external_body]
pub(crate) fn current_timestamp() -> (now: i64)
    ensures
        on_the_clock(now),
{
    chrono::Utc::now().timestamp()
}

} // verus!
