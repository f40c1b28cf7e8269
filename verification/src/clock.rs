//! The wall clock.

use vstd::prelude::*;

verus! {

/// The present moment, in seconds since the Unix epoch, as
/// `chrono::Local::now().timestamp()` reads it. Nothing is promised of the
/// value: two readings may come out in any order.
#[verifier::external_body]
pub(crate) fn current_time() -> (now: i64) {
    chrono::Local::now().timestamp()
}

/// The seconds left of a period of which `elapsed` seconds are used up:
/// the difference, and nothing where the period is overrun.
pub open spec fn budget_left(period: int, elapsed: int) -> int {
    if period - elapsed < 0 {
        0
    } else if period - elapsed > u64::MAX {
        u64::MAX as int
    } else {
        period - elapsed
    }
}

/// How long to sleep before the next cycle starts, so that cycles start a
/// period apart. A cycle that overran its period is followed at once.
pub fn remaining_budget(period: u64, elapsed: i64) -> (left: u64)
    ensures
        left == budget_left(period as int, elapsed as int),
{
    let difference: i128 = period as i128 - elapsed as i128;
    if difference < 0 {
        0
    } else if difference > u64::MAX as i128 {
        u64::MAX
    } else {
        difference as u64
    }
}

} // verus!
