//! The wall clock that tokens are stamped and checked against.

use vstd::prelude::*;

verus! {

/// A bound on the magnitude of every timestamp the clock can give.
pub const CLOCK_LIMIT: i64 = 0x1_0000_0000_0000;

/// Whether `t` is a timestamp the clock can give.
pub open spec fn clock_range(t: i64) -> bool {
    -CLOCK_LIMIT <= t <= CLOCK_LIMIT
}

/// Calls `chrono::Local::now` and `DateTime::timestamp`: the seconds since the
/// Unix epoch. Two calls may differ. The timestamp is computed from a day
/// count held in 32 bits and the seconds of that day, so it stays well inside
/// `CLOCK_LIMIT`.
#[verifier::external_body]
pub(crate) fn now() -> (t: i64)
    ensures
        clock_range(t),
{
    chrono::Local::now().timestamp()
}

} // verus!
