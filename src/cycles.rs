//! Arithmetic on a free-running 32-bit hardware cycle counter.
//!
//! The counter wraps, so two readings are compared through their difference
//! modulo 2^32, read as a signed number.
use vstd::prelude::*;

verus! {

/// Number of distinct counter values.
pub open spec fn counter_span() -> int {
    0x1_0000_0000
}

/// `x` reduced into the counter's range, for `x` within one span of it.
pub open spec fn wrap(x: int) -> int {
    if x < 0 {
        x + counter_span()
    } else if x >= counter_span() {
        x - counter_span()
    } else {
        x
    }
}

/// How far `a` lies after `b` on the wrapping counter: the representative of
/// `a - b` modulo 2^32 in `[-2^31, 2^31)`.
pub open spec fn signed_distance(a: u32, b: u32) -> int {
    let d = wrap(a - b);
    if d < 0x8000_0000 {
        d
    } else {
        d - counter_span()
    }
}

/// Cycles from `now` until `deadline`: positive while the deadline is ahead,
/// zero or negative once it has been reached.
pub fn cycles_until(deadline: u32, now: u32) -> (r: i32)
    ensures
        r as int == signed_distance(deadline, now),
{
    let d: u32 = deadline.wrapping_sub(now);
    if d <= 0x7fff_ffff {
        d as i32
    } else {
        (d as i64 - 0x1_0000_0000i64) as i32
    }
}

/// Cycles that passed from `start` to `end`, modulo 2^32.
pub fn cycles_between(start: u32, end: u32) -> (r: u32)
    ensures
        r as int == wrap(end - start),
{
    end.wrapping_sub(start)
}

/// The counter value `delta` cycles after `t`.
pub fn advance(t: u32, delta: u32) -> (r: u32)
    ensures
        r as int == wrap(t + delta),
{
    t.wrapping_add(delta)
}

} // verus!
