//! Core of a terminal Pong game: a ball bounces inside a bounded arena,
//! collides with paddles, and drives a score counter, a speed ramp and a
//! telemetry buffer. All coordinates and speeds are fixed-point integers in
//! tenths of a display unit, so the per-tick physics is exact and verified.

use vstd::prelude::*;

pub mod sched;
pub mod signal;
pub mod state;
pub mod tick;

verus! {

/// The 1-D straddle test between two intervals: true when either endpoint
/// of the first lies strictly inside the second.
pub open spec fn straddle_spec(a_lo: int, a_hi: int, b_lo: int, b_hi: int) -> bool {
    (a_lo > b_lo && a_lo < b_hi) || (a_hi < b_hi && a_hi > b_lo)
}

/// Overlap test between the ball's bounding interval [a_lo, a_hi] and a
/// paddle's bounding interval [b_lo, b_hi], exactly as the collision rules
/// use it: an endpoint strictly inside counts, touching does not.
pub fn straddle(a_lo: i64, a_hi: i64, b_lo: i64, b_hi: i64) -> (r: bool)
    ensures
        r == straddle_spec(a_lo as int, a_hi as int, b_lo as int, b_hi as int),
{
    (a_lo > b_lo && a_lo < b_hi) || (a_hi < b_hi && a_hi > b_lo)
}

/// Jitter offset chosen from one uniform draw in [0, 100), in tenths:
/// high third pushes right, middle third pushes left, low third leaves
/// the trajectory alone.
pub open spec fn x_randomize_spec(v: u64) -> int {
    if v >= 66 {
        1
    } else if v >= 33 {
        -1
    } else {
        0
    }
}

/// Map one uniform draw from [0, 100) to the transient horizontal jitter
/// offset applied after a vertical bounce.
pub fn x_randomize(v: u64) -> (r: i64)
    requires
        v < 100,
    ensures
        r == x_randomize_spec(v),
        -1 <= r <= 1,
{
    if v >= 66 {
        1
    } else if v >= 33 {
        -1
    } else {
        0
    }
}

} // verus!
