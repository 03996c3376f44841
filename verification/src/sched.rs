//! Scheduler decisions for the fixed-tick control loop. The loop itself
//! polls input, advances the simulation and renders; these two functions
//! are the timing rules it follows, kept pure so they can be verified.

use vstd::prelude::*;

verus! {

/// How long the input poll may wait: the time remaining until the next
/// scheduled tick, floored at zero. This bounded timeout is the loop's
/// only suspension point, so it stays responsive under tick pressure.
pub fn poll_timeout_ms(tick_ms: u64, elapsed_ms: u64) -> (r: u64)
    ensures
        r == if elapsed_ms < tick_ms {
            tick_ms - elapsed_ms
        } else {
            0int
        },
{
    if elapsed_ms < tick_ms {
        tick_ms - elapsed_ms
    } else {
        0
    }
}

/// A simulation advance is due exactly when the elapsed real time since
/// the last advance has reached the tick interval. Loop iterations may
/// run faster than ticks; drift is not compensated.
pub fn tick_due(tick_ms: u64, elapsed_ms: u64) -> (r: bool)
    ensures
        r == (elapsed_ms >= tick_ms),
{
    elapsed_ms >= tick_ms
}

} // verus!
