//! How a fixed-rate loop paces itself.
use vstd::prelude::*;

verus! {

/// What to do once a tick's work is done.
#[derive(Debug, Clone, Copy, PartialEq, Eq)]
pub enum TickPacing {
    /// The tick took its whole budget or more: go on at once (and warn).
    OverBudget,
    /// Sleep this many milliseconds before the next tick.
    Sleep(u64),
}

/// The time budget of one tick, in milliseconds.
pub fn ideal_tick_duration(tick_rate: u8) -> (ms: u64)
    requires
        tick_rate > 0,
    ensures
        ms == 1000int / (tick_rate as int),
{
    1000u64 / (tick_rate as u64)
}

/// After a tick that took `elapsed_ms`: sleep out the rest of the budget, or
/// go on at once when the budget is spent.
pub fn pace_tick(ideal_ms: u64, elapsed_ms: u64) -> (r: TickPacing)
    ensures
        elapsed_ms >= ideal_ms ==> r == TickPacing::OverBudget,
        elapsed_ms < ideal_ms ==> r == TickPacing::Sleep((ideal_ms - elapsed_ms) as u64),
{
    if elapsed_ms >= ideal_ms {
        TickPacing::OverBudget
    } else {
        TickPacing::Sleep(ideal_ms - elapsed_ms)
    }
}

} // verus!
