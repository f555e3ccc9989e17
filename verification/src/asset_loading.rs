//! The decisions of the ActionSet asset loading countdown.
//!
//! Each requested ActionSet file gets a timer. While the timer runs it is ticked; once it
//! has finished, the file is reported loaded if its asset is available, else timed out.

use vstd::prelude::*;

verus! {

/// What the countdown does with one pending ActionSet file this frame.
#[derive(Debug, Clone, Copy, PartialEq, Eq, Structural)]
pub enum CountdownStep {
    /// The timer is still running: advance it.
    Tick,
    /// The timer finished and the asset is available: announce it.
    Loaded,
    /// The timer finished without the asset: announce a timeout.
    TimedOut,
}

/// Decides the countdown step for a pending file.
pub fn countdown(timer_finished: bool, asset_loaded: bool) -> (r: CountdownStep)
    ensures
        !timer_finished ==> r == CountdownStep::Tick,
        timer_finished && asset_loaded ==> r == CountdownStep::Loaded,
        timer_finished && !asset_loaded ==> r == CountdownStep::TimedOut,
{
    if timer_finished {
        if asset_loaded {
            CountdownStep::Loaded
        } else {
            CountdownStep::TimedOut
        }
    } else {
        CountdownStep::Tick
    }
}

} // verus!
