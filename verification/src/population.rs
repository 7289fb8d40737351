//! Starvation bookkeeping.
use vstd::prelude::*;

verus! {

/// Consecutive starving ticks after which starvation speeds up the decline.
pub const STARVATION_GRACE_TICKS: u32 = 5;

/// The starvation counter after a tick: one more while the planet starves
/// (food covers less than half the need), one less (never below 0) once it
/// does not.
pub fn next_starvation_ticks(ticks: u32, starving: bool) -> (t: u32)
    requires
        starving ==> ticks < u32::MAX,
    ensures
        t == if starving { ticks + 1 } else if ticks > 0 { ticks - 1 } else { 0 },
{
    if starving {
        ticks + 1
    } else {
        ticks.saturating_sub(1)
    }
}

} // verus!
