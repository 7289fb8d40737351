//! Shipbuilding limits.
use vstd::prelude::*;

verus! {

/// Most ships a planet can build in one tick.
pub const MAX_SHIPS_PER_TICK: u32 = 2;

/// Ships a planet builds this tick: as many as both its minerals and its
/// manufactured goods pay for, and at most two.
pub fn ships_to_build(affordable_by_minerals: u32, affordable_by_goods: u32) -> (n: u32)
    ensures
        n <= affordable_by_minerals,
        n <= affordable_by_goods,
        n <= MAX_SHIPS_PER_TICK,
        n == affordable_by_minerals || n == affordable_by_goods || n == MAX_SHIPS_PER_TICK,
{
    let m = if affordable_by_minerals < affordable_by_goods { affordable_by_minerals } else { affordable_by_goods };
    if m < MAX_SHIPS_PER_TICK {
        m
    } else {
        MAX_SHIPS_PER_TICK
    }
}

} // verus!
