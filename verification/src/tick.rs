//! The simulation clock.
use vstd::prelude::*;

verus! {

/// The current tick number.
#[derive(Debug, Default)]
pub struct CurrentTick {
    pub value: u64,
}

/// What happens after a tick has been counted.
#[derive(Debug, Clone, Copy, PartialEq, Eq, Structural)]
pub enum TickOutcome {
    /// The simulation goes on.
    Continue,
    /// The last tick has been reached in the terminal UI: the simulation
    /// stops and pauses instead of quitting.
    Halt,
    /// The last tick has been reached: the program exits.
    Exit,
}

/// Count one tick. Once the count reaches `max_ticks` the simulation ends:
/// in terminal-UI mode it halts, otherwise the program exits.
pub fn advance_tick(tick: &mut CurrentTick, max_ticks: u64, tui_mode: bool) -> (outcome: TickOutcome)
    requires
        old(tick).value < u64::MAX,
    ensures
        final(tick).value == old(tick).value + 1,
        outcome == if final(tick).value < max_ticks {
            TickOutcome::Continue
        } else if tui_mode {
            TickOutcome::Halt
        } else {
            TickOutcome::Exit
        },
{
    tick.value = tick.value + 1;
    if tick.value >= max_ticks {
        if tui_mode {
            TickOutcome::Halt
        } else {
            TickOutcome::Exit
        }
    } else {
        TickOutcome::Continue
    }
}

} // verus!
