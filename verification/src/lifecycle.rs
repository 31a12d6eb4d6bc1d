//! The scheduler loop's lifecycle: run, observe the termination flag at the
//! end of each tick, drain once, stop.

use vstd::prelude::*;

verus! {

/// Where the scheduler loop stands between ticks.
#[derive(Clone, Copy, PartialEq, Eq, Structural, Debug)]
pub enum SchedulerPhase {
    /// Ticks continue on the fixed cadence.
    Running,
    /// Termination has been observed; exactly one final tick remains.
    Draining,
    /// Terminal: no further ticks.
    Stopped,
}

/// The phase after one completed tick, `exit_flagged` being the lifecycle
/// flag as read at the end of that tick.
pub open spec fn spec_next_phase(phase: SchedulerPhase, exit_flagged: bool) -> SchedulerPhase {
    match phase {
        SchedulerPhase::Running => if exit_flagged {
            SchedulerPhase::Draining
        } else {
            SchedulerPhase::Running
        },
        SchedulerPhase::Draining => SchedulerPhase::Stopped,
        SchedulerPhase::Stopped => SchedulerPhase::Stopped,
    }
}

/// Advance the lifecycle after a tick: a running scheduler that observes the
/// termination flag moves to `Draining`, a draining one has just performed
/// its final tick and stops, and `Stopped` is terminal.
pub fn next_phase(phase: SchedulerPhase, exit_flagged: bool) -> (next: SchedulerPhase)
    ensures
        next == spec_next_phase(phase, exit_flagged),
{
    match phase {
        SchedulerPhase::Running => if exit_flagged {
            SchedulerPhase::Draining
        } else {
            SchedulerPhase::Running
        },
        SchedulerPhase::Draining => SchedulerPhase::Stopped,
        SchedulerPhase::Stopped => SchedulerPhase::Stopped,
    }
}

/// `Stopped` is terminal: no observation of the flag moves the scheduler out
/// of it.
pub proof fn lemma_stopped_terminal(exit_flagged: bool)
    ensures
        spec_next_phase(SchedulerPhase::Stopped, exit_flagged) == SchedulerPhase::Stopped,
{
}

} // verus!
