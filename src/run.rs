//! The progress of a run through its planned steps: a failed step ends it.
use vstd::prelude::*;

verus! {

/// Where a run stands.
#[derive(Debug, Clone, Copy, PartialEq, Eq, Structural)]
pub enum RunState {
    NotStarted,
    /// The step at `next` is the one to perform.
    Running { next: usize },
    Completed,
    Failed,
}

/// What happened since the last decision.
#[derive(Debug, Clone, Copy, PartialEq, Eq, Structural)]
pub enum RunEvent {
    Start,
    /// The current step finished, successfully or not.
    Finished { success: bool },
}

/// The state after `event`, in a run of `steps` steps.
pub open spec fn next_state(state: RunState, event: RunEvent, steps: nat) -> RunState {
    match (state, event) {
        (RunState::NotStarted, RunEvent::Start) => if steps == 0 {
            RunState::Completed
        } else {
            RunState::Running { next: 0 }
        },
        (RunState::Running { next }, RunEvent::Finished { success }) => if !success {
            RunState::Failed
        } else if next + 1 >= steps {
            RunState::Completed
        } else {
            RunState::Running { next: (next + 1) as usize }
        },
        _ => state,
    }
}

/// Whether a state fits a run of `steps` steps.
pub open spec fn state_wf(state: RunState, steps: nat) -> bool {
    match state {
        RunState::Running { next } => next < steps,
        _ => true,
    }
}

/// Decides the next state of a run of `steps` steps.
pub fn advance(state: RunState, event: RunEvent, steps: usize) -> (r: RunState)
    requires
        state_wf(state, steps as nat),
    ensures
        r == next_state(state, event, steps as nat),
        state_wf(r, steps as nat),
{
    match (state, event) {
        (RunState::NotStarted, RunEvent::Start) => if steps == 0 {
            RunState::Completed
        } else {
            RunState::Running { next: 0 }
        },
        (RunState::Running { next }, RunEvent::Finished { success }) => if !success {
            RunState::Failed
        } else if next + 1 >= steps {
            RunState::Completed
        } else {
            RunState::Running { next: next + 1 }
        },
        _ => state,
    }
}

/// A finished run, completed or failed, stays as it is whatever happens.
pub proof fn lemma_terminal_states_stay(state: RunState, event: RunEvent, steps: nat)
    requires
        state == RunState::Completed || state == RunState::Failed,
    ensures
        next_state(state, event, steps) == state,
{
}

/// A failed step ends the run.
pub proof fn lemma_failure_stops(next: usize, steps: nat)
    ensures
        next_state(RunState::Running { next }, RunEvent::Finished { success: false }, steps)
            == RunState::Failed,
{
}

} // verus!
