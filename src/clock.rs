//! Pause/step controller for the simulation clock.
//!
//! The controller is a pure state machine: each input event maps the current
//! run state to a new run state and an action for the clock to perform.
use vstd::prelude::*;

verus! {

/// Clock step in milliseconds when the modifier key is held.
pub const FINE_STEP_MS: u64 = 10;

/// Clock step in milliseconds without the modifier key.
pub const COARSE_STEP_MS: u64 = 100;

/// Run state of the simulation clock.
#[derive(Clone, Copy, Debug, PartialEq, Eq, Structural)]
pub enum ClockState {
    Paused,
    Running,
}

/// A discrete, edge-triggered input event.
#[derive(Clone, Copy, Debug, PartialEq, Eq, Structural)]
pub enum ClockEvent {
    /// Flip between paused and running.
    TogglePressed,
    /// Advance a paused clock by one quantum; `modifier` selects the fine quantum.
    StepPressed { modifier: bool },
}

/// What the simulation clock must do in response to an event.
#[derive(Clone, Copy, Debug, PartialEq, Eq, Structural)]
pub enum ClockAction {
    /// Nothing changes.
    Nothing,
    /// Stop advancing simulation time.
    Pause,
    /// Resume advancing simulation time.
    Unpause,
    /// Advance simulation time by the given number of milliseconds, staying paused.
    AdvanceMs(u64),
}

impl ClockState {
    /// The state the controller starts in: paused, so the scene can be
    /// inspected before anything moves.
    pub fn initial() -> (r: ClockState)
        ensures
            r == ClockState::Paused,
    {
        ClockState::Paused
    }

    pub fn is_paused(&self) -> (r: bool)
        ensures
            r == (*self == ClockState::Paused),
    {
        match self {
            ClockState::Paused => true,
            ClockState::Running => false,
        }
    }
}

/// The quantum of one step, in milliseconds.
pub open spec fn quantum_ms(modifier: bool) -> u64 {
    if modifier {
        FINE_STEP_MS
    } else {
        COARSE_STEP_MS
    }
}

/// The state and action that follow `state` on `event`.
pub open spec fn next(state: ClockState, event: ClockEvent) -> (ClockState, ClockAction) {
    match event {
        ClockEvent::TogglePressed => match state {
            ClockState::Paused => (ClockState::Running, ClockAction::Unpause),
            ClockState::Running => (ClockState::Paused, ClockAction::Pause),
        },
        ClockEvent::StepPressed { modifier } => match state {
            ClockState::Paused => (ClockState::Paused, ClockAction::AdvanceMs(quantum_ms(modifier))),
            ClockState::Running => (ClockState::Running, ClockAction::Nothing),
        },
    }
}

/// Simulated milliseconds that an action advances the clock by on its own.
pub open spec fn advanced_ms(action: ClockAction) -> nat {
    match action {
        ClockAction::AdvanceMs(ms) => ms as nat,
        _ => 0,
    }
}

/// Length of one step: the fine quantum with the modifier, the coarse one without.
pub fn step_quantum_ms(modifier: bool) -> (r: u64)
    ensures
        r == quantum_ms(modifier),
        modifier ==> r == 10,
        !modifier ==> r == 100,
{
    if modifier {
        FINE_STEP_MS
    } else {
        COARSE_STEP_MS
    }
}

/// Feeds one input event to the controller.
pub fn transition(state: ClockState, event: ClockEvent) -> (r: (ClockState, ClockAction))
    ensures
        r == next(state, event),
{
    match event {
        ClockEvent::TogglePressed => match state {
            ClockState::Paused => (ClockState::Running, ClockAction::Unpause),
            ClockState::Running => (ClockState::Paused, ClockAction::Pause),
        },
        ClockEvent::StepPressed { modifier } => match state {
            ClockState::Paused => (ClockState::Paused, ClockAction::AdvanceMs(step_quantum_ms(modifier))),
            ClockState::Running => (ClockState::Running, ClockAction::Nothing),
        },
    }
}

/// Toggling twice returns the clock to the state it started in.
pub proof fn lemma_toggle_twice(state: ClockState)
    ensures
        next(next(state, ClockEvent::TogglePressed).0, ClockEvent::TogglePressed).0 == state,
{
}

/// Stepping a running clock changes nothing: the state stays and no action follows.
pub proof fn lemma_step_while_running(modifier: bool)
    ensures
        next(ClockState::Running, ClockEvent::StepPressed { modifier }) == (
        ClockState::Running,
        ClockAction::Nothing,
        ),
        advanced_ms(next(ClockState::Running, ClockEvent::StepPressed { modifier }).1) == 0,
{
}

/// Stepping a paused clock keeps it paused and advances it by exactly 10 ms
/// with the modifier held, 100 ms without.
pub proof fn lemma_step_while_paused(modifier: bool)
    ensures
        next(ClockState::Paused, ClockEvent::StepPressed { modifier }).0 == ClockState::Paused,
        advanced_ms(next(ClockState::Paused, ClockEvent::StepPressed { modifier }).1) == if modifier {
            10nat
        } else {
            100nat
        },
{
}

} // verus!
