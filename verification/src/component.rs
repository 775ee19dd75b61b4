//! The component lifecycle state machine. Every addressable unit (actor,
//! strategy, execution client, data client) carries one of these states; a
//! trigger either moves it along the table or is refused with an error —
//! an illegal trigger never changes the state.

use vstd::prelude::*;

verus! {

/// The lifecycle state of a component.
#[derive(Clone, Copy, Debug, PartialEq, Eq, Structural, Hash)]
pub enum ComponentState {
    Initialized,
    Starting,
    Running,
    Stopping,
    Stopped,
    Resuming,
    Degrading,
    Degraded,
    Faulting,
    Faulted,
    Disposed,
}

/// A named trigger asking a component to move along its lifecycle.
#[derive(Clone, Copy, Debug, PartialEq, Eq, Structural, Hash)]
pub enum ComponentTrigger {
    Start,
    StartCompleted,
    Stop,
    StopCompleted,
    Resume,
    ResumeCompleted,
    Degrade,
    DegradeCompleted,
    Fault,
    FaultCompleted,
    Dispose,
}

/// An illegal lifecycle transition.
#[derive(Clone, Copy, Debug, PartialEq, Eq, Structural)]
pub enum TransitionError {
    /// The current state does not accept the trigger.
    InvalidTransition,
}

/// The transition table. `Disposed` and `Faulted` are absorbing: no trigger
/// leaves them.
pub open spec fn transition_spec(s: ComponentState, t: ComponentTrigger) -> Option<
    ComponentState,
> {
    match (s, t) {
        (ComponentState::Initialized, ComponentTrigger::Start) => Some(ComponentState::Starting),
        (ComponentState::Initialized, ComponentTrigger::Dispose) => Some(ComponentState::Disposed),
        (ComponentState::Initialized, ComponentTrigger::Fault) => Some(ComponentState::Faulting),
        (ComponentState::Starting, ComponentTrigger::StartCompleted) => Some(
            ComponentState::Running,
        ),
        (ComponentState::Starting, ComponentTrigger::Stop) => Some(ComponentState::Stopping),
        (ComponentState::Starting, ComponentTrigger::Fault) => Some(ComponentState::Faulting),
        (ComponentState::Running, ComponentTrigger::Stop) => Some(ComponentState::Stopping),
        (ComponentState::Running, ComponentTrigger::Degrade) => Some(ComponentState::Degrading),
        (ComponentState::Running, ComponentTrigger::Fault) => Some(ComponentState::Faulting),
        (ComponentState::Stopping, ComponentTrigger::StopCompleted) => Some(
            ComponentState::Stopped,
        ),
        (ComponentState::Stopping, ComponentTrigger::Fault) => Some(ComponentState::Faulting),
        (ComponentState::Stopped, ComponentTrigger::Resume) => Some(ComponentState::Resuming),
        (ComponentState::Stopped, ComponentTrigger::Dispose) => Some(ComponentState::Disposed),
        (ComponentState::Stopped, ComponentTrigger::Fault) => Some(ComponentState::Faulting),
        (ComponentState::Resuming, ComponentTrigger::ResumeCompleted) => Some(
            ComponentState::Running,
        ),
        (ComponentState::Resuming, ComponentTrigger::Fault) => Some(ComponentState::Faulting),
        (ComponentState::Degrading, ComponentTrigger::DegradeCompleted) => Some(
            ComponentState::Degraded,
        ),
        (ComponentState::Degrading, ComponentTrigger::Fault) => Some(ComponentState::Faulting),
        (ComponentState::Degraded, ComponentTrigger::Resume) => Some(ComponentState::Resuming),
        (ComponentState::Degraded, ComponentTrigger::Stop) => Some(ComponentState::Stopping),
        (ComponentState::Degraded, ComponentTrigger::Fault) => Some(ComponentState::Faulting),
        (ComponentState::Faulting, ComponentTrigger::FaultCompleted) => Some(
            ComponentState::Faulted,
        ),
        _ => None,
    }
}

impl ComponentState {
    /// Applies a trigger: the new state per the table, or an error — and no
    /// silent no-op — where the trigger is illegal here.
    pub fn transition(self, trigger: ComponentTrigger) -> (r: Result<
        ComponentState,
        TransitionError,
    >)
        ensures
            match r {
                Ok(ns) => transition_spec(self, trigger) == Some(ns),
                Err(e) => {
                    &&& e == TransitionError::InvalidTransition
                    &&& transition_spec(self, trigger) is None
                },
            },
    {
        let next = match (self, trigger) {
            (ComponentState::Initialized, ComponentTrigger::Start) => Some(
                ComponentState::Starting,
            ),
            (ComponentState::Initialized, ComponentTrigger::Dispose) => Some(
                ComponentState::Disposed,
            ),
            (ComponentState::Initialized, ComponentTrigger::Fault) => Some(
                ComponentState::Faulting,
            ),
            (ComponentState::Starting, ComponentTrigger::StartCompleted) => Some(
                ComponentState::Running,
            ),
            (ComponentState::Starting, ComponentTrigger::Stop) => Some(ComponentState::Stopping),
            (ComponentState::Starting, ComponentTrigger::Fault) => Some(ComponentState::Faulting),
            (ComponentState::Running, ComponentTrigger::Stop) => Some(ComponentState::Stopping),
            (ComponentState::Running, ComponentTrigger::Degrade) => Some(
                ComponentState::Degrading,
            ),
            (ComponentState::Running, ComponentTrigger::Fault) => Some(ComponentState::Faulting),
            (ComponentState::Stopping, ComponentTrigger::StopCompleted) => Some(
                ComponentState::Stopped,
            ),
            (ComponentState::Stopping, ComponentTrigger::Fault) => Some(ComponentState::Faulting),
            (ComponentState::Stopped, ComponentTrigger::Resume) => Some(ComponentState::Resuming),
            (ComponentState::Stopped, ComponentTrigger::Dispose) => Some(ComponentState::Disposed),
            (ComponentState::Stopped, ComponentTrigger::Fault) => Some(ComponentState::Faulting),
            (ComponentState::Resuming, ComponentTrigger::ResumeCompleted) => Some(
                ComponentState::Running,
            ),
            (ComponentState::Resuming, ComponentTrigger::Fault) => Some(ComponentState::Faulting),
            (ComponentState::Degrading, ComponentTrigger::DegradeCompleted) => Some(
                ComponentState::Degraded,
            ),
            (ComponentState::Degrading, ComponentTrigger::Fault) => Some(ComponentState::Faulting),
            (ComponentState::Degraded, ComponentTrigger::Resume) => Some(ComponentState::Resuming),
            (ComponentState::Degraded, ComponentTrigger::Stop) => Some(ComponentState::Stopping),
            (ComponentState::Degraded, ComponentTrigger::Fault) => Some(ComponentState::Faulting),
            (ComponentState::Faulting, ComponentTrigger::FaultCompleted) => Some(
                ComponentState::Faulted,
            ),
            _ => None,
        };
        match next {
            Some(ns) => Ok(ns),
            None => Err(TransitionError::InvalidTransition),
        }
    }
}

impl Default for ComponentState {
    /// A component starts its life initialized.
    fn default() -> (r: Self)
        ensures
            r == ComponentState::Initialized,
    {
        ComponentState::Initialized
    }
}

/// The terminal states accept no trigger at all: once disposed or faulted, a
/// component never moves again.
pub proof fn lemma_terminal_states_absorbing(t: ComponentTrigger)
    ensures
        transition_spec(ComponentState::Disposed, t) is None,
        transition_spec(ComponentState::Faulted, t) is None,
{
}

} // verus!
