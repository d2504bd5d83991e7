//! A small finite-state-machine library.
//!
//! The [`generic`] module holds the engine: a container for a current state,
//! a caller-owned context value, and a table that maps (state, event) pairs
//! to transition handlers, together with the dispatch algorithm that looks a
//! handler up and applies its response. The crate root wires that engine to a
//! sample telephone-call domain: concrete call states, call events, and the
//! transition table of a single call session.

pub mod generic;

use std::collections::HashMap;
use vstd::prelude::*;

verus! {

use crate::generic::Event;
use crate::generic::FixedTransition;
use crate::generic::State;
use crate::generic::Stateful;
use crate::generic::StateMachineError;

/// The states of one telephone call.
#[derive(Debug, Clone, Copy, PartialEq, Eq, Structural, Hash)]
pub enum CallState {
    Idle,
    Dialing,
    Ringing,
    Connected,
    Disconnected,
}

/// The inputs a call reacts to.
#[derive(Debug, Clone, Copy, PartialEq, Eq, Structural, Hash)]
pub enum CallEvent {
    Dial,
    Incoming,
    Answer,
    HangUp,
    Reset,
}

/// The errors call dispatch can surface.
#[derive(Debug)]
pub enum CallError {
    /// A handler declined the event in this state.
    UnexpectedEvent { state: CallState, event: CallEvent },
    /// No transition is wired for this (state, event) pair.
    TransitionNotFound { from: CallState, event: CallEvent },
}

impl State for CallState {
    fn eq_state(&self, other: &Self) -> (r: bool) {
        *self == *other
    }

    fn clone_state(&self) -> (r: Self) {
        *self
    }
}

impl Event for CallEvent {
    fn eq_event(&self, other: &Self) -> (r: bool) {
        *self == *other
    }

    fn clone_event(&self) -> (r: Self) {
        *self
    }
}

/// The wiring of a call session: the target state for each legal
/// (state, event) pair, and `None` for every other pair.
pub open spec fn call_transition(state: CallState, event: CallEvent) -> Option<CallState> {
    match (state, event) {
        (CallState::Idle, CallEvent::Dial) => Some(CallState::Dialing),
        (CallState::Idle, CallEvent::Incoming) => Some(CallState::Ringing),
        (CallState::Dialing, CallEvent::HangUp) => Some(CallState::Disconnected),
        (CallState::Ringing, CallEvent::HangUp) => Some(CallState::Disconnected),
        (CallState::Dialing, CallEvent::Answer) => Some(CallState::Connected),
        (CallState::Ringing, CallEvent::Answer) => Some(CallState::Connected),
        (CallState::Connected, CallEvent::HangUp) => Some(CallState::Disconnected),
        (CallState::Disconnected, CallEvent::Reset) => Some(CallState::Idle),
        _ => None,
    }
}

/// The transition table a call machine is built with, as a map.
spec fn call_table() -> Map<(CallState, CallEvent), FixedTransition<CallState, CallEvent>> {
    Map::empty().insert(
        (CallState::Idle, CallEvent::Dial),
        FixedTransition::MoveTo(CallState::Dialing),
    ).insert(
        (CallState::Idle, CallEvent::Incoming),
        FixedTransition::MoveTo(CallState::Ringing),
    ).insert(
        (CallState::Dialing, CallEvent::HangUp),
        FixedTransition::MoveTo(CallState::Disconnected),
    ).insert(
        (CallState::Ringing, CallEvent::HangUp),
        FixedTransition::MoveTo(CallState::Disconnected),
    ).insert(
        (CallState::Dialing, CallEvent::Answer),
        FixedTransition::MoveTo(CallState::Connected),
    ).insert(
        (CallState::Ringing, CallEvent::Answer),
        FixedTransition::MoveTo(CallState::Connected),
    ).insert(
        (CallState::Connected, CallEvent::HangUp),
        FixedTransition::MoveTo(CallState::Disconnected),
    ).insert(
        (CallState::Disconnected, CallEvent::Reset),
        FixedTransition::MoveTo(CallState::Idle),
    )
}

/// The built table holds exactly the pairs [`call_transition`] allows, each
/// bound to the move to its target state.
proof fn lemma_call_table_matches()
    ensures
        forall|s: CallState, e: CallEvent| #[trigger]
            call_transition(s, e) matches Some(target) ==> call_table().contains_key((s, e))
                && call_table()[(s, e)] == FixedTransition::<CallState, CallEvent>::MoveTo(target),
        forall|s: CallState, e: CallEvent| #[trigger]
            call_transition(s, e) is None ==> !call_table().contains_key((s, e)),
{
}

/// One telephone call, driven by the engine: it starts in
/// [`CallState::Idle`] with the sample table wired in, and a
/// string-keyed counter map as its context.
pub struct StateMachine {
    engine: generic::StateMachine<
        CallState,
        CallEvent,
        HashMap<String, usize>,
        FixedTransition<CallState, CallEvent>,
    >,
}

impl StateMachine {
    /// A call machine is always initialized and always carries the sample
    /// wiring.
    pub closed spec fn wf(&self) -> bool {
        self.engine.state() is Some && self.engine.table() == call_table()
    }

    /// The state the call is in.
    pub closed spec fn current(&self) -> CallState {
        self.engine.state()->0
    }

    /// A call machine at [`CallState::Idle`], with every legal transition of
    /// [`call_transition`] registered.
    pub fn new(context: HashMap<String, usize>) -> (machine: Self)
        ensures
            machine.wf(),
            machine.current() == CallState::Idle,
    {
        let mut engine = generic::StateMachine::new(CallState::Idle, context);
        engine.add_transition(
            CallState::Idle,
            CallEvent::Dial,
            FixedTransition::MoveTo(CallState::Dialing),
        );
        engine.add_transition(
            CallState::Idle,
            CallEvent::Incoming,
            FixedTransition::MoveTo(CallState::Ringing),
        );
        engine.add_transition(
            CallState::Dialing,
            CallEvent::HangUp,
            FixedTransition::MoveTo(CallState::Disconnected),
        );
        engine.add_transition(
            CallState::Ringing,
            CallEvent::HangUp,
            FixedTransition::MoveTo(CallState::Disconnected),
        );
        engine.add_transition(
            CallState::Dialing,
            CallEvent::Answer,
            FixedTransition::MoveTo(CallState::Connected),
        );
        engine.add_transition(
            CallState::Ringing,
            CallEvent::Answer,
            FixedTransition::MoveTo(CallState::Connected),
        );
        engine.add_transition(
            CallState::Connected,
            CallEvent::HangUp,
            FixedTransition::MoveTo(CallState::Disconnected),
        );
        engine.add_transition(
            CallState::Disconnected,
            CallEvent::Reset,
            FixedTransition::MoveTo(CallState::Idle),
        );
        StateMachine { engine }
    }

    /// Dispatch one event. Exactly the pairs [`call_transition`] allows
    /// succeed, and each moves the call to its target state; every other
    /// event fails with [`CallError::TransitionNotFound`] carrying the
    /// current state and the event, and leaves the state unchanged.
    pub fn handle_event(&mut self, event: &CallEvent) -> (outcome: Result<(), CallError>)
        requires
            old(self).wf(),
        ensures
            final(self).wf(),
            match call_transition(old(self).current(), *event) {
                Some(target) => outcome == Ok::<(), CallError>(()) && final(self).current()
                    == target,
                None => outcome == Err::<(), CallError>(
                    (CallError::TransitionNotFound { from: old(self).current(), event: *event }),
                ) && final(self).current() == old(self).current(),
            },
    {
        proof {
            lemma_call_table_matches();
        }
        match self.engine.handle_event(event) {
            Ok(_) => Ok(()),
            Err(StateMachineError::TransitionNotFound { from, event: offending }) => Err(
                CallError::TransitionNotFound { from, event: offending },
            ),
            Err(_) => unreached(),
        }
    }

    /// The state the call is in.
    pub fn get_current_state(&self) -> (current: &CallState)
        requires
            self.wf(),
        ensures
            *current == self.current(),
    {
        match self.engine.get_current_state() {
            Ok(state) => state,
            Err(_) => unreached(),
        }
    }

    /// Assign the call's state directly, leaving the wiring as it is.
    pub fn set_state(&mut self, state: CallState)
        requires
            old(self).wf(),
        ensures
            final(self).wf(),
            final(self).current() == state,
    {
        self.engine.set_state(state);
    }
}

} // verus!
