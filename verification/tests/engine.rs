use std::collections::HashMap;

use fsm::generic::{FixedTransition, Response, StateMachine, StateMachineError, Stateful};
use fsm::{CallEvent, CallState};

type Engine =
    StateMachine<CallState, CallEvent, HashMap<String, usize>, FixedTransition<CallState, CallEvent>>;

#[test]
fn unregistered_pair_is_rejected() {
    let mut machine: Engine = StateMachine::new(CallState::Idle, HashMap::new());
    machine.add_transition(
        CallState::Idle,
        CallEvent::Dial,
        FixedTransition::MoveTo(CallState::Dialing),
    );

    let result = machine.handle_event(&CallEvent::Answer);
    assert!(matches!(
        result,
        Err(StateMachineError::TransitionNotFound {
            from: CallState::Idle,
            event: CallEvent::Answer
        })
    ));
    assert_eq!(machine.get_current_state().unwrap(), &CallState::Idle);
}

#[test]
fn transition_response_moves_state() {
    let mut machine: Engine = StateMachine::new(CallState::Idle, HashMap::new());
    machine.add_transition(
        CallState::Idle,
        CallEvent::Dial,
        FixedTransition::MoveTo(CallState::Dialing),
    );

    let result = machine.handle_event(&CallEvent::Dial);
    assert!(matches!(result, Ok(Response::Transition(CallState::Dialing))));
    assert_eq!(machine.get_current_state().unwrap(), &CallState::Dialing);
}

#[test]
fn handled_response_keeps_state() {
    let mut machine: Engine = StateMachine::new(CallState::Connected, HashMap::new());
    machine.add_transition(CallState::Connected, CallEvent::Incoming, FixedTransition::Handle);

    let result = machine.handle_event(&CallEvent::Incoming);
    assert!(matches!(result, Ok(Response::Handled)));
    assert_eq!(machine.get_current_state().unwrap(), &CallState::Connected);
}

#[test]
fn declined_event_is_unexpected() {
    let mut machine: Engine = StateMachine::new(CallState::Idle, HashMap::new());
    machine.add_transition(CallState::Idle, CallEvent::Reset, FixedTransition::Decline);

    let result = machine.handle_event(&CallEvent::Reset);
    assert!(matches!(
        result,
        Err(StateMachineError::UnexpectedEvent { state: CallState::Idle, event: CallEvent::Reset })
    ));
    assert_eq!(machine.get_current_state().unwrap(), &CallState::Idle);
}

#[test]
fn second_registration_wins() {
    let mut machine: Engine = StateMachine::new(CallState::Idle, HashMap::new());
    machine.add_transition(
        CallState::Idle,
        CallEvent::Dial,
        FixedTransition::MoveTo(CallState::Dialing),
    );
    machine.add_transition(
        CallState::Idle,
        CallEvent::Dial,
        FixedTransition::MoveTo(CallState::Ringing),
    );

    let result = machine.handle_event(&CallEvent::Dial);
    assert!(matches!(result, Ok(Response::Transition(CallState::Ringing))));
    assert_eq!(machine.get_current_state().unwrap(), &CallState::Ringing);
}

#[test]
fn uninitialized_machine_rejects_events() {
    let mut machine: Engine = StateMachine::new_uninitialized(HashMap::new());
    machine.add_transition(
        CallState::Idle,
        CallEvent::Dial,
        FixedTransition::MoveTo(CallState::Dialing),
    );

    let result = machine.handle_event(&CallEvent::Dial);
    assert!(matches!(result, Err(StateMachineError::UninitializedMachine)));
    assert!(matches!(
        machine.get_current_state(),
        Err(StateMachineError::UninitializedMachine)
    ));
}

#[test]
fn set_state_initializes_machine() {
    let mut machine: Engine = StateMachine::new_uninitialized(HashMap::new());
    machine.add_transition(
        CallState::Idle,
        CallEvent::Dial,
        FixedTransition::MoveTo(CallState::Dialing),
    );

    machine.set_state(CallState::Idle);
    assert_eq!(machine.get_current_state().unwrap(), &CallState::Idle);

    let result = machine.handle_event(&CallEvent::Dial);
    assert!(matches!(result, Ok(Response::Transition(CallState::Dialing))));
    assert_eq!(machine.get_current_state().unwrap(), &CallState::Dialing);
}

#[test]
fn handler_error_propagates_unchanged() {
    let mut machine: Engine = StateMachine::new(CallState::Idle, HashMap::new());
    machine.add_transition(
        CallState::Idle,
        CallEvent::HangUp,
        FixedTransition::Fail(StateMachineError::UnexpectedEvent {
            state: CallState::Disconnected,
            event: CallEvent::Reset,
        }),
    );

    let result = machine.handle_event(&CallEvent::HangUp);
    assert!(matches!(
        result,
        Err(StateMachineError::UnexpectedEvent {
            state: CallState::Disconnected,
            event: CallEvent::Reset
        })
    ));
    assert_eq!(machine.get_current_state().unwrap(), &CallState::Idle);
}

#[test]
fn context_is_caller_writable() {
    let mut machine: Engine = StateMachine::new(CallState::Idle, HashMap::new());
    machine.get_context_mut().insert(String::from("answered"), 2);

    assert_eq!(machine.get_context().get("answered"), Some(&2));
    assert_eq!(machine.get_context().get("dialed"), None);
}
