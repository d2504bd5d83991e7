//! The finite-state-machine engine.
//!
//! A [`StateMachine`] owns a current state (possibly still unassigned), a
//! caller-owned context value, and a transition table keyed by (state, event)
//! pairs. Dispatch is default-deny: an event is legal only where a handler
//! was registered for the pair of the current state and that event.

use vstd::prelude::*;

verus! {

/// The result a transition handler reports back to the engine.
#[derive(Debug)]
pub enum Response<S> {
    /// The event was consumed; the current state is kept.
    Handled,
    /// The handler declined the event. There is no state hierarchy to walk,
    /// so the engine turns this into [`StateMachineError::UnexpectedEvent`].
    Super,
    /// The event was consumed; the current state is replaced by the payload.
    Transition(S),
}

/// The errors dispatch can surface. A handler may also raise any value of
/// this type itself; such an error is passed through unchanged.
#[derive(Debug)]
pub enum StateMachineError<S, E> {
    /// Dispatch was attempted before any state was assigned.
    UninitializedMachine,
    /// A handler was found but declined the event ([`Response::Super`]).
    /// `state` is the state that was current before the handler ran.
    UnexpectedEvent { state: S, event: E },
    /// No handler is registered for the pair of `from` and `event`.
    TransitionNotFound { from: S, event: E },
}

/// A state alphabet. A state is half of a transition-table key, so the
/// engine must compare states; it also hands copies of states out, so it
/// must duplicate them. Both operations have to agree with mathematical
/// equality on the type.
pub trait State: Sized {
    /// Equality test used for transition-table lookup.
    fn eq_state(&self, other: &Self) -> (r: bool)
        ensures
            r <==> (*self == *other),
    ;

    /// An exact copy of the state.
    fn clone_state(&self) -> (r: Self)
        ensures
            r == *self,
    ;
}

/// An event alphabet, under the same constraints as [`State`].
pub trait Event: Sized {
    /// Equality test used for transition-table lookup.
    fn eq_event(&self, other: &Self) -> (r: bool)
        ensures
            r <==> (*self == *other),
    ;

    /// An exact copy of the event.
    fn clone_event(&self) -> (r: Self)
        ensures
            r == *self,
    ;
}

/// A transition handler: the callable bound to one (state, event) pair.
///
/// A handler receives read-write access to the machine's context and the
/// triggering event, and reports a [`Response`] or raises an error. State
/// changes never happen inside a handler; they are requested through
/// [`Response::Transition`] and applied by the engine after the handler has
/// returned.
pub trait Transition<S, E, C>: Sized {
    /// The handler's observable behaviour: which outcomes the handler may
    /// report for a given context and event, and how it may rewrite the
    /// context. Arbitrary handler logic is admitted by making this true of
    /// several (or all) outcomes.
    spec fn handles(
        &self,
        context_before: C,
        event: E,
        outcome: Result<Response<S>, StateMachineError<S, E>>,
        context_after: C,
    ) -> bool;

    /// Run the handler.
    fn call(&self, context: &mut C, event: &E) -> (outcome: Result<
        Response<S>,
        StateMachineError<S, E>,
    >)
        ensures
            self.handles(*old(context), *event, outcome, *final(context)),
    ;
}

/// True where `entry` is keyed by exactly this state and event.
spec fn entry_matches<S, E, H>(entry: (S, E, H), state: S, event: E) -> bool {
    entry.0 == state && entry.1 == event
}

/// The mapping a registration sequence denotes: later entries shadow earlier
/// ones with the same (state, event) key.
spec fn table_of<S, E, H>(entries: Seq<(S, E, H)>) -> Map<(S, E), H>
    decreases entries.len(),
{
    if entries.len() == 0 {
        Map::empty()
    } else {
        table_of(entries.drop_last()).insert(
            (entries.last().0, entries.last().1),
            entries.last().2,
        )
    }
}

/// Where no entry carries the key, the denoted table has no such key.
proof fn lemma_table_of_missing<S, E, H>(entries: Seq<(S, E, H)>, state: S, event: E)
    requires
        forall|j: int|
            0 <= j < entries.len() ==> !entry_matches(#[trigger] entries[j], state, event),
    ensures
        !table_of(entries).contains_key((state, event)),
    decreases entries.len(),
{
    if entries.len() > 0 {
        let prefix = entries.drop_last();
        assert forall|j: int|
            0 <= j < prefix.len() implies !entry_matches(
            #[trigger] prefix[j],
            state,
            event,
        ) by {
            assert(prefix[j] == entries[j]);
        }
        lemma_table_of_missing(prefix, state, event);
        assert(!entry_matches(entries[entries.len() - 1], state, event));
    }
}

/// The entry at the latest index carrying the key gives the table's value.
proof fn lemma_table_of_found<S, E, H>(entries: Seq<(S, E, H)>, state: S, event: E, index: int)
    requires
        0 <= index < entries.len(),
        entry_matches(entries[index], state, event),
        forall|j: int|
            index < j < entries.len() ==> !entry_matches(#[trigger] entries[j], state, event),
    ensures
        table_of(entries).contains_key((state, event)),
        table_of(entries)[(state, event)] == entries[index].2,
    decreases entries.len(),
{
    let prefix = entries.drop_last();
    if index == entries.len() - 1 {
        assert((entries.last().0, entries.last().1) == (state, event));
    } else {
        assert(!entry_matches(entries[entries.len() - 1], state, event));
        assert forall|j: int|
            index < j < prefix.len() implies !entry_matches(
            #[trigger] prefix[j],
            state,
            event,
        ) by {
            assert(prefix[j] == entries[j]);
        }
        assert(entry_matches(prefix[index], state, event)) by {
            assert(prefix[index] == entries[index]);
        }
        lemma_table_of_found(prefix, state, event, index);
        assert((entries.last().0, entries.last().1) != (state, event));
    }
}

/// The engine. `S` and `E` form the transition-table key alphabet; `C` is
/// the caller's context, opaque to the engine; `H` is the handler type
/// shared by all registered transitions.
///
/// The machine is single-threaded and synchronous: dispatch runs a handler
/// to completion before returning, and an instance shared across threads
/// needs external mutual exclusion.
pub struct StateMachine<S, E, C, H> where S: State, E: Event, H: Transition<S, E, C> {
    current_state: Option<S>,
    context: C,
    transitions: Vec<(S, E, H)>,
}

impl<S, E, C, H> StateMachine<S, E, C, H> where S: State, E: Event, H: Transition<S, E, C> {
    /// The current state, or `None` while the machine is uninitialized.
    pub closed spec fn state(&self) -> Option<S> {
        self.current_state
    }

    /// The registered transition table. Registering a pair twice keeps only
    /// the later handler.
    pub closed spec fn table(&self) -> Map<(S, E), H> {
        table_of(self.transitions@)
    }

    /// The context value the machine currently holds.
    pub closed spec fn ctx(&self) -> C {
        self.context
    }

    /// A machine that starts in `initial_state`, with an empty transition
    /// table.
    pub fn new(initial_state: S, context: C) -> (machine: Self)
        ensures
            machine.state() == Some(initial_state),
            machine.table() == Map::<(S, E), H>::empty(),
            machine.ctx() == context,
    {
        StateMachine { current_state: Some(initial_state), context, transitions: Vec::new() }
    }

    /// A machine with no state assigned yet. Dispatch fails with
    /// [`StateMachineError::UninitializedMachine`] until [`Self::set_state`]
    /// commits a first state.
    pub fn new_uninitialized(context: C) -> (machine: Self)
        ensures
            machine.state() is None,
            machine.table() == Map::<(S, E), H>::empty(),
            machine.ctx() == context,
    {
        StateMachine { current_state: None, context, transitions: Vec::new() }
    }

    /// Assign the current state directly. On an uninitialized machine this
    /// is the assignment that makes dispatch legal; the machine never
    /// reverts to the uninitialized condition afterwards.
    pub fn set_state(&mut self, state: S)
        ensures
            final(self).state() == Some(state),
            final(self).table() == old(self).table(),
            final(self).ctx() == old(self).ctx(),
    {
        self.current_state = Some(state);
    }

    /// Register `handler` for the pair `(from, event)`, replacing a handler
    /// registered for the same pair earlier.
    pub fn add_transition(&mut self, from: S, event: E, handler: H)
        ensures
            final(self).table() == old(self).table().insert((from, event), handler),
            final(self).state() == old(self).state(),
            final(self).ctx() == old(self).ctx(),
    {
        self.transitions.push((from, event, handler));
        proof {
            assert(self.transitions@.drop_last() =~= old(self).transitions@);
        }
    }

    /// The current state, or the uninitialized error where no state was
    /// ever assigned.
    pub fn get_current_state(&self) -> (current: Result<&S, StateMachineError<S, E>>)
        ensures
            match current {
                Ok(state) => self.state() == Some(*state),
                Err(error) => self.state() is None && error == StateMachineError::<
                    S,
                    E,
                >::UninitializedMachine,
            },
    {
        match &self.current_state {
            Some(state) => Ok(state),
            None => Err(StateMachineError::UninitializedMachine),
        }
    }

    /// Read access to the context.
    pub fn get_context(&self) -> (context: &C)
        ensures
            *context == self.ctx(),
    {
        &self.context
    }

    /// Read-write access to the context. The engine never inspects the
    /// context; whatever the caller writes through the returned reference
    /// is what the machine holds afterwards.
    pub fn get_context_mut(&mut self) -> (context: &mut C)
        ensures
            *context == old(self).ctx(),
            final(self).ctx() == *final(context),
            final(self).state() == old(self).state(),
            final(self).table() == old(self).table(),
    {
        &mut self.context
    }

    /// The index of the registration that governs `(state, event)`: the
    /// latest entry with that key, or `None` where no entry has it.
    fn find_latest(&self, state: &S, event: &E) -> (found: Option<usize>)
        ensures
            match found {
                Some(index) => index < self.transitions@.len() && entry_matches(
                    self.transitions@[index as int],
                    *state,
                    *event,
                ) && forall|j: int|
                    index < j < self.transitions@.len() ==> !entry_matches(
                        #[trigger] self.transitions@[j],
                        *state,
                        *event,
                    ),
                None => forall|j: int|
                    0 <= j < self.transitions@.len() ==> !entry_matches(
                        #[trigger] self.transitions@[j],
                        *state,
                        *event,
                    ),
            },
    {
        let mut found: Option<usize> = None;
        let mut index: usize = 0;
        while index < self.transitions.len()
            invariant
                index <= self.transitions@.len(),
                match found {
                    Some(k) => k < index && entry_matches(
                        self.transitions@[k as int],
                        *state,
                        *event,
                    ) && forall|j: int|
                        k < j < index ==> !entry_matches(
                            #[trigger] self.transitions@[j],
                            *state,
                            *event,
                        ),
                    None => forall|j: int|
                        0 <= j < index ==> !entry_matches(
                            #[trigger] self.transitions@[j],
                            *state,
                            *event,
                        ),
                },
            decreases self.transitions@.len() - index,
        {
            let entry = &self.transitions[index];
            if entry.0.eq_state(state) && entry.1.eq_event(event) {
                found = Some(index);
            }
            index += 1;
        }
        found
    }
}

/// What an event-driven machine offers its surroundings: lifecycle hooks for
/// observability and one dispatch entry point.
pub trait Stateful<S, C, E> {
    /// Hook run after a successful state change. Observability only: it can
    /// neither fail nor affect control flow.
    fn on_enter(&self, event: &E);

    /// Dispatch one event.
    fn handle_event(&mut self, event: &E) -> Result<Response<S>, StateMachineError<S, E>>;

    /// Hook run before a looked-up handler is invoked. Observability only:
    /// it can neither fail nor affect control flow.
    fn on_exit(&self);
}

impl<S, E, C, H> Stateful<S, C, E> for StateMachine<S, E, C, H> where
    S: State,
    E: Event,
    H: Transition<S, E, C>,
 {
    /// This engine injects no tracing sink, so the hook observes nothing.
    fn on_enter(&self, _event: &E) {
    }

    /// This engine injects no tracing sink, so the hook observes nothing.
    fn on_exit(&self) {
    }

    /// Dispatch `event` against the current state.
    ///
    /// Where no state was ever assigned, dispatch fails with
    /// [`StateMachineError::UninitializedMachine`] and changes nothing; the
    /// transition table is not consulted. Where no handler is registered for
    /// the pair of the current state and `event`, dispatch fails with
    /// [`StateMachineError::TransitionNotFound`] carrying that pair, and
    /// changes nothing. Otherwise exactly the registered handler runs, on the
    /// context and the event, and its result decides the outcome:
    ///
    /// - [`Response::Handled`]: the state is kept and the response returned;
    /// - [`Response::Transition`]: the state is replaced by the response's
    ///   payload and the response returned;
    /// - [`Response::Super`]: the state is kept and dispatch fails with
    ///   [`StateMachineError::UnexpectedEvent`] carrying the state that was
    ///   current before the handler ran;
    /// - an error raised by the handler propagates unchanged, and the state
    ///   is kept.
    ///
    /// The table is never changed by dispatch, and on every failure path the
    /// state is exactly what it was before the call.
    fn handle_event(&mut self, event: &E) -> (outcome: Result<
        Response<S>,
        StateMachineError<S, E>,
    >)
        ensures
            final(self).table() == old(self).table(),
            old(self).state() is None ==> outcome == Err::<Response<S>, StateMachineError<S, E>>(
                StateMachineError::UninitializedMachine,
            ) && final(self).state() == old(self).state() && final(self).ctx() == old(self).ctx(),
            old(self).state() is Some ==> {
                let source = old(self).state()->0;
                let key = (source, *event);
                &&& !old(self).table().contains_key(key) ==> outcome == Err::<
                    Response<S>,
                    StateMachineError<S, E>,
                >((StateMachineError::TransitionNotFound { from: source, event: *event }))
                    && final(self).state() == old(self).state() && final(self).ctx() == old(
                    self,
                ).ctx()
                &&& old(self).table().contains_key(key) ==> {
                    let handler = old(self).table()[key];
                    match outcome {
                        Ok(Response::Handled) => final(self).state() == old(self).state()
                            && handler.handles(
                            old(self).ctx(),
                            *event,
                            Ok(Response::Handled),
                            final(self).ctx(),
                        ),
                        Ok(Response::Transition(target)) => final(self).state() == Some(target)
                            && handler.handles(
                            old(self).ctx(),
                            *event,
                            Ok(Response::Transition(target)),
                            final(self).ctx(),
                        ),
                        Ok(Response::Super) => false,
                        Err(error) => final(self).state() == old(self).state() && ((error == (
                        StateMachineError::UnexpectedEvent { state: source, event: *event })
                            && handler.handles(
                            old(self).ctx(),
                            *event,
                            Ok(Response::Super),
                            final(self).ctx(),
                        )) || handler.handles(old(self).ctx(), *event, Err(error), final(self).ctx())),
                    }
                }
            },
    {
        let source = match &self.current_state {
            Some(state) => state.clone_state(),
            None => {
                return Err(StateMachineError::UninitializedMachine);
            },
        };
        let found = self.find_latest(&source, event);
        match found {
            None => {
                proof {
                    lemma_table_of_missing(self.transitions@, source, *event);
                }
                Err(StateMachineError::TransitionNotFound {
                    from: source,
                    event: event.clone_event(),
                })
            },
            Some(index) => {
                proof {
                    lemma_table_of_found(self.transitions@, source, *event, index as int);
                }
                self.on_exit();
                let handler = &self.transitions[index].2;
                let result = handler.call(&mut self.context, event);
                match result {
                    Ok(Response::Handled) => Ok(Response::Handled),
                    Ok(Response::Transition(target)) => {
                        self.current_state = Some(target.clone_state());
                        self.on_enter(event);
                        Ok(Response::Transition(target))
                    },
                    Ok(Response::Super) => Err(StateMachineError::UnexpectedEvent {
                        state: source,
                        event: event.clone_event(),
                    }),
                    Err(error) => Err(error),
                }
            },
        }
    }
}

/// A transition whose outcome is fixed at registration time: it leaves the
/// context untouched and reports the stored response, or raises the stored
/// error.
pub enum FixedTransition<S, E> {
    /// Consume the event and keep the current state.
    Handle,
    /// Decline the event ([`Response::Super`]).
    Decline,
    /// Consume the event and move to the stored state.
    MoveTo(S),
    /// Raise the stored error.
    Fail(StateMachineError<S, E>),
}

impl<S, E, C> Transition<S, E, C> for FixedTransition<S, E> where S: State, E: Event {
    open spec fn handles(
        &self,
        context_before: C,
        event: E,
        outcome: Result<Response<S>, StateMachineError<S, E>>,
        context_after: C,
    ) -> bool {
        context_after == context_before && match self {
            FixedTransition::Handle => outcome == Ok::<Response<S>, StateMachineError<S, E>>(
                Response::Handled,
            ),
            FixedTransition::Decline => outcome == Ok::<Response<S>, StateMachineError<S, E>>(
                Response::Super,
            ),
            FixedTransition::MoveTo(target) => outcome == Ok::<Response<S>, StateMachineError<S, E>>(
                Response::Transition(*target),
            ),
            FixedTransition::Fail(error) => outcome == Err::<Response<S>, StateMachineError<S, E>>(
                *error,
            ),
        }
    }

    fn call(&self, _context: &mut C, _event: &E) -> (outcome: Result<
        Response<S>,
        StateMachineError<S, E>,
    >) {
        match self {
            FixedTransition::Handle => Ok(Response::Handled),
            FixedTransition::Decline => Ok(Response::Super),
            FixedTransition::MoveTo(target) => Ok(Response::Transition(target.clone_state())),
            FixedTransition::Fail(error) => Err(clone_error(error)),
        }
    }
}

/// An exact copy of a dispatch error.
fn clone_error<S: State, E: Event>(error: &StateMachineError<S, E>) -> (duplicate:
    StateMachineError<S, E>)
    ensures
        duplicate == *error,
{
    match error {
        StateMachineError::UninitializedMachine => StateMachineError::UninitializedMachine,
        StateMachineError::UnexpectedEvent { state, event } => StateMachineError::UnexpectedEvent {
            state: state.clone_state(),
            event: event.clone_event(),
        },
        StateMachineError::TransitionNotFound { from, event } => StateMachineError::TransitionNotFound {
            from: from.clone_state(),
            event: event.clone_event(),
        },
    }
}

/// Lookup is governed by the latest registration: registering the same
/// (state, event) pair twice keeps only the second handler, whatever was
/// registered first.
pub proof fn lemma_registration_overwrites<S, E, H>(
    table: Map<(S, E), H>,
    key: (S, E),
    first: H,
    second: H,
)
    ensures
        table.insert(key, first).insert(key, second) == table.insert(key, second),
{
    assert(table.insert(key, first).insert(key, second) =~= table.insert(key, second));
}

} // verus!
