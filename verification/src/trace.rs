//! A record of the calls that a machine makes. Wrapped in the types of this
//! module, any states, events and computations note each call of a hook or
//! a computation in the context, so that the order of the protocol can be
//! read off what a machine has done.

use crate::dispatch::{DispatchTable, Resolved};
use crate::event_driven::{handled, runs, EventTrait, StateTrait, Steps, Transitions};
use vstd::prelude::*;

verus! {

/// A call that a machine makes while it handles an event. `should_exit` is
/// not among them: it cannot change the context, and so cannot note its
/// call there.
#[derive(Clone, Copy, Debug, PartialEq, Eq)]
pub enum Call {
    OnExit,
    PreTransition,
    /// The explicit block of the table entry at this position.
    Block(usize),
    CatchAll,
    PostTransition,
    OnEnter,
}

/// A context, and the calls made on it so far.
#[derive(Debug)]
pub struct Recorded<C> {
    pub context: C,
    pub calls: Vec<Call>,
}

/// An event whose hooks note their calls.
#[derive(Debug)]
pub struct RecordedEvent<E> {
    pub event: E,
}

/// A state whose hooks note their calls.
#[derive(Debug)]
pub struct RecordedState<S> {
    pub state: S,
}

/// Computations that note their calls.
#[derive(Debug)]
pub struct RecordedTransitions<T> {
    pub transitions: T,
}

impl<C, E: EventTrait<C>> EventTrait<Recorded<C>> for RecordedEvent<E> {
    open spec fn variant_count() -> usize {
        E::variant_count()
    }

    open spec fn variant_names() -> Seq<Seq<char>> {
        E::variant_names()
    }

    fn names() -> (names: Vec<String>) {
        E::names()
    }

    open spec fn variant_spec(&self) -> usize {
        self.event.variant_spec()
    }

    fn variant(&self) -> (v: usize) {
        self.event.variant()
    }

    open spec fn pre_transition_ensures(
        before: Self,
        context: Recorded<C>,
        after: Self,
        changed: Recorded<C>,
    ) -> bool {
        &&& E::pre_transition_ensures(before.event, context.context, after.event, changed.context)
        &&& changed.calls@ == context.calls@.push(Call::PreTransition)
    }

    fn pre_transition(&mut self, context: &mut Recorded<C>) {
        self.event.pre_transition(&mut context.context);
        context.calls.push(Call::PreTransition);
    }

    open spec fn post_transition_ensures(
        before: Self,
        context: Recorded<C>,
        after: Self,
        changed: Recorded<C>,
    ) -> bool {
        &&& E::post_transition_ensures(
            before.event,
            context.context,
            after.event,
            changed.context,
        )
        &&& changed.calls@ == context.calls@.push(Call::PostTransition)
    }

    fn post_transition(&mut self, context: &mut Recorded<C>) {
        self.event.post_transition(&mut context.context);
        context.calls.push(Call::PostTransition);
    }
}

impl<S: StateTrait> StateTrait for RecordedState<S> {
    type Context = Recorded<S::Context>;

    type Event = RecordedEvent<S::Event>;

    open spec fn variant_count() -> usize {
        S::variant_count()
    }

    open spec fn variant_names() -> Seq<Seq<char>> {
        S::variant_names()
    }

    fn names() -> (names: Vec<String>) {
        S::names()
    }

    open spec fn variant_spec(&self) -> usize {
        self.state.variant_spec()
    }

    fn variant(&self) -> (v: usize) {
        self.state.variant()
    }

    open spec fn should_exit_ensures(
        &self,
        context: &Recorded<S::Context>,
        event: &RecordedEvent<S::Event>,
        admitted: bool,
    ) -> bool {
        self.state.should_exit_ensures(&context.context, &event.event, admitted)
    }

    fn should_exit(
        &self,
        context: &Recorded<S::Context>,
        event: &RecordedEvent<S::Event>,
    ) -> (admitted: bool) {
        self.state.should_exit(&context.context, &event.event)
    }

    open spec fn on_exit_ensures(
        before: Self,
        context: Recorded<S::Context>,
        after: Self,
        changed: Recorded<S::Context>,
    ) -> bool {
        &&& S::on_exit_ensures(before.state, context.context, after.state, changed.context)
        &&& changed.calls@ == context.calls@.push(Call::OnExit)
    }

    fn on_exit(&mut self, context: &mut Recorded<S::Context>) {
        self.state.on_exit(&mut context.context);
        context.calls.push(Call::OnExit);
    }

    open spec fn on_enter_ensures(
        before: Self,
        context: Recorded<S::Context>,
        after: Self,
        changed: Recorded<S::Context>,
    ) -> bool {
        &&& S::on_enter_ensures(before.state, context.context, after.state, changed.context)
        &&& changed.calls@ == context.calls@.push(Call::OnEnter)
    }

    fn on_enter(&mut self, context: &mut Recorded<S::Context>) {
        self.state.on_enter(&mut context.context);
        context.calls.push(Call::OnEnter);
    }
}

impl<S: StateTrait, T: Transitions<S>> Transitions<RecordedState<S>> for RecordedTransitions<T> {
    open spec fn block_ensures(
        &self,
        entry: usize,
        state: RecordedState<S>,
        event: RecordedEvent<S::Event>,
        context: Recorded<S::Context>,
        next: RecordedState<S>,
        event_after: RecordedEvent<S::Event>,
        context_after: Recorded<S::Context>,
    ) -> bool {
        &&& self.transitions.block_ensures(
            entry,
            state.state,
            event.event,
            context.context,
            next.state,
            event_after.event,
            context_after.context,
        )
        &&& context_after.calls@ == context.calls@.push(Call::Block(entry))
    }

    fn block(
        &self,
        entry: usize,
        state: RecordedState<S>,
        event: &mut RecordedEvent<S::Event>,
        context: &mut Recorded<S::Context>,
    ) -> (next: RecordedState<S>) {
        let next = self.transitions.block(
            entry,
            state.state,
            &mut event.event,
            &mut context.context,
        );
        context.calls.push(Call::Block(entry));
        RecordedState { state: next }
    }

    open spec fn catch_all_ensures(
        &self,
        state: RecordedState<S>,
        event: RecordedEvent<S::Event>,
        context: Recorded<S::Context>,
        next: RecordedState<S>,
        event_after: RecordedEvent<S::Event>,
        context_after: Recorded<S::Context>,
    ) -> bool {
        &&& self.transitions.catch_all_ensures(
            state.state,
            event.event,
            context.context,
            next.state,
            event_after.event,
            context_after.context,
        )
        &&& context_after.calls@ == context.calls@.push(Call::CatchAll)
    }

    fn catch_all(
        &self,
        state: RecordedState<S>,
        event: &mut RecordedEvent<S::Event>,
        context: &mut Recorded<S::Context>,
    ) -> (next: RecordedState<S>) {
        let next = self.transitions.catch_all(state.state, &mut event.event, &mut context.context);
        context.calls.push(Call::CatchAll);
        RecordedState { state: next }
    }

    open spec fn default_state_ensures(&self, target: usize, next: RecordedState<S>) -> bool {
        self.transitions.default_state_ensures(target, next.state)
    }

    fn default_state(&self, target: usize) -> (next: RecordedState<S>) {
        RecordedState { state: self.transitions.default_state(target) }
    }
}

/// The call that the computation selected by `resolved` notes: an explicit
/// block and the catch-all note theirs, default construction calls nothing.
pub open spec fn computation_calls(resolved: Option<Resolved>) -> Seq<Call> {
    match resolved {
        Some(Resolved::Block(entry)) => seq![Call::Block(entry)],
        Some(Resolved::CatchAll) => seq![Call::CatchAll],
        _ => Seq::empty(),
    }
}

/// The calls that handling one admitted event adds to the record, where
/// the computation adds `computation`.
pub open spec fn protocol(computation: Seq<Call>) -> Seq<Call> {
    seq![Call::OnExit, Call::PreTransition] + computation + seq![
        Call::PostTransition,
        Call::OnEnter,
    ]
}

/// The record shows the protocol. Handling an event that `should_exit`
/// refuses adds no call to the record. Handling an event that it admits
/// adds, in this order and nothing else: `on_exit`, `pre_transition`, the
/// call of the selected computation, `post_transition`, `on_enter`.
pub proof fn law_the_record_shows_the_protocol<S: StateTrait, T: Transitions<S>>(
    table: DispatchTable,
    transitions: RecordedTransitions<T>,
    state: RecordedState<S>,
    context: Recorded<S::Context>,
    event: RecordedEvent<S::Event>,
    next_state: RecordedState<S>,
    next_context: Recorded<S::Context>,
)
    requires
        handled(table, transitions, state, context, event, next_state, next_context),
    ensures
        ({
            ||| state.state.should_exit_ensures(&context.context, &event.event, false)
                && next_context.calls@ == context.calls@
            ||| state.state.should_exit_ensures(&context.context, &event.event, true)
                && exists|left: usize, announced: usize|
                next_context.calls@ == context.calls@ + protocol(
                    computation_calls(#[trigger] table.resolve_spec(left, announced)),
                )
        }),
{
    if !(state.should_exit_ensures(&context, &event, false) && next_state == state && next_context
        == context) {
        let steps = choose|steps: Steps<RecordedState<S>>| #[trigger]
            runs(table, transitions, state, context, event, steps, next_state, next_context);
        let left = steps.exited.0.variant_spec();
        let announced = steps.announced.0.variant_spec();
        let computation = computation_calls(table.resolve_spec(left, announced));
        assert(steps.moved.2.calls@ == steps.announced.1.calls@ + computation);
        assert(next_context.calls@ =~= context.calls@ + protocol(computation));
    }
}

} // verus!
