//! The event-driven machine: a context, a current state held in a slot, and
//! the fixed protocol by which an event moves the machine on.
//!
//! The machine calls into logic that it does not know: the hooks of the
//! lifecycle contract and the computations of the transitions. Each of them
//! comes with a relation between the values before the call and the values
//! after it, which says what the call may do. What handling an event may do
//! is then the composition of those relations, in the order of the
//! protocol.

use crate::dispatch::{
    find_entry, lemma_find_entry, names, Computation, DispatchTable, Resolved,
};
use crate::error::Error;
use crate::synthesis::{same_names, variant_names_of, Synthesis};
use crate::syntax::path_views;
use vstd::prelude::*;

verus! {

/// The lifecycle contract of the event sum type.
pub trait EventTrait<C>: Sized {
    /// The number of variants of the sum type.
    open spec fn variant_count() -> usize {
        arbitrary()
    }

    /// The names of the variants, in the order of their positions.
    open spec fn variant_names() -> Seq<Seq<char>> {
        arbitrary()
    }

    /// The names of the variants, in the order of their positions.
    fn names() -> (names: Vec<String>)
        ensures
            crate::syntax::texts(names@) == Self::variant_names(),
            names@.len() == Self::variant_count(),
    ;

    /// The position of the active variant, as `variant` gives it.
    open spec fn variant_spec(&self) -> usize {
        arbitrary()
    }

    /// The position of the active variant.
    fn variant(&self) -> (v: usize)
        ensures
            v == self.variant_spec(),
            v < Self::variant_count(),
    ;

    /// What `pre_transition` may make of an event and a context; by
    /// default it leaves both as they are.
    open spec fn pre_transition_ensures(before: Self, context: C, after: Self, changed: C) -> bool {
        after == before && changed == context
    }

    /// Runs before the transition is computed.
    fn pre_transition(&mut self, context: &mut C)
        ensures
            Self::pre_transition_ensures(*old(self), *old(context), *final(self), *final(context)),
    ;

    /// What `post_transition` may make of an event and a context; by
    /// default it leaves both as they are.
    open spec fn post_transition_ensures(before: Self, context: C, after: Self, changed: C)
        -> bool {
        after == before && changed == context
    }

    /// Runs after the transition is computed.
    fn post_transition(&mut self, context: &mut C)
        ensures
            Self::post_transition_ensures(
                *old(self),
                *old(context),
                *final(self),
                *final(context),
            ),
    ;
}

/// The lifecycle contract of the state sum type.
pub trait StateTrait: Sized {
    /// The context that the machine shares with its hooks.
    type Context;

    /// The event sum type.
    type Event: EventTrait<Self::Context>;

    /// The number of variants of the sum type.
    open spec fn variant_count() -> usize {
        arbitrary()
    }

    /// The names of the variants, in the order of their positions.
    open spec fn variant_names() -> Seq<Seq<char>> {
        arbitrary()
    }

    /// The names of the variants, in the order of their positions.
    fn names() -> (names: Vec<String>)
        ensures
            crate::syntax::texts(names@) == Self::variant_names(),
            names@.len() == Self::variant_count(),
    ;

    /// The position of the active variant, as `variant` gives it.
    open spec fn variant_spec(&self) -> usize {
        arbitrary()
    }

    /// The position of the active variant.
    fn variant(&self) -> (v: usize)
        ensures
            v == self.variant_spec(),
            v < Self::variant_count(),
    ;

    /// Whether `should_exit` may answer `admitted`; by default it admits
    /// every event.
    open spec fn should_exit_ensures(
        &self,
        context: &Self::Context,
        event: &Self::Event,
        admitted: bool,
    ) -> bool {
        admitted
    }

    /// Whether `event` may take the machine out of this state.
    fn should_exit(&self, context: &Self::Context, event: &Self::Event) -> (admitted: bool)
        ensures
            self.should_exit_ensures(context, event, admitted),
    ;

    /// What `on_exit` may make of a state and a context; by default it
    /// leaves both as they are.
    open spec fn on_exit_ensures(
        before: Self,
        context: Self::Context,
        after: Self,
        changed: Self::Context,
    ) -> bool {
        after == before && changed == context
    }

    /// Runs on the state that is left.
    fn on_exit(&mut self, context: &mut Self::Context)
        ensures
            Self::on_exit_ensures(*old(self), *old(context), *final(self), *final(context)),
    ;

    /// What `on_enter` may make of a state and a context; by default it
    /// leaves both as they are.
    open spec fn on_enter_ensures(
        before: Self,
        context: Self::Context,
        after: Self,
        changed: Self::Context,
    ) -> bool {
        after == before && changed == context
    }

    /// Runs on the state that is entered.
    fn on_enter(&mut self, context: &mut Self::Context)
        ensures
            Self::on_enter_ensures(*old(self), *old(context), *final(self), *final(context)),
    ;
}

/// The computations that the transition table refers to. Nothing is known
/// of a computation whose relation is not stated.
pub trait Transitions<S: StateTrait> {
    /// What the block of the entry at `entry` may give for a state, an
    /// event and a context: the next state, and the event and the context
    /// as it leaves them.
    open spec fn block_ensures(
        &self,
        entry: usize,
        state: S,
        event: S::Event,
        context: S::Context,
        next: S,
        event_after: S::Event,
        context_after: S::Context,
    ) -> bool {
        true
    }

    /// The explicit block of the table entry at position `entry`.
    fn block(
        &self,
        entry: usize,
        state: S,
        event: &mut S::Event,
        context: &mut S::Context,
    ) -> (next: S)
        ensures
            self.block_ensures(
                entry,
                state,
                *old(event),
                *old(context),
                next,
                *final(event),
                *final(context),
            ),
    ;

    /// What the catch-all may give for a state, an event and a context.
    open spec fn catch_all_ensures(
        &self,
        state: S,
        event: S::Event,
        context: S::Context,
        next: S,
        event_after: S::Event,
        context_after: S::Context,
    ) -> bool {
        true
    }

    /// The catch-all computation.
    fn catch_all(&self, state: S, event: &mut S::Event, context: &mut S::Context) -> (next: S)
        ensures
            self.catch_all_ensures(
                state,
                *old(event),
                *old(context),
                next,
                *final(event),
                *final(context),
            ),
    ;

    /// Whether `next` may be the default of the state variant at `target`.
    open spec fn default_state_ensures(&self, target: usize, next: S) -> bool {
        true
    }

    /// The state variant at position `target`, built by its default rule:
    /// where the sum type has a variant at `target`, the state that comes
    /// back is of that variant.
    fn default_state(&self, target: usize) -> (next: S)
        ensures
            self.default_state_ensures(target, next),
            target < S::variant_count() ==> next.variant_spec() == target,
    ;
}

/// Whether the computation that `table` selects for `state` and `event` may
/// give `next`, with the event and the context as in `event_after` and
/// `context_after`. Default construction touches neither event nor context.
pub open spec fn transitioned<S: StateTrait, T: Transitions<S>>(
    table: DispatchTable,
    transitions: T,
    state: S,
    event: S::Event,
    context: S::Context,
    next: S,
    event_after: S::Event,
    context_after: S::Context,
) -> bool {
    match table.resolve_spec(state.variant_spec(), event.variant_spec()) {
        Some(Resolved::Block(entry)) => transitions.block_ensures(
            entry,
            state,
            event,
            context,
            next,
            event_after,
            context_after,
        ),
        Some(Resolved::Default(target)) => transitions.default_state_ensures(target, next) && (
        target < S::variant_count() ==> next.variant_spec() == target) && event_after == event
            && context_after == context,
        Some(Resolved::CatchAll) => transitions.catch_all_ensures(
            state,
            event,
            context,
            next,
            event_after,
            context_after,
        ),
        None => next == state && event_after == event && context_after == context,
    }
}

/// The values between the steps of handling an admitted event: the state
/// and the context as `on_exit` leaves them, the event and the context as
/// `pre_transition` leaves them, what the transition gives, and the event
/// and the context as `post_transition` leaves them.
pub ghost struct Steps<S: StateTrait> {
    pub exited: (S, S::Context),
    pub announced: (S::Event, S::Context),
    pub moved: (S, S::Event, S::Context),
    pub concluded: (S::Event, S::Context),
}

/// Whether handling an admitted event may pass through `steps` and end in
/// `next_state` and `next_context`: `on_exit` runs on the old state, then
/// `pre_transition` on the event, then the selected computation, then
/// `post_transition` on the event, then `on_enter` on the new state, each on
/// what the one before it left.
pub open spec fn runs<S: StateTrait, T: Transitions<S>>(
    table: DispatchTable,
    transitions: T,
    state: S,
    context: S::Context,
    event: S::Event,
    steps: Steps<S>,
    next_state: S,
    next_context: S::Context,
) -> bool {
    &&& S::on_exit_ensures(state, context, steps.exited.0, steps.exited.1)
    &&& S::Event::pre_transition_ensures(
        event,
        steps.exited.1,
        steps.announced.0,
        steps.announced.1,
    )
    &&& transitioned(
        table,
        transitions,
        steps.exited.0,
        steps.announced.0,
        steps.announced.1,
        steps.moved.0,
        steps.moved.1,
        steps.moved.2,
    )
    &&& S::Event::post_transition_ensures(
        steps.moved.1,
        steps.moved.2,
        steps.concluded.0,
        steps.concluded.1,
    )
    &&& S::on_enter_ensures(steps.moved.0, steps.concluded.1, next_state, next_context)
}

/// Whether handling `event` in `state` with `context` may end in
/// `next_state` and `next_context`: either `should_exit` refuses and
/// nothing changes, or it admits and the steps of the protocol run.
pub open spec fn handled<S: StateTrait, T: Transitions<S>>(
    table: DispatchTable,
    transitions: T,
    state: S,
    context: S::Context,
    event: S::Event,
    next_state: S,
    next_context: S::Context,
) -> bool {
    ||| state.should_exit_ensures(&context, &event, false) && next_state == state && next_context
        == context
    ||| state.should_exit_ensures(&context, &event, true) && exists|steps: Steps<S>| #[trigger]
        runs(table, transitions, state, context, event, steps, next_state, next_context)
}

/// An event-driven machine over the state sum type `S`.
pub struct Machine<S: StateTrait, T: Transitions<S>> {
    context: S::Context,
    state: Option<S>,
    table: DispatchTable,
    transitions: T,
}

impl<S: StateTrait, T: Transitions<S>> Machine<S, T> {
    /// The slot holds a state, and the table is valid for the two sum types.
    pub closed spec fn wf(&self) -> bool {
        &&& self.state is Some
        &&& self.table.wf()
        &&& self.table.states() == S::variant_count()
        &&& self.table.events() == S::Event::variant_count()
    }

    /// The current state.
    pub closed spec fn state_spec(&self) -> S {
        self.state->0
    }

    /// The context.
    pub closed spec fn context_spec(&self) -> S::Context {
        self.context
    }

    /// The transition table.
    pub closed spec fn table(&self) -> DispatchTable {
        self.table
    }

    /// The computations.
    pub closed spec fn transitions(&self) -> T {
        self.transitions
    }

    /// A machine in `state`, with `context`.
    pub fn new(state: S, context: S::Context, table: DispatchTable, transitions: T) -> (machine:
        Self)
        requires
            table.wf(),
            table.states() == S::variant_count(),
            table.events() == S::Event::variant_count(),
        ensures
            machine.wf(),
            machine.state_spec() == state,
            machine.context_spec() == context,
            machine.table() == table,
            machine.transitions() == transitions,
    {
        Machine { context, state: Some(state), table, transitions }
    }

    /// A machine in `state`, with `context`, that the table of a
    /// description drives. The states and events of the description must be
    /// the variants of the two sum types, name for name and in the order of
    /// their positions: then the numbers of the table are the positions
    /// that `variant` gives.
    pub fn for_description(
        state: S,
        context: S::Context,
        synthesis: Synthesis,
        transitions: T,
    ) -> (r: Result<Self, Error>)
        requires
            synthesis.table.wf(),
            synthesis.table.states() == synthesis.states@.len(),
            synthesis.table.events() == synthesis.events@.len(),
        ensures
            match r {
                Ok(machine) => {
                    &&& S::variant_names() == variant_names_of(path_views(synthesis.states@))
                    &&& S::Event::variant_names() == variant_names_of(
                        path_views(synthesis.events@),
                    )
                    &&& machine.wf()
                    &&& machine.state_spec() == state
                    &&& machine.context_spec() == context
                    &&& machine.table() == synthesis.table
                    &&& machine.transitions() == transitions
                },
                Err(e) => if S::variant_names() != variant_names_of(
                    path_views(synthesis.states@),
                ) {
                    e == Error::StatesDiffer
                } else {
                    e == Error::EventsDiffer && S::Event::variant_names() != variant_names_of(
                        path_views(synthesis.events@),
                    )
                },
            },
    {
        let state_names = S::names();
        if !same_names(&state_names, &synthesis.states) {
            return Err(Error::StatesDiffer);
        }
        let event_names = S::Event::names();
        if !same_names(&event_names, &synthesis.events) {
            return Err(Error::EventsDiffer);
        }
        proof {
            crate::synthesis::lemma_variant_names_len(path_views(synthesis.states@));
            crate::synthesis::lemma_variant_names_len(path_views(synthesis.events@));
        }
        Ok(Machine { context, state: Some(state), table: synthesis.table, transitions })
    }

    /// The context.
    pub fn context(&self) -> (context: &S::Context)
        ensures
            *context == self.context_spec(),
    {
        &self.context
    }

    /// The current state.
    pub fn state(&self) -> (state: &S)
        requires
            self.wf(),
        ensures
            *state == self.state_spec(),
    {
        self.state.as_ref().unwrap()
    }

    /// Gives the machine up for its context.
    pub fn into_context(self) -> (context: S::Context)
        ensures
            context == self.context_spec(),
    {
        self.context
    }

    /// Gives the machine up for its current state.
    pub fn into_state(self) -> (state: S)
        requires
            self.wf(),
        ensures
            state == self.state_spec(),
    {
        self.state.unwrap()
    }

    /// Gives the machine up for its current state and its context.
    pub fn into_parts(self) -> (parts: (S, S::Context))
        requires
            self.wf(),
        ensures
            parts == (self.state_spec(), self.context_spec()),
    {
        let Machine { context, state, .. } = self;
        (state.unwrap(), context)
    }

    /// Handles `event`: converts it into the event sum type and dispatches
    /// on what came of it.
    pub fn handle_event<E>(&mut self, event: E) -> (machine: &mut Self) where S::Event: From<E>
        requires
            old(self).wf(),
        ensures
            *final(self) == *final(machine),
            machine.wf(),
            machine.table() == old(self).table(),
            machine.transitions() == old(self).transitions(),
            exists|converted: S::Event|
                (<S::Event as vstd::std_specs::convert::FromSpec<E>>::obeys_from_spec()
                    ==> converted == <S::Event as vstd::std_specs::convert::FromSpec<
                    E,
                >>::from_spec(event)) && #[trigger] handled(
                    old(self).table(),
                    old(self).transitions(),
                    old(self).state_spec(),
                    old(self).context_spec(),
                    converted,
                    machine.state_spec(),
                    machine.context_spec(),
                ),
    {
        let converted = S::Event::from(event);
        self.dispatch(converted)
    }

    /// Dispatches on `event`: takes the state out of its slot and asks
    /// `should_exit`; where that refuses, puts the state back; where it
    /// admits, runs `on_exit`, `pre_transition`, the computation that the
    /// table selects, `post_transition` and `on_enter`, and puts the new
    /// state into the slot.
    pub fn dispatch(&mut self, event: S::Event) -> (machine: &mut Self)
        requires
            old(self).wf(),
        ensures
            *final(self) == *final(machine),
            machine.wf(),
            machine.table() == old(self).table(),
            machine.transitions() == old(self).transitions(),
            handled(
                old(self).table(),
                old(self).transitions(),
                old(self).state_spec(),
                old(self).context_spec(),
                event,
                machine.state_spec(),
                machine.context_spec(),
            ),
    {
        let ghost given = event;
        let mut event = event;
        let mut state = self.state.take().unwrap();
        if !state.should_exit(&self.context, &event) {
            self.state = Some(state);
            return self;
        }
        state.on_exit(&mut self.context);
        let ghost exited = (state, self.context);
        event.pre_transition(&mut self.context);
        let ghost announced = (event, self.context);
        let resolved = self.table.resolve(state.variant(), event.variant());
        let mut state = match resolved.unwrap() {
            Resolved::Block(entry) => self.transitions.block(
                entry,
                state,
                &mut event,
                &mut self.context,
            ),
            Resolved::Default(target) => self.transitions.default_state(target),
            Resolved::CatchAll => self.transitions.catch_all(state, &mut event, &mut self.context),
        };
        let ghost moved = (state, event, self.context);
        event.post_transition(&mut self.context);
        let ghost concluded = (event, self.context);
        state.on_enter(&mut self.context);
        self.state = Some(state);
        assert(runs(
            old(self).table(),
            old(self).transitions(),
            old(self).state_spec(),
            old(self).context_spec(),
            given,
            Steps { exited, announced, moved, concluded },
            state,
            self.context,
        ));
        self
    }
}

/// An event that `should_exit` cannot admit leaves the state and the
/// context as they were: no hook and no computation has a part in the
/// result.
pub proof fn law_refused_event_changes_nothing<S: StateTrait, T: Transitions<S>>(
    table: DispatchTable,
    transitions: T,
    state: S,
    context: S::Context,
    event: S::Event,
    next_state: S,
    next_context: S::Context,
)
    requires
        handled(table, transitions, state, context, event, next_state, next_context),
        !state.should_exit_ensures(&context, &event, true),
    ensures
        next_state == state,
        next_context == context,
{
}

/// An event that `should_exit` cannot refuse is handled by `on_exit` on the
/// old state, then `pre_transition` on the event, then the selected
/// computation, then `post_transition` on the event, then `on_enter` on the
/// new state, each working on what the one before it left.
pub proof fn law_hooks_run_in_order<S: StateTrait, T: Transitions<S>>(
    table: DispatchTable,
    transitions: T,
    state: S,
    context: S::Context,
    event: S::Event,
    next_state: S,
    next_context: S::Context,
) -> (steps: Steps<S>)
    requires
        handled(table, transitions, state, context, event, next_state, next_context),
        !state.should_exit_ensures(&context, &event, false),
    ensures
        S::on_exit_ensures(state, context, steps.exited.0, steps.exited.1),
        S::Event::pre_transition_ensures(
            event,
            steps.exited.1,
            steps.announced.0,
            steps.announced.1,
        ),
        transitioned(
            table,
            transitions,
            steps.exited.0,
            steps.announced.0,
            steps.announced.1,
            steps.moved.0,
            steps.moved.1,
            steps.moved.2,
        ),
        S::Event::post_transition_ensures(
            steps.moved.1,
            steps.moved.2,
            steps.concluded.0,
            steps.concluded.1,
        ),
        S::on_enter_ensures(steps.moved.0, steps.concluded.1, next_state, next_context),
{
    choose|steps: Steps<S>| #[trigger]
        runs(table, transitions, state, context, event, steps, next_state, next_context)
}

/// Two lists of entries that name the same pairs find the same entry.
proof fn lemma_find_entry_by_pairs(
    left: Seq<crate::dispatch::Transition>,
    right: Seq<crate::dispatch::Transition>,
    state: usize,
    event: usize,
    from: int,
)
    requires
        left.len() == right.len(),
        forall|j: int|
            0 <= j < left.len() ==> left[j].source == right[j].source && left[j].event
                == right[j].event,
    ensures
        find_entry(left, state, event, from) == find_entry(right, state, event, from),
    decreases left.len() - from,
{
    if 0 <= from < left.len() && !names(left, from, state, event) {
        lemma_find_entry_by_pairs(left, right, state, event, from + 1);
    }
}

/// The sugar `Event -> State` behaves as the explicit block that builds the
/// default of `State`: of two tables that differ only in that entry `i` is
/// the sugar in one and such a block in the other, each handles every event
/// as the other does.
pub proof fn law_default_sugar_is_default_block<S: StateTrait, T: Transitions<S>>(
    sugar: DispatchTable,
    explicit: DispatchTable,
    i: int,
    target: usize,
    transitions: T,
    state: S,
    context: S::Context,
    event: S::Event,
    next_state: S,
    next_context: S::Context,
)
    requires
        sugar.catch_all() == explicit.catch_all(),
        sugar.entries().len() == explicit.entries().len(),
        0 <= i < sugar.entries().len(),
        forall|j: int|
            0 <= j < sugar.entries().len() && j != i ==> sugar.entries()[j]
                == explicit.entries()[j],
        sugar.entries()[i].source == explicit.entries()[i].source,
        sugar.entries()[i].event == explicit.entries()[i].event,
        sugar.entries()[i].computation == Computation::Default(target),
        explicit.entries()[i].computation == Computation::Block,
        forall|s: S, e: S::Event, c: S::Context, n: S, e2: S::Event, c2: S::Context| #[trigger]
            transitions.block_ensures(i as usize, s, e, c, n, e2, c2) <==> (
            transitions.default_state_ensures(target, n) && (target < S::variant_count()
                ==> n.variant_spec() == target) && e2 == e && c2 == c),
    ensures
        handled(sugar, transitions, state, context, event, next_state, next_context) <==> handled(
            explicit,
            transitions,
            state,
            context,
            event,
            next_state,
            next_context,
        ),
{
    assert forall|steps: Steps<S>|
        runs(sugar, transitions, state, context, event, steps, next_state, next_context) == runs(
            explicit,
            transitions,
            state,
            context,
            event,
            steps,
            next_state,
            next_context,
        ) by {
        let s = steps.exited.0.variant_spec();
        let e = steps.announced.0.variant_spec();
        lemma_find_entry_by_pairs(sugar.entries(), explicit.entries(), s, e, 0);
        lemma_find_entry(sugar.entries(), s, e, 0);
    }
}

/// Whether handling `events`, one after the other, in `state` with
/// `context` may end in `next_state` and `next_context`.
pub open spec fn handled_all<S: StateTrait, T: Transitions<S>>(
    table: DispatchTable,
    transitions: T,
    state: S,
    context: S::Context,
    events: Seq<S::Event>,
    next_state: S,
    next_context: S::Context,
) -> bool
    decreases events.len(),
{
    if events.len() == 0 {
        next_state == state && next_context == context
    } else {
        exists|between: (S, S::Context)|
            #[trigger] handled(
                table,
                transitions,
                state,
                context,
                events[0],
                between.0,
                between.1,
            ) && handled_all(
                table,
                transitions,
                between.0,
                between.1,
                events.skip(1),
                next_state,
                next_context,
            )
    }
}

/// What holds of one event holds of every sequence of events: two tables
/// that differ only in that entry `i` is the sugar in one and the block
/// that builds the default in the other take a machine through the same
/// states and contexts.
pub proof fn law_default_sugar_is_default_block_throughout<S: StateTrait, T: Transitions<S>>(
    sugar: DispatchTable,
    explicit: DispatchTable,
    i: int,
    target: usize,
    transitions: T,
    state: S,
    context: S::Context,
    events: Seq<S::Event>,
    next_state: S,
    next_context: S::Context,
)
    requires
        sugar.catch_all() == explicit.catch_all(),
        sugar.entries().len() == explicit.entries().len(),
        0 <= i < sugar.entries().len(),
        forall|j: int|
            0 <= j < sugar.entries().len() && j != i ==> sugar.entries()[j]
                == explicit.entries()[j],
        sugar.entries()[i].source == explicit.entries()[i].source,
        sugar.entries()[i].event == explicit.entries()[i].event,
        sugar.entries()[i].computation == Computation::Default(target),
        explicit.entries()[i].computation == Computation::Block,
        forall|s: S, e: S::Event, c: S::Context, n: S, e2: S::Event, c2: S::Context| #[trigger]
            transitions.block_ensures(i as usize, s, e, c, n, e2, c2) <==> (
            transitions.default_state_ensures(target, n) && (target < S::variant_count()
                ==> n.variant_spec() == target) && e2 == e && c2 == c),
    ensures
        handled_all(sugar, transitions, state, context, events, next_state, next_context)
            <==> handled_all(
            explicit,
            transitions,
            state,
            context,
            events,
            next_state,
            next_context,
        ),
    decreases events.len(),
{
    if events.len() > 0 {
        assert forall|between: (S, S::Context)|
            (handled(sugar, transitions, state, context, events[0], between.0, between.1)
                && handled_all(
                sugar,
                transitions,
                between.0,
                between.1,
                events.skip(1),
                next_state,
                next_context,
            )) == (handled(explicit, transitions, state, context, events[0], between.0, between.1)
                && handled_all(
                explicit,
                transitions,
                between.0,
                between.1,
                events.skip(1),
                next_state,
                next_context,
            )) by {
            law_default_sugar_is_default_block(
                sugar,
                explicit,
                i,
                target,
                transitions,
                state,
                context,
                events[0],
                between.0,
                between.1,
            );
            law_default_sugar_is_default_block_throughout(
                sugar,
                explicit,
                i,
                target,
                transitions,
                between.0,
                between.1,
                events.skip(1),
                next_state,
                next_context,
            );
        }
    }
}

} // verus!
