//! From the list of states of a description to the two sum types and the
//! dispatch table: which states and events there are, and which computation
//! each pair of them selects.

use crate::dispatch::{table_error, Computation, DispatchTable};
use crate::error::Error;
use crate::event_driven_state_machine::{
    state_views, StateTransitions, StateTransitionsView, Transition, TransitionBlock,
    TransitionBlockView, TransitionView,
};
use crate::syntax::{
    all_named, are_all_named, has_name_clash, name_clash, path_views, Path, PathView,
};
use crate::text::copy_of;
use vstd::prelude::*;
use vstd::string::*;

verus! {

/// One declared transition, with the names of the variants that it is
/// dispatched on. `target` is the state that the sugar `Event -> State`
/// names; `block` is the block of a transition that has one.
#[derive(Debug, PartialEq, Eq)]
pub struct StateEvent {
    pub state_path: Path,
    pub state_ident: String,
    pub event_path: Path,
    pub event_ident: String,
    pub block: String,
    pub target: Option<Path>,
}

/// What a `StateEvent` holds.
pub struct StateEventView {
    pub state_path: PathView,
    pub state_ident: Seq<char>,
    pub event_path: PathView,
    pub event_ident: Seq<char>,
    pub block: Seq<char>,
    pub target: Option<PathView>,
}

impl View for StateEvent {
    type V = StateEventView;

    open spec fn view(&self) -> StateEventView {
        StateEventView {
            state_path: self.state_path@,
            state_ident: self.state_ident@,
            event_path: self.event_path@,
            event_ident: self.event_ident@,
            block: self.block@,
            target: match self.target {
                Some(target) => Some(target@),
                None => None,
            },
        }
    }
}

/// What `state_events` hold.
pub open spec fn state_event_views(state_events: Seq<StateEvent>) -> Seq<StateEventView> {
    state_events.map_values(|state_event: StateEvent| state_event@)
}

/// The catch-all blocks among the first `n` items of the list of states.
pub open spec fn catch_all_blocks(states: Seq<StateTransitionsView>, n: nat) -> Seq<Seq<char>>
    decreases n,
{
    if n == 0 {
        Seq::empty()
    } else {
        match states[n - 1] {
            StateTransitionsView::Default(block) => catch_all_blocks(states, (n - 1) as nat).push(
                block,
            ),
            StateTransitionsView::State(_) => catch_all_blocks(states, (n - 1) as nat),
        }
    }
}

/// The transition `transition` out of the state `state_path`, or the
/// refusal of a path that has no segment.
pub open spec fn state_event(
    state_path: PathView,
    state_ident: Seq<char>,
    transition: TransitionView,
) -> Result<StateEventView, Error> {
    match transition.event_path.last_ident() {
        None => Err(Error::EmptyEventPath),
        Some(event_ident) => match transition.block {
            TransitionBlockView::Block(block) => Ok(
                StateEventView {
                    state_path,
                    state_ident,
                    event_path: transition.event_path,
                    event_ident,
                    block,
                    target: None,
                },
            ),
            TransitionBlockView::Default(target) => if target.last_ident() is None {
                Err(Error::EmptyStatePath)
            } else {
                Ok(
                    StateEventView {
                        state_path,
                        state_ident,
                        event_path: transition.event_path,
                        event_ident,
                        block: Seq::empty(),
                        target: Some(target),
                    },
                )
            },
        },
    }
}

/// The transitions out of the state `state_path` from the one at `from`
/// on, added to `found`.
pub open spec fn group_events(
    state_path: PathView,
    state_ident: Seq<char>,
    transitions: Seq<TransitionView>,
    from: int,
    found: Seq<StateEventView>,
) -> Result<Seq<StateEventView>, Error>
    decreases transitions.len() - from,
{
    if from < 0 || from >= transitions.len() {
        Ok(found)
    } else {
        match state_event(state_path, state_ident, transitions[from]) {
            Err(e) => Err(e),
            Ok(next) => group_events(
                state_path,
                state_ident,
                transitions,
                from + 1,
                found.push(next),
            ),
        }
    }
}

/// The declared transitions of the list of states from the item at `from`
/// on, added to `found`, in order.
pub open spec fn state_events_from(
    states: Seq<StateTransitionsView>,
    from: int,
    found: Seq<StateEventView>,
) -> Result<Seq<StateEventView>, Error>
    decreases states.len() - from,
{
    if from < 0 || from >= states.len() {
        Ok(found)
    } else {
        match states[from] {
            StateTransitionsView::Default(_) => state_events_from(states, from + 1, found),
            StateTransitionsView::State(state) => match state.state_path.last_ident() {
                None => Err(Error::EmptyStatePath),
                Some(state_ident) => match group_events(
                    state.state_path,
                    state_ident,
                    state.transitions,
                    0,
                    found,
                ) {
                    Err(e) => Err(e),
                    Ok(with_group) => state_events_from(states, from + 1, with_group),
                },
            },
        }
    }
}

/// The declared transitions of the list of states, in order.
pub open spec fn state_events(states: Seq<StateTransitionsView>) -> Result<
    Seq<StateEventView>,
    Error,
> {
    state_events_from(states, 0, Seq::empty())
}

/// The states that have an item among the first `n` items of the list of
/// states, in order.
pub open spec fn listed_states(states: Seq<StateTransitionsView>, n: nat) -> Seq<PathView>
    decreases n,
{
    if n == 0 {
        Seq::empty()
    } else {
        match states[n - 1] {
            StateTransitionsView::Default(_) => listed_states(states, (n - 1) as nat),
            StateTransitionsView::State(state) => listed_states(states, (n - 1) as nat).push(
                state.state_path,
            ),
        }
    }
}

/// The states that the first `n` of `state_events` name: of each its
/// source and, where it is the sugar, its target.
pub open spec fn dispatched_states(state_events: Seq<StateEventView>, n: nat) -> Seq<PathView>
    decreases n,
{
    if n == 0 {
        Seq::empty()
    } else {
        match state_events[n - 1].target {
            Some(target) => dispatched_states(state_events, (n - 1) as nat).push(
                state_events[n - 1].state_path,
            ).push(target),
            None => dispatched_states(state_events, (n - 1) as nat).push(
                state_events[n - 1].state_path,
            ),
        }
    }
}

/// The events of the first `n` of `state_events`.
pub open spec fn dispatched_events(state_events: Seq<StateEventView>, n: nat) -> Seq<PathView>
    decreases n,
{
    if n == 0 {
        Seq::empty()
    } else {
        dispatched_events(state_events, (n - 1) as nat).push(state_events[n - 1].event_path)
    }
}

/// The first `n` of `paths` without repetition: each path stands where it
/// is first met.
pub open spec fn unique(paths: Seq<PathView>, n: nat) -> Seq<PathView>
    decreases n,
{
    if n == 0 {
        Seq::empty()
    } else {
        let before = unique(paths, (n - 1) as nat);
        if before.contains(paths[n - 1]) {
            before
        } else {
            before.push(paths[n - 1])
        }
    }
}

/// The position of the first of `paths` that is `path`.
pub open spec fn first_position(paths: Seq<PathView>, path: PathView, from: int) -> Option<int>
    decreases paths.len() - from,
{
    if from < 0 || from >= paths.len() {
        None
    } else if paths[from] == path {
        Some(from)
    } else {
        first_position(paths, path, from + 1)
    }
}

/// The number that `path` has among `paths`: its position, or the number
/// of the paths where it is not among them, which no variant has.
pub open spec fn number(paths: Seq<PathView>, path: PathView) -> usize {
    match first_position(paths, path, 0) {
        Some(i) => i as usize,
        None => paths.len() as usize,
    }
}

/// The entry of the dispatch table for `state_event`, among the states
/// `states` and the events `events`.
pub open spec fn entry(state_event: StateEventView, states: Seq<PathView>, events: Seq<PathView>)
    -> crate::dispatch::Transition {
    crate::dispatch::Transition {
        source: number(states, state_event.state_path),
        event: number(events, state_event.event_path),
        computation: match state_event.target {
            Some(target) => Computation::Default(number(states, target)),
            None => Computation::Block,
        },
    }
}

/// The entries of the dispatch table for the first `n` of `state_events`.
pub open spec fn entries(
    state_events: Seq<StateEventView>,
    states: Seq<PathView>,
    events: Seq<PathView>,
    n: nat,
) -> Seq<crate::dispatch::Transition>
    decreases n,
{
    if n == 0 {
        Seq::empty()
    } else {
        entries(state_events, states, events, (n - 1) as nat).push(
            entry(state_events[n - 1], states, events),
        )
    }
}

/// The states of a machine: the states that have an item in its list of
/// states, then the targets of its transitions, each where it is first met.
pub open spec fn discovered_states(
    states: Seq<StateTransitionsView>,
    state_events: Seq<StateEventView>,
) -> Seq<PathView> {
    let all = listed_states(states, states.len()) + dispatched_states(
        state_events,
        state_events.len(),
    );
    unique(all, all.len())
}

/// The events of a machine: the events of its transitions, then the events
/// that it lists besides, each where it is first met.
pub open spec fn discovered_events(state_events: Seq<StateEventView>, other_events: Seq<PathView>)
    -> Seq<PathView> {
    let all = dispatched_events(state_events, state_events.len()) + other_events;
    unique(all, all.len())
}

/// Why the list of states `states`, with the further events
/// `other_events`, gives no machine: more than one catch-all, a path
/// without a segment, two states or two events of one name, or a faulty
/// dispatch table, whichever comes first in this order.
pub open spec fn synthesis_error(states: Seq<StateTransitionsView>, other_events: Seq<PathView>)
    -> Option<Error> {
    if catch_all_blocks(states, states.len()).len() > 1 {
        Some(Error::MultipleCatchAll)
    } else {
        match state_events(states) {
            Err(e) => Some(e),
            Ok(found) => {
                let state_paths = discovered_states(states, found);
                let event_paths = discovered_events(found, other_events);
                if !all_named(other_events) {
                    Some(Error::EmptyEventPath)
                } else if name_clash(event_paths) {
                    Some(Error::DuplicateEventName)
                } else if name_clash(state_paths) {
                    Some(Error::DuplicateStateName)
                } else {
                    match table_error(
                        entries(found, state_paths, event_paths, found.len()),
                        state_paths.len() as usize,
                        event_paths.len() as usize,
                        catch_all_blocks(states, states.len()).len() == 1,
                    ) {
                        Some(e) => Some(Error::Table(e)),
                        None => None,
                    }
                }
            },
        }
    }
}

/// What the list of states of a description comes to: its transitions, the
/// states and events of the two sum types, the catch-all block where there
/// is one, and the dispatch table. The states and events of the table are
/// numbered as they stand in `states` and `events`.
pub struct Synthesis {
    pub state_events: Vec<StateEvent>,
    pub states: Vec<Path>,
    pub events: Vec<Path>,
    pub catch_all: Option<String>,
    pub table: DispatchTable,
}

impl Synthesis {
    /// Whether this is what `states` and `other_events` come to.
    pub open spec fn is_synthesis_of(
        &self,
        states: Seq<StateTransitionsView>,
        other_events: Seq<PathView>,
    ) -> bool {
        let found = state_events(states);
        let blocks = catch_all_blocks(states, states.len());
        &&& found is Ok
        &&& state_event_views(self.state_events@) == found->Ok_0
        &&& path_views(self.states@) == discovered_states(states, found->Ok_0)
        &&& path_views(self.events@) == discovered_events(found->Ok_0, other_events)
        &&& match self.catch_all {
            Some(block) => blocks == seq![block@],
            None => blocks.len() == 0,
        }
        &&& self.table.wf()
        &&& self.table.states() == self.states@.len()
        &&& self.table.events() == self.events@.len()
        &&& self.table.catch_all() == (self.catch_all is Some)
        &&& self.table.entries() == entries(
            found->Ok_0,
            discovered_states(states, found->Ok_0),
            discovered_events(found->Ok_0, other_events),
            found->Ok_0.len(),
        )
    }
}


/// `first_position` finds a path exactly when it is among the paths.
pub proof fn lemma_first_position(paths: Seq<PathView>, path: PathView, from: int)
    requires
        0 <= from,
    ensures
        match first_position(paths, path, from) {
            Some(i) => from <= i < paths.len() && paths[i] == path,
            None => forall|k: int| from <= k < paths.len() ==> paths[k] != path,
        },
    decreases paths.len() - from,
{
    if from < paths.len() && paths[from] != path {
        lemma_first_position(paths, path, from + 1);
    }
}

/// The position of the first of `paths` that is `path`.
pub fn index_in(paths: &Vec<Path>, path: &Path) -> (found: Option<usize>)
    ensures
        match found {
            Some(i) => first_position(path_views(paths@), path@, 0) == Some(i as int) && i
                < paths.len(),
            None => first_position(path_views(paths@), path@, 0) is None,
        },
        found is Some <==> path_views(paths@).contains(path@),
{
    let mut i: usize = 0;
    proof {
        lemma_first_position(path_views(paths@), path@, 0);
    }
    while i < paths.len()
        invariant
            i <= paths.len(),
            first_position(path_views(paths@), path@, 0) == first_position(
                path_views(paths@),
                path@,
                i as int,
            ),
        decreases paths.len() - i,
    {
        assert(path_views(paths@)[i as int] == paths[i as int]@);
        if paths[i].same_as(path) {
            return Some(i);
        }
        i += 1;
    }
    None
}

/// `paths` without repetition: each path stands where it is first met.
pub fn unique_paths(paths: &Vec<Path>) -> (found: Vec<Path>)
    ensures
        path_views(found@) == unique(path_views(paths@), paths@.len()),
{
    let mut found: Vec<Path> = Vec::new();
    let mut i: usize = 0;
    assert(path_views(found@) =~= Seq::empty());
    while i < paths.len()
        invariant
            i <= paths.len(),
            path_views(found@) == unique(path_views(paths@), i as nat),
        decreases paths.len() - i,
    {
        assert(path_views(paths@)[i as int] == paths[i as int]@);
        if index_in(&found, &paths[i]).is_none() {
            let ghost before = path_views(found@);
            let copy = paths[i].duplicate();
            found.push(copy);
            assert(path_views(found@) =~= before.push(copy@));
        }
        i += 1;
    }
    found
}

/// The catch-all blocks of the list of states.
fn collect_catch_all(states: &Vec<StateTransitions>) -> (blocks: Vec<String>)
    ensures
        crate::syntax::texts(blocks@) == catch_all_blocks(state_views(states@), states@.len()),
{
    let mut blocks: Vec<String> = Vec::new();
    let mut i: usize = 0;
    assert(crate::syntax::texts(blocks@) =~= Seq::empty());
    while i < states.len()
        invariant
            i <= states.len(),
            crate::syntax::texts(blocks@) == catch_all_blocks(state_views(states@), i as nat),
        decreases states.len() - i,
    {
        assert(state_views(states@)[i as int] == states[i as int]@);
        match &states[i] {
            StateTransitions::Default(block) => {
                let ghost before = crate::syntax::texts(blocks@);
                let copy = copy_of(block);
                blocks.push(copy);
                assert(crate::syntax::texts(blocks@) =~= before.push(copy@));
            },
            StateTransitions::State(_) => {},
        }
        i += 1;
    }
    blocks
}

/// The transition `transition` out of the state `state_path`.
fn make_state_event(state_path: &Path, state_ident: &String, transition: &Transition) -> (r:
    Result<StateEvent, Error>)
    ensures
        match state_event(state_path@, state_ident@, transition@) {
            Ok(found) => r matches Ok(made) && made@ == found,
            Err(e) => r == Err::<StateEvent, Error>(e),
        },
{
    match transition.event_path.last_ident() {
        None => Err(Error::EmptyEventPath),
        Some(event_ident) => match &transition.block {
            TransitionBlock::Block(block) => Ok(
                StateEvent {
                    state_path: state_path.duplicate(),
                    state_ident: copy_of(state_ident),
                    event_path: transition.event_path.duplicate(),
                    event_ident: copy_of(event_ident),
                    block: copy_of(block),
                    target: None,
                },
            ),
            TransitionBlock::Default(target) => {
                if target.last_ident().is_none() {
                    Err(Error::EmptyStatePath)
                } else {
                    Ok(
                        StateEvent {
                            state_path: state_path.duplicate(),
                            state_ident: copy_of(state_ident),
                            event_path: transition.event_path.duplicate(),
                            event_ident: copy_of(event_ident),
                            block: String::new(),
                            target: Some(target.duplicate()),
                        },
                    )
                }
            },
        },
    }
}

/// The declared transitions of the list of states, in order.
fn collect_state_events(states: &Vec<StateTransitions>) -> (r: Result<Vec<StateEvent>, Error>)
    ensures
        match state_events(state_views(states@)) {
            Ok(found) => r matches Ok(made) && state_event_views(made@) == found,
            Err(e) => r == Err::<Vec<StateEvent>, Error>(e),
        },
{
    let mut found: Vec<StateEvent> = Vec::new();
    let mut i: usize = 0;
    assert(state_event_views(found@) =~= Seq::empty());
    while i < states.len()
        invariant
            i <= states.len(),
            state_events(state_views(states@)) == state_events_from(
                state_views(states@),
                i as int,
                state_event_views(found@),
            ),
        decreases states.len() - i,
    {
        assert(state_views(states@)[i as int] == states[i as int]@);
        match &states[i] {
            StateTransitions::Default(_) => {},
            StateTransitions::State(state) => {
                let state_ident = match state.state_path.last_ident() {
                    None => {
                        return Err(Error::EmptyStatePath);
                    },
                    Some(ident) => ident,
                };
                let ghost before = state_event_views(found@);
                let mut j: usize = 0;
                while j < state.transitions.len()
                    invariant
                        j <= state.transitions.len(),
                        i < states.len(),
                        state_views(states@)[i as int] == StateTransitionsView::State(state@),
                        state@.state_path.last_ident() == Some(state_ident@),
                        state_events(state_views(states@)) == state_events_from(
                            state_views(states@),
                            i as int,
                            before,
                        ),
                        group_events(
                            state@.state_path,
                            state_ident@,
                            state@.transitions,
                            0,
                            before,
                        ) == group_events(
                            state@.state_path,
                            state_ident@,
                            state@.transitions,
                            j as int,
                            state_event_views(found@),
                        ),
                    decreases state.transitions.len() - j,
                {
                    assert(state@.transitions[j as int] == state.transitions[j as int]@);
                    match make_state_event(&state.state_path, state_ident, &state.transitions[j]) {
                        Err(e) => {
                            return Err(e);
                        },
                        Ok(next) => {
                            let ghost so_far = state_event_views(found@);
                            found.push(next);
                            assert(state_event_views(found@) =~= so_far.push(next@));
                        },
                    }
                    j += 1;
                }
            },
        }
        i += 1;
    }
    Ok(found)
}

/// The states that have an item in the list of states, followed by the
/// states that `state_events` name.
fn collect_states(states: &Vec<StateTransitions>, state_events: &Vec<StateEvent>) -> (found: Vec<
    Path,
>)
    ensures
        path_views(found@) == listed_states(state_views(states@), states@.len())
            + dispatched_states(state_event_views(state_events@), state_events@.len()),
{
    let mut found: Vec<Path> = Vec::new();
    let mut i: usize = 0;
    assert(path_views(found@) =~= Seq::empty());
    while i < states.len()
        invariant
            i <= states.len(),
            path_views(found@) == listed_states(state_views(states@), i as nat),
        decreases states.len() - i,
    {
        assert(state_views(states@)[i as int] == states[i as int]@);
        match &states[i] {
            StateTransitions::Default(_) => {},
            StateTransitions::State(state) => {
                let ghost before = path_views(found@);
                let source = state.state_path.duplicate();
                found.push(source);
                assert(path_views(found@) =~= before.push(source@));
            },
        }
        i += 1;
    }
    let ghost listed = path_views(found@);
    let mut k: usize = 0;
    assert(listed + Seq::<PathView>::empty() =~= listed);
    while k < state_events.len()
        invariant
            k <= state_events.len(),
            path_views(found@) == listed + dispatched_states(
                state_event_views(state_events@),
                k as nat,
            ),
        decreases state_events.len() - k,
    {
        assert(state_event_views(state_events@)[k as int] == state_events[k as int]@);
        let ghost before = path_views(found@);
        let ghost dispatched = dispatched_states(state_event_views(state_events@), k as nat);
        let source = state_events[k].state_path.duplicate();
        found.push(source);
        assert(path_views(found@) =~= before.push(source@));
        match &state_events[k].target {
            Some(target) => {
                let copy = target.duplicate();
                found.push(copy);
                assert(path_views(found@) =~= before.push(source@).push(copy@));
                assert(before.push(source@).push(copy@) =~= listed + dispatched.push(source@).push(
                    copy@,
                ));
            },
            None => {
                assert(before.push(source@) =~= listed + dispatched.push(source@));
            },
        }
        k += 1;
    }
    found
}

/// The events of `state_events`, followed by `other_events`.
fn collect_events(state_events: &Vec<StateEvent>, other_events: &Vec<Path>) -> (found: Vec<Path>)
    ensures
        path_views(found@) == dispatched_events(
            state_event_views(state_events@),
            state_events@.len(),
        ) + path_views(other_events@),
{
    let mut found: Vec<Path> = Vec::new();
    let mut i: usize = 0;
    assert(path_views(found@) =~= Seq::empty());
    while i < state_events.len()
        invariant
            i <= state_events.len(),
            path_views(found@) == dispatched_events(state_event_views(state_events@), i as nat),
        decreases state_events.len() - i,
    {
        assert(state_event_views(state_events@)[i as int] == state_events[i as int]@);
        let ghost before = path_views(found@);
        let copy = state_events[i].event_path.duplicate();
        found.push(copy);
        assert(path_views(found@) =~= before.push(copy@));
        i += 1;
    }
    let ghost dispatched = path_views(found@);
    let mut k: usize = 0;
    assert(dispatched + path_views(other_events@).take(0) =~= dispatched);
    while k < other_events.len()
        invariant
            k <= other_events.len(),
            path_views(found@) == dispatched + path_views(other_events@).take(k as int),
        decreases other_events.len() - k,
    {
        let ghost before = path_views(found@);
        let copy = other_events[k].duplicate();
        found.push(copy);
        assert(path_views(found@) =~= before.push(copy@));
        assert(path_views(other_events@).take(k + 1) =~= path_views(other_events@).take(
            k as int,
        ).push(other_events[k as int]@));
        assert(path_views(found@) =~= dispatched + path_views(other_events@).take(k + 1));
        k += 1;
    }
    assert(path_views(other_events@).take(other_events@.len() as int) =~= path_views(
        other_events@,
    ));
    found
}

/// The number that `path` has among `paths`.
fn number_in(paths: &Vec<Path>, path: &Path) -> (n: usize)
    ensures
        n == number(path_views(paths@), path@),
{
    match index_in(paths, path) {
        Some(i) => i,
        None => paths.len(),
    }
}

/// The entries of the dispatch table for `state_events`.
fn make_entries(state_events: &Vec<StateEvent>, states: &Vec<Path>, events: &Vec<Path>) -> (made:
    Vec<crate::dispatch::Transition>)
    ensures
        made@ == entries(
            state_event_views(state_events@),
            path_views(states@),
            path_views(events@),
            state_events@.len(),
        ),
{
    let mut made: Vec<crate::dispatch::Transition> = Vec::new();
    let mut i: usize = 0;
    while i < state_events.len()
        invariant
            i <= state_events.len(),
            made@ == entries(
                state_event_views(state_events@),
                path_views(states@),
                path_views(events@),
                i as nat,
            ),
        decreases state_events.len() - i,
    {
        assert(state_event_views(state_events@)[i as int] == state_events[i as int]@);
        let state_event = &state_events[i];
        let computation = match &state_event.target {
            Some(target) => Computation::Default(number_in(states, target)),
            None => Computation::Block,
        };
        made.push(
            crate::dispatch::Transition {
                source: number_in(states, &state_event.state_path),
                event: number_in(events, &state_event.event_path),
                computation,
            },
        );
        i += 1;
    }
    made
}

/// Works out what the list of states `states`, with the further events
/// `other_events`, comes to: the transitions, the states and events of the
/// two sum types, the catch-all, and the dispatch table, which must have no
/// entry twice and, without a catch-all, an entry for every pair.
pub fn synthesize(states: &Vec<StateTransitions>, other_events: &Vec<Path>) -> (r: Result<
    Synthesis,
    Error,
>)
    ensures
        match synthesis_error(state_views(states@), path_views(other_events@)) {
            Some(e) => r == Err::<Synthesis, Error>(e),
            None => r matches Ok(synthesis) && synthesis.is_synthesis_of(
                state_views(states@),
                path_views(other_events@),
            ),
        },
{
    let mut blocks = collect_catch_all(states);
    if blocks.len() > 1 {
        return Err(Error::MultipleCatchAll);
    }
    let state_events = match collect_state_events(states) {
        Err(e) => {
            return Err(e);
        },
        Ok(found) => found,
    };
    let mentioned = collect_states(states, &state_events);
    let state_paths = unique_paths(&mentioned);
    let all_events = collect_events(&state_events, other_events);
    let event_paths = unique_paths(&all_events);
    if !are_all_named(other_events) {
        return Err(Error::EmptyEventPath);
    }
    if has_name_clash(&event_paths) {
        return Err(Error::DuplicateEventName);
    }
    if has_name_clash(&state_paths) {
        return Err(Error::DuplicateStateName);
    }
    let entries = make_entries(&state_events, &state_paths, &event_paths);
    let ghost all_blocks = crate::syntax::texts(blocks@);
    let catch_all = blocks.pop();
    proof {
        if all_blocks.len() == 1 {
            assert(all_blocks =~= seq![catch_all->0@]);
        }
    }
    match DispatchTable::new(state_paths.len(), event_paths.len(), entries, catch_all.is_some()) {
        Err(e) => Err(Error::Table(e)),
        Ok(table) => Ok(
            Synthesis { state_events, states: state_paths, events: event_paths, catch_all, table },
        ),
    }
}

} // verus!

verus! {

/// A path that is among the first `n` paths is among them when each is
/// kept once.
proof fn lemma_unique_keeps(paths: Seq<PathView>, n: nat, path: PathView)
    requires
        n <= paths.len(),
        exists|i: int| 0 <= i < n && paths[i] == path,
    ensures
        unique(paths, n).contains(path),
    decreases n,
{
    let i = choose|i: int| 0 <= i < n && paths[i] == path;
    let before = unique(paths, (n - 1) as nat);
    if i < n - 1 {
        lemma_unique_keeps(paths, (n - 1) as nat, path);
        if !before.contains(paths[n - 1]) {
            let at = choose|at: int| 0 <= at < before.len() && before[at] == path;
            assert(before.push(paths[n - 1])[at] == path);
        }
    } else if !before.contains(paths[n - 1]) {
        assert(before.push(paths[n - 1])[before.len() as int] == path);
    }
}

/// The states that the first `n` transitions name hold the source and the
/// target of each of them.
proof fn lemma_dispatched_states_hold(state_events: Seq<StateEventView>, n: nat, k: int)
    requires
        0 <= k < n <= state_events.len(),
    ensures
        dispatched_states(state_events, n).contains(state_events[k].state_path),
        state_events[k].target matches Some(target) ==> dispatched_states(
            state_events,
            n,
        ).contains(target),
    decreases n,
{
    let before = dispatched_states(state_events, (n - 1) as nat);
    let last = state_events[n - 1];
    let with_source = before.push(last.state_path);
    let all = dispatched_states(state_events, n);
    if k < n - 1 {
        lemma_dispatched_states_hold(state_events, (n - 1) as nat, k);
        let at = choose|at: int|
            0 <= at < before.len() && before[at] == state_events[k].state_path;
        assert(all[at] == state_events[k].state_path);
        if state_events[k].target is Some {
            let target_at = choose|at: int|
                0 <= at < before.len() && before[at] == state_events[k].target->0;
            assert(all[target_at] == state_events[k].target->0);
        }
    } else {
        assert(all[before.len() as int] == last.state_path);
        if last.target is Some {
            assert(all[before.len() as int + 1] == last.target->0);
        }
    }
}

/// The events of the first `n` transitions hold the event of each of them.
proof fn lemma_dispatched_events_hold(state_events: Seq<StateEventView>, n: nat, k: int)
    requires
        0 <= k < n <= state_events.len(),
    ensures
        dispatched_events(state_events, n).contains(state_events[k].event_path),
    decreases n,
{
    let before = dispatched_events(state_events, (n - 1) as nat);
    let all = dispatched_events(state_events, n);
    if k < n - 1 {
        lemma_dispatched_events_hold(state_events, (n - 1) as nat, k);
        let at = choose|at: int|
            0 <= at < before.len() && before[at] == state_events[k].event_path;
        assert(all[at] == state_events[k].event_path);
    } else {
        assert(all[before.len() as int] == state_events[k].event_path);
    }
}

/// A path that is among `paths` has a position among them as its number.
proof fn lemma_number_of_member(paths: Seq<PathView>, path: PathView)
    requires
        paths.contains(path),
        paths.len() <= usize::MAX,
    ensures
        number(paths, path) < paths.len(),
{
    lemma_first_position(paths, path, 0);
    let at = choose|at: int| 0 <= at < paths.len() && paths[at] == path;
    assert(paths[at] == path);
}

/// The dispatch table of a description names only states and events of the
/// description: the source, the event and the target of every transition
/// are among the states and events that the two sum types are made of.
pub proof fn law_table_names_only_what_is_discovered(
    states: Seq<StateTransitionsView>,
    other_events: Seq<PathView>,
    k: int,
)
    requires
        state_events(states) is Ok,
        0 <= k < state_events(states)->Ok_0.len(),
        discovered_states(states, state_events(states)->Ok_0).len() <= usize::MAX,
        discovered_events(state_events(states)->Ok_0, other_events).len() <= usize::MAX,
    ensures
        ({
            let found = state_events(states)->Ok_0;
            let state_paths = discovered_states(states, found);
            let event_paths = discovered_events(found, other_events);
            crate::dispatch::in_range(
                entry(found[k], state_paths, event_paths),
                state_paths.len() as usize,
                event_paths.len() as usize,
            )
        }),
{
    let found = state_events(states)->Ok_0;
    let listed = listed_states(states, states.len());
    let dispatched = dispatched_states(found, found.len());
    let all_states = listed + dispatched;
    let events = dispatched_events(found, found.len());
    let all_events = events + other_events;
    lemma_dispatched_states_hold(found, found.len(), k);
    lemma_dispatched_events_hold(found, found.len(), k);
    let source_at = choose|at: int|
        0 <= at < dispatched.len() && dispatched[at] == found[k].state_path;
    assert(all_states[listed.len() + source_at] == found[k].state_path);
    lemma_unique_keeps(all_states, all_states.len(), found[k].state_path);
    lemma_number_of_member(discovered_states(states, found), found[k].state_path);
    let event_at = choose|at: int| 0 <= at < events.len() && events[at] == found[k].event_path;
    assert(all_events[event_at] == found[k].event_path);
    lemma_unique_keeps(all_events, all_events.len(), found[k].event_path);
    lemma_number_of_member(discovered_events(found, other_events), found[k].event_path);
    if found[k].target is Some {
        let target = found[k].target->0;
        let target_at = choose|at: int| 0 <= at < dispatched.len() && dispatched[at] == target;
        assert(all_states[listed.len() + target_at] == target);
        lemma_unique_keeps(all_states, all_states.len(), target);
        lemma_number_of_member(discovered_states(states, found), target);
    }
}

/// The entry at `i` of the table of the first `n` transitions is the entry
/// of the transition at `i`.
proof fn lemma_entries_index(
    state_events: Seq<StateEventView>,
    states: Seq<PathView>,
    events: Seq<PathView>,
    n: nat,
    i: int,
)
    requires
        0 <= i < n,
    ensures
        entries(state_events, states, events, n).len() == n,
        entries(state_events, states, events, n)[i] == entry(state_events[i], states, events),
    decreases n,
{
    lemma_entries_len(state_events, states, events, (n - 1) as nat);
    if i < n - 1 {
        lemma_entries_index(state_events, states, events, (n - 1) as nat, i);
    }
}

/// The table of the first `n` transitions has `n` entries.
proof fn lemma_entries_len(
    state_events: Seq<StateEventView>,
    states: Seq<PathView>,
    events: Seq<PathView>,
    n: nat,
)
    ensures
        entries(state_events, states, events, n).len() == n,
    decreases n,
{
    if n > 0 {
        lemma_entries_len(state_events, states, events, (n - 1) as nat);
    }
}

/// No description is refused because a transition names an unknown state
/// or event: what a transition names is discovered with it.
pub proof fn law_no_transition_is_out_of_range(
    states: Seq<StateTransitionsView>,
    other_events: Seq<PathView>,
)
    requires
        state_events(states) is Ok,
        state_events(states)->Ok_0.len() <= usize::MAX,
        discovered_states(states, state_events(states)->Ok_0).len() <= usize::MAX,
        discovered_events(state_events(states)->Ok_0, other_events).len() <= usize::MAX,
    ensures
        !(synthesis_error(states, other_events) matches Some(
            Error::Table(crate::dispatch::TableError::OutOfRange(_)),
        )),
{
    let found = state_events(states)->Ok_0;
    let state_paths = discovered_states(states, found);
    let event_paths = discovered_events(found, other_events);
    let table = entries(found, state_paths, event_paths, found.len());
    let catch_all = catch_all_blocks(states, states.len()).len() == 1;
    lemma_entries_len(found, state_paths, event_paths, found.len());
    crate::dispatch::lemma_out_of_range(
        table,
        state_paths.len() as usize,
        event_paths.len() as usize,
        catch_all,
        0,
    );
    assert forall|i: int| 0 <= i < table.len() implies crate::dispatch::in_range(
        #[trigger] table[i],
        state_paths.len() as usize,
        event_paths.len() as usize,
    ) by {
        lemma_entries_index(found, state_paths, event_paths, found.len(), i);
        law_table_names_only_what_is_discovered(states, other_events, i);
    }
}

/// The names of the variants that hold values of `paths`.
pub open spec fn variant_names_of(paths: Seq<PathView>) -> Seq<Seq<char>> {
    Seq::new(paths.len(), |i: int| crate::expansion::variant_name(paths[i]))
}

/// There are as many names as paths.
pub proof fn lemma_variant_names_len(paths: Seq<PathView>)
    ensures
        variant_names_of(paths).len() == paths.len(),
{
}

/// Whether `names` are the names of the variants that hold values of
/// `paths`, in order.
pub fn same_names(names: &Vec<String>, paths: &Vec<Path>) -> (same: bool)
    ensures
        same == (crate::syntax::texts(names@) == variant_names_of(path_views(paths@))),
{
    if names.len() != paths.len() {
        assert(crate::syntax::texts(names@).len() != variant_names_of(path_views(paths@)).len());
        return false;
    }
    let mut i: usize = 0;
    while i < names.len()
        invariant
            i <= names.len() == paths.len(),
            forall|k: int|
                0 <= k < i ==> crate::syntax::texts(names@)[k] == variant_names_of(
                    path_views(paths@),
                )[k],
        decreases names.len() - i,
    {
        let name = crate::expansion::variant_ident(&paths[i]);
        assert(path_views(paths@)[i as int] == paths[i as int]@);
        assert(crate::syntax::texts(names@)[i as int] == names[i as int]@);
        if !crate::text::same_text(names[i].as_str(), name.as_str()) {
            assert(crate::syntax::texts(names@)[i as int] != variant_names_of(
                path_views(paths@),
            )[i as int]);
            return false;
        }
        i += 1;
    }
    assert(crate::syntax::texts(names@) =~= variant_names_of(path_views(paths@)));
    true
}

/// Among the paths that are kept once each, no path stands twice, and each
/// is one of the paths that were given.
pub proof fn law_unique_has_no_repetition(paths: Seq<PathView>, n: nat)
    requires
        n <= paths.len(),
    ensures
        forall|i: int, j: int|
            0 <= i < j < unique(paths, n).len() ==> unique(paths, n)[i] != unique(paths, n)[j],
        forall|i: int| 0 <= i < unique(paths, n).len() ==> paths.contains(unique(paths, n)[i]),
    decreases n,
{
    if n > 0 {
        law_unique_has_no_repetition(paths, (n - 1) as nat);
        let before = unique(paths, (n - 1) as nat);
        let kept = unique(paths, n);
        assert(paths[n - 1] == paths[n - 1]);
        assert forall|i: int, j: int| 0 <= i < j < kept.len() implies kept[i] != kept[j] by {
            if j == before.len() {
                assert(before[i] == kept[i]);
                assert(!before.contains(paths[n - 1]));
            }
        }
        assert forall|i: int| 0 <= i < kept.len() implies paths.contains(kept[i]) by {
            if i == before.len() {
                assert(paths[n - 1] == kept[i]);
            }
        }
    }
}

} // verus!
