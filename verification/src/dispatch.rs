//! The dispatch table of an event-driven machine: which computation each
//! (state, event) pair selects, and which pairs fall to the catch-all.

use vstd::prelude::*;

verus! {

/// What a declared transition computes.
#[derive(Clone, Copy, Debug, PartialEq, Eq)]
pub enum Computation {
    /// An explicit block of logic that produces the next state.
    Block,
    /// The target state, built by its default-construction rule.
    Default(usize),
}

/// One declared transition: in state `source`, on `event`, run `computation`.
/// States and events are named by their position in the sum types.
#[derive(Clone, Copy, Debug, PartialEq, Eq)]
pub struct Transition {
    pub source: usize,
    pub event: usize,
    pub computation: Computation,
}

/// The outcome of looking a (state, event) pair up.
#[derive(Clone, Copy, Debug, PartialEq, Eq)]
pub enum Resolved {
    /// The explicit block of the entry at this position of the table.
    Block(usize),
    /// Default construction of this target state.
    Default(usize),
    /// No entry names the pair: the catch-all computes the next state.
    CatchAll,
}

/// Why a set of transitions is not a dispatch table.
#[derive(Clone, Copy, Debug, PartialEq, Eq)]
pub enum TableError {
    /// The entry at this position names a state, an event or a target that
    /// the sum types do not have.
    OutOfRange(usize),
    /// The entry at this position repeats the pair of an earlier entry.
    Duplicate(usize),
    /// No entry names this (state, event) pair and there is no catch-all.
    Gap(usize, usize),
}

/// A validated transition table over `states` state variants and `events`
/// event variants.
pub struct DispatchTable {
    states: usize,
    events: usize,
    entries: Vec<Transition>,
    catch_all: bool,
}

/// Whether `entry` names only variants that exist.
pub open spec fn in_range(entry: Transition, states: usize, events: usize) -> bool {
    &&& entry.source < states
    &&& entry.event < events
    &&& entry.computation matches Computation::Default(target) ==> target < states
}

/// Whether the entry at `i` names the pair (`state`, `event`).
pub open spec fn names(entries: Seq<Transition>, i: int, state: usize, event: usize) -> bool {
    entries[i].source == state && entries[i].event == event
}

/// Whether some entry names the pair (`state`, `event`).
pub open spec fn has_entry(entries: Seq<Transition>, state: usize, event: usize) -> bool {
    exists|i: int| 0 <= i < entries.len() && names(entries, i, state, event)
}

/// Whether an entry before `i` names the same pair as the entry at `i`.
pub open spec fn repeats(entries: Seq<Transition>, i: int) -> bool {
    exists|k: int| 0 <= k < i && names(entries, k, entries[i].source, entries[i].event)
}

/// What is wrong with the entry at `i`, if anything.
pub open spec fn entry_error(entries: Seq<Transition>, states: usize, events: usize, i: int)
    -> Option<TableError> {
    if !in_range(entries[i], states, events) {
        Some(TableError::OutOfRange(i as usize))
    } else if repeats(entries, i) {
        Some(TableError::Duplicate(i as usize))
    } else {
        None
    }
}

/// The error of the first faulty entry at or after `from`.
pub open spec fn first_entry_error(
    entries: Seq<Transition>,
    states: usize,
    events: usize,
    from: int,
) -> Option<TableError>
    decreases entries.len() - from,
{
    if from < 0 || from >= entries.len() {
        None
    } else if entry_error(entries, states, events, from) is Some {
        entry_error(entries, states, events, from)
    } else {
        first_entry_error(entries, states, events, from + 1)
    }
}

/// The first pair without an entry, going through the states in order and,
/// for each state, through the events in order, from (`state`, `event`) on.
pub open spec fn first_gap(
    entries: Seq<Transition>,
    states: usize,
    events: usize,
    state: int,
    event: int,
) -> Option<TableError>
    decreases states - state, events - event,
{
    if state < 0 || event < 0 || state >= states {
        None
    } else if event >= events {
        first_gap(entries, states, events, state + 1, 0)
    } else if !has_entry(entries, state as usize, event as usize) {
        Some(TableError::Gap(state as usize, event as usize))
    } else {
        first_gap(entries, states, events, state, event + 1)
    }
}

/// The verdict on a set of transitions: the first faulty entry, else the
/// first uncovered pair where no catch-all is declared, else none.
pub open spec fn table_error(
    entries: Seq<Transition>,
    states: usize,
    events: usize,
    catch_all: bool,
) -> Option<TableError> {
    if first_entry_error(entries, states, events, 0) is Some {
        first_entry_error(entries, states, events, 0)
    } else if catch_all {
        None
    } else {
        first_gap(entries, states, events, 0, 0)
    }
}

/// The position of the first entry at or after `from` that names the pair.
pub open spec fn find_entry(entries: Seq<Transition>, state: usize, event: usize, from: int)
    -> Option<int>
    decreases entries.len() - from,
{
    if from < 0 || from >= entries.len() {
        None
    } else if names(entries, from, state, event) {
        Some(from)
    } else {
        find_entry(entries, state, event, from + 1)
    }
}

/// What the pair (`state`, `event`) selects: its entry where it has one,
/// else the catch-all where one is declared.
pub open spec fn resolve(entries: Seq<Transition>, catch_all: bool, state: usize, event: usize)
    -> Option<Resolved> {
    match find_entry(entries, state, event, 0) {
        Some(i) => match entries[i].computation {
            Computation::Block => Some(Resolved::Block(i as usize)),
            Computation::Default(target) => Some(Resolved::Default(target)),
        },
        None => if catch_all {
            Some(Resolved::CatchAll)
        } else {
            None
        },
    }
}

/// `find_entry` finds an entry exactly when one names the pair.
pub proof fn lemma_find_entry(entries: Seq<Transition>, state: usize, event: usize, from: int)
    requires
        0 <= from,
    ensures
        match find_entry(entries, state, event, from) {
            Some(i) => from <= i < entries.len() && names(entries, i, state, event)
                && forall|k: int| from <= k < i ==> !names(entries, k, state, event),
            None => forall|k: int| from <= k < entries.len() ==> !names(entries, k, state, event),
        },
    decreases entries.len() - from,
{
    if from < entries.len() && !names(entries, from, state, event) {
        lemma_find_entry(entries, state, event, from + 1);
    }
}

/// Where no entry is faulty from `from` on, every entry from there on is in
/// range and repeats no earlier pair.
pub proof fn lemma_no_entry_error(entries: Seq<Transition>, states: usize, events: usize, from: int)
    requires
        0 <= from,
        first_entry_error(entries, states, events, from) is None,
    ensures
        forall|i: int|
            from <= i < entries.len() ==> in_range(#[trigger] entries[i], states, events)
                && !repeats(entries, i),
    decreases entries.len() - from,
{
    if from < entries.len() {
        lemma_no_entry_error(entries, states, events, from + 1);
        assert forall|i: int| from <= i < entries.len() implies in_range(
            #[trigger] entries[i],
            states,
            events,
        ) && !repeats(entries, i) by {
            if i == from {
                assert(entry_error(entries, states, events, from) is None);
            }
        }
    }
}

/// An entry that is reported out of range is out of range.
pub proof fn lemma_out_of_range(
    entries: Seq<Transition>,
    states: usize,
    events: usize,
    catch_all: bool,
    from: int,
)
    requires
        0 <= from,
        entries.len() <= usize::MAX,
    ensures
        first_entry_error(entries, states, events, from) matches Some(TableError::OutOfRange(i))
            ==> from <= i < entries.len() && !in_range(entries[i as int], states, events),
        from == 0 ==> (table_error(entries, states, events, catch_all) matches Some(
            TableError::OutOfRange(i),
        ) ==> i < entries.len() && !in_range(entries[i as int], states, events)),
    decreases entries.len() - from,
{
    if from < entries.len() {
        lemma_out_of_range(entries, states, events, catch_all, from + 1);
    }
    if from == 0 {
        lemma_gap_is_a_gap(entries, states, events, 0, 0);
    }
}

/// The search for an uncovered pair reports nothing but such a pair.
proof fn lemma_gap_is_a_gap(
    entries: Seq<Transition>,
    states: usize,
    events: usize,
    state: int,
    event: int,
)
    ensures
        first_gap(entries, states, events, state, event) is Some ==> first_gap(
            entries,
            states,
            events,
            state,
            event,
        )->0 is Gap,
    decreases states - state, events - event,
{
    if 0 <= state < states && 0 <= event {
        if event >= events {
            lemma_gap_is_a_gap(entries, states, events, state + 1, 0);
        } else if has_entry(entries, state as usize, event as usize) {
            lemma_gap_is_a_gap(entries, states, events, state, event + 1);
        }
    }
}

/// Where no pair is uncovered from (`state`, `event`) on, every pair from
/// there on has an entry.
pub proof fn lemma_no_gap(
    entries: Seq<Transition>,
    states: usize,
    events: usize,
    state: int,
    event: int,
)
    requires
        0 <= state,
        0 <= event,
        first_gap(entries, states, events, state, event) is None,
    ensures
        forall|s: usize, e: usize|
            s < states && e < events && (s == state && event <= e || state < s)
                ==> #[trigger] has_entry(entries, s, e),
    decreases states - state, events - event,
{
    if state < states {
        if event >= events {
            lemma_no_gap(entries, states, events, state + 1, 0);
        } else {
            lemma_no_gap(entries, states, events, state, event + 1);
        }
        assert forall|s: usize, e: usize|
            s < states && e < events && (s == state && event <= e || state < s)
            implies #[trigger] has_entry(entries, s, e) by {
            if s == state && e == event {
                assert(has_entry(entries, state as usize, event as usize));
            }
        }
    }
}

impl DispatchTable {
    /// The number of state variants.
    pub closed spec fn states(&self) -> usize {
        self.states
    }

    /// The number of event variants.
    pub closed spec fn events(&self) -> usize {
        self.events
    }

    /// The declared transitions, in declaration order.
    pub closed spec fn entries(&self) -> Seq<Transition> {
        self.entries@
    }

    /// Whether a catch-all is declared.
    pub closed spec fn catch_all(&self) -> bool {
        self.catch_all
    }

    /// Every entry names existing variants, no pair is declared twice, and
    /// every pair is covered by an entry or by the catch-all.
    pub open spec fn wf(&self) -> bool {
        table_error(self.entries(), self.states(), self.events(), self.catch_all()) is None
    }

    /// What the pair (`state`, `event`) selects in this table.
    pub open spec fn resolve_spec(&self, state: usize, event: usize) -> Option<Resolved> {
        resolve(self.entries(), self.catch_all(), state, event)
    }

    /// Validates `entries` as the transition table of a machine with
    /// `states` state variants and `events` event variants.
    pub fn new(states: usize, events: usize, entries: Vec<Transition>, catch_all: bool) -> (r:
        Result<DispatchTable, TableError>)
        ensures
            match r {
                Ok(table) => {
                    &&& table_error(entries@, states, events, catch_all) is None
                    &&& table.wf()
                    &&& table.states() == states
                    &&& table.events() == events
                    &&& table.entries() == entries@
                    &&& table.catch_all() == catch_all
                },
                Err(e) => table_error(entries@, states, events, catch_all) == Some(e),
            },
    {
        let mut i: usize = 0;
        while i < entries.len()
            invariant
                i <= entries.len(),
                first_entry_error(entries@, states, events, 0) == first_entry_error(
                    entries@,
                    states,
                    events,
                    i as int,
                ),
            decreases entries.len() - i,
        {
            let entry = entries[i];
            let target_ok = match entry.computation {
                Computation::Block => true,
                Computation::Default(target) => target < states,
            };
            if !(entry.source < states && entry.event < events && target_ok) {
                return Err(TableError::OutOfRange(i));
            }
            if position(&entries, i, entry.source, entry.event).is_some() {
                return Err(TableError::Duplicate(i));
            }
            i += 1;
        }
        if !catch_all {
            let mut state: usize = 0;
            while state < states
                invariant
                    state <= states,
                    !catch_all,
                    first_entry_error(entries@, states, events, 0) is None,
                    first_gap(entries@, states, events, 0, 0) == first_gap(
                        entries@,
                        states,
                        events,
                        state as int,
                        0,
                    ),
                decreases states - state,
            {
                let mut event: usize = 0;
                while event < events
                    invariant
                        state < states,
                        event <= events,
                        !catch_all,
                        first_entry_error(entries@, states, events, 0) is None,
                        first_gap(entries@, states, events, 0, 0) == first_gap(
                            entries@,
                            states,
                            events,
                            state as int,
                            event as int,
                        ),
                    decreases events - event,
                {
                    if position(&entries, entries.len(), state, event).is_none() {
                        return Err(TableError::Gap(state, event));
                    }
                    event += 1;
                }
                state += 1;
            }
        }
        Ok(DispatchTable { states, events, entries, catch_all })
    }

    /// Looks the pair (`state`, `event`) up: its entry where it has one, else
    /// the catch-all where one is declared.
    pub fn resolve(&self, state: usize, event: usize) -> (r: Option<Resolved>)
        ensures
            r == self.resolve_spec(state, event),
            self.wf() && state < self.states() && event < self.events() ==> r is Some,
    {
        proof {
            lemma_find_entry(self.entries@, state, event, 0);
            if self.wf() && state < self.states() && event < self.events() && !self.catch_all {
                lemma_no_gap(self.entries@, self.states, self.events, 0, 0);
                assert(has_entry(self.entries@, state, event));
            }
        }
        match position(&self.entries, self.entries.len(), state, event) {
            Some(i) => match self.entries[i].computation {
                Computation::Block => Some(Resolved::Block(i)),
                Computation::Default(target) => Some(Resolved::Default(target)),
            },
            None => if self.catch_all {
                Some(Resolved::CatchAll)
            } else {
                None
            },
        }
    }
}

/// The position of the first of the first `end` entries that names the pair
/// (`state`, `event`).
fn position(entries: &Vec<Transition>, end: usize, state: usize, event: usize) -> (r: Option<
    usize,
>)
    requires
        end <= entries.len(),
    ensures
        match r {
            Some(i) => i < end && names(entries@, i as int, state, event) && forall|k: int|
                0 <= k < i ==> !names(entries@, k, state, event),
            None => forall|k: int| 0 <= k < end ==> !names(entries@, k, state, event),
        },
{
    let mut k: usize = 0;
    while k < end
        invariant
            k <= end <= entries.len(),
            forall|j: int| 0 <= j < k ==> !names(entries@, j, state, event),
        decreases end - k,
    {
        if entries[k].source == state && entries[k].event == event {
            return Some(k);
        }
        k += 1;
    }
    None
}

/// In a table with a catch-all, the catch-all computes the next state for
/// exactly the pairs that no entry names, and a pair that an entry names
/// always selects the computation of that entry.
pub proof fn law_catch_all_covers_exactly_the_undeclared(
    table: DispatchTable,
    state: usize,
    event: usize,
)
    requires
        table.wf(),
        table.catch_all(),
    ensures
        table.resolve_spec(state, event) == Some(Resolved::CatchAll) <==> !has_entry(
            table.entries(),
            state,
            event,
        ),
        forall|i: int|
            0 <= i < table.entries().len() && names(table.entries(), i, state, event) ==> (
            table.resolve_spec(state, event) == Some(
                match table.entries()[i].computation {
                    Computation::Block => Resolved::Block(i as usize),
                    Computation::Default(target) => Resolved::Default(target),
                },
            )),
{
    let entries = table.entries();
    lemma_find_entry(entries, state, event, 0);
    lemma_no_entry_error(entries, table.states(), table.events(), 0);
    assert forall|i: int| 0 <= i < entries.len() && names(entries, i, state, event) implies (
    table.resolve_spec(state, event) == Some(
        match entries[i].computation {
            Computation::Block => Resolved::Block(i as usize),
            Computation::Default(target) => Resolved::Default(target),
        },
    )) by {
        let found = find_entry(entries, state, event, 0)->0;
        if found < i {
            assert(names(entries, found, entries[i].source, entries[i].event));
            assert(repeats(entries, i));
        }
    }
}

} // verus!
