use machine_factory::dispatch::{Computation, DispatchTable, Resolved, TableError, Transition};
use machine_factory::event_driven::{EventTrait, Machine, StateTrait, Transitions};
use std::cell::RefCell;

/// A context that records the name of every hook and computation that runs.
struct Journal {
    calls: RefCell<Vec<String>>,
    open: bool,
}

impl Journal {
    fn new(open: bool) -> Self {
        Journal { calls: RefCell::new(Vec::new()), open }
    }

    fn note(&self, call: &str) {
        self.calls.borrow_mut().push(call.to_string());
    }

    fn calls(&self) -> Vec<String> {
        self.calls.borrow().clone()
    }
}

#[derive(Debug, Clone, Copy, PartialEq, Eq)]
enum Step {
    First,
    Second,
    Third,
}

#[derive(Debug, Clone, Copy, PartialEq, Eq)]
enum Signal {
    Advance,
    Reset,
    Ping,
}

impl EventTrait<Journal> for Signal {
    fn names() -> Vec<String> {
        ["Advance", "Reset", "Ping"].iter().map(|name| name.to_string()).collect()
    }

    fn variant(&self) -> usize {
        match self {
            Signal::Advance => 0,
            Signal::Reset => 1,
            Signal::Ping => 2,
        }
    }

    fn pre_transition(&mut self, context: &mut Journal) {
        context.note("pre_transition");
    }

    fn post_transition(&mut self, context: &mut Journal) {
        context.note("post_transition");
    }
}

impl StateTrait for Step {
    type Context = Journal;
    type Event = Signal;

    fn names() -> Vec<String> {
        ["First", "Second", "Third"].iter().map(|name| name.to_string()).collect()
    }

    fn variant(&self) -> usize {
        match self {
            Step::First => 0,
            Step::Second => 1,
            Step::Third => 2,
        }
    }

    fn should_exit(&self, context: &Journal, _event: &Signal) -> bool {
        context.note("should_exit");
        context.open
    }

    fn on_exit(&mut self, context: &mut Journal) {
        context.note("on_exit");
    }

    fn on_enter(&mut self, context: &mut Journal) {
        context.note("on_enter");
    }
}

struct Bodies;

impl Transitions<Step> for Bodies {
    fn block(&self, entry: usize, _state: Step, _event: &mut Signal, context: &mut Journal) -> Step {
        context.note(&format!("block {}", entry));
        match entry {
            0 => Step::Second,
            _ => Step::default_of(2),
        }
    }

    fn catch_all(&self, state: Step, _event: &mut Signal, context: &mut Journal) -> Step {
        context.note("catch_all");
        state
    }

    fn default_state(&self, target: usize) -> Step {
        Step::default_of(target)
    }
}

impl Step {
    fn default_of(target: usize) -> Step {
        match target {
            0 => Step::First,
            1 => Step::Second,
            _ => Step::Third,
        }
    }
}

fn entries(second_to_third: Computation) -> Vec<Transition> {
    vec![
        Transition { source: 0, event: 0, computation: Computation::Block },
        Transition { source: 1, event: 0, computation: second_to_third },
        Transition { source: 2, event: 1, computation: Computation::Default(0) },
    ]
}

fn machine(start: Step, open: bool, second_to_third: Computation) -> Machine<Step, Bodies> {
    let table = DispatchTable::new(3, 3, entries(second_to_third), true).expect("a table");
    Machine::new(start, Journal::new(open), table, Bodies)
}

#[test]
fn a_refused_event_runs_no_hook_and_changes_nothing() {
    let mut machine = machine(Step::First, false, Computation::Default(2));
    machine.handle_event(Signal::Advance);
    assert_eq!(*machine.state(), Step::First);
    assert_eq!(machine.context().calls(), vec!["should_exit"]);
    machine.handle_event(Signal::Ping).handle_event(Signal::Reset);
    assert_eq!(*machine.state(), Step::First);
    assert_eq!(machine.context().calls(), vec!["should_exit", "should_exit", "should_exit"]);
}

#[test]
fn the_hooks_run_in_the_order_of_the_protocol() {
    let mut machine = machine(Step::First, true, Computation::Default(2));
    machine.handle_event(Signal::Advance);
    assert_eq!(*machine.state(), Step::Second);
    assert_eq!(
        machine.context().calls(),
        vec!["should_exit", "on_exit", "pre_transition", "block 0", "post_transition", "on_enter"]
    );
}

#[test]
fn the_hooks_run_round_the_catch_all_too() {
    let mut machine = machine(Step::First, true, Computation::Default(2));
    machine.dispatch(Signal::Ping);
    assert_eq!(*machine.state(), Step::First);
    assert_eq!(
        machine.context().calls(),
        vec!["should_exit", "on_exit", "pre_transition", "catch_all", "post_transition", "on_enter"]
    );
}

#[test]
fn the_sugar_and_the_block_that_builds_the_default_agree() {
    let mut sugar = machine(Step::Second, true, Computation::Default(2));
    let mut explicit = machine(Step::Second, true, Computation::Block);
    sugar.handle_event(Signal::Advance);
    explicit.handle_event(Signal::Advance);
    assert_eq!(*sugar.state(), Step::Third);
    assert_eq!(sugar.state(), explicit.state());
    let hooks = |calls: Vec<String>| -> Vec<String> {
        calls.into_iter().filter(|call| !call.starts_with("block")).collect()
    };
    assert_eq!(hooks(sugar.context().calls()), hooks(explicit.context().calls()));
    assert_eq!(
        sugar.context().calls(),
        vec!["should_exit", "on_exit", "pre_transition", "post_transition", "on_enter"]
    );
}

#[test]
fn the_catch_all_takes_exactly_the_pairs_without_an_entry() {
    let table = DispatchTable::new(3, 3, entries(Computation::Default(2)), true).expect("a table");
    for state in 0..3 {
        for event in 0..3 {
            let declared = entries(Computation::Default(2))
                .iter()
                .any(|entry| entry.source == state && entry.event == event);
            let resolved = table.resolve(state, event).expect("every pair resolves");
            assert_eq!(resolved == Resolved::CatchAll, !declared);
        }
    }
    assert_eq!(table.resolve(0, 0), Some(Resolved::Block(0)));
    assert_eq!(table.resolve(1, 0), Some(Resolved::Default(2)));
    assert_eq!(table.resolve(2, 1), Some(Resolved::Default(0)));
    assert_eq!(table.resolve(2, 0), Some(Resolved::CatchAll));
}

#[test]
fn a_table_without_a_catch_all_must_cover_every_pair() {
    assert_eq!(
        DispatchTable::new(3, 3, entries(Computation::Block), false).err(),
        Some(TableError::Gap(0, 1))
    );
    let full = vec![
        Transition { source: 0, event: 0, computation: Computation::Block },
        Transition { source: 0, event: 1, computation: Computation::Default(1) },
        Transition { source: 1, event: 1, computation: Computation::Block },
        Transition { source: 1, event: 0, computation: Computation::Default(0) },
    ];
    let table = DispatchTable::new(2, 2, full, false).expect("every pair has an entry");
    assert_eq!(table.resolve(1, 0), Some(Resolved::Default(0)));
    assert_eq!(table.resolve(1, 1), Some(Resolved::Block(2)));
    assert_eq!(table.resolve(2, 0), None);
}

#[test]
fn a_table_has_no_pair_twice_and_names_only_what_exists() {
    let twice = vec![
        Transition { source: 0, event: 0, computation: Computation::Block },
        Transition { source: 1, event: 0, computation: Computation::Block },
        Transition { source: 0, event: 0, computation: Computation::Default(1) },
    ];
    assert_eq!(DispatchTable::new(2, 1, twice, true).err(), Some(TableError::Duplicate(2)));
    let unknown_state = vec![Transition { source: 2, event: 0, computation: Computation::Block }];
    assert_eq!(DispatchTable::new(2, 1, unknown_state, true).err(), Some(TableError::OutOfRange(0)));
    let unknown_event = vec![
        Transition { source: 0, event: 0, computation: Computation::Block },
        Transition { source: 1, event: 1, computation: Computation::Block },
    ];
    assert_eq!(DispatchTable::new(2, 1, unknown_event, true).err(), Some(TableError::OutOfRange(1)));
    let unknown_target = vec![Transition { source: 0, event: 0, computation: Computation::Default(2) }];
    assert_eq!(DispatchTable::new(2, 1, unknown_target, true).err(), Some(TableError::OutOfRange(0)));
    assert!(DispatchTable::new(0, 0, Vec::new(), false).is_ok());
}
