use machine_factory::dispatch::{Computation, DispatchTable, Transition};
use machine_factory::event_driven::{EventTrait, Machine, StateTrait, Transitions};
use machine_factory::trace::{Call, Recorded, RecordedEvent, RecordedState, RecordedTransitions};

#[derive(Debug, Clone, Copy, PartialEq, Eq)]
enum Door {
    Open,
    Closed,
    Locked,
}

#[derive(Debug, Clone, Copy, PartialEq, Eq)]
enum Action {
    Push,
    Turn,
    Knock,
}

impl EventTrait<u32> for Action {
    fn names() -> Vec<String> {
        ["Push", "Turn", "Knock"].iter().map(|name| name.to_string()).collect()
    }

    fn variant(&self) -> usize {
        *self as usize
    }

    fn pre_transition(&mut self, context: &mut u32) {
        *context += 1;
    }

    fn post_transition(&mut self, context: &mut u32) {
        *context += 10;
    }
}

impl StateTrait for Door {
    type Context = u32;
    type Event = Action;

    fn names() -> Vec<String> {
        ["Open", "Closed", "Locked"].iter().map(|name| name.to_string()).collect()
    }

    fn variant(&self) -> usize {
        *self as usize
    }

    fn should_exit(&self, _context: &u32, event: &Action) -> bool {
        !(*self == Door::Locked && *event == Action::Push)
    }

    fn on_exit(&mut self, context: &mut u32) {
        *context += 100;
    }

    fn on_enter(&mut self, context: &mut u32) {
        *context += 1000;
    }
}

struct DoorLogic;

impl Transitions<Door> for DoorLogic {
    fn block(&self, _entry: usize, _state: Door, _event: &mut Action, _context: &mut u32) -> Door {
        Door::Locked
    }

    fn catch_all(&self, state: Door, _event: &mut Action, _context: &mut u32) -> Door {
        state
    }

    fn default_state(&self, target: usize) -> Door {
        [Door::Open, Door::Closed, Door::Locked][target]
    }
}

fn door(start: Door) -> Machine<RecordedState<Door>, RecordedTransitions<DoorLogic>> {
    let table = DispatchTable::new(
        3,
        3,
        vec![
            Transition { source: 0, event: 0, computation: Computation::Default(1) },
            Transition { source: 1, event: 0, computation: Computation::Default(0) },
            Transition { source: 1, event: 1, computation: Computation::Block },
            Transition { source: 2, event: 1, computation: Computation::Default(1) },
        ],
        true,
    )
    .expect("a table");
    Machine::new(
        RecordedState { state: start },
        Recorded { context: 0, calls: Vec::new() },
        table,
        RecordedTransitions { transitions: DoorLogic },
    )
}

#[test]
fn the_record_of_the_sugar_holds_the_four_hooks() {
    let mut door = door(Door::Open);
    door.handle_event(RecordedEvent { event: Action::Push });
    assert_eq!(door.state().state, Door::Closed);
    assert_eq!(
        door.context().calls,
        vec![Call::OnExit, Call::PreTransition, Call::PostTransition, Call::OnEnter]
    );
    assert_eq!(door.context().context, 1111);
}

#[test]
fn the_record_of_a_block_names_its_entry() {
    let mut door = door(Door::Closed);
    door.handle_event(RecordedEvent { event: Action::Turn });
    assert_eq!(door.state().state, Door::Locked);
    assert_eq!(
        door.context().calls,
        vec![Call::OnExit, Call::PreTransition, Call::Block(2), Call::PostTransition, Call::OnEnter]
    );
}

#[test]
fn the_record_of_the_catch_all() {
    let mut door = door(Door::Open);
    door.handle_event(RecordedEvent { event: Action::Knock });
    assert_eq!(door.state().state, Door::Open);
    assert_eq!(
        door.context().calls,
        vec![Call::OnExit, Call::PreTransition, Call::CatchAll, Call::PostTransition, Call::OnEnter]
    );
}

#[test]
fn a_refused_event_leaves_no_record() {
    let mut door = door(Door::Locked);
    door.handle_event(RecordedEvent { event: Action::Push });
    assert_eq!(door.state().state, Door::Locked);
    assert!(door.context().calls.is_empty());
    assert_eq!(door.context().context, 0);
    door.handle_event(RecordedEvent { event: Action::Turn })
        .handle_event(RecordedEvent { event: Action::Push });
    assert_eq!(door.state().state, Door::Open);
    assert_eq!(door.context().calls.len(), 8);
    assert_eq!(door.context().context, 2222);
}
