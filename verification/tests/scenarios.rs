use machine_factory::dispatch::{Computation, DispatchTable, Transition};
use machine_factory::event_driven::{EventTrait, Machine, StateTrait, Transitions};

// A traffic light that an emergency can override.

#[derive(Debug, Clone, Copy, PartialEq, Eq)]
enum Color {
    Red,
    Yellow,
    Green,
}

#[derive(Debug, Default)]
struct LightContext {
    cars_count: u32,
    in_emergency: bool,
}

#[derive(Debug, Clone, PartialEq, Eq)]
enum LightEvent {
    Next,
    Emergency { requested_color: Color },
    CarPassed { emergency_vehicle: bool },
}

impl EventTrait<LightContext> for LightEvent {
    fn names() -> Vec<String> {
        ["Next", "Emergency", "CarPassed"].iter().map(|name| name.to_string()).collect()
    }

    fn variant(&self) -> usize {
        match self {
            LightEvent::Next => 0,
            LightEvent::Emergency { .. } => 1,
            LightEvent::CarPassed { .. } => 2,
        }
    }

    fn pre_transition(&mut self, context: &mut LightContext) {
        if let LightEvent::CarPassed { .. } = self {
            context.cars_count += 1;
        }
    }

    fn post_transition(&mut self, context: &mut LightContext) {
        if let LightEvent::CarPassed { emergency_vehicle: true } = self {
            context.in_emergency = false;
        }
    }
}

impl StateTrait for Color {
    type Context = LightContext;
    type Event = LightEvent;

    fn names() -> Vec<String> {
        ["Red", "Yellow", "Green"].iter().map(|name| name.to_string()).collect()
    }

    fn variant(&self) -> usize {
        match self {
            Color::Red => 0,
            Color::Yellow => 1,
            Color::Green => 2,
        }
    }

    fn should_exit(&self, context: &LightContext, event: &LightEvent) -> bool {
        if context.in_emergency {
            return matches!(
                event,
                LightEvent::CarPassed { emergency_vehicle: true } | LightEvent::Emergency { .. }
            );
        }
        true
    }

    fn on_exit(&mut self, _context: &mut LightContext) {}

    fn on_enter(&mut self, _context: &mut LightContext) {}
}

struct LightBlocks;

impl Transitions<Color> for LightBlocks {
    fn block(&self, _entry: usize, state: Color, _event: &mut LightEvent, _context: &mut LightContext) -> Color {
        state
    }

    fn catch_all(&self, state: Color, event: &mut LightEvent, context: &mut LightContext) -> Color {
        if let LightEvent::Emergency { requested_color } = event {
            context.in_emergency = true;
            *requested_color
        } else {
            state
        }
    }

    fn default_state(&self, target: usize) -> Color {
        match target {
            0 => Color::Red,
            1 => Color::Yellow,
            _ => Color::Green,
        }
    }
}

fn light(start: Color) -> Machine<Color, LightBlocks> {
    let table = DispatchTable::new(
        3,
        3,
        vec![
            Transition { source: 0, event: 0, computation: Computation::Default(2) },
            Transition { source: 1, event: 0, computation: Computation::Default(0) },
            Transition { source: 2, event: 0, computation: Computation::Default(1) },
        ],
        true,
    )
    .expect("a table");
    Machine::new(start, LightContext::default(), table, LightBlocks)
}

#[test]
fn an_emergency_overrides_the_cycle_from_every_state() {
    for start in [Color::Red, Color::Yellow, Color::Green] {
        for requested_color in [Color::Red, Color::Yellow, Color::Green] {
            let mut light = light(start);
            light.handle_event(LightEvent::Emergency { requested_color });
            assert_eq!(*light.state(), requested_color);
            assert!(light.context().in_emergency);
        }
    }
}

#[test]
fn during_an_emergency_only_a_qualifying_event_leaves_the_state() {
    let mut light = light(Color::Red);
    light.handle_event(LightEvent::CarPassed { emergency_vehicle: false });
    assert_eq!(light.context().cars_count, 1);
    light.handle_event(LightEvent::Next);
    assert_eq!(*light.state(), Color::Green);
    light.handle_event(LightEvent::Emergency { requested_color: Color::Red });
    assert_eq!(*light.state(), Color::Red);
    assert!(light.context().in_emergency);
    light
        .handle_event(LightEvent::CarPassed { emergency_vehicle: false })
        .handle_event(LightEvent::Next);
    assert_eq!(*light.state(), Color::Red);
    assert_eq!(light.context().cars_count, 1);
    assert!(light.context().in_emergency);
    light.handle_event(LightEvent::CarPassed { emergency_vehicle: true });
    assert_eq!(light.context().cars_count, 2);
    assert!(!light.context().in_emergency);
    light.handle_event(LightEvent::Next);
    assert_eq!(*light.state(), Color::Green);
}

// A camera that adds up the seconds it has recorded.

#[derive(Debug)]
struct Storage {
    now: u64,
    total_recorded_seconds: u64,
}

#[derive(Debug, Clone, Copy, PartialEq, Eq)]
enum CameraState {
    Standby,
    Recording { started_recording_at: Option<u64> },
}

#[derive(Debug, Clone, Copy, PartialEq, Eq)]
enum CameraEvent {
    StartRecording,
    StopRecording,
}

impl EventTrait<Storage> for CameraEvent {
    fn names() -> Vec<String> {
        ["StartRecording", "StopRecording"].iter().map(|name| name.to_string()).collect()
    }

    fn variant(&self) -> usize {
        match self {
            CameraEvent::StartRecording => 0,
            CameraEvent::StopRecording => 1,
        }
    }

    fn pre_transition(&mut self, _context: &mut Storage) {}

    fn post_transition(&mut self, _context: &mut Storage) {}
}

impl StateTrait for CameraState {
    type Context = Storage;
    type Event = CameraEvent;

    fn names() -> Vec<String> {
        ["Standby", "Recording"].iter().map(|name| name.to_string()).collect()
    }

    fn variant(&self) -> usize {
        match self {
            CameraState::Standby => 0,
            CameraState::Recording { .. } => 1,
        }
    }

    fn should_exit(&self, _context: &Storage, event: &CameraEvent) -> bool {
        match self {
            CameraState::Standby => matches!(event, CameraEvent::StartRecording),
            CameraState::Recording { .. } => matches!(event, CameraEvent::StopRecording),
        }
    }

    fn on_exit(&mut self, context: &mut Storage) {
        if let CameraState::Recording { started_recording_at: Some(started) } = self {
            context.total_recorded_seconds =
                context.total_recorded_seconds.saturating_add(context.now - *started);
        }
    }

    fn on_enter(&mut self, context: &mut Storage) {
        if let CameraState::Recording { started_recording_at } = self {
            *started_recording_at = Some(context.now);
        }
    }
}

struct CameraBlocks;

impl Transitions<CameraState> for CameraBlocks {
    fn block(&self, _entry: usize, state: CameraState, _event: &mut CameraEvent, _context: &mut Storage) -> CameraState {
        state
    }

    fn catch_all(&self, state: CameraState, _event: &mut CameraEvent, _context: &mut Storage) -> CameraState {
        state
    }

    fn default_state(&self, target: usize) -> CameraState {
        match target {
            0 => CameraState::Standby,
            _ => CameraState::Recording { started_recording_at: None },
        }
    }
}

fn camera() -> Machine<CameraState, CameraBlocks> {
    let table = DispatchTable::new(
        2,
        2,
        vec![
            Transition { source: 0, event: 0, computation: Computation::Default(1) },
            Transition { source: 1, event: 1, computation: Computation::Default(0) },
        ],
        true,
    )
    .expect("a table");
    Machine::new(
        CameraState::Standby,
        Storage { now: 100, total_recorded_seconds: 0 },
        table,
        CameraBlocks,
    )
}

fn after(camera: Machine<CameraState, CameraBlocks>, seconds: u64) -> Machine<CameraState, CameraBlocks> {
    let (state, mut storage) = camera.into_parts();
    storage.now += seconds;
    let table = DispatchTable::new(
        2,
        2,
        vec![
            Transition { source: 0, event: 0, computation: Computation::Default(1) },
            Transition { source: 1, event: 1, computation: Computation::Default(0) },
        ],
        true,
    )
    .expect("a table");
    Machine::new(state, storage, table, CameraBlocks)
}

#[test]
fn the_camera_adds_up_what_it_recorded() {
    let mut camera = camera();
    camera.handle_event(CameraEvent::StartRecording);
    assert_eq!(*camera.state(), CameraState::Recording { started_recording_at: Some(100) });
    let mut camera = after(camera, 7);
    camera.handle_event(CameraEvent::StartRecording);
    assert_eq!(*camera.state(), CameraState::Recording { started_recording_at: Some(100) });
    camera.handle_event(CameraEvent::StopRecording);
    assert_eq!(*camera.state(), CameraState::Standby);
    assert_eq!(camera.context().total_recorded_seconds, 7);
    assert!(camera.context().total_recorded_seconds >= 7);
    camera.handle_event(CameraEvent::StopRecording);
    assert_eq!(camera.context().total_recorded_seconds, 7);
    camera.handle_event(CameraEvent::StartRecording);
    let mut camera = after(camera, 5);
    camera.handle_event(CameraEvent::StopRecording);
    assert_eq!(camera.context().total_recorded_seconds, 12);
}
