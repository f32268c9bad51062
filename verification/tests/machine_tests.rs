use std::cell::RefCell;
use std::rc::Rc;

use phantom::events::Event;
use phantom::geometry::Dimensions;
use phantom::gpu::{AdapterInfo, GpuProbe, Limits, TextureFormat, WgpuRenderer};
use phantom::machine::{HookKind, HookRecord, StateMachine};
use phantom::resources::{Gui, Resources, System, Window};
use phantom::state::{State, StateError, Transition};

type SharedLog = Rc<RefCell<Vec<String>>>;

/// A scripted test state: it reports every hook invocation into a shared
/// log and plays back queued transitions from `update` and `on_event`.
struct Probe {
    id: u64,
    name: &'static str,
    log: SharedLog,
    updates: Vec<Transition<Probe>>,
    events: Vec<Transition<Probe>>,
    fail_start: Option<u64>,
    fail_stop: Option<u64>,
}

impl Probe {
    fn new(id: u64, name: &'static str, log: &SharedLog) -> Probe {
        Probe {
            id,
            name,
            log: Rc::clone(log),
            updates: Vec::new(),
            events: Vec::new(),
            fail_start: None,
            fail_stop: None,
        }
    }

    fn note(&self, hook: &str) {
        self.log.borrow_mut().push(format!("{}.{}", self.name, hook));
    }
}

impl State for Probe {
    fn sid(&self) -> u64 {
        self.id
    }

    fn id(&self) -> u64 {
        self.id
    }

    fn on_start(&mut self, _resources: &mut Resources) -> Result<(), StateError> {
        self.note("start");
        match self.fail_start {
            Some(code) => Err(StateError::Hook(code)),
            None => Ok(()),
        }
    }

    fn on_stop(&mut self, _resources: &mut Resources) -> Result<(), StateError> {
        self.note("stop");
        match self.fail_stop {
            Some(code) => Err(StateError::Hook(code)),
            None => Ok(()),
        }
    }

    fn on_pause(&mut self, _resources: &mut Resources) -> Result<(), StateError> {
        self.note("pause");
        Ok(())
    }

    fn on_resume(&mut self, _resources: &mut Resources) -> Result<(), StateError> {
        self.note("resume");
        Ok(())
    }

    fn update(&mut self, _resources: &mut Resources) -> Result<Transition<Probe>, StateError> {
        self.note("update");
        if self.updates.is_empty() {
            Ok(Transition::Stay)
        } else {
            Ok(self.updates.remove(0))
        }
    }

    fn on_event(
        &mut self,
        _resources: &mut Resources,
        _event: &Event,
    ) -> Result<Transition<Probe>, StateError> {
        self.note("event");
        if self.events.is_empty() {
            Ok(Transition::Stay)
        } else {
            Ok(self.events.remove(0))
        }
    }

    fn on_key(
        &mut self,
        _resources: &mut Resources,
        _input: phantom::events::KeyInput,
    ) -> Result<Transition<Probe>, StateError> {
        self.note("key");
        Ok(Transition::Pop)
    }
}

fn make_resources() -> Resources {
    let dims = Dimensions { width: 800, height: 600 };
    let probe = GpuProbe {
        adapter: Some(AdapterInfo {
            features: 0,
            limits: Limits {
                max_texture_dimension_1d: 8192,
                max_texture_dimension_2d: 8192,
                max_texture_dimension_3d: 2048,
            },
        }),
        device_granted: true,
        preferred_format: Some(TextureFormat { code: 7 }),
    };
    let renderer = match WgpuRenderer::new(&probe, dims) {
        Ok(r) => r,
        Err(_) => panic!("renderer creation failed"),
    };
    Resources {
        window: Window {
            dimensions: dims,
            cursor_grab_supported: true,
            cursor_grabbed: false,
            cursor_visible: true,
        },
        renderer,
        gui: Gui::new(dims),
        system: System::new(dims),
    }
}

fn hooks(machine: &StateMachine<Probe>) -> Vec<(u64, HookKind)> {
    machine
        .journal()
        .iter()
        .map(|r: &HookRecord| (r.state, r.hook))
        .collect()
}

#[test]
fn new_machine_has_one_state_and_is_not_running() {
    let log: SharedLog = Rc::new(RefCell::new(Vec::new()));
    let machine = StateMachine::new(Probe::new(1, "a", &log));
    assert!(!machine.is_running());
    assert_eq!(machine.depth(), 1);
    assert_eq!(machine.journal().len(), 0);
    match machine.current_state() {
        Ok(state) => assert_eq!(state.id(), 1),
        Err(_) => panic!("expected a current state"),
    }
}

#[test]
fn start_invokes_on_start_and_sets_running() {
    let log: SharedLog = Rc::new(RefCell::new(Vec::new()));
    let mut resources = make_resources();
    let mut machine = StateMachine::new(Probe::new(1, "a", &log));
    assert!(machine.start(&mut resources).is_ok());
    assert!(machine.is_running());
    assert_eq!(*log.borrow(), vec!["a.start".to_string()]);
    assert_eq!(hooks(&machine), vec![(1, HookKind::Start)]);
}

#[test]
fn start_twice_invokes_on_start_exactly_once() {
    let log: SharedLog = Rc::new(RefCell::new(Vec::new()));
    let mut resources = make_resources();
    let mut machine = StateMachine::new(Probe::new(1, "a", &log));
    assert!(machine.start(&mut resources).is_ok());
    assert!(machine.start(&mut resources).is_ok());
    assert!(machine.is_running());
    assert_eq!(*log.borrow(), vec!["a.start".to_string()]);
    assert_eq!(hooks(&machine), vec![(1, HookKind::Start)]);
}

#[test]
fn push_pauses_current_before_starting_new() {
    let log: SharedLog = Rc::new(RefCell::new(Vec::new()));
    let mut resources = make_resources();
    let mut machine = StateMachine::new(Probe::new(1, "a", &log));
    machine.start(&mut resources).unwrap();
    let b = Probe::new(2, "b", &log);
    machine.transition(Transition::Push(b), &mut resources).unwrap();
    assert_eq!(
        *log.borrow(),
        vec!["a.start".to_string(), "a.pause".to_string(), "b.start".to_string()]
    );
    assert_eq!(
        hooks(&machine),
        vec![(1, HookKind::Start), (1, HookKind::Pause), (2, HookKind::Start)]
    );
    assert_eq!(machine.depth(), 2);
    assert!(machine.is_running());
    // A was paused, never stopped.
    assert!(!log.borrow().iter().any(|entry| entry == "a.stop"));
}

#[test]
fn pop_stops_top_before_resuming_beneath() {
    let log: SharedLog = Rc::new(RefCell::new(Vec::new()));
    let mut resources = make_resources();
    let mut machine = StateMachine::new(Probe::new(1, "a", &log));
    machine.start(&mut resources).unwrap();
    machine.transition(Transition::Push(Probe::new(2, "b", &log)), &mut resources).unwrap();
    log.borrow_mut().clear();
    machine.transition(Transition::Pop, &mut resources).unwrap();
    assert_eq!(*log.borrow(), vec!["b.stop".to_string(), "a.resume".to_string()]);
    assert_eq!(machine.depth(), 1);
    assert!(machine.is_running());
    match machine.current_state() {
        Ok(state) => assert_eq!(state.id(), 1),
        Err(_) => panic!("expected a current state"),
    }
}

#[test]
fn switch_stops_current_before_starting_replacement() {
    let log: SharedLog = Rc::new(RefCell::new(Vec::new()));
    let mut resources = make_resources();
    let mut machine = StateMachine::new(Probe::new(1, "a", &log));
    machine.start(&mut resources).unwrap();
    log.borrow_mut().clear();
    machine.transition(Transition::Switch(Probe::new(3, "c", &log)), &mut resources).unwrap();
    assert_eq!(*log.borrow(), vec!["a.stop".to_string(), "c.start".to_string()]);
    // No pause, and a.resume is never called.
    assert!(!log.borrow().iter().any(|entry| entry == "a.pause" || entry == "a.resume"));
    assert_eq!(machine.depth(), 1);
    assert!(machine.is_running());
}

#[test]
fn quit_drains_stack_top_down() {
    let log: SharedLog = Rc::new(RefCell::new(Vec::new()));
    let mut resources = make_resources();
    let mut machine = StateMachine::new(Probe::new(1, "a", &log));
    machine.start(&mut resources).unwrap();
    machine.transition(Transition::Push(Probe::new(2, "b", &log)), &mut resources).unwrap();
    machine.transition(Transition::Push(Probe::new(3, "c", &log)), &mut resources).unwrap();
    log.borrow_mut().clear();
    machine.transition(Transition::Quit, &mut resources).unwrap();
    assert_eq!(
        *log.borrow(),
        vec!["c.stop".to_string(), "b.stop".to_string(), "a.stop".to_string()]
    );
    assert!(!machine.is_running());
    assert_eq!(machine.depth(), 0);
}

#[test]
fn stack_depth_is_one_plus_pushes_minus_pops() {
    let log: SharedLog = Rc::new(RefCell::new(Vec::new()));
    let mut resources = make_resources();
    let mut machine = StateMachine::new(Probe::new(1, "a", &log));
    machine.start(&mut resources).unwrap();
    machine.transition(Transition::Push(Probe::new(2, "b", &log)), &mut resources).unwrap();
    machine.transition(Transition::Push(Probe::new(3, "c", &log)), &mut resources).unwrap();
    machine.transition(Transition::Push(Probe::new(4, "d", &log)), &mut resources).unwrap();
    machine.transition(Transition::Pop, &mut resources).unwrap();
    machine.transition(Transition::Pop, &mut resources).unwrap();
    // 1 + 3 pushes - 2 pops
    assert_eq!(machine.depth(), 2);
    assert!(machine.is_running());
}

#[test]
fn popping_the_initial_state_stops_the_machine() {
    let log: SharedLog = Rc::new(RefCell::new(Vec::new()));
    let mut resources = make_resources();
    let mut machine = StateMachine::new(Probe::new(1, "a", &log));
    machine.start(&mut resources).unwrap();
    machine.transition(Transition::Pop, &mut resources).unwrap();
    assert!(!machine.is_running());
    assert_eq!(machine.depth(), 0);
    match machine.current_state() {
        Ok(_) => panic!("expected the empty-stack error"),
        Err(e) => assert_eq!(e, StateError::EmptyStack),
    }
}

#[test]
fn update_dispatches_to_pushed_state_then_back_after_pop() {
    let log: SharedLog = Rc::new(RefCell::new(Vec::new()));
    let mut resources = make_resources();
    let mut a = Probe::new(1, "a", &log);
    a.updates.push(Transition::Push(Probe::new(2, "b", &log)));
    let mut machine = StateMachine::new(a);
    machine.start(&mut resources).unwrap();
    // First update: A updates and pushes B.
    machine.update(&mut resources).unwrap();
    assert_eq!(machine.depth(), 2);
    log.borrow_mut().clear();
    // Second update must dispatch to B, not A.
    machine.update(&mut resources).unwrap();
    assert_eq!(*log.borrow(), vec!["b.update".to_string()]);
    // After a pop, update dispatches back to A.
    machine.transition(Transition::Pop, &mut resources).unwrap();
    log.borrow_mut().clear();
    machine.update(&mut resources).unwrap();
    assert_eq!(*log.borrow(), vec!["a.update".to_string()]);
}

#[test]
fn handle_event_applies_returned_transition() {
    let log: SharedLog = Rc::new(RefCell::new(Vec::new()));
    let mut resources = make_resources();
    let mut a = Probe::new(1, "a", &log);
    a.events.push(Transition::Quit);
    let mut machine = StateMachine::new(a);
    machine.start(&mut resources).unwrap();
    machine.handle_event(&mut resources, &Event::Other).unwrap();
    assert!(!machine.is_running());
    assert_eq!(machine.depth(), 0);
    assert_eq!(
        *log.borrow(),
        vec!["a.start".to_string(), "a.event".to_string(), "a.stop".to_string()]
    );
}

#[test]
fn update_and_events_are_noops_while_not_running() {
    let log: SharedLog = Rc::new(RefCell::new(Vec::new()));
    let mut resources = make_resources();
    let mut machine = StateMachine::new(Probe::new(1, "a", &log));
    machine.update(&mut resources).unwrap();
    machine.handle_event(&mut resources, &Event::Other).unwrap();
    machine.transition(Transition::Quit, &mut resources).unwrap();
    assert!(log.borrow().is_empty());
    assert_eq!(machine.journal().len(), 0);
    assert_eq!(machine.depth(), 1);
}

#[test]
fn failing_on_start_propagates_and_machine_stays_stopped() {
    let log: SharedLog = Rc::new(RefCell::new(Vec::new()));
    let mut resources = make_resources();
    let mut a = Probe::new(1, "a", &log);
    a.fail_start = Some(7);
    let mut machine = StateMachine::new(a);
    match machine.start(&mut resources) {
        Ok(()) => panic!("expected the hook error"),
        Err(e) => assert_eq!(e, StateError::Hook(7)),
    }
    assert!(!machine.is_running());
    assert_eq!(machine.depth(), 1);
}

#[test]
fn failing_on_stop_interrupts_a_quit_drain() {
    let log: SharedLog = Rc::new(RefCell::new(Vec::new()));
    let mut resources = make_resources();
    let mut machine = StateMachine::new(Probe::new(1, "a", &log));
    machine.start(&mut resources).unwrap();
    let mut b = Probe::new(2, "b", &log);
    b.fail_stop = Some(9);
    machine.transition(Transition::Push(b), &mut resources).unwrap();
    machine.transition(Transition::Push(Probe::new(3, "c", &log)), &mut resources).unwrap();
    log.borrow_mut().clear();
    match machine.transition(Transition::Quit, &mut resources) {
        Ok(()) => panic!("expected the hook error"),
        Err(e) => assert_eq!(e, StateError::Hook(9)),
    }
    // C stopped cleanly, B's failure interrupted the drain before A.
    assert_eq!(*log.borrow(), vec!["c.stop".to_string(), "b.stop".to_string()]);
    assert_eq!(machine.depth(), 1);
    assert!(machine.is_running());
}

#[test]
fn forward_key_dispatches_but_discards_the_transition() {
    let log: SharedLog = Rc::new(RefCell::new(Vec::new()));
    let mut resources = make_resources();
    let mut machine = StateMachine::new(Probe::new(1, "a", &log));
    machine.start(&mut resources).unwrap();
    let input = phantom::events::KeyInput {
        code: Some(phantom::events::KeyCode::Other(32)),
        pressed: true,
    };
    machine.forward_key(&mut resources, input).unwrap();
    // Probe::on_key returns Pop, which forwarding must not apply.
    assert_eq!(machine.depth(), 1);
    assert!(machine.is_running());
    assert_eq!(*log.borrow(), vec!["a.start".to_string(), "a.key".to_string()]);
    assert_eq!(hooks(&machine), vec![(1, HookKind::Start), (1, HookKind::Key)]);
}

#[test]
fn forwarding_to_an_empty_stack_is_the_empty_stack_error() {
    let log: SharedLog = Rc::new(RefCell::new(Vec::new()));
    let mut resources = make_resources();
    let mut machine = StateMachine::new(Probe::new(1, "a", &log));
    machine.start(&mut resources).unwrap();
    machine.transition(Transition::Quit, &mut resources).unwrap();
    let input = phantom::events::KeyInput { code: None, pressed: false };
    match machine.forward_key(&mut resources, input) {
        Ok(()) => panic!("expected the empty-stack error"),
        Err(e) => assert_eq!(e, StateError::EmptyStack),
    }
}

#[test]
fn journal_records_hook_outcomes() {
    let log: SharedLog = Rc::new(RefCell::new(Vec::new()));
    let mut resources = make_resources();
    let mut a = Probe::new(1, "a", &log);
    a.fail_start = Some(7);
    let mut machine = StateMachine::new(a);
    assert!(machine.start(&mut resources).is_err());
    assert_eq!(machine.journal().len(), 1);
    assert_eq!(machine.journal()[0].state, 1);
    assert_eq!(machine.journal()[0].hook, HookKind::Start);
    assert!(!machine.journal()[0].ok);

    let log2: SharedLog = Rc::new(RefCell::new(Vec::new()));
    let mut machine2 = StateMachine::new(Probe::new(2, "b", &log2));
    assert!(machine2.start(&mut resources).is_ok());
    assert!(machine2.journal()[0].ok);
}

#[test]
fn interrupted_quit_drain_marks_the_failing_stop() {
    let log: SharedLog = Rc::new(RefCell::new(Vec::new()));
    let mut resources = make_resources();
    let mut machine = StateMachine::new(Probe::new(1, "a", &log));
    machine.start(&mut resources).unwrap();
    let mut b = Probe::new(2, "b", &log);
    b.fail_stop = Some(9);
    machine.transition(Transition::Push(b), &mut resources).unwrap();
    machine.transition(Transition::Push(Probe::new(3, "c", &log)), &mut resources).unwrap();
    let before = machine.journal().len();
    assert!(machine.transition(Transition::Quit, &mut resources).is_err());
    // C's stop succeeded, B's own stop record carries the failure; A was
    // never reached.
    let tail: Vec<(u64, HookKind, bool)> = machine.journal()[before..]
        .iter()
        .map(|r| (r.state, r.hook, r.ok))
        .collect();
    assert_eq!(
        tail,
        vec![(3, HookKind::Stop, true), (2, HookKind::Stop, false)]
    );
}
