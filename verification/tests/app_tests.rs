use phantom::app::{bootstrap, run_loop, AppConfig, AppError, ControlFlow};
use phantom::events::{Event, EventKind, GamepadEvent, KeyCode, KeyInput, MouseButton};
use phantom::geometry::{Dimensions, Rect};
use phantom::gpu::{AdapterInfo, GpuProbe, Limits, TextureFormat, WgpuRenderer};
use phantom::machine::{HookKind, StateMachine};
use phantom::renderer::{AcquireStatus, Backend, PaintJob, RenderError};
use phantom::resources::{Gui, Resources, System, Window, WindowError};
use phantom::state::{EmptyState, State, StateError, Transition};

fn full_probe() -> GpuProbe {
    GpuProbe {
        adapter: Some(AdapterInfo {
            features: 0,
            limits: Limits {
                max_texture_dimension_1d: 8192,
                max_texture_dimension_2d: 8192,
                max_texture_dimension_3d: 2048,
            },
        }),
        device_granted: true,
        preferred_format: Some(TextureFormat { code: 3 }),
    }
}

fn make_window(width: u32, height: u32) -> Window {
    Window {
        dimensions: Dimensions { width, height },
        cursor_grab_supported: true,
        cursor_grabbed: false,
        cursor_visible: true,
    }
}

fn make_engine() -> (StateMachine<EmptyState>, Resources) {
    match bootstrap(EmptyState {}, &AppConfig::default(), &full_probe(), make_window(800, 600)) {
        Ok(pair) => pair,
        Err(_) => panic!("bootstrap failed"),
    }
}

/// A state that paints one GUI job per frame.
struct Painter {}

impl State for Painter {
    fn sid(&self) -> u64 {
        11
    }

    fn id(&self) -> u64 {
        11
    }

    fn update(&mut self, resources: &mut Resources) -> Result<Transition<Painter>, StateError> {
        resources.gui.queue_paint(PaintJob {
            clip: Rect { x: 0, y: 0, width: 10, height: 10 },
            texture: 5,
            vertex_count: 4,
            index_count: 6,
        });
        Ok(Transition::Stay)
    }
}

#[test]
fn default_config_matches_the_documented_startup_values() {
    let config = AppConfig::default();
    assert_eq!(config.width, 1024);
    assert_eq!(config.height, 768);
    assert!(!config.is_fullscreen);
    assert_eq!(config.title, "Phantom Editor");
    assert!(config.icon.is_none());
    assert_eq!(config.render_backend, Backend::Wgpu);
}

#[test]
fn bootstrap_builds_machine_and_resources() {
    let (machine, resources) = make_engine();
    assert!(!machine.is_running());
    assert_eq!(machine.depth(), 1);
    assert_eq!(resources.renderer.current_dimensions(), Dimensions { width: 800, height: 600 });
    assert_eq!(resources.gui.screen, Dimensions { width: 800, height: 600 });
    assert_eq!(resources.system.window_dimensions, Dimensions { width: 800, height: 600 });
    assert_eq!(resources.system.delta_time_micros, 0);
}

#[test]
fn bootstrap_propagates_renderer_creation_failure() {
    let mut probe = full_probe();
    probe.adapter = None;
    match bootstrap(EmptyState {}, &AppConfig::default(), &probe, make_window(800, 600)) {
        Ok(_) => panic!("expected the adapter error"),
        Err(e) => assert_eq!(e, phantom::gpu::RendererInitError::AdapterNotFound),
    }
}

#[test]
fn run_loop_starts_the_machine_lazily() {
    let (mut machine, mut resources) = make_engine();
    let flow = run_loop(&mut machine, &mut resources, &Event::Other, None, AcquireStatus::Ready)
        .unwrap_or_else(|_| panic!("iteration failed"));
    assert_eq!(flow, ControlFlow::Continue);
    assert!(machine.is_running());
    assert_eq!(machine.journal()[0].hook, HookKind::Start);
}

#[test]
fn run_loop_exits_on_close_request() {
    let (mut machine, mut resources) = make_engine();
    let flow = run_loop(
        &mut machine,
        &mut resources,
        &Event::CloseRequested,
        None,
        AcquireStatus::Ready,
    )
    .unwrap_or_else(|_| panic!("iteration failed"));
    assert_eq!(flow, ControlFlow::Exit);
}

#[test]
fn run_loop_exits_on_escape_press_but_still_forwards_the_key() {
    let (mut machine, mut resources) = make_engine();
    let escape = Event::KeyboardInput(KeyInput { code: Some(KeyCode::Escape), pressed: true });
    let flow = run_loop(&mut machine, &mut resources, &escape, None, AcquireStatus::Ready)
        .unwrap_or_else(|_| panic!("iteration failed"));
    assert_eq!(flow, ControlFlow::Exit);
    let kinds: Vec<HookKind> = machine.journal().iter().map(|r| r.hook).collect();
    assert!(kinds.contains(&HookKind::Key));
}

#[test]
fn run_loop_continues_on_escape_release_and_other_keys() {
    let (mut machine, mut resources) = make_engine();
    let released = Event::KeyboardInput(KeyInput { code: Some(KeyCode::Escape), pressed: false });
    let flow = run_loop(&mut machine, &mut resources, &released, None, AcquireStatus::Ready)
        .unwrap_or_else(|_| panic!("iteration failed"));
    assert_eq!(flow, ControlFlow::Continue);
    let other = Event::KeyboardInput(KeyInput { code: Some(KeyCode::Other(30)), pressed: true });
    let flow = run_loop(&mut machine, &mut resources, &other, None, AcquireStatus::Ready)
        .unwrap_or_else(|_| panic!("iteration failed"));
    assert_eq!(flow, ControlFlow::Continue);
}

#[test]
fn run_loop_applies_resize_before_the_next_frame() {
    let (mut machine, mut resources) = make_engine();
    let resize = Event::Resized(Dimensions { width: 1280, height: 720 });
    run_loop(&mut machine, &mut resources, &resize, None, AcquireStatus::Ready)
        .unwrap_or_else(|_| panic!("iteration failed"));
    assert_eq!(resources.renderer.current_dimensions(), Dimensions { width: 1280, height: 720 });
    let depth = resources.renderer.depth_texture();
    assert_eq!((depth.width, depth.height), (1280, 720));
}

#[test]
fn run_loop_ignores_degenerate_resize() {
    let (mut machine, mut resources) = make_engine();
    let resize = Event::Resized(Dimensions { width: 0, height: 720 });
    run_loop(&mut machine, &mut resources, &resize, None, AcquireStatus::Ready)
        .unwrap_or_else(|_| panic!("iteration failed"));
    assert_eq!(resources.renderer.current_dimensions(), Dimensions { width: 800, height: 600 });
    assert_eq!(resources.renderer.configure_log().len(), 1);
}

#[test]
fn run_loop_frame_ready_updates_builds_gui_and_renders() {
    let probe = full_probe();
    let (mut machine, mut resources) =
        bootstrap(Painter {}, &AppConfig::default(), &probe, make_window(800, 600))
            .unwrap_or_else(|_| panic!("bootstrap failed"));
    let flow = run_loop(
        &mut machine,
        &mut resources,
        &Event::FrameReady,
        None,
        AcquireStatus::Ready,
    )
    .unwrap_or_else(|_| panic!("iteration failed"));
    assert_eq!(flow, ControlFlow::Continue);
    // The update hook ran and queued one paint job, the GUI build drained
    // it, and the renderer composited it last.
    let kinds: Vec<HookKind> = machine.journal().iter().map(|r| r.hook).collect();
    assert!(kinds.contains(&HookKind::Update));
    assert_eq!(resources.gui.paint_queue.len(), 0);
    assert!(!resources.gui.frame_open);
    let pass = match resources.renderer.last_frame() {
        Some(p) => p,
        None => panic!("expected a presented frame"),
    };
    match pass.commands[pass.commands.len() - 1] {
        phantom::gpu::DrawCommand::GuiOverlay { paint_jobs } => assert_eq!(paint_jobs, 1),
        _ => panic!("expected the GUI overlay last"),
    }
}

#[test]
fn run_loop_recovers_a_lost_surface_without_an_error() {
    let (mut machine, mut resources) = make_engine();
    let flow = run_loop(
        &mut machine,
        &mut resources,
        &Event::FrameReady,
        None,
        AcquireStatus::Lost,
    )
    .unwrap_or_else(|_| panic!("iteration failed"));
    assert_eq!(flow, ControlFlow::Continue);
    assert_eq!(resources.renderer.configure_log().len(), 2);
    assert_eq!(
        resources.renderer.configure_log()[1],
        Dimensions { width: 800, height: 600 }
    );
}

#[test]
fn run_loop_propagates_out_of_memory() {
    let (mut machine, mut resources) = make_engine();
    match run_loop(
        &mut machine,
        &mut resources,
        &Event::FrameReady,
        None,
        AcquireStatus::OutOfMemory,
    ) {
        Ok(_) => panic!("expected the out-of-memory error"),
        Err(e) => assert_eq!(e, AppError::Render(RenderError::OutOfMemory)),
    }
}

#[test]
fn run_loop_dispatches_polled_gamepad_event() {
    let (mut machine, mut resources) = make_engine();
    let pad = GamepadEvent { pad: 1, code: 5 };
    run_loop(&mut machine, &mut resources, &Event::Other, Some(pad), AcquireStatus::Ready)
        .unwrap_or_else(|_| panic!("iteration failed"));
    let kinds: Vec<HookKind> = machine.journal().iter().map(|r| r.hook).collect();
    assert!(kinds.contains(&HookKind::Gamepad));
}

#[test]
fn run_loop_forwards_mouse_and_dropped_files() {
    let (mut machine, mut resources) = make_engine();
    let mouse = Event::MouseInput { button: MouseButton::Left, pressed: true };
    run_loop(&mut machine, &mut resources, &mouse, None, AcquireStatus::Ready)
        .unwrap_or_else(|_| panic!("iteration failed"));
    let dropped = Event::DroppedFile("scene.gltf".to_string());
    run_loop(&mut machine, &mut resources, &dropped, None, AcquireStatus::Ready)
        .unwrap_or_else(|_| panic!("iteration failed"));
    let kinds: Vec<HookKind> = machine.journal().iter().map(|r| r.hook).collect();
    assert!(kinds.contains(&HookKind::Mouse));
    assert!(kinds.contains(&HookKind::FileDrop));
}

#[test]
fn cursor_grab_respects_platform_support() {
    let (_machine, mut resources) = make_engine();
    assert!(resources.set_cursor_grab(true).is_ok());
    assert!(resources.window.cursor_grabbed);
    resources.window.cursor_grab_supported = false;
    match resources.set_cursor_grab(false) {
        Ok(()) => panic!("expected the platform error"),
        Err(e) => assert_eq!(e, WindowError::CursorGrabUnsupported),
    }
    // The denied request changed nothing.
    assert!(resources.window.cursor_grabbed);
}

#[test]
fn cursor_visibility_always_succeeds() {
    let (_machine, mut resources) = make_engine();
    resources.set_cursor_visible(false);
    assert!(!resources.window.cursor_visible);
    resources.set_cursor_visible(true);
    assert!(resources.window.cursor_visible);
}

#[test]
fn gui_frame_build_drains_paint_jobs_in_order() {
    let mut gui = Gui::new(Dimensions { width: 640, height: 480 });
    gui.handle_event(&Event::CloseRequested);
    gui.handle_event(&Event::FrameReady);
    assert_eq!(
        gui.pending_events,
        vec![EventKind::CloseRequested, EventKind::FrameReady]
    );
    let first = PaintJob {
        clip: Rect { x: 0, y: 0, width: 1, height: 1 },
        texture: 1,
        vertex_count: 3,
        index_count: 3,
    };
    let second = PaintJob { texture: 2, ..first };
    gui.queue_paint(first);
    gui.queue_paint(second);
    gui.start_frame();
    assert!(gui.frame_open);
    assert!(gui.pending_events.is_empty());
    let jobs = gui.end_frame();
    assert_eq!(jobs.len(), 2);
    assert_eq!(jobs[0].texture, 1);
    assert_eq!(jobs[1].texture, 2);
    assert!(!gui.frame_open);
    assert!(gui.paint_queue.is_empty());
}

#[test]
fn event_kinds_match_their_events() {
    assert_eq!(Event::CloseRequested.kind(), EventKind::CloseRequested);
    assert_eq!(
        Event::KeyboardInput(KeyInput { code: None, pressed: false }).kind(),
        EventKind::KeyboardInput
    );
    assert_eq!(
        Event::MouseInput { button: MouseButton::Right, pressed: false }.kind(),
        EventKind::MouseInput
    );
    assert_eq!(Event::DroppedFile(String::new()).kind(), EventKind::DroppedFile);
    assert_eq!(
        Event::Resized(Dimensions { width: 1, height: 1 }).kind(),
        EventKind::Resized
    );
    assert_eq!(
        Event::ScaleFactorChanged(Dimensions { width: 1, height: 1 }).kind(),
        EventKind::ScaleFactorChanged
    );
    assert_eq!(Event::FrameReady.kind(), EventKind::FrameReady);
    assert_eq!(Event::Other.kind(), EventKind::Other);
}

#[test]
fn system_and_window_carry_plain_values() {
    let system = System::new(Dimensions { width: 320, height: 200 });
    assert_eq!(system.window_dimensions, Dimensions { width: 320, height: 200 });
    assert_eq!(system.delta_time_micros, 0);
    let name = phantom::world::Name("camera".to_string());
    assert_eq!(name.0, "camera");
}

#[test]
fn required_and_optional_features_are_empty() {
    assert_eq!(WgpuRenderer::required_features(), 0);
    assert_eq!(WgpuRenderer::optional_features(), 0);
    let adapter = AdapterInfo {
        features: 0xFF,
        limits: Limits {
            max_texture_dimension_1d: 1,
            max_texture_dimension_2d: 2,
            max_texture_dimension_3d: 3,
        },
    };
    let limits = WgpuRenderer::required_limits(&adapter);
    assert_eq!(limits, adapter.limits);
}

/// A state whose start hook fails with its own error code.
struct FailingStart {}

impl State for FailingStart {
    fn sid(&self) -> u64 {
        99
    }

    fn id(&self) -> u64 {
        99
    }

    fn on_start(&mut self, _resources: &mut Resources) -> Result<(), StateError> {
        Err(StateError::Hook(3))
    }
}

#[test]
fn run_loop_propagates_a_failing_state_hook() {
    let (mut machine, mut resources) =
        bootstrap(FailingStart {}, &AppConfig::default(), &full_probe(), make_window(800, 600))
            .unwrap_or_else(|_| panic!("bootstrap failed"));
    match run_loop(&mut machine, &mut resources, &Event::Other, None, AcquireStatus::Ready) {
        Ok(_) => panic!("expected the hook error"),
        Err(e) => assert_eq!(e, AppError::Machine(StateError::Hook(3))),
    }
    assert!(!machine.is_running());
}

#[test]
fn run_loop_reports_the_empty_stack_after_a_full_drain() {
    let (mut machine, mut resources) = make_engine();
    machine.start(&mut resources).unwrap();
    machine.stop(&mut resources).unwrap();
    assert!(!machine.is_running());
    assert_eq!(machine.depth(), 0);
    match run_loop(&mut machine, &mut resources, &Event::Other, None, AcquireStatus::Ready) {
        Ok(_) => panic!("expected the empty-stack error"),
        Err(e) => assert_eq!(e, AppError::Machine(StateError::EmptyStack)),
    }
}

#[test]
fn run_loop_without_gamepad_event_calls_no_gamepad_hook() {
    let (mut machine, mut resources) = make_engine();
    run_loop(&mut machine, &mut resources, &Event::FrameReady, None, AcquireStatus::Ready)
        .unwrap_or_else(|_| panic!("iteration failed"));
    assert!(machine.journal().iter().all(|r| r.hook != HookKind::Gamepad));
}

#[test]
fn run_loop_forwards_a_key_exactly_once() {
    let (mut machine, mut resources) = make_engine();
    let key = Event::KeyboardInput(KeyInput { code: Some(KeyCode::Other(40)), pressed: true });
    run_loop(&mut machine, &mut resources, &key, None, AcquireStatus::Ready)
        .unwrap_or_else(|_| panic!("iteration failed"));
    let key_records = machine.journal().iter().filter(|r| r.hook == HookKind::Key).count();
    assert_eq!(key_records, 1);
}

#[test]
fn run_loop_dispatches_a_pending_gamepad_event_exactly_once() {
    let (mut machine, mut resources) = make_engine();
    let pad = GamepadEvent { pad: 2, code: 9 };
    run_loop(&mut machine, &mut resources, &Event::FrameReady, Some(pad), AcquireStatus::Ready)
        .unwrap_or_else(|_| panic!("iteration failed"));
    let pad_records = machine.journal().iter().filter(|r| r.hook == HookKind::Gamepad).count();
    assert_eq!(pad_records, 1);
    let update_records = machine.journal().iter().filter(|r| r.hook == HookKind::Update).count();
    assert_eq!(update_records, 1);
}
