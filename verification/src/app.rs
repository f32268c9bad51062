//! The frame orchestrator: the startup configuration, the verified
//! bootstrap, and the per-iteration loop body that binds a platform event
//! source to the state machine, the GUI context and the renderer.
//!
//! The driver owns the actual event loop.  Each iteration it hands
//! `run_loop` the platform event, at most one polled gamepad event and the
//! frame's surface-acquisition outcome, and obeys the control-flow decision
//! handed back.

use vstd::prelude::*;

use crate::events::{Event, GamepadEvent};
use crate::geometry::Dimensions;
use crate::gpu::{DepthTexture, DrawCommand, GpuProbe, RendererInitError, WgpuRenderer};
use crate::machine::{
    dispatched_once,
    journal_extends_with,
    lemma_dispatched_once_framed,
    lemma_extends_not_dispatched,
    lemma_extends_trans,
    lifecycle_hooks,
    not_dispatched,
    rec,
    HookKind,
    MachineView,
    StateMachine,
};
use crate::renderer::{
    create_render_backend,
    AcquireStatus,
    Backend,
    FrameInput,
    RenderError,
    Renderer,
};
use crate::resources::{Gui, Resources, System, Window};
use crate::state::{State, StateError};

verus! {

/// The startup configuration, consumed once to build the window and the
/// render backend.
pub struct AppConfig {
    /// Window width in pixels.
    pub width: u32,
    /// Window height in pixels.
    pub height: u32,
    /// Accepted but not yet enforced by the window setup.
    pub is_fullscreen: bool,
    /// The window title.
    pub title: String,
    /// Path of an icon file to decode and hand to the window, if any.
    pub icon: Option<String>,
    /// Which render backend the factory instantiates.
    pub render_backend: Backend,
}

impl Default for AppConfig {
    /// 1024×768, windowed, titled "Phantom Editor", no icon, the sole GPU
    /// backend.
    fn default() -> (r: AppConfig)
        ensures
            r.width == 1024,
            r.height == 768,
            !r.is_fullscreen,
            r.title@ == "Phantom Editor"@,
            r.icon is None,
            r.render_backend == Backend::Wgpu,
    {
        AppConfig {
            width: 1024,
            height: 768,
            is_fullscreen: false,
            title: "Phantom Editor".to_owned(),
            icon: None,
            render_backend: Backend::Wgpu,
        }
    }
}

/// What the driver's event loop should do after an iteration.
#[derive(Clone, Copy, Debug, PartialEq, Eq, Structural)]
pub enum ControlFlow {
    /// Keep looping.
    Continue,
    /// Leave the loop and end the run.
    Exit,
}

/// Errors the per-iteration orchestration propagates to the driver.
#[derive(Clone, Copy, Debug, PartialEq, Eq, Structural)]
pub enum AppError {
    /// The state machine or a state hook failed.
    Machine(StateError),
    /// The renderer failed fatally.
    Render(RenderError),
}

/// Build the engine from plain startup values: the state machine seeded
/// with the initial state, and the resources aggregate around the renderer
/// the factory instantiated.  Fails exactly when the render backend cannot
/// be created.
pub fn bootstrap<S: State>(
    initial_state: S,
    config: &AppConfig,
    probe: &GpuProbe,
    window: Window,
) -> (r: Result<(StateMachine<S>, Resources), RendererInitError>)
    requires
        !window.dimensions.is_degenerate(),
    ensures
        r is Ok <==> (probe.adapter is Some && probe.device_granted
            && probe.preferred_format is Some),
        r matches Ok(pair) ==> {
            &&& pair.0@ == (MachineView {
                running: false,
                ids: seq![initial_state.sid()],
                journal: Seq::empty(),
            })
            &&& pair.1.wf()
            &&& pair.1.window == window
            &&& pair.1.renderer@.dimensions == window.dimensions
            &&& pair.1.renderer@.configured == seq![window.dimensions]
            &&& pair.1.gui.screen == window.dimensions
            &&& pair.1.gui.paint_queue@.len() == 0
            &&& pair.1.system == (System {
                window_dimensions: window.dimensions,
                delta_time_micros: 0,
            })
        },
{
    let renderer = match create_render_backend(&config.render_backend, probe, window.dimensions) {
        Ok(renderer) => renderer,
        Err(e) => {
            return Err(e);
        },
    };
    let state_machine = StateMachine::new(initial_state);
    let gui = Gui::new(window.dimensions);
    let system = System::new(window.dimensions);
    Ok((state_machine, Resources { window, renderer, gui, system }))
}

/// Journal bookkeeping shared by every exit of `run_loop`: composes the
/// iteration's machine stages — after the generic event dispatch, after the
/// optional gamepad forward, and at the exit — into the dispatch clauses of
/// its contract.
proof fn lemma_iteration_journal(
    m0: MachineView,
    m2: MachineView,
    m3: MachineView,
    mf: MachineView,
    gamepad_some: bool,
    karm: Set<HookKind>,
)
    requires
        journal_extends_with(m0, m2, lifecycle_hooks().insert(HookKind::Event)),
        gamepad_some ==> journal_extends_with(m2, m3, set![HookKind::Gamepad]) && dispatched_once(
            m2,
            m3,
            HookKind::Gamepad,
        ),
        !gamepad_some ==> m3 == m2,
        journal_extends_with(m3, mf, karm),
        !karm.contains(HookKind::Gamepad),
    ensures
        journal_extends_with(
            m0,
            m3,
            lifecycle_hooks().insert(HookKind::Event).insert(HookKind::Gamepad),
        ),
        !karm.contains(HookKind::Update) ==> not_dispatched(m0, mf, HookKind::Update),
        !gamepad_some ==> not_dispatched(m0, mf, HookKind::Gamepad),
        gamepad_some ==> dispatched_once(m0, mf, HookKind::Gamepad),
{
    let kevt = lifecycle_hooks().insert(HookKind::Event);
    let kpre = kevt.insert(HookKind::Gamepad);
    if gamepad_some {
        lemma_extends_trans(m0, m2, m3, kevt, set![HookKind::Gamepad], kpre);
        lemma_extends_trans(m0, m3, mf, kpre, karm, kpre.union(karm));
        if !karm.contains(HookKind::Update) {
            lemma_extends_not_dispatched(m0, mf, kpre.union(karm), HookKind::Update);
        }
        lemma_dispatched_once_framed(
            m0,
            m2,
            m3,
            mf,
            HookKind::Gamepad,
            kevt,
            set![HookKind::Gamepad],
            karm,
        );
    } else {
        lemma_extends_trans(m0, m2, m3, kevt, kevt, kpre);
        lemma_extends_trans(m0, m3, mf, kevt, karm, kevt.union(karm));
        if !karm.contains(HookKind::Update) {
            lemma_extends_not_dispatched(m0, mf, kevt.union(karm), HookKind::Update);
        }
        lemma_extends_not_dispatched(m0, mf, kevt.union(karm), HookKind::Gamepad);
    }
}

/// One iteration of the frame loop.
///
/// In order: start the machine lazily; let the GUI context capture the raw
/// event; dispatch the event generically to the current state and apply
/// its transition; dispatch the polled gamepad event, if any; then
/// special-case the event — close request and the Escape shortcut end the
/// run, keyboard / mouse / file-drop input is forwarded to the current
/// state, a resize reaches the renderer before the next frame, and the
/// frame-ready signal runs update, then the GUI frame build, then render.
///
/// The contract pins the iteration's dispatches through the machine's
/// journal — the generic event dispatch always comes first, update runs at
/// most once and only on frame-ready, each input hook and a pending
/// gamepad event exactly once — and the frame's effects through the GUI
/// context and the renderer's recorded pass.
pub fn run_loop<S: State>(
    state_machine: &mut StateMachine<S>,
    resources: &mut Resources,
    event: &Event,
    gamepad_event: Option<GamepadEvent>,
    acquire: AcquireStatus,
) -> (r: Result<ControlFlow, AppError>)
    requires
        old(resources).wf(),
    ensures
        final(resources).wf(),
        r matches Ok(flow) ==> (flow is Exit <==> (event is CloseRequested
            || event.is_escape_pressed())),
        (!old(state_machine)@.running && old(state_machine)@.ids.len() > 0 && r is Ok) ==> {
            &&& final(state_machine)@.journal.len() > old(state_machine)@.journal.len()
            &&& final(state_machine)@.journal[old(state_machine)@.journal.len() as int] == rec(
                old(state_machine)@.ids.last(),
                HookKind::Start,
                true,
            )
        },
        event matches Event::Resized(d) ==> ((r is Ok && !d.is_degenerate()) ==> {
            &&& final(resources).renderer@.dimensions == d
            &&& final(resources).renderer@.config.width == d.width
            &&& final(resources).renderer@.config.height == d.height
            &&& final(resources).renderer@.depth == (DepthTexture {
                width: d.width,
                height: d.height,
            })
        }),
        event matches Event::ScaleFactorChanged(d) ==> ((r is Ok && !d.is_degenerate())
            ==> final(resources).renderer@.dimensions == d),
        (r is Ok && event is FrameReady) ==> !final(resources).gui.frame_open
            && final(resources).gui.paint_queue@.len() == 0,
        r matches Err(e) ==> (e matches AppError::Render(re) ==> re == RenderError::OutOfMemory
            && event is FrameReady && acquire is OutOfMemory),
        event is FrameReady && acquire is OutOfMemory ==> r is Err,
        (!old(state_machine)@.running && old(state_machine)@.ids.len() == 0) ==> r == Err::<
            ControlFlow,
            AppError,
        >(AppError::Machine(StateError::EmptyStack)),
        (old(state_machine)@.running && old(state_machine)@.ids.len() > 0) ==> {
            let at = old(state_machine)@.journal.len() as int;
            &&& final(state_machine)@.journal.len() > old(state_machine)@.journal.len()
            &&& (final(state_machine)@.journal[at]).hook == HookKind::Event
            &&& (final(state_machine)@.journal[at]).state == old(state_machine)@.ids.last()
        },
        !(event is FrameReady) ==> not_dispatched(
            old(state_machine)@,
            final(state_machine)@,
            HookKind::Update,
        ),
        event is FrameReady ==> (dispatched_once(
            old(state_machine)@,
            final(state_machine)@,
            HookKind::Update,
        ) || not_dispatched(old(state_machine)@, final(state_machine)@, HookKind::Update)),
        (r is Ok && event is FrameReady && final(state_machine)@.running
            && final(state_machine)@.ids.len() > 0) ==> dispatched_once(
            old(state_machine)@,
            final(state_machine)@,
            HookKind::Update,
        ),
        (r is Ok && event is KeyboardInput) ==> dispatched_once(
            old(state_machine)@,
            final(state_machine)@,
            HookKind::Key,
        ),
        (r is Ok && event is MouseInput) ==> dispatched_once(
            old(state_machine)@,
            final(state_machine)@,
            HookKind::Mouse,
        ),
        (r is Ok && event is DroppedFile) ==> dispatched_once(
            old(state_machine)@,
            final(state_machine)@,
            HookKind::FileDrop,
        ),
        gamepad_event is None ==> not_dispatched(
            old(state_machine)@,
            final(state_machine)@,
            HookKind::Gamepad,
        ),
        (r is Ok && gamepad_event is Some) ==> dispatched_once(
            old(state_machine)@,
            final(state_machine)@,
            HookKind::Gamepad,
        ),
        (r is Ok && event is FrameReady && acquire is Ready)
            ==> (final(resources).renderer.presented() matches Some(p) && p.commands.len() > 0
            && p.commands.last() matches DrawCommand::GuiOverlay { .. }),
{
    let ghost m0 = state_machine@;
    if !state_machine.is_running() {
        if let Err(e) = state_machine.start(resources) {
            proof {
                lemma_extends_trans(
                    m0,
                    state_machine@,
                    state_machine@,
                    set![HookKind::Start],
                    Set::<HookKind>::empty(),
                    lifecycle_hooks().insert(HookKind::Event),
                );
                lemma_iteration_journal(
                    m0,
                    state_machine@,
                    state_machine@,
                    state_machine@,
                    false,
                    Set::<HookKind>::empty(),
                );
            }
            return Err(AppError::Machine(e));
        }
    }
    let ghost m1 = state_machine@;
    proof {
        lemma_extends_trans(
            m0,
            m1,
            m1,
            set![HookKind::Start],
            Set::<HookKind>::empty(),
            lifecycle_hooks().insert(HookKind::Event),
        );
    }
    resources.gui.handle_event(event);
    if let Err(e) = state_machine.handle_event(resources, event) {
        proof {
            lemma_extends_trans(
                m0,
                m1,
                state_machine@,
                lifecycle_hooks().insert(HookKind::Event),
                lifecycle_hooks().insert(HookKind::Event),
                lifecycle_hooks().insert(HookKind::Event),
            );
            lemma_iteration_journal(
                m0,
                state_machine@,
                state_machine@,
                state_machine@,
                false,
                Set::<HookKind>::empty(),
            );
        }
        return Err(AppError::Machine(e));
    }
    let ghost m2 = state_machine@;
    proof {
        lemma_extends_trans(
            m0,
            m1,
            m2,
            lifecycle_hooks().insert(HookKind::Event),
            lifecycle_hooks().insert(HookKind::Event),
            lifecycle_hooks().insert(HookKind::Event),
        );
    }
    if let Some(pad_event) = gamepad_event {
        if let Err(e) = state_machine.forward_gamepad_event(resources, pad_event) {
            proof {
                lemma_extends_trans(
                    m0,
                    m2,
                    state_machine@,
                    lifecycle_hooks().insert(HookKind::Event),
                    set![HookKind::Gamepad],
                    lifecycle_hooks().insert(HookKind::Event).insert(HookKind::Gamepad),
                );
                lemma_extends_not_dispatched(
                    m0,
                    state_machine@,
                    lifecycle_hooks().insert(HookKind::Event).insert(HookKind::Gamepad),
                    HookKind::Update,
                );
            }
            return Err(AppError::Machine(e));
        }
    }
    let ghost m3 = state_machine@;
    proof {
        if gamepad_event is Some {
            assert((m3.journal[m2.journal.len() as int]).hook == HookKind::Gamepad);
            assert(dispatched_once(m2, m3, HookKind::Gamepad));
        }
    }
    match event {
        Event::FrameReady => {
            let update_result = state_machine.update(resources);
            let ghost m4 = state_machine@;
            proof {
                lemma_iteration_journal(
                    m0,
                    m2,
                    m3,
                    m4,
                    gamepad_event is Some,
                    lifecycle_hooks().insert(HookKind::Update),
                );
                if m3.running && m3.ids.len() > 0 {
                    lemma_dispatched_once_framed(
                        m0,
                        m3,
                        m4,
                        m4,
                        HookKind::Update,
                        lifecycle_hooks().insert(HookKind::Event).insert(HookKind::Gamepad),
                        lifecycle_hooks().insert(HookKind::Update),
                        Set::<HookKind>::empty(),
                    );
                } else {
                    lemma_extends_not_dispatched(
                        m0,
                        m3,
                        lifecycle_hooks().insert(HookKind::Event).insert(HookKind::Gamepad),
                        HookKind::Update,
                    );
                }
            }
            if let Err(e) = update_result {
                return Err(AppError::Machine(e));
            }
            resources.gui.start_frame();
            let paint_jobs = resources.gui.end_frame();
            let frame = FrameInput { acquire, paint_jobs };
            if let Err(e) = resources.renderer.render(&frame) {
                return Err(AppError::Render(e));
            }
            Ok(ControlFlow::Continue)
        },
        Event::CloseRequested => {
            proof {
                lemma_iteration_journal(
                    m0,
                    m2,
                    m3,
                    state_machine@,
                    gamepad_event is Some,
                    Set::<HookKind>::empty(),
                );
            }
            Ok(ControlFlow::Exit)
        },
        Event::KeyboardInput(input) => {
            let exit = input.pressed && match input.code {
                Some(code) => code == crate::events::KeyCode::Escape,
                None => false,
            };
            let forward_result = state_machine.forward_key(resources, *input);
            proof {
                lemma_iteration_journal(
                    m0,
                    m2,
                    m3,
                    state_machine@,
                    gamepad_event is Some,
                    set![HookKind::Key],
                );
                if forward_result is Ok {
                    assert((state_machine@.journal[m3.journal.len() as int]).hook
                        == HookKind::Key);
                    assert(dispatched_once(m3, state_machine@, HookKind::Key));
                    lemma_dispatched_once_framed(
                        m0,
                        m3,
                        state_machine@,
                        state_machine@,
                        HookKind::Key,
                        lifecycle_hooks().insert(HookKind::Event).insert(HookKind::Gamepad),
                        set![HookKind::Key],
                        Set::<HookKind>::empty(),
                    );
                }
            }
            if let Err(e) = forward_result {
                return Err(AppError::Machine(e));
            }
            if exit {
                Ok(ControlFlow::Exit)
            } else {
                Ok(ControlFlow::Continue)
            }
        },
        Event::MouseInput { button, pressed } => {
            let forward_result = state_machine.forward_mouse(resources, button, *pressed);
            proof {
                lemma_iteration_journal(
                    m0,
                    m2,
                    m3,
                    state_machine@,
                    gamepad_event is Some,
                    set![HookKind::Mouse],
                );
                if forward_result is Ok {
                    assert((state_machine@.journal[m3.journal.len() as int]).hook
                        == HookKind::Mouse);
                    assert(dispatched_once(m3, state_machine@, HookKind::Mouse));
                    lemma_dispatched_once_framed(
                        m0,
                        m3,
                        state_machine@,
                        state_machine@,
                        HookKind::Mouse,
                        lifecycle_hooks().insert(HookKind::Event).insert(HookKind::Gamepad),
                        set![HookKind::Mouse],
                        Set::<HookKind>::empty(),
                    );
                }
            }
            if let Err(e) = forward_result {
                return Err(AppError::Machine(e));
            }
            Ok(ControlFlow::Continue)
        },
        Event::DroppedFile(path) => {
            let forward_result = state_machine.forward_file_dropped(resources, path);
            proof {
                lemma_iteration_journal(
                    m0,
                    m2,
                    m3,
                    state_machine@,
                    gamepad_event is Some,
                    set![HookKind::FileDrop],
                );
                if forward_result is Ok {
                    assert((state_machine@.journal[m3.journal.len() as int]).hook
                        == HookKind::FileDrop);
                    assert(dispatched_once(m3, state_machine@, HookKind::FileDrop));
                    lemma_dispatched_once_framed(
                        m0,
                        m3,
                        state_machine@,
                        state_machine@,
                        HookKind::FileDrop,
                        lifecycle_hooks().insert(HookKind::Event).insert(HookKind::Gamepad),
                        set![HookKind::FileDrop],
                        Set::<HookKind>::empty(),
                    );
                }
            }
            if let Err(e) = forward_result {
                return Err(AppError::Machine(e));
            }
            Ok(ControlFlow::Continue)
        },
        Event::Resized(dimensions) => {
            proof {
                lemma_iteration_journal(
                    m0,
                    m2,
                    m3,
                    state_machine@,
                    gamepad_event is Some,
                    Set::<HookKind>::empty(),
                );
            }
            resources.renderer.resize(*dimensions);
            Ok(ControlFlow::Continue)
        },
        Event::ScaleFactorChanged(dimensions) => {
            proof {
                lemma_iteration_journal(
                    m0,
                    m2,
                    m3,
                    state_machine@,
                    gamepad_event is Some,
                    Set::<HookKind>::empty(),
                );
            }
            resources.renderer.resize(*dimensions);
            Ok(ControlFlow::Continue)
        },
        Event::Other => {
            proof {
                lemma_iteration_journal(
                    m0,
                    m2,
                    m3,
                    state_machine@,
                    gamepad_event is Some,
                    Set::<HookKind>::empty(),
                );
            }
            Ok(ControlFlow::Continue)
        },
    }
}

} // verus!
