//! The platform event surface the runtime consumes, as plain values.  The
//! driver translates whatever its windowing and controller libraries deliver
//! into these types before handing them to the engine.

use vstd::prelude::*;

use crate::geometry::Dimensions;

verus! {

/// A virtual key code.  Escape is special-cased by the frame orchestrator as
/// a hard-exit shortcut; every other key is an opaque code.
#[derive(Clone, Copy, Debug, PartialEq, Eq, Structural)]
pub enum KeyCode {
    Escape,
    Other(u32),
}

/// One keyboard input: which key, if the platform resolved one, and whether
/// it was pressed or released.
#[derive(Clone, Copy, Debug, PartialEq, Eq, Structural)]
pub struct KeyInput {
    pub code: Option<KeyCode>,
    pub pressed: bool,
}

/// A mouse button.
#[derive(Clone, Copy, Debug, PartialEq, Eq, Structural)]
pub enum MouseButton {
    Left,
    Right,
    Middle,
    Other(u16),
}

/// One event from a gamepad or controller, polled once per loop iteration.
#[derive(Clone, Copy, Debug, PartialEq, Eq, Structural)]
pub struct GamepadEvent {
    /// Which pad the event came from.
    pub pad: u64,
    /// The pad's own event code.
    pub code: u32,
}

/// One platform event, as the orchestrator dispatches it.
#[derive(Debug, PartialEq, Eq)]
pub enum Event {
    /// The user asked to close the window.
    CloseRequested,
    /// Keyboard input.
    KeyboardInput(KeyInput),
    /// Mouse button input.
    MouseInput { button: MouseButton, pressed: bool },
    /// A file was dropped onto the window; carries its path.
    DroppedFile(String),
    /// The window was resized to new pixel dimensions.
    Resized(Dimensions),
    /// The display scale changed, with the window's new pixel dimensions.
    ScaleFactorChanged(Dimensions),
    /// The platform finished delivering events for this iteration: the
    /// frame-ready signal that triggers update, GUI build and render.
    FrameReady,
    /// Any other platform event, forwarded verbatim to the current state.
    Other,
}

/// The tag of an event, without its payload.
#[derive(Clone, Copy, Debug, PartialEq, Eq, Structural)]
pub enum EventKind {
    CloseRequested,
    KeyboardInput,
    MouseInput,
    DroppedFile,
    Resized,
    ScaleFactorChanged,
    FrameReady,
    Other,
}

impl Event {
    /// The tag of this event.
    pub open spec fn kind_spec(self) -> EventKind {
        match self {
            Event::CloseRequested => EventKind::CloseRequested,
            Event::KeyboardInput(_) => EventKind::KeyboardInput,
            Event::MouseInput { .. } => EventKind::MouseInput,
            Event::DroppedFile(_) => EventKind::DroppedFile,
            Event::Resized(_) => EventKind::Resized,
            Event::ScaleFactorChanged(_) => EventKind::ScaleFactorChanged,
            Event::FrameReady => EventKind::FrameReady,
            Event::Other => EventKind::Other,
        }
    }

    /// Executable twin of `kind_spec`.
    pub fn kind(&self) -> (k: EventKind)
        ensures
            k == self.kind_spec(),
    {
        match self {
            Event::CloseRequested => EventKind::CloseRequested,
            Event::KeyboardInput(_) => EventKind::KeyboardInput,
            Event::MouseInput { .. } => EventKind::MouseInput,
            Event::DroppedFile(_) => EventKind::DroppedFile,
            Event::Resized(_) => EventKind::Resized,
            Event::ScaleFactorChanged(_) => EventKind::ScaleFactorChanged,
            Event::FrameReady => EventKind::FrameReady,
            Event::Other => EventKind::Other,
        }
    }

    /// Whether this event is the Escape-key hard-exit shortcut: Escape,
    /// pressed.
    pub open spec fn is_escape_pressed(self) -> bool {
        self matches Event::KeyboardInput(k) && k.code == Some(KeyCode::Escape) && k.pressed
    }
}

} // verus!
