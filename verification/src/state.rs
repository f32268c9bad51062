//! The behavior contract application states implement, and the five-way
//! transition they return to command the state machine.

use vstd::prelude::*;

use crate::events::{Event, GamepadEvent, KeyInput, MouseButton};
use crate::resources::Resources;

verus! {

/// Errors out of the state machine and out of state hooks.
#[derive(Clone, Copy, Debug, PartialEq, Eq, Structural)]
pub enum StateError {
    /// A state was requested while the machine's stack was empty; only
    /// reachable as a transient condition during teardown.
    EmptyStack,
    /// A state hook failed, carrying the state's own error code.
    Hook(u64),
}

/// The instruction a state returns to command the state machine.
pub enum Transition<S> {
    /// Keep the current state.
    Stay,
    /// Remove the current state and resume the one beneath it.
    Pop,
    /// Suspend the current state and run the carried state on top of it.
    Push(S),
    /// Stop the current state and run the carried state in its slot.
    Switch(S),
    /// Drain the whole stack and stop the machine.
    Quit,
}

/// The behavior unit the state machine drives.
///
/// A state has a stable identity, lifecycle hooks, per-event hooks and a
/// per-frame update.  Every hook defaults to a no-op returning
/// `Transition::Stay`, so implementers override only what they need.  A
/// hook receives the resources aggregate exclusively for the duration of
/// the call and must leave it valid; it must not change the state's
/// identity.
pub trait State: Sized {
    /// The state's identity, stable across its whole lifecycle.  The
    /// machine's dispatch journal records hook invocations against it.
    spec fn sid(&self) -> u64;

    /// Executable twin of `sid`.
    fn id(&self) -> (r: u64)
        ensures
            r == self.sid(),
    ;

    /// Invoked when the state becomes the running top of the stack.
    fn on_start(&mut self, resources: &mut Resources) -> (r: Result<(), StateError>)
        requires
            old(resources).wf(),
        ensures
            final(self).sid() == old(self).sid(),
            final(resources).wf(),
    {
        Ok(())
    }

    /// Invoked when the state is removed from the stack.
    fn on_stop(&mut self, resources: &mut Resources) -> (r: Result<(), StateError>)
        requires
            old(resources).wf(),
        ensures
            final(self).sid() == old(self).sid(),
            final(resources).wf(),
    {
        Ok(())
    }

    /// Invoked when another state is pushed on top of this one.
    fn on_pause(&mut self, resources: &mut Resources) -> (r: Result<(), StateError>)
        requires
            old(resources).wf(),
        ensures
            final(self).sid() == old(self).sid(),
            final(resources).wf(),
    {
        Ok(())
    }

    /// Invoked when the state on top of this one is popped.
    fn on_resume(&mut self, resources: &mut Resources) -> (r: Result<(), StateError>)
        requires
            old(resources).wf(),
        ensures
            final(self).sid() == old(self).sid(),
            final(resources).wf(),
    {
        Ok(())
    }

    /// Invoked once per frame while this state is the running top.
    fn update(&mut self, resources: &mut Resources) -> (r: Result<Transition<Self>, StateError>)
        requires
            old(resources).wf(),
        ensures
            final(self).sid() == old(self).sid(),
            final(resources).wf(),
    {
        Ok(Transition::Stay)
    }

    /// Invoked when a file is dropped onto the window.
    fn on_file_dropped(&mut self, resources: &mut Resources, path: &String) -> (r: Result<
        Transition<Self>,
        StateError,
    >)
        requires
            old(resources).wf(),
        ensures
            final(self).sid() == old(self).sid(),
            final(resources).wf(),
    {
        Ok(Transition::Stay)
    }

    /// Invoked on mouse button input.
    fn on_mouse(&mut self, resources: &mut Resources, button: &MouseButton, pressed: bool) -> (r:
        Result<Transition<Self>, StateError>)
        requires
            old(resources).wf(),
        ensures
            final(self).sid() == old(self).sid(),
            final(resources).wf(),
    {
        Ok(Transition::Stay)
    }

    /// Invoked on keyboard input.
    fn on_key(&mut self, resources: &mut Resources, input: KeyInput) -> (r: Result<
        Transition<Self>,
        StateError,
    >)
        requires
            old(resources).wf(),
        ensures
            final(self).sid() == old(self).sid(),
            final(resources).wf(),
    {
        Ok(Transition::Stay)
    }

    /// Invoked for the gamepad event polled this iteration, if any.
    fn on_gamepad_event(&mut self, resources: &mut Resources, event: GamepadEvent) -> (r: Result<
        Transition<Self>,
        StateError,
    >)
        requires
            old(resources).wf(),
        ensures
            final(self).sid() == old(self).sid(),
            final(resources).wf(),
    {
        Ok(Transition::Stay)
    }

    /// Invoked for every platform event, before any special-cased handling.
    fn on_event(&mut self, resources: &mut Resources, event: &Event) -> (r: Result<
        Transition<Self>,
        StateError,
    >)
        requires
            old(resources).wf(),
        ensures
            final(self).sid() == old(self).sid(),
            final(resources).wf(),
    {
        Ok(Transition::Stay)
    }
}

/// A state with every hook left at its default.
pub struct EmptyState {}

impl State for EmptyState {
    open spec fn sid(&self) -> u64 {
        0
    }

    fn id(&self) -> u64 {
        0
    }
}

} // verus!
