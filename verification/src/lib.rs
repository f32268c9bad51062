//! An application-state orchestration engine for a windowed, GPU-rendered
//! runtime.
//!
//! The engine owns a stack of application-defined behavioral states and
//! dispatches lifecycle hooks and platform events to the top of that stack in
//! a precisely specified order.  Around the stack stand the pieces a frame
//! loop needs: a per-iteration aggregate of resource handles, a renderer
//! capability interface with a factory, and a model of the GPU backend's
//! surface lifecycle, including recovery from a lost surface.
//!
//! Platform work itself — the window, the event loop, the GPU device — is
//! performed by an unverified driver.  The driver hands the engine plain
//! values (events, adapter capabilities, surface-acquisition outcomes) and
//! performs the actions the engine decides on.

pub mod app;
pub mod events;
pub mod geometry;
pub mod gpu;
pub mod machine;
pub mod renderer;
pub mod resources;
pub mod state;
pub mod world;
pub mod world_render;
