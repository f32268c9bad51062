//! The per-iteration resources aggregate: the bundle of window, renderer,
//! GUI and timing handles every state callback receives, exclusively, for
//! the duration of one call.

use vstd::prelude::*;

use crate::events::{Event, EventKind};
use crate::geometry::Dimensions;
use crate::gpu::WgpuRenderer;
use crate::renderer::PaintJob;

verus! {

/// The platform window, as the engine sees it: its pixel dimensions and the
/// cursor settings the engine has requested.
#[derive(Clone, Copy, Debug, PartialEq, Eq, Structural)]
pub struct Window {
    pub dimensions: Dimensions,
    /// Whether the platform supports grabbing the cursor; reported once at
    /// startup.
    pub cursor_grab_supported: bool,
    pub cursor_grabbed: bool,
    pub cursor_visible: bool,
}

/// Platform failures of window operations.
#[derive(Clone, Copy, Debug, PartialEq, Eq, Structural)]
pub enum WindowError {
    /// The platform does not support or denied grabbing the cursor.
    CursorGrabUnsupported,
}

/// Timing and system information handed to states each iteration.
#[derive(Clone, Copy, Debug, PartialEq, Eq, Structural)]
pub struct System {
    /// The window dimensions the run started with.
    pub window_dimensions: Dimensions,
    /// Time since the previous update, in microseconds.
    pub delta_time_micros: u64,
}

impl System {
    pub fn new(window_dimensions: Dimensions) -> (r: System)
        ensures
            r == (System { window_dimensions, delta_time_micros: 0 }),
    {
        System { window_dimensions, delta_time_micros: 0 }
    }
}

/// The GUI context: it gathers raw platform input between frames and queues
/// the paint jobs GUI content produces, to be drained by the frame build.
pub struct Gui {
    /// Physical dimensions the overlay is laid out against.
    pub screen: Dimensions,
    /// Tags of the platform events captured since the last frame build.
    pub pending_events: Vec<EventKind>,
    /// Paint jobs queued by GUI content for the next frame build.
    pub paint_queue: Vec<PaintJob>,
    /// Whether a frame build is open.
    pub frame_open: bool,
}

impl Gui {
    pub fn new(screen: Dimensions) -> (r: Gui)
        ensures
            r.screen == screen,
            r.pending_events@ == Seq::<EventKind>::empty(),
            r.paint_queue@ == Seq::<PaintJob>::empty(),
            !r.frame_open,
    {
        Gui { screen, pending_events: Vec::new(), paint_queue: Vec::new(), frame_open: false }
    }

    /// Capture one raw platform event for the next frame build.
    pub fn handle_event(&mut self, event: &Event)
        ensures
            final(self).pending_events@ == old(self).pending_events@.push(event.kind_spec()),
            final(self).screen == old(self).screen,
            final(self).paint_queue == old(self).paint_queue,
            final(self).frame_open == old(self).frame_open,
    {
        let kind = event.kind();
        self.pending_events.push(kind);
    }

    /// Begin a frame build: the captured input is consumed.
    pub fn start_frame(&mut self)
        ensures
            final(self).pending_events@ == Seq::<EventKind>::empty(),
            final(self).frame_open,
            final(self).screen == old(self).screen,
            final(self).paint_queue == old(self).paint_queue,
    {
        self.pending_events.clear();
        self.frame_open = true;
    }

    /// Queue one paint job for the frame being built.
    pub fn queue_paint(&mut self, job: PaintJob)
        ensures
            final(self).paint_queue@ == old(self).paint_queue@.push(job),
            final(self).screen == old(self).screen,
            final(self).pending_events == old(self).pending_events,
            final(self).frame_open == old(self).frame_open,
    {
        self.paint_queue.push(job);
    }

    /// Close the frame build and hand the queued paint jobs to the caller,
    /// in the order they were queued.
    pub fn end_frame(&mut self) -> (jobs: Vec<PaintJob>)
        ensures
            jobs@ == old(self).paint_queue@,
            final(self).paint_queue@ == Seq::<PaintJob>::empty(),
            !final(self).frame_open,
            final(self).screen == old(self).screen,
            final(self).pending_events == old(self).pending_events,
    {
        let mut jobs: Vec<PaintJob> = Vec::new();
        core::mem::swap(&mut jobs, &mut self.paint_queue);
        self.frame_open = false;
        jobs
    }
}

/// The aggregate of exclusively held handles a state callback receives for
/// the duration of one call.  Its parts model what the driver's long-lived
/// platform handles stand for; the driver keeps them in step with the
/// platform between iterations.
pub struct Resources {
    pub window: Window,
    pub renderer: WgpuRenderer,
    pub gui: Gui,
    pub system: System,
}

impl Resources {
    /// Validity of the aggregate: the renderer's own invariant.
    pub open spec fn wf(self) -> bool {
        self.renderer@.wf()
    }

    /// Ask the platform to grab (confine) the cursor, or release it.  Fails
    /// with a platform error where grabbing is unsupported or denied.
    pub fn set_cursor_grab(&mut self, grab: bool) -> (r: Result<(), WindowError>)
        ensures
            old(self).window.cursor_grab_supported ==> r is Ok && final(self).window == (Window {
                cursor_grabbed: grab,
                ..old(self).window
            }),
            !old(self).window.cursor_grab_supported ==> r == Err::<(), WindowError>(
                WindowError::CursorGrabUnsupported,
            ) && final(self).window == old(self).window,
            final(self).renderer == old(self).renderer,
            final(self).gui == old(self).gui,
            final(self).system == old(self).system,
    {
        if self.window.cursor_grab_supported {
            self.window.cursor_grabbed = grab;
            Ok(())
        } else {
            Err(WindowError::CursorGrabUnsupported)
        }
    }

    /// Show or hide the cursor.  Always succeeds.
    pub fn set_cursor_visible(&mut self, visible: bool)
        ensures
            final(self).window == (Window { cursor_visible: visible, ..old(self).window }),
            final(self).renderer == old(self).renderer,
            final(self).gui == old(self).gui,
            final(self).system == old(self).system,
    {
        self.window.cursor_visible = visible;
    }
}

} // verus!
