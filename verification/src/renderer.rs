//! The renderer abstraction: the capability interface a backend must
//! satisfy, the data a frame hands to it, and the factory that selects a
//! concrete backend.

use vstd::prelude::*;

use crate::geometry::{Dimensions, Rect};
use crate::gpu::{DrawCommand, GpuProbe, PassView, RendererInitError, SurfaceConfig, WgpuRenderer};

verus! {

/// Selects which concrete renderer implementation the factory instantiates.
/// Exactly one variant exists today; the set is open.
#[derive(Clone, Copy, Debug, PartialEq, Eq, Structural)]
pub enum Backend {
    Wgpu,
}

/// One unit of GUI draw data: a clipped mesh the GUI content produced for
/// the renderer to composite over the scene.
#[derive(Clone, Copy, Debug, PartialEq, Eq, Structural)]
pub struct PaintJob {
    /// The clip rectangle the mesh is scissored to.
    pub clip: Rect,
    /// Identifies the texture the mesh samples from.
    pub texture: u64,
    /// Number of vertices in the mesh.
    pub vertex_count: u32,
    /// Number of indices in the mesh.
    pub index_count: u32,
}

/// The outcome of acquiring the next presentable surface texture, as the
/// platform reported it for the current frame.
#[derive(Clone, Copy, Debug, PartialEq, Eq, Structural)]
pub enum AcquireStatus {
    /// A texture was acquired; the frame can be drawn and presented.
    Ready,
    /// The surface was lost and must be reconfigured.
    Lost,
    /// The surface no longer matches the window and must be reconfigured.
    Outdated,
    /// Acquisition timed out; treated like a lost surface.
    Timeout,
    /// The device is out of memory; a non-recoverable condition.
    OutOfMemory,
    /// Some other backend error; the frame is skipped and the loop goes on.
    OtherError,
}

impl AcquireStatus {
    /// The family of outcomes that is recovered by reconfiguring the surface
    /// at the last known dimensions and retrying on the next frame.
    pub open spec fn is_recoverable_loss(self) -> bool {
        self is Lost || self is Outdated || self is Timeout
    }
}

/// Everything one frame hands to the renderer: the surface-acquisition
/// outcome the platform reported and the GUI paint jobs to composite.
pub struct FrameInput {
    pub acquire: AcquireStatus,
    pub paint_jobs: Vec<PaintJob>,
}

/// The one error a renderer propagates out of a frame.  Everything else is
/// recovered or skipped inside `render`.
#[derive(Clone, Copy, Debug, PartialEq, Eq, Structural)]
pub enum RenderError {
    /// The device reported out-of-memory while acquiring the surface.
    OutOfMemory,
}

/// The capability interface a renderer backend satisfies.
///
/// A backend exposes the dimensions it is configured at and the history of
/// surface configurations it has performed, and obeys the two protocols the
/// runtime depends on:
///
/// - `resize` treats a request with a zero side as a no-op, preserving the
///   previous configuration;
/// - `render` recovers a lost / outdated / timed-out surface by exactly one
///   reconfiguration at the last known dimensions without propagating an
///   error, fails only on out-of-memory, and skips the frame on any other
///   backend error.
pub trait Renderer: Sized {
    /// The backend's internal invariant.
    spec fn inv(&self) -> bool;

    /// The dimensions the surface is currently configured at.
    spec fn dims(&self) -> Dimensions;

    /// Every surface configuration performed so far, in order, each with the
    /// dimensions it was performed at.
    spec fn configured(&self) -> Seq<Dimensions>;

    /// The size of the depth buffer backing the surface.  It is rebuilt
    /// together with the surface configuration and never otherwise.
    spec fn depth_size(&self) -> Dimensions;

    /// The live surface configuration.  Only a resize touches it, and only
    /// its width and height.
    spec fn configuration(&self) -> SurfaceConfig;

    /// The pass recorded for the most recently presented frame, if any
    /// frame has been presented.
    spec fn presented(&self) -> Option<PassView>;

    /// Adjust the surface to new output dimensions.  A request with a zero
    /// side is ignored — the previous configuration and depth buffer stay as
    /// they are — guarding against spurious minimize events.  A resize
    /// presents nothing and changes nothing of the configuration but its
    /// width and height.
    fn resize(&mut self, dimensions: Dimensions)
        requires
            old(self).inv(),
        ensures
            final(self).inv(),
            dimensions.is_degenerate() ==> final(self).dims() == old(self).dims()
                && final(self).configured() == old(self).configured()
                && final(self).depth_size() == old(self).depth_size()
                && final(self).configuration() == old(self).configuration(),
            !dimensions.is_degenerate() ==> final(self).dims() == dimensions
                && final(self).configured() == old(self).configured().push(dimensions)
                && final(self).depth_size() == dimensions
                && final(self).configuration() == (SurfaceConfig {
                    width: dimensions.width,
                    height: dimensions.height,
                    ..old(self).configuration()
                }),
            final(self).presented() == old(self).presented(),
    ;

    /// Draw one frame and present it.  The frame's acquisition outcome
    /// decides between presenting, recovering, skipping and failing.  A
    /// presented frame composites exactly the given paint jobs as a GUI
    /// overlay after everything else in its pass; a dropped or skipped
    /// frame presents nothing.
    fn render(&mut self, frame: &FrameInput) -> (r: Result<(), RenderError>)
        requires
            old(self).inv(),
        ensures
            final(self).inv(),
            final(self).dims() == old(self).dims(),
            final(self).configuration() == old(self).configuration(),
            r is Err <==> frame.acquire is OutOfMemory,
            r matches Err(e) ==> e == RenderError::OutOfMemory,
            frame.acquire.is_recoverable_loss() ==> final(self).configured()
                == old(self).configured().push(old(self).dims()),
            !frame.acquire.is_recoverable_loss() ==> final(self).configured()
                == old(self).configured(),
            frame.acquire is Ready ==> (final(self).presented() matches Some(p)
                && p.commands.len() > 0 && p.commands.last() == (DrawCommand::GuiOverlay {
                paint_jobs: frame.paint_jobs@.len() as usize,
            })),
            !(frame.acquire is Ready) ==> final(self).presented() == old(self).presented(),
    ;
}

/// The factory: instantiate the renderer the backend tag selects, bound to
/// the platform surface whose startup-probe outcomes are given, at the
/// initial window dimensions.  Fails fatally when no compatible GPU device
/// can be created.
pub fn create_render_backend(backend: &Backend, probe: &GpuProbe, dimensions: Dimensions) -> (r:
    Result<WgpuRenderer, RendererInitError>)
    requires
        !dimensions.is_degenerate(),
    ensures
        r is Ok <==> (probe.adapter is Some && probe.device_granted
            && probe.preferred_format is Some),
        probe.adapter is None ==> r == Err::<WgpuRenderer, RendererInitError>(
            RendererInitError::AdapterNotFound,
        ),
        probe.adapter is Some && !probe.device_granted ==> r == Err::<
            WgpuRenderer,
            RendererInitError,
        >(RendererInitError::DeviceRequestFailed),
        probe.adapter is Some && probe.device_granted && probe.preferred_format is None ==> r
            == Err::<WgpuRenderer, RendererInitError>(RendererInitError::NoPreferredFormat),
        r matches Ok(w) ==> w@.wf() && w@.dimensions == dimensions && w@.configured == seq![
            dimensions,
        ] && w@.last_frame is None,
{
    match backend {
        Backend::Wgpu => WgpuRenderer::new(probe, dimensions),
    }
}

} // verus!
