//! A model of the GPU surface backend: the startup protocol that turns
//! platform-reported adapter capabilities into a surface configuration, the
//! resize protocol, and the per-frame render protocol with its failure
//! recovery.
//!
//! The platform driver performs the actual device calls; this module holds
//! every decision those calls depend on as verified code over plain values.

use vstd::prelude::*;

use crate::geometry::Dimensions;
use crate::renderer::{AcquireStatus, FrameInput, RenderError, Renderer};

verus! {

/// Pixel format of a presentable surface, as the platform reports it.  The
/// engine only stores and compares the tag.
#[derive(Clone, Copy, Debug, PartialEq, Eq, Structural)]
pub struct TextureFormat {
    pub code: u32,
}

/// How presented frames are scheduled to the display.
#[derive(Clone, Copy, Debug, PartialEq, Eq, Structural)]
pub enum PresentMode {
    /// First-in first-out, synchronized to the vertical blank.
    Fifo,
    /// Present immediately, tearing allowed.
    Immediate,
    /// Triple-buffered presentation.
    Mailbox,
}

/// What the surface texture is used for.
#[derive(Clone, Copy, Debug, PartialEq, Eq, Structural)]
pub enum TextureUsage {
    /// The surface is a render target.
    RenderAttachment,
}

/// The live configuration of the presentable surface.
#[derive(Clone, Copy, Debug, PartialEq, Eq, Structural)]
pub struct SurfaceConfig {
    pub usage: TextureUsage,
    pub format: TextureFormat,
    pub width: u32,
    pub height: u32,
    pub present_mode: PresentMode,
}

/// The depth buffer backing the surface.  Its size is always kept equal to
/// the live surface configuration; that is an invariant, not a cache.
#[derive(Clone, Copy, Debug, PartialEq, Eq, Structural)]
pub struct DepthTexture {
    pub width: u32,
    pub height: u32,
}

/// The texture-resolution limits a device is requested with.  They are taken
/// from the adapter so that images the size of the surface are supported.
#[derive(Clone, Copy, Debug, PartialEq, Eq, Structural)]
pub struct Limits {
    pub max_texture_dimension_1d: u32,
    pub max_texture_dimension_2d: u32,
    pub max_texture_dimension_3d: u32,
}

/// What the platform reported about the adapter it selected.
#[derive(Clone, Copy, Debug, PartialEq, Eq, Structural)]
pub struct AdapterInfo {
    /// Feature bits the adapter supports.
    pub features: u64,
    /// The adapter's texture-resolution limits.
    pub limits: Limits,
}

/// The outcomes of the platform-side startup steps, in the order the
/// protocol performs them: adapter selection, device request, preferred
/// surface format query.
#[derive(Clone, Copy, Debug, PartialEq, Eq, Structural)]
pub struct GpuProbe {
    /// The adapter the platform selected, if any compatible one exists.
    pub adapter: Option<AdapterInfo>,
    /// Whether the logical device and queue request was granted.
    pub device_granted: bool,
    /// The surface's preferred pixel format, if the query succeeded.
    pub preferred_format: Option<TextureFormat>,
}

/// Fatal startup failures of the backend.  Each aborts the run.
#[derive(Clone, Copy, Debug, PartialEq, Eq, Structural)]
pub enum RendererInitError {
    /// No compatible GPU adapter was found on the system.
    AdapterNotFound,
    /// The logical device and queue request was rejected.
    DeviceRequestFailed,
    /// The surface did not report a preferred pixel format.
    NoPreferredFormat,
}

/// How the vertices of a primitive are assembled.
#[derive(Clone, Copy, Debug, PartialEq, Eq, Structural)]
pub enum PrimitiveTopology {
    PointList,
    LineList,
    LineStrip,
    TriangleList,
    TriangleStrip,
}

/// Which winding order is considered front-facing.
#[derive(Clone, Copy, Debug, PartialEq, Eq, Structural)]
pub enum FrontFace {
    Ccw,
    Cw,
}

/// How polygons are rasterized.
#[derive(Clone, Copy, Debug, PartialEq, Eq, Structural)]
pub enum PolygonMode {
    Fill,
    Line,
    Point,
}

/// The plain data of a fixed-function render pipeline: everything the
/// backend decides when it builds one.
#[derive(Clone, Copy, Debug, PartialEq, Eq, Structural)]
pub struct PipelineDescriptor {
    /// The color target format; always the surface's own format.
    pub format: TextureFormat,
    pub topology: PrimitiveTopology,
    pub front_face: FrontFace,
    /// Whether back faces are culled.
    pub cull_back_faces: bool,
    pub polygon_mode: PolygonMode,
    /// Whether color and alpha blending replace the destination.
    pub blend_replace: bool,
    /// Whether a depth-stencil state is attached.
    pub depth_test: bool,
    /// Multisample count.
    pub sample_count: u32,
}

/// The pipeline both backends build for plain scene content: one triangle
/// list into the surface format, back faces culled, no depth state.
pub open spec fn scene_pipeline(format: TextureFormat) -> PipelineDescriptor {
    PipelineDescriptor {
        format,
        topology: PrimitiveTopology::TriangleList,
        front_face: FrontFace::Ccw,
        cull_back_faces: true,
        polygon_mode: PolygonMode::Fill,
        blend_replace: true,
        depth_test: false,
        sample_count: 1,
    }
}

/// One command recorded into a render pass.
#[derive(Clone, Copy, Debug, PartialEq, Eq, Structural)]
pub enum DrawCommand {
    /// Bind the pipeline with the given descriptor.
    SetPipeline(PipelineDescriptor),
    /// Draw a range of vertices for a range of instances.
    Draw { first_vertex: u32, vertex_count: u32, first_instance: u32, instance_count: u32 },
    /// Composite the GUI overlay: one batch of paint jobs, always recorded
    /// after the scene commands so the GUI draws on top.
    GuiOverlay { paint_jobs: usize },
}

/// The record of one render pass: its clear operations and the commands it
/// recorded, in order.
pub struct RenderPass {
    /// Whether the color attachment is cleared at the start of the pass.
    pub clear_color: bool,
    /// Whether a depth attachment is wired and cleared.
    pub clear_depth: bool,
    pub commands: Vec<DrawCommand>,
}

/// The mathematical view of a render pass.
#[verifier::ext_equal]
pub struct PassView {
    pub clear_color: bool,
    pub clear_depth: bool,
    pub commands: Seq<DrawCommand>,
}

impl View for RenderPass {
    type V = PassView;

    open spec fn view(&self) -> PassView {
        PassView { clear_color: self.clear_color, clear_depth: self.clear_depth, commands: self.commands@ }
    }
}

/// The pass the backend records for one presented frame: clear the color
/// target, bind the scene pipeline, draw the scene, then composite the GUI
/// overlay last.
pub open spec fn frame_pass(pipeline: PipelineDescriptor, paint_jobs: usize) -> PassView {
    PassView {
        clear_color: true,
        clear_depth: false,
        commands: seq![
            DrawCommand::SetPipeline(pipeline),
            DrawCommand::Draw { first_vertex: 0, vertex_count: 3, first_instance: 0, instance_count: 1 },
            DrawCommand::GuiOverlay { paint_jobs },
        ],
    }
}

/// The per-frame failures of the surface, as the acquisition step reports
/// them.
#[derive(Clone, Copy, Debug, PartialEq, Eq, Structural)]
pub enum SurfaceError {
    Lost,
    Outdated,
    Timeout,
    OutOfMemory,
    Other,
}

/// Feature bits the backend cannot run without.  None today.
pub const REQUIRED_FEATURES: u64 = 0;

/// Feature bits the backend uses when the adapter offers them.  None today.
pub const OPTIONAL_FEATURES: u64 = 0;

/// The mathematical view of the GPU surface backend.
pub struct WgpuView {
    pub config: SurfaceConfig,
    pub dimensions: Dimensions,
    pub depth: DepthTexture,
    pub features: u64,
    pub limits: Limits,
    pub pipeline: PipelineDescriptor,
    /// Every surface configuration performed, in order.
    pub configured: Seq<Dimensions>,
    /// The pass recorded for the most recently presented frame.
    pub last_frame: Option<PassView>,
}

impl WgpuView {
    /// Well-formedness of the backend state: the depth buffer and the stored
    /// dimensions always agree with the live surface configuration, frames
    /// are presented first-in first-out, and the last configuration
    /// performed is the live one.
    pub open spec fn wf(self) -> bool {
        &&& self.config.width == self.dimensions.width
        &&& self.config.height == self.dimensions.height
        &&& self.config.present_mode is Fifo
        &&& self.config.usage is RenderAttachment
        &&& self.depth.width == self.config.width
        &&& self.depth.height == self.config.height
        &&& self.pipeline == scene_pipeline(self.config.format)
        &&& !self.dimensions.is_degenerate()
        &&& self.configured.len() >= 1
        &&& self.configured.last() == self.dimensions
    }

    /// Whether two backend states differ at most in the frame they last
    /// presented.
    pub open spec fn same_surface(self, other: WgpuView) -> bool {
        &&& other.config == self.config
        &&& other.dimensions == self.dimensions
        &&& other.depth == self.depth
        &&& other.features == self.features
        &&& other.limits == self.limits
        &&& other.pipeline == self.pipeline
        &&& other.configured == self.configured
    }
}

/// The GPU surface backend.  It owns the surface configuration, the depth
/// buffer and the scene pipeline, and realizes the renderer contract: the
/// zero-size resize guard and the lost-surface recovery.
pub struct WgpuRenderer {
    config: SurfaceConfig,
    dimensions: Dimensions,
    depth_texture: DepthTexture,
    device_features: u64,
    device_limits: Limits,
    render_pipeline: PipelineDescriptor,
    configure_log: Vec<Dimensions>,
    last_frame: Option<RenderPass>,
}

impl View for WgpuRenderer {
    type V = WgpuView;

    closed spec fn view(&self) -> WgpuView {
        WgpuView {
            config: self.config,
            dimensions: self.dimensions,
            depth: self.depth_texture,
            features: self.device_features,
            limits: self.device_limits,
            pipeline: self.render_pipeline,
            configured: self.configure_log@,
            last_frame: match self.last_frame {
                Some(p) => Some(p@),
                None => None,
            },
        }
    }
}

impl WgpuRenderer {
    /// Feature bits the backend cannot run without.
    pub fn required_features() -> (r: u64)
        ensures
            r == REQUIRED_FEATURES,
    {
        REQUIRED_FEATURES
    }

    /// Feature bits the backend uses when the adapter offers them.
    pub fn optional_features() -> (r: u64)
        ensures
            r == OPTIONAL_FEATURES,
    {
        OPTIONAL_FEATURES
    }

    /// The limits a device is requested with: the adapter's own
    /// texture-resolution limits, so that images the size of the surface are
    /// supported.
    pub fn required_limits(adapter: &AdapterInfo) -> (r: Limits)
        ensures
            r == adapter.limits,
    {
        adapter.limits
    }

    /// The startup protocol.  The platform has created the surface, selected
    /// an adapter, requested the device and queried the preferred format;
    /// `probe` carries those outcomes.  Each missing piece fails fatally, in
    /// protocol order; otherwise the surface is configured at the given
    /// dimensions with a matching depth buffer and scene pipeline, and the
    /// device is requested with the adapter's limits and the feature set
    /// `(optional ∩ adapter) ∪ required`.
    pub fn new(probe: &GpuProbe, dimensions: Dimensions) -> (r: Result<WgpuRenderer, RendererInitError>)
        requires
            !dimensions.is_degenerate(),
        ensures
            r is Ok <==> (probe.adapter is Some && probe.device_granted
                && probe.preferred_format is Some),
            probe.adapter is None ==> r == Err::<WgpuRenderer, RendererInitError>(
                RendererInitError::AdapterNotFound,
            ),
            probe.adapter is Some && !probe.device_granted ==> r
                == Err::<WgpuRenderer, RendererInitError>(RendererInitError::DeviceRequestFailed),
            probe.adapter is Some && probe.device_granted && probe.preferred_format is None
                ==> r == Err::<WgpuRenderer, RendererInitError>(
                RendererInitError::NoPreferredFormat,
            ),
            r matches Ok(w) ==> {
                &&& w@.wf()
                &&& w@.dimensions == dimensions
                &&& probe.preferred_format matches Some(f) && w@.config == (SurfaceConfig {
                    usage: TextureUsage::RenderAttachment,
                    format: f,
                    width: dimensions.width,
                    height: dimensions.height,
                    present_mode: PresentMode::Fifo,
                })
                &&& probe.adapter matches Some(a) && w@.features == ((OPTIONAL_FEATURES
                    & a.features) | REQUIRED_FEATURES) && w@.limits == a.limits
                &&& w@.depth == (DepthTexture {
                    width: dimensions.width,
                    height: dimensions.height,
                })
                &&& w@.pipeline == scene_pipeline(w@.config.format)
                &&& w@.configured == seq![dimensions]
                &&& w@.last_frame is None
            },
    {
        let adapter = match probe.adapter {
            Some(a) => a,
            None => {
                return Err(RendererInitError::AdapterNotFound);
            },
        };
        if !probe.device_granted {
            return Err(RendererInitError::DeviceRequestFailed);
        }
        let features = (Self::optional_features() & adapter.features) | Self::required_features();
        let limits = Self::required_limits(&adapter);
        let format = match probe.preferred_format {
            Some(f) => f,
            None => {
                return Err(RendererInitError::NoPreferredFormat);
            },
        };
        let config = SurfaceConfig {
            usage: TextureUsage::RenderAttachment,
            format,
            width: dimensions.width,
            height: dimensions.height,
            present_mode: PresentMode::Fifo,
        };
        let mut configure_log: Vec<Dimensions> = Vec::new();
        configure_log.push(dimensions);
        let renderer = WgpuRenderer {
            config,
            dimensions,
            depth_texture: DepthTexture { width: dimensions.width, height: dimensions.height },
            device_features: features,
            device_limits: limits,
            render_pipeline: PipelineDescriptor {
                format,
                topology: PrimitiveTopology::TriangleList,
                front_face: FrontFace::Ccw,
                cull_back_faces: true,
                polygon_mode: PolygonMode::Fill,
                blend_replace: true,
                depth_test: false,
                sample_count: 1,
            },
            configure_log,
            last_frame: None,
        };
        proof {
            assert(renderer@.configured =~= seq![dimensions]);
        }
        Ok(renderer)
    }

    /// The per-frame render protocol up to presentation: acquire the next
    /// surface texture, and on success record one pass — clear, scene
    /// pipeline, scene draw, GUI overlay last — submit and present it.  A
    /// failed acquisition changes nothing and reports the surface error.
    pub fn render_frame(&mut self, frame: &FrameInput) -> (r: Result<(), SurfaceError>)
        requires
            old(self)@.wf(),
        ensures
            final(self)@.wf(),
            old(self)@.same_surface(final(self)@),
            frame.acquire is Ready ==> r is Ok && final(self)@.last_frame == Some(
                frame_pass(old(self)@.pipeline, frame.paint_jobs@.len() as usize),
            ),
            !(frame.acquire is Ready) ==> final(self)@.last_frame == old(self)@.last_frame,
            r is Err <==> !(frame.acquire is Ready),
            frame.acquire is Lost ==> r == Err::<(), SurfaceError>(SurfaceError::Lost),
            frame.acquire is Outdated ==> r == Err::<(), SurfaceError>(SurfaceError::Outdated),
            frame.acquire is Timeout ==> r == Err::<(), SurfaceError>(SurfaceError::Timeout),
            frame.acquire is OutOfMemory ==> r == Err::<(), SurfaceError>(SurfaceError::OutOfMemory),
            frame.acquire is OtherError ==> r == Err::<(), SurfaceError>(SurfaceError::Other),
    {
        match frame.acquire {
            AcquireStatus::Ready => {
                let mut commands: Vec<DrawCommand> = Vec::new();
                commands.push(DrawCommand::SetPipeline(self.render_pipeline));
                commands.push(
                    DrawCommand::Draw {
                        first_vertex: 0,
                        vertex_count: 3,
                        first_instance: 0,
                        instance_count: 1,
                    },
                );
                commands.push(DrawCommand::GuiOverlay { paint_jobs: frame.paint_jobs.len() });
                proof {
                    assert(commands@ =~= frame_pass(
                        self.render_pipeline,
                        frame.paint_jobs@.len() as usize,
                    ).commands);
                }
                self.last_frame = Some(
                    RenderPass { clear_color: true, clear_depth: false, commands },
                );
                Ok(())
            },
            AcquireStatus::Lost => Err(SurfaceError::Lost),
            AcquireStatus::Outdated => Err(SurfaceError::Outdated),
            AcquireStatus::Timeout => Err(SurfaceError::Timeout),
            AcquireStatus::OutOfMemory => Err(SurfaceError::OutOfMemory),
            AcquireStatus::OtherError => Err(SurfaceError::Other),
        }
    }

    /// The dimensions the surface is configured at.
    pub fn current_dimensions(&self) -> (r: Dimensions)
        ensures
            r == self@.dimensions,
    {
        self.dimensions
    }

    /// The live surface configuration.
    pub fn surface_config(&self) -> (r: SurfaceConfig)
        ensures
            r == self@.config,
    {
        self.config
    }

    /// The depth buffer's current size.
    pub fn depth_texture(&self) -> (r: DepthTexture)
        ensures
            r == self@.depth,
    {
        self.depth_texture
    }

    /// The feature set the device was requested with.
    pub fn device_features(&self) -> (r: u64)
        ensures
            r == self@.features,
    {
        self.device_features
    }

    /// The limits the device was requested with.
    pub fn device_limits(&self) -> (r: Limits)
        ensures
            r == self@.limits,
    {
        self.device_limits
    }

    /// The scene pipeline's descriptor.
    pub fn pipeline(&self) -> (r: PipelineDescriptor)
        ensures
            r == self@.pipeline,
    {
        self.render_pipeline
    }

    /// Every surface configuration performed so far, in order.
    pub fn configure_log(&self) -> (r: &Vec<Dimensions>)
        ensures
            r@ == self@.configured,
    {
        &self.configure_log
    }

    /// The pass recorded for the most recently presented frame.
    pub fn last_frame(&self) -> (r: &Option<RenderPass>)
        ensures
            match r {
                Some(p) => self@.last_frame == Some(p@),
                None => self@.last_frame is None,
            },
    {
        &self.last_frame
    }
}

impl Renderer for WgpuRenderer {
    open spec fn inv(&self) -> bool {
        self@.wf()
    }

    open spec fn dims(&self) -> Dimensions {
        self@.dimensions
    }

    open spec fn configured(&self) -> Seq<Dimensions> {
        self@.configured
    }

    open spec fn depth_size(&self) -> Dimensions {
        Dimensions { width: self@.depth.width, height: self@.depth.height }
    }

    open spec fn configuration(&self) -> SurfaceConfig {
        self@.config
    }

    open spec fn presented(&self) -> Option<PassView> {
        self@.last_frame
    }

    /// The resize protocol: ignore zero-sized requests; otherwise store the
    /// new dimensions, update the surface configuration, reconfigure the
    /// surface and recreate the depth buffer at the new size.
    fn resize(&mut self, dimensions: Dimensions) {
        if dimensions.width == 0 || dimensions.height == 0 {
            return ;
        }
        self.dimensions = dimensions;
        self.config.width = dimensions.width;
        self.config.height = dimensions.height;
        self.configure_log.push(dimensions);
        self.depth_texture = DepthTexture { width: dimensions.width, height: dimensions.height };
    }

    /// One frame: run the render protocol, then apply the failure policy.  A
    /// lost, outdated or timed-out surface is recovered by re-running the
    /// resize protocol at the last known dimensions and dropping the frame;
    /// out-of-memory is fatal; any other error skips the frame.
    fn render(&mut self, frame: &FrameInput) -> (r: Result<(), RenderError>) {
        match self.render_frame(frame) {
            Ok(()) => Ok(()),
            Err(SurfaceError::Lost) => {
                let dimensions = self.current_dimensions();
                self.resize(dimensions);
                Ok(())
            },
            Err(SurfaceError::Outdated) => {
                let dimensions = self.current_dimensions();
                self.resize(dimensions);
                Ok(())
            },
            Err(SurfaceError::Timeout) => {
                let dimensions = self.current_dimensions();
                self.resize(dimensions);
                Ok(())
            },
            Err(SurfaceError::OutOfMemory) => Err(RenderError::OutOfMemory),
            Err(SurfaceError::Other) => Ok(()),
        }
    }
}

} // verus!
