//! The scene-render sub-component: it owns the fixed-function pipeline for
//! scene content and records the scene's draw calls into a render pass.

use vstd::prelude::*;

use crate::gpu::{scene_pipeline, DrawCommand, PipelineDescriptor, RenderPass, SurfaceConfig};

verus! {

/// Renders scene content with one fixed-function pipeline.
pub struct WorldRender {
    render_pipeline: PipelineDescriptor,
}

impl WorldRender {
    /// The pipeline this component draws with.
    pub closed spec fn pipeline_spec(&self) -> PipelineDescriptor {
        self.render_pipeline
    }

    /// Build the scene pipeline against the live surface configuration: its
    /// color target takes the surface's own format.
    pub fn new(config: &SurfaceConfig) -> (r: WorldRender)
        ensures
            r.pipeline_spec() == scene_pipeline(config.format),
    {
        WorldRender {
            render_pipeline: PipelineDescriptor {
                format: config.format,
                topology: crate::gpu::PrimitiveTopology::TriangleList,
                front_face: crate::gpu::FrontFace::Ccw,
                cull_back_faces: true,
                polygon_mode: crate::gpu::PolygonMode::Fill,
                blend_replace: true,
                depth_test: false,
                sample_count: 1,
            },
        }
    }

    /// Record the scene's draw calls: bind the scene pipeline, then draw
    /// the scene primitives.  The pass's clear operations are untouched.
    pub fn render(&mut self, render_pass: &mut RenderPass)
        ensures
            final(self).pipeline_spec() == old(self).pipeline_spec(),
            final(render_pass).commands@ == old(render_pass).commands@ + seq![
                DrawCommand::SetPipeline(old(self).pipeline_spec()),
                DrawCommand::Draw {
                    first_vertex: 0,
                    vertex_count: 3,
                    first_instance: 0,
                    instance_count: 1,
                },
            ],
            final(render_pass).clear_color == old(render_pass).clear_color,
            final(render_pass).clear_depth == old(render_pass).clear_depth,
    {
        render_pass.commands.push(DrawCommand::SetPipeline(self.render_pipeline));
        render_pass.commands.push(
            DrawCommand::Draw {
                first_vertex: 0,
                vertex_count: 3,
                first_instance: 0,
                instance_count: 1,
            },
        );
        proof {
            assert(render_pass.commands@ =~= old(render_pass).commands@ + seq![
                DrawCommand::SetPipeline(old(self).pipeline_spec()),
                DrawCommand::Draw {
                    first_vertex: 0,
                    vertex_count: 3,
                    first_instance: 0,
                    instance_count: 1,
                },
            ]);
        }
    }
}

} // verus!
