use vstd::prelude::*;

use crate::data::{QUAD_INSTANCE_COUNT, QUAD_VERTEX_COUNT};
use crate::frame::{PassCommand, PassCommandView, RenderPass, RenderPassView};
use crate::pipeline::{quad_pipeline, PipelineDescriptor, PipelineDescriptorView};

verus! {

/// What drawing the quad records: its pipeline is bound, and one draw call
/// covers three vertices of one instance.
pub open spec fn quad_commands(pipeline: PipelineDescriptorView) -> Seq<PassCommandView> {
    seq![
        PassCommandView::SetPipeline(pipeline),
        PassCommandView::Draw {
            vertex_start: 0,
            vertex_end: QUAD_VERTEX_COUNT,
            instance_start: 0,
            instance_end: QUAD_INSTANCE_COUNT,
        },
    ]
}

/// A drawable that owns one pipeline and draws with it. It holds no other
/// state.
#[derive(Debug, PartialEq, Eq)]
pub struct WgpuQuad {
    render_pipeline: PipelineDescriptor,
}

impl WgpuQuad {
    /// The pipeline that the quad draws with.
    pub closed spec fn pipeline(&self) -> PipelineDescriptorView {
        self.render_pipeline@
    }

    /// A quad whose pipeline runs `shader_source` and renders to a target of
    /// `format`.
    pub fn new(format: wgpu::TextureFormat, shader_source: &str) -> (quad: WgpuQuad)
        ensures
            quad.pipeline() == quad_pipeline(format, shader_source@),
    {
        WgpuQuad { render_pipeline: PipelineDescriptor::build(format, shader_source) }
    }

    /// Records the quad into an open render pass, behind what the pass
    /// already holds. Nothing but the pass changes.
    pub fn draw(&self, render_pass: &mut RenderPass)
        ensures
            final(render_pass)@ == (RenderPassView {
                commands: old(render_pass)@.commands + quad_commands(self.pipeline()),
                ..old(render_pass)@
            }),
    {
        render_pass.record(PassCommand::SetPipeline(self.render_pipeline.clone()));
        render_pass.record(
            PassCommand::Draw {
                vertex_start: 0,
                vertex_end: QUAD_VERTEX_COUNT,
                instance_start: 0,
                instance_end: QUAD_INSTANCE_COUNT,
            },
        );
        assert(render_pass@.commands =~= old(render_pass)@.commands + quad_commands(
            self.pipeline(),
        ));
    }

    /// The pipeline that the quad draws with.
    pub fn render_pipeline(&self) -> (pipeline: &PipelineDescriptor)
        ensures
            pipeline@ == self.pipeline(),
    {
        &self.render_pipeline
    }
}

} // verus!
