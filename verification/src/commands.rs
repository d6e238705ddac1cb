//! The command recorder.
//!
//! Once per presented frame, one command sequence is recorded per
//! framebuffer: begin the pass with four clear values, draw the merged
//! geometry through the geometry pipeline, advance to the lighting
//! subpass, draw the same geometry through the lighting pipeline, end the
//! pass. The sequence is data; the device executes it outside.

use vstd::prelude::*;
use crate::transform::ONE_F32_BITS;

verus! {

/// Which of the two pipelines a command binds.
#[derive(Debug, Clone, Copy, PartialEq, Eq)]
pub enum PipelineStage {
    Geometry,
    Lighting,
}

/// A clear value handed to the begin of the render pass; scalar components
/// are IEEE-754 single-precision bit patterns.
#[derive(Debug, Clone, Copy, PartialEq, Eq)]
pub enum ClearValue {
    Colour { r: u32, g: u32, b: u32, a: u32 },
    Depth { d: u32 },
}

/// One recorded command.
#[derive(Debug, Clone, Copy, PartialEq, Eq)]
pub enum DrawCommand {
    /// Begin the render pass against framebuffer `framebuffer`, clearing
    /// every attachment.
    BeginRenderPass { framebuffer: usize },
    BindPipeline(PipelineStage),
    BindDescriptorSets(PipelineStage),
    BindVertexBuffer,
    BindIndexBuffer,
    /// One indexed draw over the full merged index list.
    DrawIndexed { index_count: u32 },
    NextSubpass,
    EndRenderPass,
}

/// The opaque black the three colour-bearing attachments are cleared to.
pub open spec fn background_clear() -> ClearValue {
    ClearValue::Colour { r: 0, g: 0, b: 0, a: ONE_F32_BITS }
}

/// The depth attachment is cleared to the farthest depth (one), so the
/// geometry pass's own writes are never pre-occluded.
pub open spec fn farthest_depth_clear() -> ClearValue {
    ClearValue::Depth { d: ONE_F32_BITS }
}

/// The four clear values, in attachment order: final colour, normal,
/// colour, then depth.
pub open spec fn standard_clears() -> Seq<ClearValue> {
    seq![background_clear(), background_clear(), background_clear(), farthest_depth_clear()]
}

/// The command sequence recorded for one framebuffer: both subpasses issue
/// the same indexed draw over the merged geometry, and the vertex/index
/// buffers stay bound across the subpass boundary.
pub open spec fn command_sequence(framebuffer: usize, index_count: u32) -> Seq<DrawCommand> {
    seq![
        DrawCommand::BeginRenderPass { framebuffer },
        DrawCommand::BindPipeline(PipelineStage::Geometry),
        DrawCommand::BindDescriptorSets(PipelineStage::Geometry),
        DrawCommand::BindVertexBuffer,
        DrawCommand::BindIndexBuffer,
        DrawCommand::DrawIndexed { index_count },
        DrawCommand::NextSubpass,
        DrawCommand::BindPipeline(PipelineStage::Lighting),
        DrawCommand::BindDescriptorSets(PipelineStage::Lighting),
        DrawCommand::DrawIndexed { index_count },
        DrawCommand::EndRenderPass,
    ]
}

/// One reusable submission unit: the clear values the pass begins with and
/// the recorded commands.
#[derive(Debug, Clone)]
pub struct CommandSequence {
    pub clears: Vec<ClearValue>,
    pub commands: Vec<DrawCommand>,
}

/// Records the two-subpass command sequence for one framebuffer.
pub fn record(framebuffer: usize, index_count: u32) -> (r: CommandSequence)
    ensures
        r.clears@ == standard_clears(),
        r.commands@ == command_sequence(framebuffer, index_count),
{
    let mut clears: Vec<ClearValue> = Vec::new();
    clears.push(ClearValue::Colour { r: 0, g: 0, b: 0, a: ONE_F32_BITS });
    clears.push(ClearValue::Colour { r: 0, g: 0, b: 0, a: ONE_F32_BITS });
    clears.push(ClearValue::Colour { r: 0, g: 0, b: 0, a: ONE_F32_BITS });
    clears.push(ClearValue::Depth { d: ONE_F32_BITS });

    let mut commands: Vec<DrawCommand> = Vec::new();
    commands.push(DrawCommand::BeginRenderPass { framebuffer });
    commands.push(DrawCommand::BindPipeline(PipelineStage::Geometry));
    commands.push(DrawCommand::BindDescriptorSets(PipelineStage::Geometry));
    commands.push(DrawCommand::BindVertexBuffer);
    commands.push(DrawCommand::BindIndexBuffer);
    commands.push(DrawCommand::DrawIndexed { index_count });
    commands.push(DrawCommand::NextSubpass);
    commands.push(DrawCommand::BindPipeline(PipelineStage::Lighting));
    commands.push(DrawCommand::BindDescriptorSets(PipelineStage::Lighting));
    commands.push(DrawCommand::DrawIndexed { index_count });
    commands.push(DrawCommand::EndRenderPass);

    let r = CommandSequence { clears, commands };
    proof {
        assert(r.clears@ =~= standard_clears());
        assert(r.commands@ =~= command_sequence(framebuffer, index_count));
    }
    r
}

/// Records one command sequence per framebuffer, every one drawing the
/// same merged index list.
pub fn record_all(framebuffer_count: usize, index_count: u32) -> (out: Vec<CommandSequence>)
    ensures
        out@.len() == framebuffer_count,
        forall|f: int|
            0 <= f < framebuffer_count ==> {
                &&& (#[trigger] out@[f]).clears@ == standard_clears()
                &&& out@[f].commands@ == command_sequence(f as usize, index_count)
            },
{
    let mut out: Vec<CommandSequence> = Vec::new();
    for f in 0..framebuffer_count
        invariant
            out@.len() == f,
            forall|k: int|
                0 <= k < f ==> {
                    &&& (#[trigger] out@[k]).clears@ == standard_clears()
                    &&& out@[k].commands@ == command_sequence(k as usize, index_count)
                },
    {
        out.push(record(f, index_count));
    }
    out
}

} // verus!
