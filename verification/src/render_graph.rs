//! The render-graph definition: one render pass, two ordered subpasses.
//!
//! Subpass 0 (geometry) clears and writes the normal, colour and depth
//! attachments; subpass 1 (lighting) reads normal and colour as attachment
//! inputs and writes the final swapchain image, the only attachment stored
//! past the pass. The functions here pin that shape exactly; the device
//! objects are built outside from this description.

use vstd::prelude::*;

verus! {

/// Pixel format of an attachment, as the render pass declares it.
#[derive(Debug, Clone, Copy, PartialEq, Eq)]
pub enum AttachmentFormat {
    /// Whatever format the swapchain's images carry.
    SwapchainColour,
    /// 16-bit float, four channels: the normal attachment.
    Rgba16Float,
    /// Packed 10/10/10/2 unsigned normalized: the colour attachment.
    Rgb10A2Unorm,
    /// 16-bit unsigned normalized depth.
    D16Unorm,
}

/// What happens to an attachment when the pass begins.
#[derive(Debug, Clone, Copy, PartialEq, Eq)]
pub enum LoadPolicy {
    /// Cleared before any write.
    Clear,
}

/// What happens to an attachment when the pass ends.
#[derive(Debug, Clone, Copy, PartialEq, Eq)]
pub enum StorePolicy {
    /// Kept: must survive to presentation.
    Store,
    /// Transient: contents need not survive past the pass.
    DontCare,
}

/// One attachment as the render pass declares it.
#[derive(Debug, Clone, Copy, PartialEq, Eq)]
pub struct AttachmentDesc {
    pub format: AttachmentFormat,
    pub load: LoadPolicy,
    pub store: StorePolicy,
}

/// One subpass: which attachments it colour-writes, depth-writes and reads
/// as inputs, each named by its index in the attachment list.
#[derive(Debug, Clone)]
pub struct SubpassDesc {
    pub colour: Vec<usize>,
    pub depth: Option<usize>,
    pub inputs: Vec<usize>,
}

/// The whole render pass: its attachments and its ordered subpasses.
#[derive(Debug, Clone)]
pub struct RenderGraph {
    pub attachments: Vec<AttachmentDesc>,
    pub subpasses: Vec<SubpassDesc>,
}

/// Index of each attachment in the declared order.
pub const FINAL_COLOUR_ATTACHMENT: usize = 0;

pub const NORMAL_ATTACHMENT: usize = 1;

pub const COLOUR_ATTACHMENT: usize = 2;

pub const DEPTH_ATTACHMENT: usize = 3;

impl RenderGraph {
    /// Every attachment index a subpass names is in range.
    pub open spec fn wf(&self) -> bool {
        forall|s: int|
            0 <= s < self.subpasses@.len() ==> {
                let sp = #[trigger] self.subpasses@[s];
                &&& forall|c: int|
                    0 <= c < sp.colour@.len() ==> (#[trigger] sp.colour@[c] as int)
                        < self.attachments@.len()
                &&& forall|c: int|
                    0 <= c < sp.inputs@.len() ==> (#[trigger] sp.inputs@[c] as int)
                        < self.attachments@.len()
                &&& sp.depth matches Some(d) ==> (d as int) < self.attachments@.len()
            }
    }
}

/// The fixed two-subpass render graph of the deferred pipeline.
pub fn render_graph() -> (g: RenderGraph)
    ensures
        g.wf(),
        g.attachments@.len() == 4,
        g.attachments@[FINAL_COLOUR_ATTACHMENT as int] == (AttachmentDesc {
            format: AttachmentFormat::SwapchainColour,
            load: LoadPolicy::Clear,
            store: StorePolicy::Store,
        }),
        g.attachments@[NORMAL_ATTACHMENT as int] == (AttachmentDesc {
            format: AttachmentFormat::Rgba16Float,
            load: LoadPolicy::Clear,
            store: StorePolicy::DontCare,
        }),
        g.attachments@[COLOUR_ATTACHMENT as int] == (AttachmentDesc {
            format: AttachmentFormat::Rgb10A2Unorm,
            load: LoadPolicy::Clear,
            store: StorePolicy::DontCare,
        }),
        g.attachments@[DEPTH_ATTACHMENT as int] == (AttachmentDesc {
            format: AttachmentFormat::D16Unorm,
            load: LoadPolicy::Clear,
            store: StorePolicy::DontCare,
        }),
        g.subpasses@.len() == 2,
        g.subpasses@[0].colour@ == seq![NORMAL_ATTACHMENT, COLOUR_ATTACHMENT],
        g.subpasses@[0].depth == Some(DEPTH_ATTACHMENT),
        g.subpasses@[0].inputs@ == Seq::<usize>::empty(),
        g.subpasses@[1].colour@ == seq![FINAL_COLOUR_ATTACHMENT],
        g.subpasses@[1].depth == None::<usize>,
        g.subpasses@[1].inputs@ == seq![NORMAL_ATTACHMENT, COLOUR_ATTACHMENT],
{
    let mut attachments: Vec<AttachmentDesc> = Vec::new();
    attachments.push(
        AttachmentDesc {
            format: AttachmentFormat::SwapchainColour,
            load: LoadPolicy::Clear,
            store: StorePolicy::Store,
        },
    );
    attachments.push(
        AttachmentDesc {
            format: AttachmentFormat::Rgba16Float,
            load: LoadPolicy::Clear,
            store: StorePolicy::DontCare,
        },
    );
    attachments.push(
        AttachmentDesc {
            format: AttachmentFormat::Rgb10A2Unorm,
            load: LoadPolicy::Clear,
            store: StorePolicy::DontCare,
        },
    );
    attachments.push(
        AttachmentDesc {
            format: AttachmentFormat::D16Unorm,
            load: LoadPolicy::Clear,
            store: StorePolicy::DontCare,
        },
    );

    let mut geometry_colour: Vec<usize> = Vec::new();
    geometry_colour.push(NORMAL_ATTACHMENT);
    geometry_colour.push(COLOUR_ATTACHMENT);
    let geometry = SubpassDesc {
        colour: geometry_colour,
        depth: Some(DEPTH_ATTACHMENT),
        inputs: Vec::new(),
    };

    let mut lighting_colour: Vec<usize> = Vec::new();
    lighting_colour.push(FINAL_COLOUR_ATTACHMENT);
    let mut lighting_inputs: Vec<usize> = Vec::new();
    lighting_inputs.push(NORMAL_ATTACHMENT);
    lighting_inputs.push(COLOUR_ATTACHMENT);
    let lighting = SubpassDesc { colour: lighting_colour, depth: None, inputs: lighting_inputs };

    let mut subpasses: Vec<SubpassDesc> = Vec::new();
    subpasses.push(geometry);
    subpasses.push(lighting);

    let g = RenderGraph { attachments, subpasses };
    proof {
        assert(g.subpasses@[0].colour@ =~= seq![NORMAL_ATTACHMENT, COLOUR_ATTACHMENT]);
        assert(g.subpasses@[0].inputs@ =~= Seq::<usize>::empty());
        assert(g.subpasses@[1].colour@ =~= seq![FINAL_COLOUR_ATTACHMENT]);
        assert(g.subpasses@[1].inputs@ =~= seq![NORMAL_ATTACHMENT, COLOUR_ATTACHMENT]);
    }
    g
}

/// Fixed-function state of one graphics pipeline, bound to one subpass.
#[derive(Debug, Clone, Copy, PartialEq, Eq)]
pub struct PipelineConfig {
    pub subpass: usize,
    pub depth_test: bool,
    pub cull_back_faces: bool,
    pub blending: bool,
}

/// The geometry pipeline: subpass 0, depth test on, back-face culling, no
/// blending.
pub fn geometry_pipeline_config() -> (c: PipelineConfig)
    ensures
        c == (PipelineConfig { subpass: 0, depth_test: true, cull_back_faces: true, blending: false }),
{
    PipelineConfig { subpass: 0, depth_test: true, cull_back_faces: true, blending: false }
}

/// The lighting pipeline: subpass 1, no depth/stencil state, back-face
/// culling, no blending. It draws the same merged geometry as subpass 0.
pub fn lighting_pipeline_config() -> (c: PipelineConfig)
    ensures
        c == (PipelineConfig { subpass: 1, depth_test: false, cull_back_faces: true, blending: false }),
{
    PipelineConfig { subpass: 1, depth_test: false, cull_back_faces: true, blending: false }
}

} // verus!
