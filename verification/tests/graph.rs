//! Render-graph shape, command recording, swapchain group and uniforms.

use deferred_frames::commands::{record, record_all, ClearValue, DrawCommand, PipelineStage};
use deferred_frames::camera::Camera;
use deferred_frames::light::Light;
use deferred_frames::render_graph::{
    geometry_pipeline_config, lighting_pipeline_config, render_graph, AttachmentFormat,
    LoadPolicy, StorePolicy, COLOUR_ATTACHMENT, DEPTH_ATTACHMENT, FINAL_COLOUR_ATTACHMENT,
    NORMAL_ATTACHMENT,
};
use deferred_frames::swapchain::{Extent, RecreateError, ResourceGroup};
use deferred_frames::transform::ONE_F32_BITS;
use deferred_frames::uniforms::UniformPool;
use deferred_frames::vp::VP;

#[test]
fn render_graph_has_two_subpasses_over_four_attachments() {
    let g = render_graph();
    assert_eq!(g.attachments.len(), 4);

    let final_colour = &g.attachments[FINAL_COLOUR_ATTACHMENT];
    assert_eq!(final_colour.format, AttachmentFormat::SwapchainColour);
    assert_eq!(final_colour.load, LoadPolicy::Clear);
    assert_eq!(final_colour.store, StorePolicy::Store);

    let normal = &g.attachments[NORMAL_ATTACHMENT];
    assert_eq!(normal.format, AttachmentFormat::Rgba16Float);
    assert_eq!(normal.store, StorePolicy::DontCare);

    let colour = &g.attachments[COLOUR_ATTACHMENT];
    assert_eq!(colour.format, AttachmentFormat::Rgb10A2Unorm);
    assert_eq!(colour.store, StorePolicy::DontCare);

    let depth = &g.attachments[DEPTH_ATTACHMENT];
    assert_eq!(depth.format, AttachmentFormat::D16Unorm);
    assert_eq!(depth.store, StorePolicy::DontCare);

    assert_eq!(g.subpasses.len(), 2);
    let geometry = &g.subpasses[0];
    assert_eq!(geometry.colour, vec![NORMAL_ATTACHMENT, COLOUR_ATTACHMENT]);
    assert_eq!(geometry.depth, Some(DEPTH_ATTACHMENT));
    assert!(geometry.inputs.is_empty());

    let lighting = &g.subpasses[1];
    assert_eq!(lighting.colour, vec![FINAL_COLOUR_ATTACHMENT]);
    assert_eq!(lighting.depth, None);
    assert_eq!(lighting.inputs, vec![NORMAL_ATTACHMENT, COLOUR_ATTACHMENT]);
}

#[test]
fn pipeline_configs_match_their_subpasses() {
    let geometry = geometry_pipeline_config();
    assert_eq!(geometry.subpass, 0);
    assert!(geometry.depth_test);
    assert!(geometry.cull_back_faces);
    assert!(!geometry.blending);

    let lighting = lighting_pipeline_config();
    assert_eq!(lighting.subpass, 1);
    assert!(!lighting.depth_test);
    assert!(lighting.cull_back_faces);
    assert!(!lighting.blending);
}

#[test]
fn recorded_commands_follow_the_two_subpass_sequence() {
    let seq = record(2, 72);

    let black = ClearValue::Colour { r: 0, g: 0, b: 0, a: 1.0f32.to_bits() };
    assert_eq!(
        seq.clears,
        vec![black, black, black, ClearValue::Depth { d: 1.0f32.to_bits() }]
    );
    assert_eq!(ONE_F32_BITS, 1.0f32.to_bits());

    assert_eq!(
        seq.commands,
        vec![
            DrawCommand::BeginRenderPass { framebuffer: 2 },
            DrawCommand::BindPipeline(PipelineStage::Geometry),
            DrawCommand::BindDescriptorSets(PipelineStage::Geometry),
            DrawCommand::BindVertexBuffer,
            DrawCommand::BindIndexBuffer,
            DrawCommand::DrawIndexed { index_count: 72 },
            DrawCommand::NextSubpass,
            DrawCommand::BindPipeline(PipelineStage::Lighting),
            DrawCommand::BindDescriptorSets(PipelineStage::Lighting),
            DrawCommand::DrawIndexed { index_count: 72 },
            DrawCommand::EndRenderPass,
        ]
    );
}

#[test]
fn one_sequence_is_recorded_per_framebuffer() {
    let all = record_all(3, 36);
    assert_eq!(all.len(), 3);
    for (f, seq) in all.iter().enumerate() {
        assert_eq!(seq.commands[0], DrawCommand::BeginRenderPass { framebuffer: f });
        assert_eq!(seq.commands.len(), 11);
    }
}

#[test]
fn recreated_group_reports_requested_extent_everywhere() {
    let group = ResourceGroup::create(Extent { width: 800, height: 600 }, 3);
    let requested = Extent { width: 1024, height: 768 };

    let g = group.recreate(requested, true).unwrap();
    assert_eq!(g.swapchain.extent, requested);
    assert_eq!(g.depth.extent, requested);
    assert_eq!(g.normal.extent, requested);
    assert_eq!(g.colour.extent, requested);
    assert_eq!(g.swapchain.image_count, 3);
    assert_eq!(g.framebuffer_count, 3);
}

#[test]
fn unsupported_extent_fails_softly() {
    let group = ResourceGroup::create(Extent { width: 800, height: 600 }, 2);
    let r = group.recreate(Extent { width: 0, height: 0 }, false);
    assert_eq!(r, Err(RecreateError::ExtentUnsupported));
}

#[test]
fn uniform_pool_hands_out_fresh_handles() {
    let mut pool: UniformPool<u64> = UniformPool::new();
    let a = pool.next(10);
    let b = pool.next(20);
    let c = pool.next(30);
    assert_eq!((a, b, c), (0, 1, 2));
    assert_eq!(pool.len(), 3);
    assert_eq!(*pool.get(a), 10);
    assert_eq!(*pool.get(b), 20);
    assert_eq!(*pool.get(c), 30);

    // Pools of different kinds share no storage.
    let mut other: UniformPool<u64> = UniformPool::new();
    assert_eq!(other.next(99), 0);
    assert_eq!(*pool.get(0), 10);
}

#[test]
fn camera_and_light_carry_their_fields() {
    let camera = Camera::new([1, 2, 3], 42);
    assert_eq!(camera.position(), [1, 2, 3]);
    assert_eq!(camera.dt(), 42);

    let light = Light::new(
        [0, 0, 1.0f32.to_bits()],
        [1.0f32.to_bits(), 0, 0],
        1.0f32.to_bits(),
    );
    assert_eq!(light.position(), [0, 0, 1.0f32.to_bits()]);
    assert_eq!(light.colour(), [1.0f32.to_bits(), 0, 0]);
    assert_eq!(light.intensity(), 1.0f32.to_bits());
}

#[test]
fn vp_starts_as_identity() {
    let vp = VP::new();
    let mut expected = [0u32; 16];
    expected[0] = 1.0f32.to_bits();
    expected[5] = 1.0f32.to_bits();
    expected[10] = 1.0f32.to_bits();
    expected[15] = 1.0f32.to_bits();
    assert_eq!(vp.view, expected);
    assert_eq!(vp.proj, expected);
}
