//! Frame orchestration for a two-pass deferred renderer.
//!
//! The crate holds the verified core of the frame loop: flattening of
//! transformed mesh instances into draw-ready buffers, the per-image
//! synchronization state machine, the swapchain/attachment bookkeeping,
//! the render-graph description, the recorded command sequence and the
//! per-frame uniform accounting. The device, the window and the float
//! arithmetic live outside, behind the narrow trusted boundary in
//! `transform`.

pub mod camera;
pub mod commands;
pub mod frame_sync;
pub mod light;
pub mod model;
pub mod render_graph;
pub mod swapchain;
pub mod transform;
pub mod uniforms;
pub mod vertex;
pub mod vp;
