//! Swapchain and attachment-group bookkeeping.
//!
//! The live swapchain, its image set and the three auxiliary attachments
//! (depth, normal, colour) must always share one extent, and are only ever
//! replaced together, as a group. The device work happens outside; this
//! module keeps the group's account and decides how a recreation attempt
//! ends.

use vstd::prelude::*;

verus! {

/// Pixel dimensions of the presentation surface.
#[derive(Debug, Clone, Copy, PartialEq, Eq)]
pub struct Extent {
    pub width: u32,
    pub height: u32,
}

/// Which of the three auxiliary render targets an attachment is.
#[derive(Debug, Clone, Copy, PartialEq, Eq)]
pub enum AttachmentKind {
    Depth,
    Normal,
    Colour,
}

/// One auxiliary attachment image, as the group accounts for it.
#[derive(Debug, Clone, Copy, PartialEq, Eq)]
pub struct AttachmentModel {
    pub kind: AttachmentKind,
    pub extent: Extent,
}

/// The live swapchain: its current extent and how many images it rotates.
#[derive(Debug, Clone, Copy, PartialEq, Eq)]
pub struct SwapchainModel {
    pub extent: Extent,
    pub image_count: usize,
}

/// Why a recreation attempt did not produce a new group.
#[derive(Debug, Clone, Copy, PartialEq, Eq)]
pub enum RecreateError {
    /// The surface does not support the requested extent right now; the
    /// caller retries on a later frame rather than aborting.
    ExtentUnsupported,
}

/// The swapchain and its three dependent attachments, with one framebuffer
/// per swapchain image. Replaced only as a whole.
#[derive(Debug, Clone, Copy, PartialEq, Eq)]
pub struct ResourceGroup {
    pub swapchain: SwapchainModel,
    pub depth: AttachmentModel,
    pub normal: AttachmentModel,
    pub colour: AttachmentModel,
    pub framebuffer_count: usize,
}

impl ResourceGroup {
    /// The four resources share one extent, each auxiliary attachment has
    /// its own role, and there is one framebuffer per swapchain image.
    pub open spec fn wf(&self) -> bool {
        &&& self.depth.extent == self.swapchain.extent
        &&& self.normal.extent == self.swapchain.extent
        &&& self.colour.extent == self.swapchain.extent
        &&& self.depth.kind == AttachmentKind::Depth
        &&& self.normal.kind == AttachmentKind::Normal
        &&& self.colour.kind == AttachmentKind::Colour
        &&& self.framebuffer_count == self.swapchain.image_count
        &&& self.swapchain.image_count >= 1
    }

    /// The group as first created: swapchain and all three attachments at
    /// the window's extent.
    pub fn create(extent: Extent, image_count: usize) -> (g: ResourceGroup)
        requires
            image_count >= 1,
        ensures
            g.wf(),
            g.swapchain.extent == extent,
            g.swapchain.image_count == image_count,
    {
        ResourceGroup {
            swapchain: SwapchainModel { extent, image_count },
            depth: AttachmentModel { kind: AttachmentKind::Depth, extent },
            normal: AttachmentModel { kind: AttachmentKind::Normal, extent },
            colour: AttachmentModel { kind: AttachmentKind::Colour, extent },
            framebuffer_count: image_count,
        }
    }

    /// Settles a recreation attempt at `extent`. When the surface supports
    /// the extent, the whole group is replaced in lockstep and every one of
    /// the four resources reports the requested extent; when it does not,
    /// the attempt fails softly and the old group stands. Fatal device
    /// errors terminate at the caller and never reach this accounting.
    pub fn recreate(&self, extent: Extent, extent_supported: bool) -> (r: Result<
        ResourceGroup,
        RecreateError,
    >)
        requires
            self.wf(),
        ensures
            match r {
                Result::Ok(g) => {
                    &&& extent_supported
                    &&& g.wf()
                    &&& g.swapchain.extent == extent
                    &&& g.depth.extent == extent
                    &&& g.normal.extent == extent
                    &&& g.colour.extent == extent
                    &&& g.swapchain.image_count == self.swapchain.image_count
                },
                Result::Err(e) => {
                    &&& !extent_supported
                    &&& e == RecreateError::ExtentUnsupported
                },
            },
    {
        if !extent_supported {
            Result::Err(RecreateError::ExtentUnsupported)
        } else {
            Result::Ok(ResourceGroup::create(extent, self.swapchain.image_count))
        }
    }
}

} // verus!
