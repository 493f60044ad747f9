//! The frame targets of a swapchain: one depth buffer, and one framebuffer
//! for each swapchain image.

use crate::surface::Format;
use crate::swapchain::Image;
use crate::swapchain::Swapchain;
use vstd::prelude::*;

verus! {

/// Vulkan format number of the depth buffer: 16-bit unsigned normalized depth.
pub const DEPTH_FORMAT_CODE: u32 = 124;

/// Depth of every framebuffer, its third dimension.
pub const FRAMEBUFFER_LAYERS: u32 = 1;

/// The depth image that all framebuffers share. Its content does not
/// outlive a render pass.
#[derive(Clone, Copy, Debug, PartialEq, Eq)]
pub struct DepthBuffer {
    /// Width and height.
    pub dimensions: [u32; 2],
    /// Depth format.
    pub format: Format,
    /// Whether the image only ever serves as a temporary attachment.
    pub transient: bool,
}

/// The binding of one swapchain image and the shared depth buffer to the
/// render pass.
#[derive(Clone, Copy, Debug, PartialEq, Eq)]
pub struct Framebuffer {
    /// Index of the swapchain image bound as color attachment.
    pub color: usize,
    /// Width, height and layers.
    pub dimensions: [u32; 3],
}

/// The depth buffer and the framebuffers that belong to one swapchain. The
/// set is never updated in part: every new swapchain gets a new one.
#[derive(Clone, Debug)]
pub struct FrameTargetSet {
    pub depth_buffer: DepthBuffer,
    pub framebuffers: Vec<Framebuffer>,
}

/// The depth buffer for `images`: as large as the first of them.
pub open spec fn spec_depth_buffer(images: Seq<Image>) -> DepthBuffer {
    DepthBuffer {
        dimensions: images[0].dimensions,
        format: Format(DEPTH_FORMAT_CODE),
        transient: true,
    }
}

/// The framebuffer for image `i` of `images`: as wide and high as that image.
pub open spec fn spec_framebuffer(images: Seq<Image>, i: int) -> Framebuffer {
    Framebuffer {
        color: i as usize,
        dimensions: [images[i].dimensions[0], images[i].dimensions[1], FRAMEBUFFER_LAYERS],
    }
}

/// The framebuffers for `images`, one for each, in the same order.
pub open spec fn spec_framebuffers(images: Seq<Image>) -> Seq<Framebuffer> {
    Seq::new(images.len(), |i: int| spec_framebuffer(images, i))
}

impl FrameTargetSet {
    /// Whether this set is the one that belongs to `images`.
    pub open spec fn matches(&self, images: Seq<Image>) -> bool {
        &&& self.depth_buffer == spec_depth_buffer(images)
        &&& self.framebuffers@ == spec_framebuffers(images)
    }

    /// Builds the frame targets of `swapchain`: a transient depth buffer as
    /// large as the first image, and for each image, in order, the
    /// framebuffer that binds it.
    pub fn rebuild(swapchain: &Swapchain) -> (targets: FrameTargetSet)
        ensures
            targets.matches(swapchain@.images),
            targets.depth_buffer.dimensions == swapchain@.images[0].dimensions,
            targets.framebuffers@.len() == swapchain@.images.len(),
            forall|i: int|
                0 <= i < swapchain@.images.len() ==> {
                    &&& (#[trigger] targets.framebuffers@[i]).color == i
                    &&& targets.framebuffers@[i].dimensions[0] == swapchain@.images[i].dimensions[0]
                    &&& targets.framebuffers@[i].dimensions[1] == swapchain@.images[i].dimensions[1]
                    &&& targets.framebuffers@[i].dimensions[2] == FRAMEBUFFER_LAYERS
                },
    {
        let images = swapchain.images();
        let depth_buffer = DepthBuffer {
            dimensions: images[0].dimensions,
            format: Format(DEPTH_FORMAT_CODE),
            transient: true,
        };
        let mut framebuffers: Vec<Framebuffer> = Vec::new();
        let mut i: usize = 0;
        while i < images.len()
            invariant
                i <= images@.len(),
                framebuffers@.len() == i,
                forall|j: int| 0 <= j < i ==> framebuffers@[j] == spec_framebuffer(images@, j),
            decreases images@.len() - i,
        {
            let image = images[i];
            framebuffers.push(
                Framebuffer {
                    color: i,
                    dimensions: [image.dimensions[0], image.dimensions[1], FRAMEBUFFER_LAYERS],
                },
            );
            i += 1;
        }
        assert(framebuffers@ =~= spec_framebuffers(images@));
        FrameTargetSet { depth_buffer, framebuffers }
    }
}

} // verus!
