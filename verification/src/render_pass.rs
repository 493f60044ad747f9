//! The one render pass of the renderer: a color attachment that is cleared
//! and stored, and a depth attachment that is cleared and then discarded.

use crate::surface::Format;
use crate::targets::DEPTH_FORMAT_CODE;
use vstd::prelude::*;

verus! {

/// Samples per pixel of both attachments.
pub const SAMPLES: u32 = 1;

/// What happens to an attachment's content when the pass begins.
#[derive(Clone, Copy, Debug, PartialEq, Eq, Structural)]
pub enum LoadOp {
    Load,
    Clear,
    DontCare,
}

/// What happens to an attachment's content when the pass ends.
#[derive(Clone, Copy, Debug, PartialEq, Eq, Structural)]
pub enum StoreOp {
    Store,
    DontCare,
}

/// One attachment of a render pass.
#[derive(Clone, Copy, Debug, PartialEq, Eq, Structural)]
pub struct Attachment {
    pub format: Format,
    pub samples: u32,
    pub load: LoadOp,
    pub store: StoreOp,
}

/// A render pass with a single subpass that draws to `color` and tests
/// against `depth`.
#[derive(Clone, Copy, Debug, PartialEq, Eq, Structural)]
pub struct RenderPass {
    pub color: Attachment,
    pub depth: Attachment,
}

impl RenderPass {
    /// The renderer's pass for color images of format `color_format`.
    pub open spec fn spec_single_pass(color_format: Format) -> RenderPass {
        RenderPass {
            color: Attachment {
                format: color_format,
                samples: SAMPLES,
                load: LoadOp::Clear,
                store: StoreOp::Store,
            },
            depth: Attachment {
                format: Format(DEPTH_FORMAT_CODE),
                samples: SAMPLES,
                load: LoadOp::Clear,
                store: StoreOp::DontCare,
            },
        }
    }

    /// Describes the renderer's pass for color images of format
    /// `color_format`.
    pub fn single_pass(color_format: Format) -> (pass: RenderPass)
        ensures
            pass == Self::spec_single_pass(color_format),
    {
        RenderPass {
            color: Attachment {
                format: color_format,
                samples: SAMPLES,
                load: LoadOp::Clear,
                store: StoreOp::Store,
            },
            depth: Attachment {
                format: Format(DEPTH_FORMAT_CODE),
                samples: SAMPLES,
                load: LoadOp::Clear,
                store: StoreOp::DontCare,
            },
        }
    }
}

} // verus!
