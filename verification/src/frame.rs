//! What one frame records, submits and presents.

use vstd::prelude::*;

verus! {

/// Seconds that the caller waits for the next presentable image before it
/// reports `Acquired::Timeout`.
pub const ACQUIRE_TIMEOUT_SECS: u64 = 1;

/// Red component that the color attachment is cleared to: the bits of the
/// single-precision number 0.2.
pub const CLEAR_RED_BITS: u32 = 0x3E4C_CCCD;

/// Green component of the clear color: the bits of 0.4.
pub const CLEAR_GREEN_BITS: u32 = 0x3ECC_CCCD;

/// Blue component of the clear color: the bits of 0.8.
pub const CLEAR_BLUE_BITS: u32 = 0x3F4C_CCCD;

/// Alpha component of the clear color: the bits of 1.0.
pub const CLEAR_ALPHA_BITS: u32 = 0x3F80_0000;

/// Value that the depth attachment is cleared to: the bits of 1.0.
pub const CLEAR_DEPTH_BITS: u32 = 0x3F80_0000;

/// The values that the attachments are cleared to, as bits of
/// single-precision numbers.
#[derive(Clone, Copy, Debug, PartialEq, Eq)]
pub struct ClearValues {
    /// Red, green, blue, alpha.
    pub color: [u32; 4],
    pub depth: u32,
}

/// A recorded command buffer: one render pass on one framebuffer.
#[derive(Clone, Copy, Debug, PartialEq, Eq)]
pub struct CommandBuffer {
    /// Index of the framebuffer drawn to.
    pub framebuffer: usize,
    /// What the attachments are cleared to when the pass begins.
    pub clear: ClearValues,
    /// Number of draw calls inside the pass.
    pub draw_calls: u32,
}

/// The record of a command buffer that was handed to the queue.
#[derive(Clone, Copy, Debug, PartialEq, Eq)]
pub struct Submission {
    pub command_buffer: CommandBuffer,
}

/// What came of waiting for the next presentable image.
#[derive(Clone, Copy, Debug, PartialEq, Eq, Structural)]
pub enum Acquired {
    /// The image with this index is free.
    Image(usize),
    /// No image became free in time.
    Timeout,
    /// The engine reported an error.
    Failed,
}

/// One thing that the caller does on the queue.
#[derive(Clone, Copy, Debug, PartialEq, Eq)]
pub enum Step {
    /// Hand this command buffer to the queue.
    Submit(CommandBuffer),
    /// Present the image with this index on the same queue.
    Present(usize),
}

/// What the caller does for one frame, after it has acquired the image: the
/// steps, in this order.
#[derive(Clone, Copy, Debug, PartialEq, Eq)]
pub struct Frame {
    pub steps: [Step; 2],
}

/// The values that every pass clears its attachments to.
pub open spec fn spec_clear_values() -> ClearValues {
    ClearValues {
        color: [CLEAR_RED_BITS, CLEAR_GREEN_BITS, CLEAR_BLUE_BITS, CLEAR_ALPHA_BITS],
        depth: CLEAR_DEPTH_BITS,
    }
}

/// The command buffer recorded for framebuffer `i`: it clears both
/// attachments and draws nothing.
pub open spec fn spec_command_buffer(i: int) -> CommandBuffer {
    CommandBuffer { framebuffer: i as usize, clear: spec_clear_values(), draw_calls: 0 }
}

/// The command buffers recorded for `count` framebuffers, one for each, in
/// the same order.
pub open spec fn spec_command_buffers(count: nat) -> Seq<CommandBuffer> {
    Seq::new(count, |i: int| spec_command_buffer(i))
}

/// The frame for the acquired image `image`: the command buffer recorded
/// for the framebuffer of that image is submitted, and then the image is
/// presented.
pub open spec fn spec_frame(image: usize) -> Frame {
    Frame { steps: [Step::Submit(spec_command_buffer(image as int)), Step::Present(image)] }
}

} // verus!
