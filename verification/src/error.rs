//! Why a step of the renderer's life cycle fails.

use vstd::prelude::*;

verus! {

/// Why no swapchain can be had.
#[derive(Clone, Copy, Debug, PartialEq, Eq, Structural)]
pub enum SwapchainError {
    /// The surface supports no present mode.
    NoPresentMode,
    /// The surface supports no composite-alpha mode.
    NoCompositeAlpha,
    /// The surface supports no color format.
    NoFormat,
    /// The engine handed back a swapchain without images.
    NoImages,
    /// The engine handed back fewer images than the surface's minimum.
    TooFewImages,
}

/// Why the renderer cannot be created, resized or made to render.
#[derive(Clone, Copy, Debug, PartialEq, Eq, Structural)]
pub enum RendererError {
    /// No physical device was enumerated.
    NoDevice,
    /// The device has no queue family that both draws and presents.
    NoGraphicsQueue,
    /// No swapchain could be had.
    Swapchain(SwapchainError),
    /// No presentable image became free within the timeout.
    AcquireTimeout,
    /// The engine failed to acquire a presentable image.
    AcquireFailed,
    /// The engine named an image that the swapchain does not hold.
    UnknownImage,
}

/// The classes of failure. All of them end the program; none is recovered
/// from.
#[derive(Clone, Copy, Debug, PartialEq, Eq, Structural)]
pub enum ErrorKind {
    /// No device, or no queue family that draws and presents, at creation.
    SetupFatal,
    /// A swapchain, depth buffer or framebuffer cannot be created.
    ResourceCreationFatal,
    /// No presentable image within the timeout.
    AcquireTimeout,
    /// No presentable image for another reason.
    AcquireFailure,
}

impl RendererError {
    /// The class that this error falls under.
    pub open spec fn spec_kind(self) -> ErrorKind {
        match self {
            RendererError::NoDevice => ErrorKind::SetupFatal,
            RendererError::NoGraphicsQueue => ErrorKind::SetupFatal,
            RendererError::Swapchain(_) => ErrorKind::ResourceCreationFatal,
            RendererError::AcquireTimeout => ErrorKind::AcquireTimeout,
            RendererError::AcquireFailed => ErrorKind::AcquireFailure,
            RendererError::UnknownImage => ErrorKind::AcquireFailure,
        }
    }

    /// Computes `spec_kind`.
    pub fn kind(&self) -> (kind: ErrorKind)
        ensures
            kind == self.spec_kind(),
    {
        match self {
            RendererError::NoDevice => ErrorKind::SetupFatal,
            RendererError::NoGraphicsQueue => ErrorKind::SetupFatal,
            RendererError::Swapchain(_) => ErrorKind::ResourceCreationFatal,
            RendererError::AcquireTimeout => ErrorKind::AcquireTimeout,
            RendererError::AcquireFailed => ErrorKind::AcquireFailure,
            RendererError::UnknownImage => ErrorKind::AcquireFailure,
        }
    }
}

} // verus!
