//! Which swapchain to ask for, and the swapchain that came back.

use crate::config::Config;
use crate::config::RESOLUTION_THRESHOLD;
use crate::error::SwapchainError;
use crate::surface::Capabilities;
use crate::surface::CompositeAlpha;
use crate::surface::Format;
use crate::surface::ImageUsage;
use crate::surface::PresentMode;
use crate::surface::PresentModes;
use crate::surface::SurfaceTransform;
use vstd::prelude::*;

verus! {

/// Width taken where neither the configuration nor the surface gives one.
pub const FALLBACK_WIDTH: u32 = 800;

/// Height taken where neither the configuration nor the surface gives one.
pub const FALLBACK_HEIGHT: u32 = 600;

/// Number of array layers of every swapchain image.
pub const IMAGE_LAYERS: u32 = 1;

/// The larger of two lengths.
pub open spec fn spec_max(a: u32, b: u32) -> u32 {
    if a < b {
        b
    } else {
        a
    }
}

/// `extent` with each component raised to that of `min` where it is smaller.
pub open spec fn spec_clamp_up(extent: [u32; 2], min: [u32; 2]) -> [u32; 2] {
    [spec_max(extent[0], min[0]), spec_max(extent[1], min[1])]
}

/// The extent that a surface suggests: its current extent, or the fallback
/// where it has none.
pub open spec fn spec_surface_extent(caps: Capabilities) -> [u32; 2] {
    match caps.current_extent {
        Some(current) => current,
        None => [FALLBACK_WIDTH, FALLBACK_HEIGHT],
    }
}

/// The extent of the swapchain to ask for. A configured resolution that is
/// set is taken as it stands, also where it exceeds the surface's maximum.
/// Else the surface's suggestion is taken and raised to the surface's
/// minimum, component by component.
pub open spec fn spec_resolve_extent(caps: Capabilities, config: Config) -> [u32; 2] {
    if config.resolution_is_set() {
        config.window.resolution
    } else {
        spec_clamp_up(spec_surface_extent(caps), caps.min_image_extent)
    }
}

/// The present mode to ask for: `Mailbox` where vertical sync is wanted and
/// the surface supports it, else the first mode that the surface supports.
pub open spec fn spec_choose_present_mode(modes: PresentModes, vsync: bool) -> Option<PresentMode> {
    if vsync && modes@.contains(PresentMode::Mailbox) {
        Some(PresentMode::Mailbox)
    } else if modes@.len() > 0 {
        Some(modes@[0])
    } else {
        None
    }
}

/// Computes `spec_resolve_extent`.
pub fn resolve_extent(caps: &Capabilities, config: &Config) -> (extent: [u32; 2])
    ensures
        extent == spec_resolve_extent(*caps, *config),
        // A resolution with both components above the threshold is kept.
        config.window.resolution[0] > RESOLUTION_THRESHOLD && config.window.resolution[1]
            > RESOLUTION_THRESHOLD ==> extent == config.window.resolution,
        // Without a set resolution, a current extent that covers the minimum is kept.
        caps.current_extent matches Some(current) ==> (config.window.resolution[0]
            <= RESOLUTION_THRESHOLD && config.window.resolution[1] <= RESOLUTION_THRESHOLD
            && current[0] >= caps.min_image_extent[0] && current[1] >= caps.min_image_extent[1]
            ==> extent == current),
        // Without a set resolution and without a current extent, the fallback is
        // raised to the minimum.
        config.window.resolution[0] <= RESOLUTION_THRESHOLD && config.window.resolution[1]
            <= RESOLUTION_THRESHOLD && caps.current_extent is None ==> extent[0] == spec_max(
            caps.min_image_extent[0],
            FALLBACK_WIDTH,
        ) && extent[1] == spec_max(caps.min_image_extent[1], FALLBACK_HEIGHT),
        // The surface's minimum is met unless the configuration overrides it.
        !config.resolution_is_set() ==> extent[0] >= caps.min_image_extent[0] && extent[1]
            >= caps.min_image_extent[1],
{
    let resolution: [u32; 2] = config.window.resolution;
    if resolution[0] <= RESOLUTION_THRESHOLD || resolution[1] <= RESOLUTION_THRESHOLD {
        let min: [u32; 2] = caps.min_image_extent;
        let derived: [u32; 2] = match caps.current_extent {
            Some(current) => current,
            None => [FALLBACK_WIDTH, FALLBACK_HEIGHT],
        };
        let width: u32 = if derived[0] < min[0] { min[0] } else { derived[0] };
        let height: u32 = if derived[1] < min[1] { min[1] } else { derived[1] };
        [width, height]
    } else {
        resolution
    }
}

/// Computes `spec_choose_present_mode`; `None` exactly where the surface
/// supports no present mode at all.
pub fn choose_present_mode(caps: &Capabilities, config: &Config) -> (mode: Option<PresentMode>)
    ensures
        mode == spec_choose_present_mode(caps.present_modes, config.graphics.vsync),
        config.graphics.vsync && caps.present_modes@.contains(PresentMode::Mailbox) ==> mode
            == Some(PresentMode::Mailbox),
        (!config.graphics.vsync || !caps.present_modes@.contains(PresentMode::Mailbox))
            && caps.present_modes@.len() > 0 ==> mode == Some(caps.present_modes@[0]),
        mode is None <==> caps.present_modes@.len() == 0,
{
    proof {
        caps.present_modes.lemma_view();
    }
    if config.graphics.vsync && caps.present_modes.supports(PresentMode::Mailbox) {
        Some(PresentMode::Mailbox)
    } else {
        caps.present_modes.first()
    }
}

/// What the engine is asked for when a swapchain is created.
#[derive(Clone, Copy, Debug, PartialEq, Eq)]
pub struct SwapchainCreateInfo {
    /// Least number of images.
    pub min_image_count: u32,
    /// Color format of the images.
    pub format: Format,
    /// Width and height of the images.
    pub dimensions: [u32; 2],
    /// Array layers of each image.
    pub layers: u32,
    /// What the images may be used for.
    pub usage: ImageUsage,
    /// Transformation applied before an image is shown.
    pub transform: SurfaceTransform,
    /// How the compositor treats the alpha channel.
    pub composite_alpha: CompositeAlpha,
    /// How presented images become visible.
    pub present_mode: PresentMode,
    /// Whether pixels hidden by other windows may be left undrawn.
    pub clipped: bool,
    /// Whether the swapchain in use is handed over as a hint, to be reused
    /// where the engine can and retired once the new one is returned.
    pub recycles_previous: bool,
}

/// A presentable image as the engine reports it.
#[derive(Clone, Copy, Debug, PartialEq, Eq)]
pub struct Image {
    /// Width and height.
    pub dimensions: [u32; 2],
    /// Color format.
    pub format: Format,
}

/// A swapchain: what it was created with, and its images in the order in
/// which the engine numbers them.
#[derive(Debug)]
pub struct Swapchain {
    info: SwapchainCreateInfo,
    images: Vec<Image>,
}

/// The mathematical content of a `Swapchain`.
#[verifier::ext_equal]
pub struct SwapchainView {
    pub info: SwapchainCreateInfo,
    pub images: Seq<Image>,
}

impl SwapchainView {
    /// A swapchain has at least one image and at least as many as were asked
    /// for, and no more than can be numbered.
    pub open spec fn wf(self) -> bool {
        0 < self.images.len() <= usize::MAX && self.images.len() >= self.info.min_image_count
    }
}

impl View for Swapchain {
    type V = SwapchainView;

    closed spec fn view(&self) -> SwapchainView {
        SwapchainView { info: self.info, images: self.images@ }
    }
}

/// The request that `create_swapchain` makes, or why it makes none.
pub open spec fn spec_create_swapchain(
    caps: Capabilities,
    recycles_previous: bool,
    config: Config,
) -> Result<SwapchainCreateInfo, SwapchainError> {
    match spec_choose_present_mode(caps.present_modes, config.graphics.vsync) {
        None => Err(SwapchainError::NoPresentMode),
        Some(present_mode) => if caps.supported_composite_alpha@.len() == 0 {
            Err(SwapchainError::NoCompositeAlpha)
        } else if caps.supported_formats@.len() == 0 {
            Err(SwapchainError::NoFormat)
        } else {
            Ok(
                SwapchainCreateInfo {
                    min_image_count: caps.min_image_count,
                    format: caps.supported_formats@[0],
                    dimensions: spec_resolve_extent(caps, config),
                    layers: IMAGE_LAYERS,
                    usage: caps.supported_usage_flags,
                    transform: SurfaceTransform::Identity,
                    composite_alpha: caps.supported_composite_alpha@[0],
                    present_mode,
                    clipped: true,
                    recycles_previous,
                },
            )
        },
    }
}

/// Decides which swapchain to create on a surface with capabilities `caps`:
/// the resolved extent, the chosen present mode, the first supported
/// composite-alpha mode and color format, the surface's minimum image count
/// and all its supported usages. `previous` is the swapchain in use, if any.
///
/// Fails exactly where the surface supports no present mode, no
/// composite-alpha mode or no format, in this order.
pub fn create_swapchain(
    caps: &Capabilities,
    previous: Option<&Swapchain>,
    config: &Config,
) -> (request: Result<SwapchainCreateInfo, SwapchainError>)
    ensures
        request == spec_create_swapchain(*caps, previous is Some, *config),
        request is Ok <==> caps.present_modes@.len() > 0 && caps.supported_composite_alpha@.len()
            > 0 && caps.supported_formats@.len() > 0,
{
    proof {
        caps.supported_composite_alpha.lemma_view();
    }
    let dimensions: [u32; 2] = resolve_extent(caps, config);
    let present_mode = match choose_present_mode(caps, config) {
        Some(mode) => mode,
        None => { return Err(SwapchainError::NoPresentMode); },
    };
    let composite_alpha = match caps.supported_composite_alpha.first() {
        Some(alpha) => alpha,
        None => { return Err(SwapchainError::NoCompositeAlpha); },
    };
    if caps.supported_formats.len() == 0 {
        return Err(SwapchainError::NoFormat);
    }
    let format = caps.supported_formats[0];
    Ok(
        SwapchainCreateInfo {
            min_image_count: caps.min_image_count,
            format,
            dimensions,
            layers: IMAGE_LAYERS,
            usage: caps.supported_usage_flags,
            transform: SurfaceTransform::Identity,
            composite_alpha,
            present_mode,
            clipped: true,
            recycles_previous: previous.is_some(),
        },
    )
}

impl Swapchain {
    /// Every swapchain is well formed.
    #[verifier::type_invariant]
    pub open spec fn wf(self) -> bool {
        self@.wf()
    }

    /// The swapchain that holds `images` for `info`, or why there is none:
    /// `NoImages` where there is no image, `TooFewImages` where there are
    /// some but fewer than `info.min_image_count`.
    pub open spec fn spec_new(info: SwapchainCreateInfo, images: Seq<Image>) -> Result<
        SwapchainView,
        SwapchainError,
    > {
        if images.len() == 0 {
            Err(SwapchainError::NoImages)
        } else if images.len() < info.min_image_count {
            Err(SwapchainError::TooFewImages)
        } else {
            Ok(SwapchainView { info, images })
        }
    }

    /// Takes over the images that the engine created for `info`; see
    /// `spec_new`.
    pub fn new(info: SwapchainCreateInfo, images: Vec<Image>) -> (swapchain: Result<
        Swapchain,
        SwapchainError,
    >)
        ensures
            match swapchain {
                Ok(s) => s@.wf() && Self::spec_new(info, images@) == Ok::<_, SwapchainError>(s@),
                Err(e) => Self::spec_new(info, images@) == Err::<SwapchainView, _>(e),
            },
            swapchain is Ok <==> images@.len() > 0 && images@.len() >= info.min_image_count,
    {
        if images.len() == 0 {
            Err(SwapchainError::NoImages)
        } else if images.len() < info.min_image_count as usize {
            Err(SwapchainError::TooFewImages)
        } else {
            Ok(Swapchain { info, images })
        }
    }

    /// What the swapchain was created with.
    pub fn info(&self) -> (info: SwapchainCreateInfo)
        ensures
            info == self@.info,
    {
        self.info
    }

    /// The images, in the engine's order: at least one, and at least as many
    /// as were asked for.
    pub fn images(&self) -> (images: &Vec<Image>)
        ensures
            images@ == self@.images,
            self@.wf(),
    {
        proof {
            use_type_invariant(self);
        }
        &self.images
    }
}

} // verus!
