//! What a presentation surface reports to a physical device.
//!
//! The sets of present modes and composite-alpha modes are kept as vulkano
//! keeps them, one flag per mode, and are read through vulkano: membership by
//! `supports`, the default pick by the first item of `iter`.

use vstd::prelude::*;
use vulkano::swapchain::SupportedCompositeAlpha;
use vulkano::swapchain::SupportedPresentModes;

verus! {

/// How a presented image becomes visible.
#[derive(Clone, Copy, Debug, PartialEq, Eq, Structural)]
pub enum PresentMode {
    /// Shown at once; may tear.
    Immediate,
    /// Waits for the vertical blank; a newer image replaces a waiting one.
    Mailbox,
    /// Waits for the vertical blank in a queue.
    Fifo,
    /// As `Fifo`, but shown at once if the queue ran empty.
    Relaxed,
}

/// The present modes that a surface supports.
#[derive(Clone, Copy, Debug, PartialEq, Eq, Structural)]
pub struct PresentModes {
    pub immediate: bool,
    pub mailbox: bool,
    pub fifo: bool,
    pub relaxed: bool,
}

/// How the alpha channel of a presented image is treated by the compositor.
#[derive(Clone, Copy, Debug, PartialEq, Eq, Structural)]
pub enum CompositeAlpha {
    Opaque,
    PreMultiplied,
    PostMultiplied,
    Inherit,
}

/// The composite-alpha modes that a surface supports.
#[derive(Clone, Copy, Debug, PartialEq, Eq, Structural)]
pub struct CompositeAlphas {
    pub opaque: bool,
    pub pre_multiplied: bool,
    pub post_multiplied: bool,
    pub inherit: bool,
}

/// A transformation applied to an image before it is shown.
#[derive(Clone, Copy, Debug, PartialEq, Eq, Structural)]
pub enum SurfaceTransform {
    Identity,
    Rotate90,
    Rotate180,
    Rotate270,
    HorizontalMirror,
    HorizontalMirrorRotate90,
    HorizontalMirrorRotate180,
    HorizontalMirrorRotate270,
    Inherit,
}

/// A pixel format, by its Vulkan format number.
#[derive(Clone, Copy, Debug, PartialEq, Eq, Structural)]
pub struct Format(pub u32);

/// What an image may be used for.
#[derive(Clone, Copy, Debug, PartialEq, Eq, Structural)]
pub struct ImageUsage {
    pub transfer_source: bool,
    pub transfer_destination: bool,
    pub sampled: bool,
    pub storage: bool,
    pub color_attachment: bool,
    pub depth_stencil_attachment: bool,
    pub transient_attachment: bool,
    pub input_attachment: bool,
}

/// The capabilities of a surface when used by a physical device.
#[derive(Clone, Debug)]
pub struct Capabilities {
    /// Least number of images that a swapchain on this surface holds.
    pub min_image_count: u32,
    /// Current width and height of the surface; `None` where the surface
    /// takes its size from the swapchain.
    pub current_extent: Option<[u32; 2]>,
    /// Least width and height of a swapchain on this surface.
    pub min_image_extent: [u32; 2],
    /// Greatest width and height of a swapchain on this surface.
    pub max_image_extent: [u32; 2],
    /// Supported present modes.
    pub present_modes: PresentModes,
    /// Supported composite-alpha modes.
    pub supported_composite_alpha: CompositeAlphas,
    /// Supported color formats, in the order reported; the first is the
    /// default pick.
    pub supported_formats: Vec<Format>,
    /// Supported uses of the swapchain's images.
    pub supported_usage_flags: ImageUsage,
}

impl PresentModes {
    /// Whether `mode` is flagged as supported.
    pub open spec fn supports_spec(self, mode: PresentMode) -> bool {
        match mode {
            PresentMode::Immediate => self.immediate,
            PresentMode::Mailbox => self.mailbox,
            PresentMode::Fifo => self.fifo,
            PresentMode::Relaxed => self.relaxed,
        }
    }

    /// The first supported mode in the order `Immediate`, `Mailbox`, `Fifo`,
    /// `Relaxed`.
    pub open spec fn first_spec(self) -> Option<PresentMode> {
        if self.immediate {
            Some(PresentMode::Immediate)
        } else if self.mailbox {
            Some(PresentMode::Mailbox)
        } else if self.fifo {
            Some(PresentMode::Fifo)
        } else if self.relaxed {
            Some(PresentMode::Relaxed)
        } else {
            None
        }
    }

    /// The set without any mode.
    pub fn none() -> (modes: PresentModes)
        ensures
            modes@ == Seq::<PresentMode>::empty(),
            modes == (PresentModes { immediate: false, mailbox: false, fifo: false, relaxed: false }),
    {
        PresentModes { immediate: false, mailbox: false, fifo: false, relaxed: false }
    }

    /// Whether `mode` is supported.
    pub fn supports(&self, mode: PresentMode) -> (supported: bool)
        ensures
            supported == self@.contains(mode),
            supported == self.supports_spec(mode),
    {
        proof {
            self.lemma_view();
        }
        vk_present_mode_supported(self, mode)
    }

    /// The first supported mode, if there is one.
    pub fn first(&self) -> (first: Option<PresentMode>)
        ensures
            first == self.first_spec(),
            first == (if self@.len() > 0 {
                Some(self@[0])
            } else {
                None
            }),
    {
        proof {
            self.lemma_view();
        }
        vk_first_present_mode(self)
    }

    /// The sequence view holds exactly the flagged modes, each once, and
    /// starts with the first flagged one.
    pub proof fn lemma_view(self)
        ensures
            forall|mode: PresentMode| self@.contains(mode) <==> self.supports_spec(mode),
            self@.no_duplicates(),
            self.first_spec() == (if self@.len() > 0 {
                Some(self@[0])
            } else {
                None
            }),
    {
        let a = if self.immediate { seq![PresentMode::Immediate] } else { Seq::empty() };
        let b = if self.mailbox { seq![PresentMode::Mailbox] } else { Seq::empty() };
        let c = if self.fifo { seq![PresentMode::Fifo] } else { Seq::empty() };
        let d = if self.relaxed { seq![PresentMode::Relaxed] } else { Seq::empty() };
        assert(self@ == a + b + c + d);
        assert forall|mode: PresentMode| self.supports_spec(mode) implies self@.contains(mode) by {
            let i: int = match mode {
                PresentMode::Immediate => 0int,
                PresentMode::Mailbox => a.len() as int,
                PresentMode::Fifo => (a.len() + b.len()) as int,
                PresentMode::Relaxed => (a.len() + b.len() + c.len()) as int,
            };
            assert(self@[i] == mode);
        }
    }
}

impl View for PresentModes {
    type V = Seq<PresentMode>;

    /// The supported modes in the order in which they are enumerated.
    open spec fn view(&self) -> Seq<PresentMode> {
        (if self.immediate { seq![PresentMode::Immediate] } else { Seq::empty() })
            + (if self.mailbox { seq![PresentMode::Mailbox] } else { Seq::empty() })
            + (if self.fifo { seq![PresentMode::Fifo] } else { Seq::empty() })
            + (if self.relaxed { seq![PresentMode::Relaxed] } else { Seq::empty() })
    }
}

impl CompositeAlphas {
    /// Whether `alpha` is flagged as supported.
    pub open spec fn supports_spec(self, alpha: CompositeAlpha) -> bool {
        match alpha {
            CompositeAlpha::Opaque => self.opaque,
            CompositeAlpha::PreMultiplied => self.pre_multiplied,
            CompositeAlpha::PostMultiplied => self.post_multiplied,
            CompositeAlpha::Inherit => self.inherit,
        }
    }

    /// The first supported mode in the order `Opaque`, `PreMultiplied`,
    /// `PostMultiplied`, `Inherit`.
    pub open spec fn first_spec(self) -> Option<CompositeAlpha> {
        if self.opaque {
            Some(CompositeAlpha::Opaque)
        } else if self.pre_multiplied {
            Some(CompositeAlpha::PreMultiplied)
        } else if self.post_multiplied {
            Some(CompositeAlpha::PostMultiplied)
        } else if self.inherit {
            Some(CompositeAlpha::Inherit)
        } else {
            None
        }
    }

    /// The set without any mode.
    pub fn none() -> (alphas: CompositeAlphas)
        ensures
            alphas@ == Seq::<CompositeAlpha>::empty(),
            alphas == (CompositeAlphas {
                opaque: false,
                pre_multiplied: false,
                post_multiplied: false,
                inherit: false,
            }),
    {
        CompositeAlphas {
            opaque: false,
            pre_multiplied: false,
            post_multiplied: false,
            inherit: false,
        }
    }

    /// The first supported mode, if there is one.
    pub fn first(&self) -> (first: Option<CompositeAlpha>)
        ensures
            first == self.first_spec(),
            first == (if self@.len() > 0 {
                Some(self@[0])
            } else {
                None
            }),
    {
        proof {
            self.lemma_view();
        }
        vk_first_composite_alpha(self)
    }

    /// The sequence view holds exactly the flagged modes, each once, and
    /// starts with the first flagged one.
    pub proof fn lemma_view(self)
        ensures
            forall|alpha: CompositeAlpha| self@.contains(alpha) <==> self.supports_spec(alpha),
            self@.no_duplicates(),
            self.first_spec() == (if self@.len() > 0 {
                Some(self@[0])
            } else {
                None
            }),
    {
        let a = if self.opaque { seq![CompositeAlpha::Opaque] } else { Seq::empty() };
        let b = if self.pre_multiplied { seq![CompositeAlpha::PreMultiplied] } else { Seq::empty() };
        let c = if self.post_multiplied { seq![CompositeAlpha::PostMultiplied] } else { Seq::empty() };
        let d = if self.inherit { seq![CompositeAlpha::Inherit] } else { Seq::empty() };
        assert(self@ == a + b + c + d);
        assert forall|alpha: CompositeAlpha| self.supports_spec(alpha) implies self@.contains(
            alpha,
        ) by {
            let i: int = match alpha {
                CompositeAlpha::Opaque => 0int,
                CompositeAlpha::PreMultiplied => a.len() as int,
                CompositeAlpha::PostMultiplied => (a.len() + b.len()) as int,
                CompositeAlpha::Inherit => (a.len() + b.len() + c.len()) as int,
            };
            assert(self@[i] == alpha);
        }
    }
}

impl View for CompositeAlphas {
    type V = Seq<CompositeAlpha>;

    /// The supported modes in the order in which they are enumerated.
    open spec fn view(&self) -> Seq<CompositeAlpha> {
        (if self.opaque { seq![CompositeAlpha::Opaque] } else { Seq::empty() })
            + (if self.pre_multiplied { seq![CompositeAlpha::PreMultiplied] } else { Seq::empty() })
            + (if self.post_multiplied { seq![CompositeAlpha::PostMultiplied] } else { Seq::empty() })
            + (if self.inherit { seq![CompositeAlpha::Inherit] } else { Seq::empty() })
    }
}

/// Calls vulkano's `SupportedPresentModes::supports` on the set that `modes`
/// describes. Trusted: the call returns the flag that belongs to `mode`.
#[verifier::external_body]
fn vk_present_mode_supported(modes: &PresentModes, mode: PresentMode) -> (supported: bool)
    ensures
        supported == modes.supports_spec(mode),
{
    let list = SupportedPresentModes {
        immediate: modes.immediate,
        mailbox: modes.mailbox,
        fifo: modes.fifo,
        relaxed: modes.relaxed,
        shared_demand: false,
        shared_continuous: false,
    };
    list.supports(match mode {
        PresentMode::Immediate => vulkano::swapchain::PresentMode::Immediate,
        PresentMode::Mailbox => vulkano::swapchain::PresentMode::Mailbox,
        PresentMode::Fifo => vulkano::swapchain::PresentMode::Fifo,
        PresentMode::Relaxed => vulkano::swapchain::PresentMode::Relaxed,
    })
}

/// Takes the first item of vulkano's `SupportedPresentModes::iter` on the set
/// that `modes` describes. Trusted: the iterator yields the flagged modes in
/// the order `Immediate`, `Mailbox`, `Fifo`, `Relaxed`, so its first item is
/// the first flagged mode in that order, and it yields none if no flag is set.
#[verifier::external_body]
fn vk_first_present_mode(modes: &PresentModes) -> (first: Option<PresentMode>)
    ensures
        first == modes.first_spec(),
{
    let list = SupportedPresentModes {
        immediate: modes.immediate,
        mailbox: modes.mailbox,
        fifo: modes.fifo,
        relaxed: modes.relaxed,
        shared_demand: false,
        shared_continuous: false,
    };
    match list.iter().next() {
        Some(vulkano::swapchain::PresentMode::Immediate) => Some(PresentMode::Immediate),
        Some(vulkano::swapchain::PresentMode::Mailbox) => Some(PresentMode::Mailbox),
        Some(vulkano::swapchain::PresentMode::Fifo) => Some(PresentMode::Fifo),
        Some(vulkano::swapchain::PresentMode::Relaxed) => Some(PresentMode::Relaxed),
        None => None,
    }
}

/// Takes the first item of vulkano's `SupportedCompositeAlpha::iter` on the
/// set that `alphas` describes. Trusted: the iterator yields the flagged modes
/// in the order `Opaque`, `PreMultiplied`, `PostMultiplied`, `Inherit`, so its
/// first item is the first flagged mode in that order, and it yields none if
/// no flag is set.
#[verifier::external_body]
fn vk_first_composite_alpha(alphas: &CompositeAlphas) -> (first: Option<CompositeAlpha>)
    ensures
        first == alphas.first_spec(),
{
    let list = SupportedCompositeAlpha {
        opaque: alphas.opaque,
        pre_multiplied: alphas.pre_multiplied,
        post_multiplied: alphas.post_multiplied,
        inherit: alphas.inherit,
    };
    match list.iter().next() {
        Some(vulkano::swapchain::CompositeAlpha::Opaque) => Some(CompositeAlpha::Opaque),
        Some(vulkano::swapchain::CompositeAlpha::PreMultiplied) => Some(CompositeAlpha::PreMultiplied),
        Some(vulkano::swapchain::CompositeAlpha::PostMultiplied) => Some(CompositeAlpha::PostMultiplied),
        Some(vulkano::swapchain::CompositeAlpha::Inherit) => Some(CompositeAlpha::Inherit),
        None => None,
    }
}

} // verus!
