//! The renderer: device and queue selection, the swapchain with its frame
//! targets, and the submissions of the frames rendered so far.
//!
//! A `Renderer` is always ready: `new` hands one out only when every step of
//! its creation has succeeded, and `resize` and `render` either complete or
//! leave it as it was. The caller owns the graphics device and performs what
//! the renderer decides; it must not call `resize` and `render` at the same
//! time.

use crate::config::Config;
use crate::device::select_queue_family;
use crate::device::spec_select_queue_family;
use crate::device::PhysicalDevice;
use crate::error::RendererError;
use crate::frame::spec_command_buffer;
use crate::frame::spec_command_buffers;
use crate::frame::spec_frame;
use crate::frame::spec_clear_values;
use crate::frame::Acquired;
use crate::frame::ClearValues;
use crate::frame::CommandBuffer;
use crate::frame::Frame;
use crate::frame::Step;
use crate::frame::Submission;
use crate::frame::CLEAR_ALPHA_BITS;
use crate::frame::CLEAR_BLUE_BITS;
use crate::frame::CLEAR_DEPTH_BITS;
use crate::frame::CLEAR_GREEN_BITS;
use crate::frame::CLEAR_RED_BITS;
use crate::render_pass::RenderPass;
use crate::surface::Capabilities;
use crate::swapchain::create_swapchain;
use crate::swapchain::spec_create_swapchain;
use crate::swapchain::Image;
use crate::swapchain::Swapchain;
use crate::swapchain::SwapchainView;
use crate::targets::spec_depth_buffer;
use crate::targets::spec_framebuffers;
use crate::targets::DepthBuffer;
use crate::targets::FrameTargetSet;
use crate::targets::Framebuffer;
use vstd::prelude::*;

verus! {

/// The swapchain in use together with the frame targets built for it. The
/// two are only ever replaced together.
#[derive(Debug)]
struct Presentation {
    swapchain: Swapchain,
    targets: FrameTargetSet,
}

/// The renderer's state.
#[derive(Debug)]
pub struct Renderer {
    config: Config,
    physical_device: usize,
    queue_family: usize,
    presentation: Presentation,
    render_pass: RenderPass,
    submissions: Vec<Submission>,
}

/// The mathematical content of a `Renderer`.
#[verifier::ext_equal]
pub struct RendererView {
    pub config: Config,
    /// Index of the physical device in use.
    pub physical_device: usize,
    /// Index of the queue family in use.
    pub queue_family: usize,
    pub swapchain: SwapchainView,
    pub depth_buffer: DepthBuffer,
    pub framebuffers: Seq<Framebuffer>,
    pub render_pass: RenderPass,
    /// One entry for each frame rendered, oldest first. None is ever removed.
    pub submissions: Seq<Submission>,
}

impl Presentation {
    /// The frame targets are those of the swapchain's images.
    #[verifier::type_invariant]
    spec fn inv(self) -> bool {
        self.swapchain@.wf() && self.targets.matches(self.swapchain@.images)
    }

    /// Builds the frame targets of `swapchain` and keeps them with it.
    fn new(swapchain: Swapchain) -> (presentation: Presentation)
        ensures
            presentation.swapchain == swapchain,
            presentation.targets.matches(swapchain@.images),
            forall|i: int|
                0 <= i < swapchain@.images.len() ==> (
                #[trigger] presentation.targets.framebuffers@[i]).color == i,
    {
        proof {
            use_type_invariant(&swapchain);
        }
        let targets = FrameTargetSet::rebuild(&swapchain);
        Presentation { swapchain, targets }
    }
}

impl RendererView {
    /// The frame targets are those of the swapchain's images.
    pub open spec fn wf(self) -> bool {
        &&& self.swapchain.wf()
        &&& self.depth_buffer == spec_depth_buffer(self.swapchain.images)
        &&& self.framebuffers == spec_framebuffers(self.swapchain.images)
    }

    /// This renderer with `swapchain` in place of its own, and with the
    /// frame targets that belong to it. All else stays, the render pass too.
    pub open spec fn with_swapchain(self, swapchain: SwapchainView) -> RendererView {
        RendererView {
            swapchain,
            depth_buffer: spec_depth_buffer(swapchain.images),
            framebuffers: spec_framebuffers(swapchain.images),
            ..self
        }
    }

    /// The renderer after a resize on a surface with capabilities `caps`, for
    /// which the engine created `images`; or why the resize fails. The
    /// swapchain in use is handed over as a hint.
    pub open spec fn resized(self, caps: Capabilities, images: Seq<Image>) -> Result<
        RendererView,
        RendererError,
    > {
        match spec_create_swapchain(caps, true, self.config) {
            Err(e) => Err(RendererError::Swapchain(e)),
            Ok(info) => match Swapchain::spec_new(info, images) {
                Err(e) => Err(RendererError::Swapchain(e)),
                Ok(swapchain) => Ok(self.with_swapchain(swapchain)),
            },
        }
    }

    /// The renderer after a frame for which the engine acquired `image`,
    /// which has to name a framebuffer.
    pub open spec fn submitted(self, image: usize) -> RendererView {
        RendererView {
            submissions: self.submissions.push(
                Submission { command_buffer: spec_command_buffer(image as int) },
            ),
            ..self
        }
    }

    /// The renderer after one call of `render` and what the caller does for
    /// the frame, or why there is no frame.
    pub open spec fn rendered(self, acquired: Acquired) -> Result<
        (RendererView, Frame),
        RendererError,
    > {
        match acquired {
            Acquired::Timeout => Err(RendererError::AcquireTimeout),
            Acquired::Failed => Err(RendererError::AcquireFailed),
            Acquired::Image(image) => if image >= self.framebuffers.len() {
                Err(RendererError::UnknownImage)
            } else {
                Ok((self.submitted(image), spec_frame(image)))
            },
        }
    }

    /// The renderer after `render` has been called once for each of
    /// `acquisitions`, in order. A call that fails changes nothing.
    pub open spec fn rendered_all(self, acquisitions: Seq<Acquired>) -> RendererView
        decreases acquisitions.len(),
    {
        if acquisitions.len() == 0 {
            self
        } else {
            let before = self.rendered_all(acquisitions.drop_last());
            match before.rendered(acquisitions.last()) {
                Ok((after, _)) => after,
                Err(_) => before,
            }
        }
    }

    /// How many of `acquisitions` give a frame: those that name one of the
    /// renderer's framebuffers.
    pub open spec fn frames(self, acquisitions: Seq<Acquired>) -> nat
        decreases acquisitions.len(),
    {
        if acquisitions.len() == 0 {
            0
        } else {
            let more: nat = if self.rendered(acquisitions.last()) is Ok {
                1
            } else {
                0
            };
            self.frames(acquisitions.drop_last()) + more
        }
    }
}

impl View for Renderer {
    type V = RendererView;

    closed spec fn view(&self) -> RendererView {
        RendererView {
            config: self.config,
            physical_device: self.physical_device,
            queue_family: self.queue_family,
            swapchain: self.presentation.swapchain@,
            depth_buffer: self.presentation.targets.depth_buffer,
            framebuffers: self.presentation.targets.framebuffers@,
            render_pass: self.render_pass,
            submissions: self.submissions@,
        }
    }
}

impl Renderer {
    /// The renderer that `new` creates, or why it creates none. The first
    /// physical device is taken, and its first usable queue family; the
    /// swapchain is the first one, without a predecessor; the render pass
    /// takes its color format from the first image; nothing is submitted yet.
    pub open spec fn spec_new(
        config: Config,
        devices: Seq<PhysicalDevice>,
        caps: Capabilities,
        images: Seq<Image>,
    ) -> Result<RendererView, RendererError> {
        if devices.len() == 0 {
            Err(RendererError::NoDevice)
        } else {
            match spec_select_queue_family(devices[0].queue_families@) {
                None => Err(RendererError::NoGraphicsQueue),
                Some(family) => match spec_create_swapchain(caps, false, config) {
                    Err(e) => Err(RendererError::Swapchain(e)),
                    Ok(info) => match Swapchain::spec_new(info, images) {
                        Err(e) => Err(RendererError::Swapchain(e)),
                        Ok(swapchain) => Ok(
                            RendererView {
                                config,
                                physical_device: 0,
                                queue_family: family as usize,
                                swapchain,
                                depth_buffer: spec_depth_buffer(images),
                                framebuffers: spec_framebuffers(images),
                                render_pass: RenderPass::spec_single_pass(images[0].format),
                                submissions: Seq::empty(),
                            },
                        ),
                    },
                },
            }
        }
    }

    /// Creates the renderer from what the engine reports: the physical
    /// devices in the order enumerated, the capabilities of the surface on
    /// the first of them, and the images that it created for the request
    /// that `create_swapchain` makes on these capabilities.
    ///
    /// Fails, in this order: with `NoDevice` where `devices` is empty; with
    /// `NoGraphicsQueue` where the first device has no usable queue family;
    /// with the error of `create_swapchain`; with that of `Swapchain::new`.
    pub fn new(
        config: Config,
        devices: &Vec<PhysicalDevice>,
        caps: &Capabilities,
        images: Vec<Image>,
    ) -> (renderer: Result<Renderer, RendererError>)
        ensures
            match renderer {
                Ok(r) => r@.wf() && Self::spec_new(config, devices@, *caps, images@) == Ok::<
                    _,
                    RendererError,
                >(r@),
                Err(e) => Self::spec_new(config, devices@, *caps, images@) == Err::<
                    RendererView,
                    _,
                >(e),
            },
            renderer matches Ok(r) ==> r@.submissions.len() == 0 && r@.framebuffers.len()
                == images@.len(),
    {
        if devices.len() == 0 {
            return Err(RendererError::NoDevice);
        }
        let queue_family: usize = match select_queue_family(&devices[0].queue_families) {
            Some(family) => family,
            None => { return Err(RendererError::NoGraphicsQueue); },
        };
        let info = match create_swapchain(caps, None, &config) {
            Ok(info) => info,
            Err(e) => { return Err(RendererError::Swapchain(e)); },
        };
        let ghost reported = images@;
        let swapchain = match Swapchain::new(info, images) {
            Ok(swapchain) => swapchain,
            Err(e) => { return Err(RendererError::Swapchain(e)); },
        };
        let render_pass = RenderPass::single_pass(swapchain.images()[0].format);
        let renderer = Renderer {
            config,
            physical_device: 0,
            queue_family,
            presentation: Presentation::new(swapchain),
            render_pass,
            submissions: Vec::new(),
        };
        assert(renderer@ =~= Self::spec_new(config, devices@, *caps, reported)->Ok_0);
        Ok(renderer)
    }

    /// Replaces the swapchain after the surface has changed: asks anew, with
    /// the swapchain in use as a hint, takes over the images that the engine
    /// created for that request, and rebuilds the frame targets for them. The
    /// render pass and the submissions stay.
    ///
    /// Fails with the error of `create_swapchain` or of `Swapchain::new`, and
    /// then leaves the renderer as it was.
    pub fn resize(&mut self, caps: &Capabilities, images: Vec<Image>) -> (done: Result<
        (),
        RendererError,
    >)
        ensures
            final(self)@.wf(),
            match done {
                Ok(_) => old(self)@.resized(*caps, images@) == Ok::<_, RendererError>(
                    final(self)@,
                ),
                Err(e) => old(self)@.resized(*caps, images@) == Err::<RendererView, _>(e)
                    && final(self)@ == old(self)@,
            },
            // Each image has its framebuffer, of the image's width and height.
            done is Ok ==> final(self)@.framebuffers.len() == images@.len() && forall|i: int|
                0 <= i < images@.len() ==> {
                    &&& (#[trigger] final(self)@.framebuffers[i]).color == i
                    &&& final(self)@.framebuffers[i].dimensions[0] == images@[i].dimensions[0]
                    &&& final(self)@.framebuffers[i].dimensions[1] == images@[i].dimensions[1]
                },
    {
        proof {
            use_type_invariant(&self.presentation);
        }
        let info = match create_swapchain(
            caps,
            Some(&self.presentation.swapchain),
            &self.config,
        ) {
            Ok(info) => info,
            Err(e) => { return Err(RendererError::Swapchain(e)); },
        };
        let ghost reported = images@;
        let swapchain = match Swapchain::new(info, images) {
            Ok(swapchain) => swapchain,
            Err(e) => { return Err(RendererError::Swapchain(e)); },
        };
        self.presentation = Presentation::new(swapchain);
        assert(self@ =~= old(self)@.resized(*caps, reported)->Ok_0);
        Ok(())
    }

    /// Records one command buffer for each framebuffer, in order. Each
    /// clears the color attachment to the fixed clear color and the depth
    /// attachment to the fixed clear depth, and draws nothing.
    pub fn record_commands(&self) -> (buffers: Vec<CommandBuffer>)
        ensures
            buffers@ == spec_command_buffers(self@.framebuffers.len()),
    {
        let clear = ClearValues {
            color: [CLEAR_RED_BITS, CLEAR_GREEN_BITS, CLEAR_BLUE_BITS, CLEAR_ALPHA_BITS],
            depth: CLEAR_DEPTH_BITS,
        };
        let mut buffers: Vec<CommandBuffer> = Vec::new();
        let mut i: usize = 0;
        while i < self.presentation.targets.framebuffers.len()
            invariant
                i <= self.presentation.targets.framebuffers@.len(),
                clear == spec_clear_values(),
                buffers@.len() == i,
                forall|j: int| 0 <= j < i ==> buffers@[j] == spec_command_buffer(j),
            decreases self.presentation.targets.framebuffers@.len() - i,
        {
            buffers.push(CommandBuffer { framebuffer: i, clear, draw_calls: 0 });
            i += 1;
        }
        assert(buffers@ =~= spec_command_buffers(self@.framebuffers.len()));
        buffers
    }

    /// Renders one frame. The command buffers are recorded first, then the
    /// caller's acquisition of the next presentable image is looked at, and
    /// the command buffer for that image is entered in the submissions. The
    /// frame handed back tells the caller what to submit and then to present.
    ///
    /// Fails with `AcquireTimeout` or `AcquireFailed` where the caller got no
    /// image, and with `UnknownImage` where the image names no framebuffer;
    /// the renderer is then left as it was.
    pub fn render(&mut self, acquired: Acquired) -> (frame: Result<Frame, RendererError>)
        ensures
            final(self)@.wf(),
            match frame {
                Ok(f) => old(self)@.rendered(acquired) == Ok::<_, RendererError>(
                    (final(self)@, f),
                ),
                Err(e) => old(self)@.rendered(acquired) == Err::<(RendererView, Frame), _>(e)
                    && final(self)@ == old(self)@,
            },
            // A frame, and only a frame, adds one submission.
            frame is Ok ==> final(self)@.submissions.len() == old(self)@.submissions.len() + 1,
            frame is Ok <==> (acquired matches Acquired::Image(image) && image
                < old(self)@.framebuffers.len()),
    {
        proof {
            use_type_invariant(&self.presentation);
        }
        let command_buffers = self.record_commands();
        let image: usize = match acquired {
            Acquired::Image(image) => image,
            Acquired::Timeout => { return Err(RendererError::AcquireTimeout); },
            Acquired::Failed => { return Err(RendererError::AcquireFailed); },
        };
        if image >= command_buffers.len() {
            return Err(RendererError::UnknownImage);
        }
        let command_buffer = command_buffers[image];
        self.submissions.push(Submission { command_buffer });
        assert(self@ =~= old(self)@.submitted(image));
        Ok(Frame { steps: [Step::Submit(command_buffer), Step::Present(image)] })
    }

    /// The configuration that the renderer was created with.
    pub fn config(&self) -> (config: Config)
        ensures
            config == self@.config,
    {
        self.config
    }

    /// Index of the physical device in use.
    pub fn physical_device(&self) -> (index: usize)
        ensures
            index == self@.physical_device,
    {
        self.physical_device
    }

    /// Index of the queue family in use.
    pub fn queue_family(&self) -> (index: usize)
        ensures
            index == self@.queue_family,
    {
        self.queue_family
    }

    /// The swapchain in use.
    pub fn swapchain(&self) -> (swapchain: &Swapchain)
        ensures
            swapchain@ == self@.swapchain,
    {
        &self.presentation.swapchain
    }

    /// The images of the swapchain in use.
    pub fn images(&self) -> (images: &Vec<Image>)
        ensures
            images@ == self@.swapchain.images,
    {
        self.presentation.swapchain.images()
    }

    /// The depth buffer in use.
    pub fn depth_buffer(&self) -> (depth_buffer: DepthBuffer)
        ensures
            depth_buffer == self@.depth_buffer,
    {
        self.presentation.targets.depth_buffer
    }

    /// The framebuffers in use: one for each image of the swapchain, in the
    /// same order.
    pub fn framebuffers(&self) -> (framebuffers: &Vec<Framebuffer>)
        ensures
            framebuffers@ == self@.framebuffers,
            self@.wf(),
    {
        proof {
            use_type_invariant(&self.presentation);
        }
        &self.presentation.targets.framebuffers
    }

    /// The render pass.
    pub fn render_pass(&self) -> (pass: RenderPass)
        ensures
            pass == self@.render_pass,
    {
        self.render_pass
    }

    /// The submissions so far, oldest first.
    pub fn submissions(&self) -> (submissions: &Vec<Submission>)
        ensures
            submissions@ == self@.submissions,
    {
        &self.submissions
    }
}

/// After a resize, and so after any number of them, each image of the
/// swapchain has exactly one framebuffer, at the image's own index and of the
/// image's width and height, and the depth buffer is as large as the first
/// image.
pub proof fn lemma_resize_keeps_targets(
    renderer: RendererView,
    caps: Capabilities,
    images: Seq<Image>,
)
    requires
        renderer.resized(caps, images) is Ok,
        images.len() <= usize::MAX,
    ensures
        ({
            let after = renderer.resized(caps, images)->Ok_0;
            &&& after.wf()
            &&& after.swapchain.images == images
            &&& after.framebuffers.len() == images.len()
            &&& after.depth_buffer.dimensions == images[0].dimensions
            &&& forall|i: int|
                0 <= i < images.len() ==> {
                    &&& (#[trigger] after.framebuffers[i]).color == i
                    &&& after.framebuffers[i].dimensions[0] == images[i].dimensions[0]
                    &&& after.framebuffers[i].dimensions[1] == images[i].dimensions[1]
                }
        }),
{
}

/// Calling `render` a number of times adds exactly one submission for each
/// call that gives a frame, after those that were there, and changes nothing
/// else. So if every call gives a frame, there are as many new submissions as
/// calls.
pub proof fn lemma_render_appends(renderer: RendererView, acquisitions: Seq<Acquired>)
    ensures
        ({
            let after = renderer.rendered_all(acquisitions);
            let before = renderer.submissions.len() as int;
            &&& after.submissions.len() == before + renderer.frames(acquisitions)
            &&& after.submissions.subrange(0, before) == renderer.submissions
            &&& after == RendererView { submissions: after.submissions, ..renderer }
            &&& renderer.frames(acquisitions) <= acquisitions.len()
            &&& (forall|k: int|
                0 <= k < acquisitions.len() ==> renderer.rendered(#[trigger] acquisitions[k])
                    is Ok) ==> after.submissions.len() == before + acquisitions.len()
        }),
    decreases acquisitions.len(),
{
    let before = renderer.submissions.len() as int;
    if acquisitions.len() > 0 {
        let front = acquisitions.drop_last();
        lemma_render_appends(renderer, front);
        let middle = renderer.rendered_all(front);
        let after = renderer.rendered_all(acquisitions);
        assert(middle.rendered(acquisitions.last()) is Ok <==> renderer.rendered(
            acquisitions.last(),
        ) is Ok);
        assert(after.submissions.subrange(0, before) =~= renderer.submissions);
        assert(after =~= RendererView { submissions: after.submissions, ..renderer });
        if forall|k: int|
            0 <= k < acquisitions.len() ==> renderer.rendered(#[trigger] acquisitions[k]) is Ok {
            assert(forall|k: int| 0 <= k < front.len() ==> front[k] == acquisitions[k]);
            assert(renderer.rendered(acquisitions[acquisitions.len() - 1]) is Ok);
        }
    } else {
        assert(renderer.submissions.subrange(0, before) =~= renderer.submissions);
        assert(renderer =~= RendererView { submissions: renderer.submissions, ..renderer });
    }
}

} // verus!
