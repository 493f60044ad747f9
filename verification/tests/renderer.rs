use codevr::config::Config;
use codevr::device::{select_queue_family, PhysicalDevice, QueueFamily};
use codevr::error::{ErrorKind, RendererError, SwapchainError};
use codevr::frame::{
    Acquired, ClearValues, CommandBuffer, Frame, Step, Submission, ACQUIRE_TIMEOUT_SECS,
    CLEAR_ALPHA_BITS, CLEAR_BLUE_BITS, CLEAR_DEPTH_BITS, CLEAR_GREEN_BITS, CLEAR_RED_BITS,
};
use codevr::render_pass::RenderPass;
use codevr::renderer::Renderer;
use codevr::surface::{
    Capabilities, CompositeAlpha, CompositeAlphas, Format, ImageUsage, PresentMode, PresentModes,
};
use codevr::swapchain::Image;
use codevr::targets::{DepthBuffer, Framebuffer};

fn family(supports_graphics: bool, presentable: bool) -> QueueFamily {
    QueueFamily { supports_graphics, presentable }
}

fn device(queue_families: Vec<QueueFamily>) -> PhysicalDevice {
    PhysicalDevice { queue_families }
}

fn surface(current: Option<[u32; 2]>) -> Capabilities {
    Capabilities {
        min_image_count: 2,
        current_extent: current,
        min_image_extent: [640, 480],
        max_image_extent: [4096, 4096],
        present_modes: PresentModes { immediate: false, mailbox: true, fifo: true, relaxed: false },
        supported_composite_alpha: CompositeAlphas {
            opaque: true,
            pre_multiplied: false,
            post_multiplied: false,
            inherit: false,
        },
        supported_formats: vec![Format(50), Format(44)],
        supported_usage_flags: ImageUsage {
            transfer_source: false,
            transfer_destination: false,
            sampled: false,
            storage: false,
            color_attachment: true,
            depth_stencil_attachment: false,
            transient_attachment: false,
            input_attachment: false,
        },
    }
}

fn images(count: usize, width: u32, height: u32) -> Vec<Image> {
    vec![Image { dimensions: [width, height], format: Format(50) }; count]
}

fn clear() -> ClearValues {
    ClearValues {
        color: [0x3E4C_CCCD, 0x3ECC_CCCD, 0x3F4C_CCCD, 0x3F80_0000],
        depth: 0x3F80_0000,
    }
}

fn ready(count: usize) -> Renderer {
    let devices = vec![device(vec![family(true, true)])];
    Renderer::new(
        Config::new([0, 0], true),
        &devices,
        &surface(Some([1920, 1080])),
        images(count, 1920, 1080),
    )
    .unwrap()
}

#[test]
fn first_usable_queue_family_is_selected() {
    assert_eq!(select_queue_family(&vec![]), None);
    assert_eq!(select_queue_family(&vec![family(true, true)]), Some(0));
    assert_eq!(
        select_queue_family(&vec![family(true, false), family(false, true), family(false, false)]),
        None
    );
    assert_eq!(
        select_queue_family(&vec![
            family(true, false),
            family(false, true),
            family(true, true),
            family(true, true),
        ]),
        Some(2)
    );
}

#[test]
fn new_takes_first_device_and_its_first_usable_family() {
    let devices = vec![
        device(vec![family(false, true), family(true, true), family(true, true)]),
        device(vec![family(true, true)]),
    ];
    let config = Config::new([0, 0], true);
    let renderer =
        Renderer::new(config, &devices, &surface(Some([1920, 1080])), images(3, 1920, 1080))
            .unwrap();
    assert_eq!(renderer.physical_device(), 0);
    assert_eq!(renderer.queue_family(), 1);
    assert_eq!(renderer.config(), config);
}

#[test]
fn new_builds_swapchain_targets_and_render_pass() {
    let renderer = ready(3);
    let info = renderer.swapchain().info();
    assert_eq!(info.dimensions, [1920, 1080]);
    assert_eq!(info.present_mode, PresentMode::Mailbox);
    assert_eq!(info.composite_alpha, CompositeAlpha::Opaque);
    assert_eq!(info.format, Format(50));
    assert_eq!(info.min_image_count, 2);
    assert!(!info.recycles_previous);
    assert_eq!(renderer.images(), &images(3, 1920, 1080));
    assert_eq!(
        renderer.depth_buffer(),
        DepthBuffer { dimensions: [1920, 1080], format: Format(124), transient: true }
    );
    assert_eq!(
        renderer.framebuffers(),
        &vec![
            Framebuffer { color: 0, dimensions: [1920, 1080, 1] },
            Framebuffer { color: 1, dimensions: [1920, 1080, 1] },
            Framebuffer { color: 2, dimensions: [1920, 1080, 1] },
        ]
    );
    assert_eq!(renderer.render_pass(), RenderPass::single_pass(Format(50)));
    assert!(renderer.submissions().is_empty());
}

#[test]
fn new_takes_render_pass_format_from_first_image() {
    let devices = vec![device(vec![family(true, true)])];
    let reported = vec![
        Image { dimensions: [1920, 1080], format: Format(44) },
        Image { dimensions: [1920, 1080], format: Format(50) },
    ];
    let renderer =
        Renderer::new(Config::new([0, 0], true), &devices, &surface(None), reported).unwrap();
    assert_eq!(renderer.render_pass().color.format, Format(44));
}

#[test]
fn new_without_device_fails() {
    let result = Renderer::new(
        Config::new([0, 0], true),
        &vec![],
        &surface(Some([1920, 1080])),
        images(2, 1920, 1080),
    );
    assert_eq!(result.err(), Some(RendererError::NoDevice));
}

#[test]
fn new_without_usable_queue_family_fails() {
    let devices = vec![
        device(vec![family(true, false), family(false, true)]),
        device(vec![family(true, true)]),
    ];
    let result = Renderer::new(
        Config::new([0, 0], true),
        &devices,
        &surface(Some([1920, 1080])),
        images(2, 1920, 1080),
    );
    assert_eq!(result.err(), Some(RendererError::NoGraphicsQueue));
    let result = Renderer::new(
        Config::new([0, 0], true),
        &vec![device(vec![])],
        &surface(Some([1920, 1080])),
        images(2, 1920, 1080),
    );
    assert_eq!(result.err(), Some(RendererError::NoGraphicsQueue));
}

#[test]
fn new_passes_swapchain_errors_on() {
    let devices = vec![device(vec![family(true, true)])];
    let config = Config::new([0, 0], true);

    let mut caps = surface(Some([1920, 1080]));
    caps.supported_formats = vec![];
    let result = Renderer::new(config, &devices, &caps, images(2, 1920, 1080));
    assert_eq!(result.err(), Some(RendererError::Swapchain(SwapchainError::NoFormat)));

    let mut caps = surface(Some([1920, 1080]));
    caps.present_modes = PresentModes::none();
    let result = Renderer::new(config, &devices, &caps, images(2, 1920, 1080));
    assert_eq!(result.err(), Some(RendererError::Swapchain(SwapchainError::NoPresentMode)));

    let mut caps = surface(Some([1920, 1080]));
    caps.supported_composite_alpha = CompositeAlphas::none();
    let result = Renderer::new(config, &devices, &caps, images(2, 1920, 1080));
    assert_eq!(result.err(), Some(RendererError::Swapchain(SwapchainError::NoCompositeAlpha)));

    let caps = surface(Some([1920, 1080]));
    let result = Renderer::new(config, &devices, &caps, vec![]);
    assert_eq!(result.err(), Some(RendererError::Swapchain(SwapchainError::NoImages)));
    let result = Renderer::new(config, &devices, &caps, images(1, 1920, 1080));
    assert_eq!(result.err(), Some(RendererError::Swapchain(SwapchainError::TooFewImages)));
}

#[test]
fn new_checks_devices_before_the_surface() {
    let mut caps = surface(None);
    caps.supported_formats = vec![];
    let config = Config::new([0, 0], true);
    assert_eq!(Renderer::new(config, &vec![], &caps, vec![]).err(), Some(RendererError::NoDevice));
    assert_eq!(
        Renderer::new(config, &vec![device(vec![family(true, false)])], &caps, vec![]).err(),
        Some(RendererError::NoGraphicsQueue)
    );
}

#[test]
fn resize_rebuilds_targets_for_the_new_images() {
    let mut renderer = ready(2);
    let reported = vec![
        Image { dimensions: [1280, 720], format: Format(50) },
        Image { dimensions: [1280, 720], format: Format(50) },
        Image { dimensions: [1280, 720], format: Format(50) },
        Image { dimensions: [1280, 720], format: Format(50) },
    ];
    assert_eq!(renderer.resize(&surface(Some([1280, 720])), reported.clone()), Ok(()));
    assert_eq!(renderer.images(), &reported);
    assert_eq!(renderer.framebuffers().len(), renderer.images().len());
    for (i, framebuffer) in renderer.framebuffers().iter().enumerate() {
        assert_eq!(framebuffer.color, i);
        assert_eq!(framebuffer.dimensions, [1280, 720, 1]);
    }
    assert_eq!(renderer.depth_buffer().dimensions, [1280, 720]);
    let info = renderer.swapchain().info();
    assert_eq!(info.dimensions, [1280, 720]);
    assert!(info.recycles_previous);
}

#[test]
fn repeated_resizes_keep_targets_in_step_with_images() {
    let mut renderer = ready(2);
    let sizes: [(usize, u32, u32); 5] =
        [(2, 800, 600), (5, 641, 481), (3, 4096, 4096), (2, 1920, 1080), (4, 640, 480)];
    for (count, width, height) in sizes {
        let caps = surface(Some([width, height]));
        assert_eq!(renderer.resize(&caps, images(count, width, height)), Ok(()));
        assert_eq!(renderer.framebuffers().len(), count);
        assert_eq!(renderer.images().len(), count);
        for i in 0..count {
            let image = renderer.images()[i];
            assert_eq!(
                renderer.framebuffers()[i],
                Framebuffer { color: i, dimensions: [image.dimensions[0], image.dimensions[1], 1] }
            );
        }
        assert_eq!(renderer.depth_buffer().dimensions, renderer.images()[0].dimensions);
        assert_eq!(renderer.swapchain().info().dimensions, [width, height]);
    }
}

#[test]
fn resize_keeps_render_pass_and_submissions() {
    let mut renderer = ready(2);
    renderer.render(Acquired::Image(1)).unwrap();
    let pass = renderer.render_pass();
    let submitted = renderer.submissions().clone();
    let mut caps = surface(Some([800, 600]));
    caps.supported_formats = vec![Format(44)];
    let reported = vec![Image { dimensions: [800, 600], format: Format(44) }; 2];
    assert_eq!(renderer.resize(&caps, reported), Ok(()));
    assert_eq!(renderer.render_pass(), pass);
    assert_eq!(renderer.submissions(), &submitted);
    assert_eq!(renderer.swapchain().info().format, Format(44));
    assert_eq!(renderer.physical_device(), 0);
    assert_eq!(renderer.queue_family(), 0);
}

#[test]
fn failed_resize_leaves_the_renderer_as_it_was() {
    let mut renderer = ready(3);
    renderer.render(Acquired::Image(2)).unwrap();
    let info = renderer.swapchain().info();
    let framebuffers = renderer.framebuffers().clone();
    let submitted = renderer.submissions().clone();

    let mut caps = surface(Some([800, 600]));
    caps.supported_formats = vec![];
    assert_eq!(
        renderer.resize(&caps, images(2, 800, 600)),
        Err(RendererError::Swapchain(SwapchainError::NoFormat))
    );
    assert_eq!(
        renderer.resize(&surface(Some([800, 600])), vec![]),
        Err(RendererError::Swapchain(SwapchainError::NoImages))
    );
    assert_eq!(
        renderer.resize(&surface(Some([800, 600])), images(1, 800, 600)),
        Err(RendererError::Swapchain(SwapchainError::TooFewImages))
    );
    assert_eq!(renderer.swapchain().info(), info);
    assert_eq!(renderer.images(), &images(3, 1920, 1080));
    assert_eq!(renderer.framebuffers(), &framebuffers);
    assert_eq!(renderer.depth_buffer().dimensions, [1920, 1080]);
    assert_eq!(renderer.submissions(), &submitted);
}

#[test]
fn record_commands_gives_one_clearing_pass_per_framebuffer() {
    let renderer = ready(3);
    assert_eq!(
        renderer.record_commands(),
        vec![
            CommandBuffer { framebuffer: 0, clear: clear(), draw_calls: 0 },
            CommandBuffer { framebuffer: 1, clear: clear(), draw_calls: 0 },
            CommandBuffer { framebuffer: 2, clear: clear(), draw_calls: 0 },
        ]
    );
}

#[test]
fn clear_values_are_the_bits_of_the_fixed_clear_color() {
    assert_eq!(f32::from_bits(CLEAR_RED_BITS), 0.2f32);
    assert_eq!(f32::from_bits(CLEAR_GREEN_BITS), 0.4f32);
    assert_eq!(f32::from_bits(CLEAR_BLUE_BITS), 0.8f32);
    assert_eq!(f32::from_bits(CLEAR_ALPHA_BITS), 1.0f32);
    assert_eq!(f32::from_bits(CLEAR_DEPTH_BITS), 1.0f32);
    let recorded = ready(2).record_commands();
    assert_eq!(recorded[0].clear.color.map(f32::from_bits), [0.2f32, 0.4, 0.8, 1.0]);
    assert_eq!(f32::from_bits(recorded[1].clear.depth), 1.0f32);
}

#[test]
fn acquire_timeout_is_one_second() {
    assert_eq!(ACQUIRE_TIMEOUT_SECS, 1);
}

#[test]
fn render_submits_the_command_buffer_of_the_acquired_image() {
    let mut renderer = ready(3);
    let frame = renderer.render(Acquired::Image(2)).unwrap();
    let expected = CommandBuffer { framebuffer: 2, clear: clear(), draw_calls: 0 };
    assert_eq!(frame, Frame { steps: [Step::Submit(expected), Step::Present(2)] });
    assert_eq!(renderer.submissions(), &vec![Submission { command_buffer: expected }]);
}

#[test]
fn render_appends_one_submission_per_frame() {
    let mut renderer = ready(3);
    let acquired: [usize; 7] = [0, 1, 2, 0, 0, 2, 1];
    for (n, image) in acquired.iter().enumerate() {
        assert_eq!(renderer.submissions().len(), n);
        let frame = renderer.render(Acquired::Image(*image)).unwrap();
        let recorded = CommandBuffer { framebuffer: *image, clear: clear(), draw_calls: 0 };
        assert_eq!(frame.steps, [Step::Submit(recorded), Step::Present(*image)]);
        assert_eq!(renderer.submissions().len(), n + 1);
    }
    let submitted: Vec<usize> =
        renderer.submissions().iter().map(|s| s.command_buffer.framebuffer).collect();
    assert_eq!(submitted, acquired.to_vec());
}

#[test]
fn render_many_frames_never_drops_a_submission() {
    let mut renderer = ready(2);
    for n in 0..1000usize {
        renderer.render(Acquired::Image(n % 2)).unwrap();
    }
    assert_eq!(renderer.submissions().len(), 1000);
    assert_eq!(renderer.submissions()[0].command_buffer.framebuffer, 0);
    assert_eq!(renderer.submissions()[999].command_buffer.framebuffer, 1);
}

#[test]
fn render_adds_a_submission_only_for_calls_that_give_a_frame() {
    let mut renderer = ready(2);
    let acquisitions = [
        Acquired::Image(1),
        Acquired::Timeout,
        Acquired::Image(0),
        Acquired::Image(2),
        Acquired::Failed,
        Acquired::Image(1),
    ];
    let mut frames = 0;
    for acquired in acquisitions {
        if renderer.render(acquired).is_ok() {
            frames += 1;
        }
        assert_eq!(renderer.submissions().len(), frames);
    }
    assert_eq!(frames, 3);
    let submitted: Vec<usize> =
        renderer.submissions().iter().map(|s| s.command_buffer.framebuffer).collect();
    assert_eq!(submitted, vec![1, 0, 1]);
}

#[test]
fn render_after_timeout_fails_and_submits_nothing() {
    let mut renderer = ready(2);
    assert_eq!(renderer.render(Acquired::Timeout), Err(RendererError::AcquireTimeout));
    assert!(renderer.submissions().is_empty());
    renderer.render(Acquired::Image(0)).unwrap();
    assert_eq!(renderer.render(Acquired::Timeout), Err(RendererError::AcquireTimeout));
    assert_eq!(renderer.submissions().len(), 1);
}

#[test]
fn render_after_failed_acquisition_fails_and_submits_nothing() {
    let mut renderer = ready(2);
    assert_eq!(renderer.render(Acquired::Failed), Err(RendererError::AcquireFailed));
    assert!(renderer.submissions().is_empty());
}

#[test]
fn render_of_an_image_without_framebuffer_fails() {
    let mut renderer = ready(2);
    assert_eq!(renderer.render(Acquired::Image(2)), Err(RendererError::UnknownImage));
    assert_eq!(renderer.render(Acquired::Image(usize::MAX)), Err(RendererError::UnknownImage));
    assert!(renderer.submissions().is_empty());
    assert!(renderer.render(Acquired::Image(1)).is_ok());
}

#[test]
fn render_follows_the_image_count_after_resize() {
    let mut renderer = ready(2);
    assert_eq!(renderer.render(Acquired::Image(3)), Err(RendererError::UnknownImage));
    renderer.resize(&surface(Some([800, 600])), images(4, 800, 600)).unwrap();
    assert_eq!(renderer.render(Acquired::Image(3)).unwrap().steps[1], Step::Present(3));
    renderer.resize(&surface(Some([800, 600])), images(2, 800, 600)).unwrap();
    assert_eq!(renderer.render(Acquired::Image(3)), Err(RendererError::UnknownImage));
    assert_eq!(renderer.submissions().len(), 1);
}

#[test]
fn errors_fall_into_their_classes() {
    assert_eq!(RendererError::NoDevice.kind(), ErrorKind::SetupFatal);
    assert_eq!(RendererError::NoGraphicsQueue.kind(), ErrorKind::SetupFatal);
    for e in [
        SwapchainError::NoPresentMode,
        SwapchainError::NoCompositeAlpha,
        SwapchainError::NoFormat,
        SwapchainError::NoImages,
        SwapchainError::TooFewImages,
    ] {
        assert_eq!(RendererError::Swapchain(e).kind(), ErrorKind::ResourceCreationFatal);
    }
    assert_eq!(RendererError::AcquireTimeout.kind(), ErrorKind::AcquireTimeout);
    assert_eq!(RendererError::AcquireFailed.kind(), ErrorKind::AcquireFailure);
    assert_eq!(RendererError::UnknownImage.kind(), ErrorKind::AcquireFailure);
}
