use lve_engine::renderer::AcquireOutcome;
use lve_engine::renderer::BeginFrameAction;
use lve_engine::renderer::LveRenderer;
use lve_engine::surface::Extent2d;
use lve_engine::surface::SurfaceFormat;
use lve_engine::surface::COLOR_SPACE_SRGB_NONLINEAR;
use lve_engine::surface::FORMAT_B8G8R8A8_SRGB;
use lve_engine::surface::PRESENT_MODE_FIFO;
use lve_engine::swapchain::LveSwapchain;
use lve_engine::swapchain::SwapchainConfig;
use lve_engine::swapchain::FORMAT_D32_SFLOAT;
use lve_engine::swapchain::MAX_FRAMES_IN_FLIGHT;

fn test_config(width: u32, height: u32) -> SwapchainConfig {
    SwapchainConfig {
        surface_format: SurfaceFormat {
            format: FORMAT_B8G8R8A8_SRGB,
            color_space: COLOR_SPACE_SRGB_NONLINEAR,
        },
        present_mode: PRESENT_MODE_FIFO,
        extent: Extent2d { width, height },
        min_image_count: 3,
    }
}

fn test_renderer() -> LveRenderer {
    let swapchain = LveSwapchain::new(&test_config(800, 600), 3, FORMAT_D32_SFLOAT);
    LveRenderer::new(swapchain)
}

#[test]
fn begin_frame_on_minimized_window_skips_without_transition() {
    let mut renderer = test_renderer();
    let action = renderer.begin_frame(Extent2d { width: 0, height: 0 }, None);
    assert_eq!(action, BeginFrameAction::SkipMinimized);
    assert!(!renderer.is_frame_started);
    assert_eq!(renderer.current_frame_index, 0);
    assert_eq!(renderer.current_image_index, 0);
    assert_eq!(renderer.lve_swapchain.current_frame, 0);
}

#[test]
fn out_of_date_acquire_recreates_once_and_draws_nothing() {
    let mut renderer = test_renderer();
    let extent = Extent2d { width: 800, height: 600 };
    let action = renderer.begin_frame(extent, Some(AcquireOutcome::OutOfDate));
    // No frame was started, so no command buffer exists to record draws.
    assert_eq!(action, BeginFrameAction::RecreateAndSkip);
    assert!(!renderer.is_frame_started);
    // The application recreates the swapchain exactly once and goes on.
    let replacement = LveSwapchain::new(&test_config(800, 600), 3, FORMAT_D32_SFLOAT);
    renderer.recreate_swapchain(replacement);
    assert_eq!(renderer.lve_swapchain.current_frame, 0);
    assert!(!renderer.is_frame_started);
    let next = renderer.begin_frame(
        extent,
        Some(AcquireOutcome::Acquired { image_index: 0, suboptimal: false }),
    );
    assert_eq!(next, BeginFrameAction::Begin { command_buffer_index: 0, recreate: false });
}

#[test]
fn successful_acquire_starts_the_frame() {
    let mut renderer = test_renderer();
    let extent = Extent2d { width: 800, height: 600 };
    let action = renderer.begin_frame(
        extent,
        Some(AcquireOutcome::Acquired { image_index: 2, suboptimal: false }),
    );
    assert_eq!(action, BeginFrameAction::Begin { command_buffer_index: 0, recreate: false });
    assert!(renderer.is_frame_started);
    assert_eq!(renderer.current_image_index, 2);
    assert_eq!(renderer.get_frame_index(), 0);
    assert_eq!(renderer.get_current_command_buffer(), 0);
}

#[test]
fn suboptimal_acquire_recreates_but_still_renders() {
    let mut renderer = test_renderer();
    let extent = Extent2d { width: 800, height: 600 };
    let action = renderer.begin_frame(
        extent,
        Some(AcquireOutcome::Acquired { image_index: 1, suboptimal: true }),
    );
    assert_eq!(action, BeginFrameAction::Begin { command_buffer_index: 0, recreate: true });
    assert!(renderer.is_frame_started);
}

#[test]
fn render_pass_targets_acquired_image_at_full_extent() {
    let mut renderer = test_renderer();
    let extent = Extent2d { width: 800, height: 600 };
    renderer.begin_frame(
        extent,
        Some(AcquireOutcome::Acquired { image_index: 1, suboptimal: false }),
    );
    let command_buffer = renderer.get_current_command_buffer();
    let begin = renderer.begin_swapchain_render_pass(command_buffer);
    assert_eq!(begin.framebuffer_index, 1);
    assert_eq!(begin.render_area, Extent2d { width: 800, height: 600 });
    renderer.end_swapchain_render_pass(command_buffer);
}

#[test]
fn frame_index_cycles_modulo_frames_in_flight() {
    let mut renderer = test_renderer();
    let extent = Extent2d { width: 800, height: 600 };
    for k in 0..5usize {
        assert_eq!(renderer.current_frame_index, k % MAX_FRAMES_IN_FLIGHT);
        let action = renderer.begin_frame(
            extent,
            Some(AcquireOutcome::Acquired { image_index: k % 3, suboptimal: false }),
        );
        let expected_buffer = k % MAX_FRAMES_IN_FLIGHT;
        assert_eq!(
            action,
            BeginFrameAction::Begin { command_buffer_index: expected_buffer, recreate: false }
        );
        renderer.end_frame();
        assert!(!renderer.is_frame_started);
    }
    assert_eq!(renderer.current_frame_index, 5 % MAX_FRAMES_IN_FLIGHT);
}

#[test]
fn consecutive_frames_on_one_image_wait_for_its_fence() {
    let mut renderer = test_renderer();
    let extent = Extent2d { width: 800, height: 600 };
    renderer.begin_frame(
        extent,
        Some(AcquireOutcome::Acquired { image_index: 1, suboptimal: false }),
    );
    let first = renderer.end_frame();
    assert_eq!(first.frame, 0);
    assert_eq!(first.wait_image_fence, None);
    renderer.begin_frame(
        extent,
        Some(AcquireOutcome::Acquired { image_index: 1, suboptimal: false }),
    );
    let second = renderer.end_frame();
    assert_eq!(second.frame, 1);
    // The second submission must block on the first frame's fence before
    // the image is reused.
    assert_eq!(second.wait_image_fence, Some(0));
}
