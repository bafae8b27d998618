use lve_engine::surface::Extent2d;
use lve_engine::surface::SurfaceCapabilities;
use lve_engine::surface::SurfaceFormat;
use lve_engine::surface::SwapChainSupportDetails;
use lve_engine::surface::COLOR_SPACE_SRGB_NONLINEAR;
use lve_engine::surface::FORMAT_B8G8R8A8_SRGB;
use lve_engine::surface::PRESENT_MODE_FIFO;
use lve_engine::surface::PRESENT_MODE_IMMEDIATE;
use lve_engine::surface::PRESENT_MODE_MAILBOX;
use lve_engine::surface::UNDEFINED_EXTENT_WIDTH;
use lve_engine::device::FormatProperties;
use lve_engine::swapchain::DestroyPhase;
use lve_engine::swapchain::LveSwapchain;
use lve_engine::swapchain::FORMAT_D24_UNORM_S8_UINT;
use lve_engine::swapchain::FORMAT_D32_SFLOAT;
use lve_engine::swapchain::FORMAT_FEATURE_DEPTH_STENCIL_ATTACHMENT;
use lve_engine::swapchain::MAX_FRAMES_IN_FLIGHT;

fn caps_with_fixed_extent(min_count: u32, max_count: u32, w: u32, h: u32) -> SurfaceCapabilities {
    SurfaceCapabilities {
        min_image_count: min_count,
        max_image_count: max_count,
        current_extent: Extent2d { width: w, height: h },
        min_image_extent: Extent2d { width: 1, height: 1 },
        max_image_extent: Extent2d { width: 4096, height: 4096 },
    }
}

fn caps_with_free_extent(min_w: u32, min_h: u32, max_w: u32, max_h: u32) -> SurfaceCapabilities {
    SurfaceCapabilities {
        min_image_count: 2,
        max_image_count: 8,
        current_extent: Extent2d { width: UNDEFINED_EXTENT_WIDTH, height: 600 },
        min_image_extent: Extent2d { width: min_w, height: min_h },
        max_image_extent: Extent2d { width: max_w, height: max_h },
    }
}

#[test]
fn surface_format_prefers_srgb_pair() {
    let formats = vec![
        SurfaceFormat { format: 44, color_space: 0 },
        SurfaceFormat { format: FORMAT_B8G8R8A8_SRGB, color_space: COLOR_SPACE_SRGB_NONLINEAR },
        SurfaceFormat { format: 97, color_space: 0 },
    ];
    let chosen = LveSwapchain::choose_swap_surface_format(&formats);
    assert_eq!(chosen.format, FORMAT_B8G8R8A8_SRGB);
    assert_eq!(chosen.color_space, COLOR_SPACE_SRGB_NONLINEAR);
}

#[test]
fn surface_format_falls_back_to_first() {
    let formats = vec![
        SurfaceFormat { format: 44, color_space: 0 },
        SurfaceFormat { format: FORMAT_B8G8R8A8_SRGB, color_space: 7 },
    ];
    let chosen = LveSwapchain::choose_swap_surface_format(&formats);
    assert_eq!(chosen, formats[0]);
}

#[test]
fn present_mode_prefers_mailbox() {
    let modes = vec![PRESENT_MODE_FIFO, PRESENT_MODE_MAILBOX, PRESENT_MODE_IMMEDIATE];
    assert_eq!(LveSwapchain::choose_swap_present_mode(&modes), PRESENT_MODE_MAILBOX);
}

#[test]
fn present_mode_falls_back_to_fifo() {
    let modes = vec![PRESENT_MODE_IMMEDIATE, PRESENT_MODE_FIFO];
    assert_eq!(LveSwapchain::choose_swap_present_mode(&modes), PRESENT_MODE_FIFO);
    let empty: Vec<u32> = Vec::new();
    assert_eq!(LveSwapchain::choose_swap_present_mode(&empty), PRESENT_MODE_FIFO);
}

#[test]
fn extent_uses_fixed_current_extent() {
    let caps = caps_with_fixed_extent(2, 4, 1024, 768);
    let window = Extent2d { width: 800, height: 600 };
    let chosen = LveSwapchain::choose_swap_extent(&caps, window);
    assert_eq!(chosen, Extent2d { width: 1024, height: 768 });
}

#[test]
fn extent_clamps_window_extent() {
    let caps = caps_with_free_extent(200, 100, 1000, 900);
    let inside = LveSwapchain::choose_swap_extent(&caps, Extent2d { width: 800, height: 600 });
    assert_eq!(inside, Extent2d { width: 800, height: 600 });
    let too_small = LveSwapchain::choose_swap_extent(&caps, Extent2d { width: 10, height: 20 });
    assert_eq!(too_small, Extent2d { width: 200, height: 100 });
    let too_large = LveSwapchain::choose_swap_extent(&caps, Extent2d { width: 5000, height: 4000 });
    assert_eq!(too_large, Extent2d { width: 1000, height: 900 });
}

#[test]
fn image_count_is_min_plus_one_clamped() {
    assert_eq!(LveSwapchain::choose_image_count(&caps_with_fixed_extent(2, 4, 1, 1)), 3);
    assert_eq!(LveSwapchain::choose_image_count(&caps_with_fixed_extent(3, 3, 1, 1)), 3);
    // A zero maximum means the surface imposes no limit.
    assert_eq!(LveSwapchain::choose_image_count(&caps_with_fixed_extent(7, 0, 1, 1)), 8);
}

#[test]
fn swapchain_construction_respects_image_count_bounds() {
    let support = SwapChainSupportDetails {
        capabilities: caps_with_fixed_extent(2, 4, 800, 600),
        formats: vec![SurfaceFormat {
            format: FORMAT_B8G8R8A8_SRGB,
            color_space: COLOR_SPACE_SRGB_NONLINEAR,
        }],
        present_modes: vec![PRESENT_MODE_FIFO],
    };
    let config = LveSwapchain::plan_swapchain(&support, Extent2d { width: 800, height: 600 });
    assert!(config.min_image_count >= support.capabilities.min_image_count + 1);
    assert!(config.min_image_count <= support.capabilities.max_image_count);
    let swapchain = LveSwapchain::new(&config, config.min_image_count as usize, FORMAT_D32_SFLOAT);
    assert_eq!(swapchain.image_count(), 3);
    assert_eq!(swapchain.width(), 800);
    assert_eq!(swapchain.height(), 600);
    assert_eq!(swapchain.image_format, FORMAT_B8G8R8A8_SRGB);
}

#[test]
fn recreation_with_unchanged_surface_is_idempotent() {
    let support = SwapChainSupportDetails {
        capabilities: caps_with_free_extent(1, 1, 4096, 4096),
        formats: vec![SurfaceFormat {
            format: FORMAT_B8G8R8A8_SRGB,
            color_space: COLOR_SPACE_SRGB_NONLINEAR,
        }],
        present_modes: vec![PRESENT_MODE_MAILBOX, PRESENT_MODE_FIFO],
    };
    let window = Extent2d { width: 800, height: 600 };
    let first = LveSwapchain::plan_swapchain(&support, window);
    let second = LveSwapchain::plan_swapchain(&support, window);
    assert_eq!(first, second);
    let a = LveSwapchain::new(&first, first.min_image_count as usize, FORMAT_D32_SFLOAT);
    let b = LveSwapchain::new(&second, second.min_image_count as usize, FORMAT_D32_SFLOAT);
    assert_eq!(a.image_count(), b.image_count());
    assert_eq!(a.image_format, b.image_format);
    assert_eq!(a.swapchain_extent, b.swapchain_extent);
}

#[test]
fn depth_format_takes_first_supported_candidate() {
    let all = FormatProperties {
        linear_tiling_features: 0,
        optimal_tiling_features: FORMAT_FEATURE_DEPTH_STENCIL_ATTACHMENT,
    };
    let none = FormatProperties { linear_tiling_features: 0, optimal_tiling_features: 0 };
    // Only the feature flag under optimal tiling counts.
    let linear_only = FormatProperties {
        linear_tiling_features: FORMAT_FEATURE_DEPTH_STENCIL_ATTACHMENT,
        optimal_tiling_features: 0,
    };
    assert_eq!(
        LveSwapchain::find_depth_format(&vec![all, all, all]),
        Some(FORMAT_D32_SFLOAT)
    );
    assert_eq!(
        LveSwapchain::find_depth_format(&vec![none, linear_only, all]),
        Some(FORMAT_D24_UNORM_S8_UINT)
    );
    assert_eq!(LveSwapchain::find_depth_format(&vec![none, none, none]), None);
}

#[test]
fn compare_swap_formats_detects_changes() {
    let config = lve_engine::swapchain::SwapchainConfig {
        surface_format: SurfaceFormat {
            format: FORMAT_B8G8R8A8_SRGB,
            color_space: COLOR_SPACE_SRGB_NONLINEAR,
        },
        present_mode: PRESENT_MODE_FIFO,
        extent: Extent2d { width: 800, height: 600 },
        min_image_count: 3,
    };
    let a = LveSwapchain::new(&config, 3, FORMAT_D32_SFLOAT);
    let same = LveSwapchain::new(&config, 4, FORMAT_D32_SFLOAT);
    assert!(a.compare_swap_formats(&same).is_ok());
    let other_depth = LveSwapchain::new(&config, 3, FORMAT_D24_UNORM_S8_UINT);
    assert!(a.compare_swap_formats(&other_depth).is_err());
}

#[test]
fn reused_image_index_must_wait_on_prior_fence() {
    let config = lve_engine::swapchain::SwapchainConfig {
        surface_format: SurfaceFormat {
            format: FORMAT_B8G8R8A8_SRGB,
            color_space: COLOR_SPACE_SRGB_NONLINEAR,
        },
        present_mode: PRESENT_MODE_FIFO,
        extent: Extent2d { width: 800, height: 600 },
        min_image_count: 3,
    };
    let mut swapchain = LveSwapchain::new(&config, 3, FORMAT_D32_SFLOAT);
    assert_eq!(swapchain.acquire_next_image(), 0);
    let first = swapchain.submit_command_buffers(1);
    assert_eq!(first.wait_image_fence, None);
    assert_eq!(first.frame, 0);
    assert_eq!(swapchain.current_frame, 1);
    // The same swapchain image submitted again before its fence was
    // cleared: the submit instruction demands a wait on frame 0's fence.
    let second = swapchain.submit_command_buffers(1);
    assert_eq!(second.wait_image_fence, Some(0));
    assert_eq!(second.frame, 1);
    assert_eq!(swapchain.current_frame, 2 % MAX_FRAMES_IN_FLIGHT);
}

#[test]
fn destroy_releases_in_dependency_order() {
    let config = lve_engine::swapchain::SwapchainConfig {
        surface_format: SurfaceFormat {
            format: FORMAT_B8G8R8A8_SRGB,
            color_space: COLOR_SPACE_SRGB_NONLINEAR,
        },
        present_mode: PRESENT_MODE_FIFO,
        extent: Extent2d { width: 800, height: 600 },
        min_image_count: 3,
    };
    let swapchain = LveSwapchain::new(&config, 3, FORMAT_D32_SFLOAT);
    let order = swapchain.destroy();
    assert_eq!(
        order,
        vec![
            DestroyPhase::ImageViews,
            DestroyPhase::SwapchainHandle,
            DestroyPhase::DepthImageViews,
            DestroyPhase::DepthImages,
            DestroyPhase::DepthMemories,
            DestroyPhase::Framebuffers,
            DestroyPhase::RenderPass,
            DestroyPhase::RenderFinishedSemaphores,
            DestroyPhase::ImageAvailableSemaphores,
            DestroyPhase::InFlightFences,
        ]
    );
}
