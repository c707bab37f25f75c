use learn_vulkan_renderer::vulkan::{PRESENT_MODE_FIFO, PRESENT_MODE_MAILBOX};
use learn_vulkan_renderer::{
    choose_swapchain_config, Extent2D, PhysicalSize, SurfaceCapabilities, SurfaceFormat,
    SwapchainError, SwapchainSupportDetails,
};

const SRGB: SurfaceFormat = SurfaceFormat { format: 50, color_space: 0 };
const UNORM: SurfaceFormat = SurfaceFormat { format: 44, color_space: 0 };

fn capabilities(current: Extent2D, min_images: u32, max_images: u32) -> SurfaceCapabilities {
    SurfaceCapabilities {
        min_image_count: min_images,
        max_image_count: max_images,
        current_extent: current,
        min_image_extent: Extent2D { width: 100, height: 50 },
        max_image_extent: Extent2D { width: 1920, height: 1080 },
    }
}

fn details(formats: Vec<SurfaceFormat>, present_modes: Vec<i32>, caps: SurfaceCapabilities) -> SwapchainSupportDetails {
    SwapchainSupportDetails { capabilities: caps, formats, present_modes }
}

const FIXED: Extent2D = Extent2D { width: 800, height: 600 };
const UNDEFINED: Extent2D = Extent2D { width: u32::MAX, height: u32::MAX };
const WINDOW: PhysicalSize = PhysicalSize { width: 1280, height: 720 };

#[test]
fn prefers_srgb_mailbox_and_surface_extent() {
    let d = details(vec![UNORM, SRGB], vec![PRESENT_MODE_FIFO, PRESENT_MODE_MAILBOX], capabilities(FIXED, 2, 3));
    let config = choose_swapchain_config(&d, WINDOW).unwrap();
    assert_eq!(config.surface_format, SRGB);
    assert_eq!(config.present_mode, PRESENT_MODE_MAILBOX);
    assert_eq!(config.extent, FIXED);
    assert_eq!(config.image_count, 3);
}

#[test]
fn falls_back_to_first_format_and_fifo() {
    let other_srgb_space = SurfaceFormat { format: 50, color_space: 1000104001 };
    let d = details(vec![other_srgb_space, UNORM], vec![0, 3], capabilities(FIXED, 2, 0));
    let config = choose_swapchain_config(&d, WINDOW).unwrap();
    assert_eq!(config.surface_format, other_srgb_space);
    assert_eq!(config.present_mode, PRESENT_MODE_FIFO);
    assert_eq!(config.image_count, 3);
}

#[test]
fn window_size_is_clamped_when_surface_leaves_extent_open() {
    let d = details(vec![SRGB], vec![PRESENT_MODE_FIFO], capabilities(UNDEFINED, 1, 0));
    let inside = choose_swapchain_config(&d, WINDOW).unwrap();
    assert_eq!(inside.extent, Extent2D { width: 1280, height: 720 });

    let too_big = choose_swapchain_config(&d, PhysicalSize { width: 4000, height: 20 }).unwrap();
    assert_eq!(too_big.extent, Extent2D { width: 1920, height: 50 });

    let too_small = choose_swapchain_config(&d, PhysicalSize { width: 0, height: 2000 }).unwrap();
    assert_eq!(too_small.extent, Extent2D { width: 100, height: 1080 });
}

#[test]
fn image_count_respects_maximum() {
    let d = details(vec![SRGB], vec![PRESENT_MODE_FIFO], capabilities(FIXED, 3, 3));
    assert_eq!(choose_swapchain_config(&d, WINDOW).unwrap().image_count, 3);
    let d = details(vec![SRGB], vec![PRESENT_MODE_FIFO], capabilities(FIXED, 3, 8));
    assert_eq!(choose_swapchain_config(&d, WINDOW).unwrap().image_count, 4);
    let d = details(vec![SRGB], vec![PRESENT_MODE_FIFO], capabilities(FIXED, 3, 0));
    assert_eq!(choose_swapchain_config(&d, WINDOW).unwrap().image_count, 4);
}

#[test]
fn surface_without_formats_is_rejected_first() {
    let d = details(Vec::new(), Vec::new(), capabilities(FIXED, 2, 0));
    assert!(matches!(choose_swapchain_config(&d, WINDOW), Err(SwapchainError::MissingSurfaceFormats)));
}

#[test]
fn surface_without_present_modes_is_rejected() {
    let d = details(vec![SRGB], Vec::new(), capabilities(FIXED, 2, 0));
    assert!(matches!(choose_swapchain_config(&d, WINDOW), Err(SwapchainError::MissingPresentModes)));
}
