use learn_vulkan_renderer::vulkan::ERROR_OUT_OF_DATE_KHR;
use learn_vulkan_renderer::{DeviceError, SwapchainError};
use learn_vulkan_renderer::{
    acquired_image, frame_needs_recreate, AcquiredImage, CommandError, FrameAction, PhysicalSize,
    PresentLoopState,
};

const ERROR_DEVICE_LOST: i32 = -4;

#[test]
fn acquire_results() {
    assert_eq!(
        acquired_image(Ok((2, false))).unwrap(),
        AcquiredImage::Ready { image_index: 2, suboptimal: false }
    );
    assert_eq!(
        acquired_image(Ok((0, true))).unwrap(),
        AcquiredImage::Ready { image_index: 0, suboptimal: true }
    );
    assert_eq!(acquired_image(Err(ERROR_OUT_OF_DATE_KHR)).unwrap(), AcquiredImage::OutOfDate);
    assert!(matches!(acquired_image(Err(ERROR_DEVICE_LOST)), Err(CommandError::Vulkan(-4))));
}

#[test]
fn present_results() {
    assert!(!frame_needs_recreate(false, Ok(false)).unwrap());
    assert!(frame_needs_recreate(true, Ok(false)).unwrap());
    assert!(frame_needs_recreate(false, Ok(true)).unwrap());
    assert!(frame_needs_recreate(false, Err(ERROR_OUT_OF_DATE_KHR)).unwrap());
    assert!(matches!(frame_needs_recreate(true, Err(ERROR_DEVICE_LOST)), Err(CommandError::Vulkan(-4))));
}

#[test]
fn resize_stays_pending_until_recreated() {
    let mut state = PresentLoopState::new();
    assert_eq!(state.on_redraw_requested(), FrameAction::DrawFrame);

    state.on_resized();
    assert_eq!(state.on_redraw_requested(), FrameAction::RecreateSwapchain);

    assert!(!PresentLoopState::can_recreate_for(PhysicalSize { width: 0, height: 600 }));
    assert!(!PresentLoopState::can_recreate_for(PhysicalSize { width: 800, height: 0 }));
    assert_eq!(state.on_redraw_requested(), FrameAction::RecreateSwapchain);

    assert!(PresentLoopState::can_recreate_for(PhysicalSize { width: 800, height: 600 }));
    state.on_recreated();
    assert_eq!(state.on_redraw_requested(), FrameAction::DrawFrame);
}

#[test]
fn errors_convert_into_wider_errors() {
    assert!(matches!(
        CommandError::from(SwapchainError::MissingPresentModes),
        CommandError::Swapchain(SwapchainError::MissingPresentModes)
    ));
    assert!(matches!(
        CommandError::from(DeviceError::NoPhysicalDevices),
        CommandError::Device(DeviceError::NoPhysicalDevices)
    ));
    assert!(matches!(
        SwapchainError::from(DeviceError::NoSuitablePhysicalDevice),
        SwapchainError::Device(DeviceError::NoSuitablePhysicalDevice)
    ));
}
