//! Learning-oriented Vulkan renderer: the decisions a renderer makes while it brings up a
//! window, a Vulkan instance, a surface, a device and a swapchain, kept apart from the
//! driver calls that feed them.

pub mod commands;
pub mod device;
pub mod instance;
pub mod surface;
pub mod swapchain;
pub mod vulkan;
pub mod window;

pub use commands::{
    acquired_image, frame_needs_recreate, AcquiredImage, CommandError, FrameAction,
    PresentLoopState,
};
pub use device::{
    device_extension_available, physical_device_infos, queue_family_support_from,
    require_complete_queue_families, DeviceError, DeviceExtension, DeviceExtensionSupport,
    DeviceSelection, PhysicalDeviceFeatureMatrix, PhysicalDeviceInfo, QueueFamilyIndices,
    QueueFamilyReport, QueueFamilySupport, RayTracingFeatureSupport, SelectedPhysicalDevice,
    SelectionAction, SelectionStage, SwapchainSupportSummary,
};
pub use instance::VulkanInstanceError;
pub use surface::SurfaceError;
pub use swapchain::{choose_swapchain_config, SwapchainConfig, SwapchainError, SwapchainSupportDetails};
pub use vulkan::{
    Extent2D, PhysicalDeviceProperties, PhysicalSize, QueueFamilyProperties,
    RayTracingFeatureFlags, SurfaceCapabilities, SurfaceFormat,
};
pub use window::WindowConfig;
