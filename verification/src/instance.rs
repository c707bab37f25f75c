use vstd::prelude::*;
use vstd::std_specs::convert::FromSpecImpl;

verus! {

#[verifier::external_type_specification]
#[verifier::external_body]
pub struct ExEventLoopError(winit::error::EventLoopError);

#[verifier::external_type_specification]
#[verifier::external_body]
pub struct ExOsError(winit::error::OsError);

#[verifier::external_type_specification]
#[verifier::external_body]
pub struct ExHandleError(winit::raw_window_handle::HandleError);

#[verifier::external_type_specification]
#[verifier::external_body]
pub struct ExLoadingError(ash::LoadingError);

/// Why bringing up a window or a Vulkan instance failed.
#[derive(Debug)]
pub enum VulkanInstanceError {
    EventLoop(winit::error::EventLoopError),
    Window(winit::error::OsError),
    WindowHandle(winit::raw_window_handle::HandleError),
    VulkanLoader(ash::LoadingError),
    /// A Vulkan call failed with this `VkResult` code.
    Vulkan(i32),
}

impl From<winit::error::EventLoopError> for VulkanInstanceError {
    fn from(error: winit::error::EventLoopError) -> (converted: Self) {
        VulkanInstanceError::EventLoop(error)
    }
}

impl FromSpecImpl<winit::error::EventLoopError> for VulkanInstanceError {
    open spec fn obeys_from_spec() -> bool {
        true
    }

    open spec fn from_spec(error: winit::error::EventLoopError) -> Self {
        VulkanInstanceError::EventLoop(error)
    }
}

impl From<winit::error::OsError> for VulkanInstanceError {
    fn from(error: winit::error::OsError) -> (converted: Self) {
        VulkanInstanceError::Window(error)
    }
}

impl FromSpecImpl<winit::error::OsError> for VulkanInstanceError {
    open spec fn obeys_from_spec() -> bool {
        true
    }

    open spec fn from_spec(error: winit::error::OsError) -> Self {
        VulkanInstanceError::Window(error)
    }
}

impl From<winit::raw_window_handle::HandleError> for VulkanInstanceError {
    fn from(error: winit::raw_window_handle::HandleError) -> (converted: Self) {
        VulkanInstanceError::WindowHandle(error)
    }
}

impl FromSpecImpl<winit::raw_window_handle::HandleError> for VulkanInstanceError {
    open spec fn obeys_from_spec() -> bool {
        true
    }

    open spec fn from_spec(error: winit::raw_window_handle::HandleError) -> Self {
        VulkanInstanceError::WindowHandle(error)
    }
}

impl From<ash::LoadingError> for VulkanInstanceError {
    fn from(error: ash::LoadingError) -> (converted: Self) {
        VulkanInstanceError::VulkanLoader(error)
    }
}

impl FromSpecImpl<ash::LoadingError> for VulkanInstanceError {
    open spec fn obeys_from_spec() -> bool {
        true
    }

    open spec fn from_spec(error: ash::LoadingError) -> Self {
        VulkanInstanceError::VulkanLoader(error)
    }
}

} // verus!
