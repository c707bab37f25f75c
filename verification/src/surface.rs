use vstd::prelude::*;
use vstd::std_specs::convert::FromSpecImpl;

use crate::instance::VulkanInstanceError;

verus! {

/// Why creating a window surface failed.
#[derive(Debug)]
pub enum SurfaceError {
    EventLoop(winit::error::EventLoopError),
    Window(winit::error::OsError),
    WindowHandle(winit::raw_window_handle::HandleError),
    Instance(VulkanInstanceError),
    /// A Vulkan call failed with this `VkResult` code.
    Vulkan(i32),
}

impl From<winit::error::EventLoopError> for SurfaceError {
    fn from(error: winit::error::EventLoopError) -> (converted: Self) {
        SurfaceError::EventLoop(error)
    }
}

impl FromSpecImpl<winit::error::EventLoopError> for SurfaceError {
    open spec fn obeys_from_spec() -> bool {
        true
    }

    open spec fn from_spec(error: winit::error::EventLoopError) -> Self {
        SurfaceError::EventLoop(error)
    }
}

impl From<winit::error::OsError> for SurfaceError {
    fn from(error: winit::error::OsError) -> (converted: Self) {
        SurfaceError::Window(error)
    }
}

impl FromSpecImpl<winit::error::OsError> for SurfaceError {
    open spec fn obeys_from_spec() -> bool {
        true
    }

    open spec fn from_spec(error: winit::error::OsError) -> Self {
        SurfaceError::Window(error)
    }
}

impl From<winit::raw_window_handle::HandleError> for SurfaceError {
    fn from(error: winit::raw_window_handle::HandleError) -> (converted: Self) {
        SurfaceError::WindowHandle(error)
    }
}

impl FromSpecImpl<winit::raw_window_handle::HandleError> for SurfaceError {
    open spec fn obeys_from_spec() -> bool {
        true
    }

    open spec fn from_spec(error: winit::raw_window_handle::HandleError) -> Self {
        SurfaceError::WindowHandle(error)
    }
}

impl From<VulkanInstanceError> for SurfaceError {
    fn from(error: VulkanInstanceError) -> (converted: Self) {
        SurfaceError::Instance(error)
    }
}

impl FromSpecImpl<VulkanInstanceError> for SurfaceError {
    open spec fn obeys_from_spec() -> bool {
        true
    }

    open spec fn from_spec(error: VulkanInstanceError) -> Self {
        SurfaceError::Instance(error)
    }
}

} // verus!
