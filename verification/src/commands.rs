use vstd::prelude::*;
use vstd::std_specs::convert::FromSpecImpl;

use crate::device::DeviceError;
use crate::instance::VulkanInstanceError;
use crate::swapchain::SwapchainError;
use crate::vulkan::{PhysicalSize, ERROR_OUT_OF_DATE_KHR};

verus! {

/// Why recording or submitting the clear commands failed.
#[derive(Debug)]
pub enum CommandError {
    Device(DeviceError),
    Swapchain(SwapchainError),
    /// A Vulkan call failed with this `VkResult` code.
    Vulkan(i32),
}

impl From<DeviceError> for CommandError {
    fn from(error: DeviceError) -> (converted: Self) {
        CommandError::Device(error)
    }
}

impl FromSpecImpl<DeviceError> for CommandError {
    open spec fn obeys_from_spec() -> bool {
        true
    }

    open spec fn from_spec(error: DeviceError) -> Self {
        CommandError::Device(error)
    }
}

impl From<VulkanInstanceError> for CommandError {
    fn from(error: VulkanInstanceError) -> (converted: Self) {
        CommandError::Device(DeviceError::Instance(error))
    }
}

impl FromSpecImpl<VulkanInstanceError> for CommandError {
    open spec fn obeys_from_spec() -> bool {
        true
    }

    open spec fn from_spec(error: VulkanInstanceError) -> Self {
        CommandError::Device(DeviceError::Instance(error))
    }
}

impl From<SwapchainError> for CommandError {
    fn from(error: SwapchainError) -> (converted: Self) {
        CommandError::Swapchain(error)
    }
}

impl FromSpecImpl<SwapchainError> for CommandError {
    open spec fn obeys_from_spec() -> bool {
        true
    }

    open spec fn from_spec(error: SwapchainError) -> Self {
        CommandError::Swapchain(error)
    }
}

/// The swapchain image that a frame may render to.
#[derive(Debug, Clone, Copy, PartialEq, Eq)]
pub enum AcquiredImage {
    /// The image to render to, and whether the swapchain no longer matches the surface exactly.
    Ready { image_index: u32, suboptimal: bool },
    /// The swapchain no longer matches the surface and must be recreated first.
    OutOfDate,
}

/// Reads the result of `vkAcquireNextImageKHR`: an image and its suboptimal flag, or the
/// `VkResult` error code. An out-of-date swapchain is not an error: it asks for recreation.
pub fn acquired_image(result: Result<(u32, bool), i32>) -> (outcome: Result<AcquiredImage, CommandError>)
    ensures
        result matches Ok((image_index, suboptimal)) ==> outcome == Ok::<
            AcquiredImage,
            CommandError,
        >(AcquiredImage::Ready { image_index, suboptimal }),
        result matches Err(code) ==> (code == ERROR_OUT_OF_DATE_KHR ==> outcome == Ok::<
            AcquiredImage,
            CommandError,
        >(AcquiredImage::OutOfDate)),
        result matches Err(code) ==> (code != ERROR_OUT_OF_DATE_KHR ==> (outcome matches Err(
            CommandError::Vulkan(reported),
        ) && reported == code)),
{
    match result {
        Ok((image_index, suboptimal)) => Ok(AcquiredImage::Ready { image_index, suboptimal }),
        Err(code) => if code == ERROR_OUT_OF_DATE_KHR {
            Ok(AcquiredImage::OutOfDate)
        } else {
            Err(CommandError::Vulkan(code))
        },
    }
}

/// Reads the result of `vkQueuePresentKHR` for a frame whose image was acquired with the
/// given suboptimal flag, and tells whether the swapchain must be recreated: when either step
/// found it suboptimal, or presentation found it out of date. Any other failure is an error.
pub fn frame_needs_recreate(acquire_suboptimal: bool, present_result: Result<bool, i32>) -> (outcome:
    Result<bool, CommandError>)
    ensures
        present_result matches Ok(present_suboptimal) ==> outcome == Ok::<bool, CommandError>(
            acquire_suboptimal || present_suboptimal,
        ),
        present_result matches Err(code) ==> (code == ERROR_OUT_OF_DATE_KHR ==> outcome == Ok::<
            bool,
            CommandError,
        >(true)),
        present_result matches Err(code) ==> (code != ERROR_OUT_OF_DATE_KHR ==> (outcome matches Err(
            CommandError::Vulkan(reported),
        ) && reported == code)),
{
    let present_suboptimal = match present_result {
        Ok(suboptimal) => suboptimal,
        Err(code) => {
            if code == ERROR_OUT_OF_DATE_KHR {
                true
            } else {
                return Err(CommandError::Vulkan(code));
            }
        },
    };
    Ok(acquire_suboptimal || present_suboptimal)
}

/// What the present loop does when the window asks for a redraw.
#[derive(Debug, Clone, Copy, PartialEq, Eq)]
pub enum FrameAction {
    /// Recreate the swapchain and its commands; draw nothing this time.
    RecreateSwapchain,
    /// Draw a frame with the current swapchain.
    DrawFrame,
}

/// The present loop's memory between window events: whether a resize still has to be
/// answered with a new swapchain.
#[derive(Debug, Clone, Copy, PartialEq, Eq)]
pub struct PresentLoopState {
    pub framebuffer_resized: bool,
}

impl PresentLoopState {
    /// No resize pending.
    pub fn new() -> (state: Self)
        ensures
            !state.framebuffer_resized,
    {
        PresentLoopState { framebuffer_resized: false }
    }

    /// The window was resized: the swapchain has to follow.
    pub fn on_resized(&mut self)
        ensures
            final(self).framebuffer_resized,
    {
        self.framebuffer_resized = true;
    }

    /// On a redraw request: recreate first if a resize is pending, else draw.
    pub fn on_redraw_requested(&self) -> (action: FrameAction)
        ensures
            self.framebuffer_resized ==> action == FrameAction::RecreateSwapchain,
            !self.framebuffer_resized ==> action == FrameAction::DrawFrame,
    {
        if self.framebuffer_resized {
            FrameAction::RecreateSwapchain
        } else {
            FrameAction::DrawFrame
        }
    }

    /// Whether the swapchain can be recreated for a window of this size: not while the window
    /// has no area (minimized), in which case the request stays pending.
    pub fn can_recreate_for(window_size: PhysicalSize) -> (allowed: bool)
        ensures
            allowed == (window_size.width != 0 && window_size.height != 0),
    {
        window_size.width != 0 && window_size.height != 0
    }

    /// A new swapchain and its commands exist: the pending resize is answered.
    pub fn on_recreated(&mut self)
        ensures
            !final(self).framebuffer_resized,
    {
        self.framebuffer_resized = false;
    }
}

} // verus!
