use vstd::prelude::*;
use vstd::std_specs::convert::FromSpecImpl;

use crate::device::{DeviceError, SwapchainSupportSummary};
use crate::instance::VulkanInstanceError;
use crate::vulkan::{
    Extent2D, PhysicalSize, SurfaceCapabilities, SurfaceFormat, COLOR_SPACE_SRGB_NONLINEAR,
    FORMAT_B8G8R8A8_SRGB, PRESENT_MODE_FIFO, PRESENT_MODE_MAILBOX, UNDEFINED_EXTENT_WIDTH,
};

verus! {

/// Why a swapchain could not be configured or created.
#[derive(Debug)]
pub enum SwapchainError {
    Device(DeviceError),
    /// A Vulkan call failed with this `VkResult` code.
    Vulkan(i32),
    MissingSurfaceFormats,
    MissingPresentModes,
}

impl From<DeviceError> for SwapchainError {
    fn from(error: DeviceError) -> (converted: Self) {
        SwapchainError::Device(error)
    }
}

impl FromSpecImpl<DeviceError> for SwapchainError {
    open spec fn obeys_from_spec() -> bool {
        true
    }

    open spec fn from_spec(error: DeviceError) -> Self {
        SwapchainError::Device(error)
    }
}

impl From<VulkanInstanceError> for SwapchainError {
    fn from(error: VulkanInstanceError) -> (converted: Self) {
        SwapchainError::Device(DeviceError::Instance(error))
    }
}

impl FromSpecImpl<VulkanInstanceError> for SwapchainError {
    open spec fn obeys_from_spec() -> bool {
        true
    }

    open spec fn from_spec(error: VulkanInstanceError) -> Self {
        SwapchainError::Device(DeviceError::Instance(error))
    }
}

/// What a surface supports for swapchains on a physical device.
#[derive(Debug, Clone)]
pub struct SwapchainSupportDetails {
    pub capabilities: SurfaceCapabilities,
    pub formats: Vec<SurfaceFormat>,
    /// `VkPresentModeKHR` values.
    pub present_modes: Vec<i32>,
}

/// How the swapchain is to be created.
#[derive(Debug, Clone, Copy, PartialEq, Eq)]
pub struct SwapchainConfig {
    pub surface_format: SurfaceFormat,
    /// `VkPresentModeKHR`.
    pub present_mode: i32,
    pub extent: Extent2D,
    pub image_count: u32,
}

/// The surface format the renderer prefers: 8-bit BGRA in sRGB.
pub open spec fn preferred_surface_format() -> SurfaceFormat {
    SurfaceFormat { format: FORMAT_B8G8R8A8_SRGB, color_space: COLOR_SPACE_SRGB_NONLINEAR }
}

/// The preferred format if the surface offers it, else the first format offered.
pub open spec fn spec_choose_surface_format(formats: Seq<SurfaceFormat>) -> SurfaceFormat {
    if formats.contains(preferred_surface_format()) {
        preferred_surface_format()
    } else {
        formats[0]
    }
}

/// Mailbox if the surface offers it, else FIFO, which every surface supports.
pub open spec fn spec_choose_present_mode(present_modes: Seq<i32>) -> i32 {
    if present_modes.contains(PRESENT_MODE_MAILBOX) {
        PRESENT_MODE_MAILBOX
    } else {
        PRESENT_MODE_FIFO
    }
}

/// `value` limited to `low..=high`.
pub open spec fn clamp(value: u32, low: u32, high: u32) -> u32 {
    if value < low {
        low
    } else if value > high {
        high
    } else {
        value
    }
}

/// The surface's size when it fixes one; otherwise the window's size, kept within the
/// surface's limits.
pub open spec fn spec_choose_extent(capabilities: SurfaceCapabilities, window_size: PhysicalSize) -> Extent2D {
    if capabilities.current_extent.width != UNDEFINED_EXTENT_WIDTH {
        capabilities.current_extent
    } else {
        Extent2D {
            width: clamp(
                window_size.width,
                capabilities.min_image_extent.width,
                capabilities.max_image_extent.width,
            ),
            height: clamp(
                window_size.height,
                capabilities.min_image_extent.height,
                capabilities.max_image_extent.height,
            ),
        }
    }
}

/// One image more than the surface's minimum, unless the surface's maximum is lower.
pub open spec fn spec_choose_image_count(capabilities: SurfaceCapabilities) -> u32 {
    let preferred_count = capabilities.min_image_count + 1;
    if capabilities.max_image_count > 0 && capabilities.max_image_count < preferred_count {
        capabilities.max_image_count
    } else {
        preferred_count as u32
    }
}

/// The surface's extent limits can be clamped to: needed only when the surface fixes no size.
pub open spec fn extent_limits_ordered(capabilities: SurfaceCapabilities) -> bool {
    capabilities.current_extent.width == UNDEFINED_EXTENT_WIDTH ==> {
        &&& capabilities.min_image_extent.width <= capabilities.max_image_extent.width
        &&& capabilities.min_image_extent.height <= capabilities.max_image_extent.height
    }
}

/// Whether the surface's extent limits can be clamped to.
pub fn extent_limits_are_ordered(capabilities: &SurfaceCapabilities) -> (ordered: bool)
    ensures
        ordered == extent_limits_ordered(*capabilities),
{
    capabilities.current_extent.width != UNDEFINED_EXTENT_WIDTH || (
    capabilities.min_image_extent.width <= capabilities.max_image_extent.width
        && capabilities.min_image_extent.height <= capabilities.max_image_extent.height)
}

/// The configuration chosen for the surface's support and the window's size.
pub open spec fn spec_choose_swapchain_config(
    details: SwapchainSupportDetails,
    window_size: PhysicalSize,
) -> SwapchainConfig {
    SwapchainConfig {
        surface_format: spec_choose_surface_format(details.formats@),
        present_mode: spec_choose_present_mode(details.present_modes@),
        extent: spec_choose_extent(details.capabilities, window_size),
        image_count: spec_choose_image_count(details.capabilities),
    }
}

/// Chooses how to create the swapchain: the preferred sRGB format if offered, mailbox
/// presentation if offered, the surface's extent (or the window's, within the surface's
/// limits), and one image more than the minimum. A surface without formats, or without
/// present modes, cannot get a swapchain.
pub fn choose_swapchain_config(details: &SwapchainSupportDetails, window_size: PhysicalSize) -> (result:
    Result<SwapchainConfig, SwapchainError>)
    requires
        extent_limits_ordered(details.capabilities),
        details.capabilities.min_image_count < u32::MAX,
    ensures
        details.formats@.len() == 0 ==> (result matches Err(error)
            && error is MissingSurfaceFormats),
        details.formats@.len() > 0 && details.present_modes@.len() == 0 ==> (result matches Err(
            error,
        ) && error is MissingPresentModes),
        details.formats@.len() > 0 && details.present_modes@.len() > 0 ==> result == Ok::<
            SwapchainConfig,
            SwapchainError,
        >(spec_choose_swapchain_config(*details, window_size)),
{
    let surface_format = choose_surface_format(details.formats.as_slice())?;
    let present_mode = choose_present_mode(details.present_modes.as_slice())?;
    let extent = choose_extent(&details.capabilities, window_size);
    let image_count = choose_image_count(&details.capabilities);
    Ok(SwapchainConfig { surface_format, present_mode, extent, image_count })
}

fn choose_surface_format(formats: &[SurfaceFormat]) -> (result: Result<SurfaceFormat, SwapchainError>)
    ensures
        formats@.len() == 0 ==> (result matches Err(error) && error is MissingSurfaceFormats),
        formats@.len() > 0 ==> result == Ok::<SurfaceFormat, SwapchainError>(
            spec_choose_surface_format(formats@),
        ),
{
    if formats.len() == 0 {
        return Err(SwapchainError::MissingSurfaceFormats);
    }
    let mut i: usize = 0;
    while i < formats.len()
        invariant
            i <= formats@.len(),
            forall|j: int| 0 <= j < i ==> formats@[j] != preferred_surface_format(),
        decreases formats@.len() - i,
    {
        let format = formats[i];
        if format.format == FORMAT_B8G8R8A8_SRGB && format.color_space
            == COLOR_SPACE_SRGB_NONLINEAR {
            assert(formats@[i as int] == preferred_surface_format());
            assert(formats@.contains(preferred_surface_format()));
            return Ok(format);
        }
        i = i + 1;
    }
    Ok(formats[0])
}

fn choose_present_mode(present_modes: &[i32]) -> (result: Result<i32, SwapchainError>)
    ensures
        present_modes@.len() == 0 ==> (result matches Err(error) && error is MissingPresentModes),
        present_modes@.len() > 0 ==> result == Ok::<i32, SwapchainError>(
            spec_choose_present_mode(present_modes@),
        ),
{
    if present_modes.len() == 0 {
        return Err(SwapchainError::MissingPresentModes);
    }
    let mut i: usize = 0;
    while i < present_modes.len()
        invariant
            i <= present_modes@.len(),
            forall|j: int| 0 <= j < i ==> present_modes@[j] != PRESENT_MODE_MAILBOX,
        decreases present_modes@.len() - i,
    {
        if present_modes[i] == PRESENT_MODE_MAILBOX {
            assert(present_modes@.contains(PRESENT_MODE_MAILBOX));
            return Ok(PRESENT_MODE_MAILBOX);
        }
        i = i + 1;
    }
    Ok(PRESENT_MODE_FIFO)
}

/// `value` limited to `low..=high`, as `u32::clamp` computes it.
fn clamp_u32(value: u32, low: u32, high: u32) -> (clamped: u32)
    requires
        low <= high,
    ensures
        clamped == clamp(value, low, high),
{
    if value < low {
        low
    } else if value > high {
        high
    } else {
        value
    }
}

fn choose_extent(capabilities: &SurfaceCapabilities, window_size: PhysicalSize) -> (extent: Extent2D)
    requires
        extent_limits_ordered(*capabilities),
    ensures
        extent == spec_choose_extent(*capabilities, window_size),
{
    if capabilities.current_extent.width != UNDEFINED_EXTENT_WIDTH {
        return capabilities.current_extent;
    }
    Extent2D {
        width: clamp_u32(
            window_size.width,
            capabilities.min_image_extent.width,
            capabilities.max_image_extent.width,
        ),
        height: clamp_u32(
            window_size.height,
            capabilities.min_image_extent.height,
            capabilities.max_image_extent.height,
        ),
    }
}

fn choose_image_count(capabilities: &SurfaceCapabilities) -> (image_count: u32)
    requires
        capabilities.min_image_count < u32::MAX,
    ensures
        image_count == spec_choose_image_count(*capabilities),
{
    let preferred_count = capabilities.min_image_count + 1;
    if capabilities.max_image_count > 0 {
        if capabilities.max_image_count < preferred_count {
            capabilities.max_image_count
        } else {
            preferred_count
        }
    } else {
        preferred_count
    }
}

/// Law: the chosen configuration is one the surface supports. Its format is one the surface
/// offers; its present mode is offered or is FIFO; when the surface fixes no size, the extent
/// lies within the surface's limits and is the window's size whenever that size is within
/// them; and the image count is above the surface's minimum, and within its maximum when the
/// surface sets one that is not below its minimum.
pub proof fn lemma_chosen_config_is_supported(
    details: SwapchainSupportDetails,
    window_size: PhysicalSize,
)
    requires
        details.formats@.len() > 0,
        details.present_modes@.len() > 0,
        extent_limits_ordered(details.capabilities),
        details.capabilities.min_image_count < u32::MAX,
    ensures
        ({
            let config = spec_choose_swapchain_config(details, window_size);
            let caps = details.capabilities;
            &&& details.formats@.contains(config.surface_format)
            &&& details.present_modes@.contains(config.present_mode) || config.present_mode
                == PRESENT_MODE_FIFO
            &&& caps.current_extent.width != UNDEFINED_EXTENT_WIDTH ==> config.extent
                == caps.current_extent
            &&& caps.current_extent.width == UNDEFINED_EXTENT_WIDTH ==> {
                &&& caps.min_image_extent.width <= config.extent.width
                    <= caps.max_image_extent.width
                &&& caps.min_image_extent.height <= config.extent.height
                    <= caps.max_image_extent.height
                &&& caps.min_image_extent.width <= window_size.width
                    <= caps.max_image_extent.width ==> config.extent.width == window_size.width
                &&& caps.min_image_extent.height <= window_size.height
                    <= caps.max_image_extent.height ==> config.extent.height == window_size.height
            }
            &&& config.image_count >= 1
            &&& caps.max_image_count == 0 || caps.max_image_count > caps.min_image_count
                ==> config.image_count == caps.min_image_count + 1
            &&& caps.max_image_count >= caps.min_image_count ==> caps.min_image_count
                <= config.image_count
            &&& caps.max_image_count > 0 && caps.max_image_count >= caps.min_image_count
                ==> config.image_count <= caps.max_image_count
        }),
{
    if !details.formats@.contains(preferred_surface_format()) {
        assert(details.formats@.contains(details.formats@[0]));
    }
}

/// Law: the surface of a device that selection accepted always gets a configuration. A
/// summary of the details that shows formats and present modes means that neither
/// `MissingSurfaceFormats` nor `MissingPresentModes` can come from them.
pub proof fn lemma_selected_surface_is_configurable(
    details: SwapchainSupportDetails,
    summary: SwapchainSupportSummary,
)
    requires
        summary.format_count == details.formats@.len(),
        summary.present_mode_count == details.present_modes@.len(),
        summary.spec_is_adequate(),
    ensures
        details.formats@.len() > 0,
        details.present_modes@.len() > 0,
{
}

/// Law: the surface format is chosen by both of its fields. When some offered format is
/// B8G8R8A8_SRGB in the SRGB_NONLINEAR colour space, exactly that pair is chosen, wherever it
/// stands in the list and whatever other B8G8R8A8_SRGB formats (in other colour spaces) come
/// before it; otherwise the first offered format is chosen.
pub proof fn lemma_surface_format_choice(formats: Seq<SurfaceFormat>)
    requires
        formats.len() > 0,
    ensures
        (exists|i: int|
            0 <= i < formats.len() && formats[i].format == FORMAT_B8G8R8A8_SRGB
                && formats[i].color_space == COLOR_SPACE_SRGB_NONLINEAR) ==> {
            &&& spec_choose_surface_format(formats).format == FORMAT_B8G8R8A8_SRGB
            &&& spec_choose_surface_format(formats).color_space == COLOR_SPACE_SRGB_NONLINEAR
        },
        (forall|i: int|
            0 <= i < formats.len() ==> !(formats[i].format == FORMAT_B8G8R8A8_SRGB
                && formats[i].color_space == COLOR_SPACE_SRGB_NONLINEAR))
            ==> spec_choose_surface_format(formats) == formats[0],
{
    if exists|i: int|
        0 <= i < formats.len() && formats[i].format == FORMAT_B8G8R8A8_SRGB
            && formats[i].color_space == COLOR_SPACE_SRGB_NONLINEAR {
        let i = choose|i: int|
            0 <= i < formats.len() && formats[i].format == FORMAT_B8G8R8A8_SRGB
                && formats[i].color_space == COLOR_SPACE_SRGB_NONLINEAR;
        assert(formats[i] == SurfaceFormat {
            format: FORMAT_B8G8R8A8_SRGB,
            color_space: COLOR_SPACE_SRGB_NONLINEAR,
        });
        assert(formats.contains(formats[i]));
    } else {
        if formats.contains(preferred_surface_format()) {
            let i = choose|i: int| 0 <= i < formats.len() && formats[i] == preferred_surface_format();
            assert(formats[i].format == FORMAT_B8G8R8A8_SRGB);
        }
    }
}

/// Law: the present mode is mailbox exactly when the surface offers mailbox, and FIFO otherwise.
pub proof fn lemma_present_mode_choice(present_modes: Seq<i32>)
    ensures
        (exists|i: int| 0 <= i < present_modes.len() && present_modes[i] == PRESENT_MODE_MAILBOX)
            ==> spec_choose_present_mode(present_modes) == PRESENT_MODE_MAILBOX,
        (forall|i: int| 0 <= i < present_modes.len() ==> present_modes[i] != PRESENT_MODE_MAILBOX)
            ==> spec_choose_present_mode(present_modes) == PRESENT_MODE_FIFO,
{
    if exists|i: int| 0 <= i < present_modes.len() && present_modes[i] == PRESENT_MODE_MAILBOX {
        let i = choose|i: int| 0 <= i < present_modes.len() && present_modes[i] == PRESENT_MODE_MAILBOX;
        assert(present_modes.contains(present_modes[i]));
    }
}

} // verus!
