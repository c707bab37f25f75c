//! Plain-value models of the Vulkan data that the renderer's decisions read.
//!
//! Each type keeps only the fields a decision looks at, as the raw integers the
//! Vulkan API defines; the numeric constants are the values the Vulkan registry
//! assigns to the named enumerants.

use vstd::prelude::*;

verus! {

/// `VK_FORMAT_B8G8R8A8_SRGB`.
pub const FORMAT_B8G8R8A8_SRGB: i32 = 50;

/// `VK_COLOR_SPACE_SRGB_NONLINEAR_KHR`.
pub const COLOR_SPACE_SRGB_NONLINEAR: i32 = 0;

/// `VK_PRESENT_MODE_MAILBOX_KHR`.
pub const PRESENT_MODE_MAILBOX: i32 = 1;

/// `VK_PRESENT_MODE_FIFO_KHR`, the one present mode every surface must support.
pub const PRESENT_MODE_FIFO: i32 = 2;

/// `VK_QUEUE_GRAPHICS_BIT`.
pub const QUEUE_GRAPHICS_BIT: u32 = 1;

/// `VK_TRUE`, the value of a `VkBool32` that is set.
pub const VK_TRUE: u32 = 1;

/// `VK_ERROR_OUT_OF_DATE_KHR`.
pub const ERROR_OUT_OF_DATE_KHR: i32 = -1000001004;

/// Width of `currentExtent` that means "the surface size follows the swapchain".
pub const UNDEFINED_EXTENT_WIDTH: u32 = 0xFFFF_FFFF;

/// `VkExtent2D`.
#[derive(Debug, Clone, Copy, PartialEq, Eq)]
pub struct Extent2D {
    pub width: u32,
    pub height: u32,
}

/// `VkSurfaceFormatKHR`: a `VkFormat` with a `VkColorSpaceKHR`.
#[derive(Debug, Clone, Copy, PartialEq, Eq)]
pub struct SurfaceFormat {
    pub format: i32,
    pub color_space: i32,
}

/// The fields of `VkSurfaceCapabilitiesKHR` that swapchain configuration reads.
#[derive(Debug, Clone, Copy, PartialEq, Eq)]
pub struct SurfaceCapabilities {
    pub min_image_count: u32,
    /// Zero means that the surface sets no upper limit.
    pub max_image_count: u32,
    pub current_extent: Extent2D,
    pub min_image_extent: Extent2D,
    pub max_image_extent: Extent2D,
}

/// The size of a window's drawable area in physical pixels.
#[derive(Debug, Clone, Copy, PartialEq, Eq)]
pub struct PhysicalSize {
    pub width: u32,
    pub height: u32,
}

/// The fields of `VkQueueFamilyProperties` that queue selection reads.
#[derive(Debug, Clone, Copy, PartialEq, Eq)]
pub struct QueueFamilyProperties {
    /// `VkQueueFlags` bits.
    pub queue_flags: u32,
    pub queue_count: u32,
}

/// The fields of `VkPhysicalDeviceProperties` that describe a device.
#[derive(Debug, Clone, PartialEq, Eq)]
pub struct PhysicalDeviceProperties {
    /// The bytes of the fixed-size, nul-terminated `deviceName` array.
    pub device_name: Vec<u8>,
    /// `VkPhysicalDeviceType`.
    pub device_type: i32,
    pub api_version: u32,
    pub driver_version: u32,
    pub vendor_id: u32,
    pub device_id: u32,
}

/// The `VkBool32` members of the ray tracing feature structures that a
/// `vkGetPhysicalDeviceFeatures2` query fills in.
#[derive(Debug, Clone, Copy, PartialEq, Eq)]
pub struct RayTracingFeatureFlags {
    pub acceleration_structure: u32,
    pub ray_tracing_pipeline: u32,
    pub ray_traversal_primitive_culling: u32,
    pub buffer_device_address: u32,
}

/// The bytes of a nul-terminated C string held in a fixed-size array: position of the first nul.
pub open spec fn is_nul_position(raw: Seq<u8>, k: int) -> bool {
    &&& 0 <= k < raw.len()
    &&& raw[k] == 0
    &&& forall|j: int| 0 <= j < k ==> raw[j] != 0
}

/// The array holds a nul byte, so it holds a C string.
pub open spec fn holds_c_string(raw: Seq<u8>) -> bool {
    exists|k: int| 0 <= k < raw.len() && raw[k] == 0
}

/// The bytes of the C string held in `raw`: everything before the first nul.
pub open spec fn c_string_bytes(raw: Seq<u8>) -> Seq<u8> {
    raw.take(choose|k: int| is_nul_position(raw, k))
}

/// The first nul of an array is unique, and exists whenever the array holds a nul.
pub proof fn lemma_nul_position(raw: Seq<u8>, k: int)
    requires
        is_nul_position(raw, k),
    ensures
        (choose|j: int| is_nul_position(raw, j)) == k,
        c_string_bytes(raw) == raw.take(k),
{
    let j = choose|j: int| is_nul_position(raw, j);
    assert(is_nul_position(raw, j));
    if j < k {
        assert(raw[j] != 0);
    } else if k < j {
        assert(raw[k] != 0);
    }
}

/// Finds the first nul byte of a C string array.
pub fn c_string_length(raw: &[u8]) -> (k: usize)
    requires
        holds_c_string(raw@),
    ensures
        is_nul_position(raw@, k as int),
        c_string_bytes(raw@) == raw@.take(k as int),
{
    let mut k: usize = 0;
    while raw[k] != 0
        invariant
            holds_c_string(raw@),
            k < raw@.len(),
            forall|j: int| 0 <= j < k ==> raw@[j] != 0,
        decreases raw@.len() - k,
    {
        k = k + 1;
        if k == raw.len() {
            proof {
                let w = choose|w: int| 0 <= w < raw@.len() && raw@[w] == 0;
                assert(raw@[w] != 0);
            }
        }
    }
    proof {
        lemma_nul_position(raw@, k as int);
    }
    k
}

/// Whether the array holds a nul byte, so that a C string can be read from it.
pub fn contains_nul(raw: &[u8]) -> (found: bool)
    ensures
        found == holds_c_string(raw@),
{
    let mut i: usize = 0;
    while i < raw.len()
        invariant
            i <= raw@.len(),
            forall|j: int| 0 <= j < i ==> raw@[j] != 0,
        decreases raw@.len() - i,
    {
        if raw[i] == 0 {
            return true;
        }
        i = i + 1;
    }
    false
}

/// Whether the C string held in `raw` is exactly `expected`.
pub fn c_string_equals(raw: &[u8], expected: &[u8]) -> (equal: bool)
    requires
        holds_c_string(raw@),
    ensures
        equal == (c_string_bytes(raw@) == expected@),
{
    let k = c_string_length(raw);
    if k != expected.len() {
        assert(c_string_bytes(raw@).len() != expected@.len());
        return false;
    }
    let mut i: usize = 0;
    while i < k
        invariant
            k == expected@.len(),
            k < raw@.len(),
            c_string_bytes(raw@) == raw@.take(k as int),
            i <= k,
            forall|j: int| 0 <= j < i ==> raw@[j] == expected@[j],
        decreases k - i,
    {
        if raw[i] != expected[i] {
            assert(c_string_bytes(raw@)[i as int] != expected@[i as int]);
            return false;
        }
        i = i + 1;
    }
    assert(c_string_bytes(raw@) =~= expected@);
    true
}

} // verus!
