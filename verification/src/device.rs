use vstd::prelude::*;
use vstd::std_specs::convert::FromSpecImpl;
use vstd::string::*;
use vstd::utf8::{decode_utf8, valid_utf8};

use crate::instance::VulkanInstanceError;
use crate::surface::SurfaceError;
use crate::swapchain::SwapchainSupportDetails;
use crate::vulkan::{
    c_string_bytes, c_string_equals, c_string_length, holds_c_string, Extent2D,
    PhysicalDeviceProperties, QueueFamilyProperties, RayTracingFeatureFlags, QUEUE_GRAPHICS_BIT,
    VK_TRUE,
};

verus! {

/// Why enumerating, checking or opening a physical device failed.
#[derive(Debug)]
pub enum DeviceError {
    Instance(VulkanInstanceError),
    Surface(SurfaceError),
    /// A Vulkan call failed with this `VkResult` code.
    Vulkan(i32),
    NoPhysicalDevices,
    NoSuitableQueueFamilies,
    NoSuitablePhysicalDevice,
}

impl From<VulkanInstanceError> for DeviceError {
    fn from(error: VulkanInstanceError) -> (converted: Self) {
        DeviceError::Instance(error)
    }
}

impl FromSpecImpl<VulkanInstanceError> for DeviceError {
    open spec fn obeys_from_spec() -> bool {
        true
    }

    open spec fn from_spec(error: VulkanInstanceError) -> Self {
        DeviceError::Instance(error)
    }
}

impl From<SurfaceError> for DeviceError {
    fn from(error: SurfaceError) -> (converted: Self) {
        DeviceError::Surface(error)
    }
}

impl FromSpecImpl<SurfaceError> for DeviceError {
    open spec fn obeys_from_spec() -> bool {
        true
    }

    open spec fn from_spec(error: SurfaceError) -> Self {
        DeviceError::Surface(error)
    }
}

// ---------------------------------------------------------------------------------------------
// Queue families
// ---------------------------------------------------------------------------------------------

/// The queue families chosen for graphics work and for presentation.
#[derive(Debug, Clone, Copy, PartialEq, Eq)]
pub struct QueueFamilyIndices {
    pub graphics_family: Option<u32>,
    pub present_family: Option<u32>,
}

impl Default for QueueFamilyIndices {
    /// No family chosen yet.
    fn default() -> (indices: Self)
        ensures
            indices.graphics_family is None,
            indices.present_family is None,
    {
        QueueFamilyIndices { graphics_family: None, present_family: None }
    }
}

/// `v` contains `x`.
fn vec_contains_u32(v: &Vec<u32>, x: u32) -> (found: bool)
    ensures
        found == v@.contains(x),
{
    let mut i: usize = 0;
    while i < v.len()
        invariant
            i <= v@.len(),
            forall|j: int| 0 <= j < i ==> v@[j] != x,
        decreases v@.len() - i,
    {
        if v[i] == x {
            assert(v@[i as int] == x);
            return true;
        }
        i = i + 1;
    }
    false
}

impl QueueFamilyIndices {
    /// Both a graphics family and a present family have been found.
    pub open spec fn spec_is_complete(self) -> bool {
        self.graphics_family is Some && self.present_family is Some
    }

    /// The chosen families, graphics first, each listed once.
    pub open spec fn spec_unique_indices(self) -> Seq<u32> {
        match (self.graphics_family, self.present_family) {
            (Some(g), Some(p)) => if g == p {
                seq![g]
            } else {
                seq![g, p]
            },
            (Some(g), None) => seq![g],
            (None, Some(p)) => seq![p],
            (None, None) => Seq::empty(),
        }
    }

    pub fn is_complete(&self) -> (complete: bool)
        ensures
            complete == self.spec_is_complete(),
    {
        self.graphics_family.is_some() && self.present_family.is_some()
    }

    /// The graphics family and the present family of complete indices, for fetching the
    /// device's queues.
    pub fn graphics_and_present(&self) -> (families: (u32, u32))
        requires
            self.spec_is_complete(),
        ensures
            self.graphics_family == Some(families.0),
            self.present_family == Some(families.1),
    {
        match (self.graphics_family, self.present_family) {
            (Some(graphics_family), Some(present_family)) => (graphics_family, present_family),
            _ => (0, 0),
        }
    }

    /// The families to create queues on: the graphics family, then the present family
    /// unless it is the same one.
    pub fn unique_indices(&self) -> (indices: Vec<u32>)
        ensures
            indices@ == self.spec_unique_indices(),
    {
        let mut indices: Vec<u32> = Vec::with_capacity(2);
        if let Some(graphics_family) = self.graphics_family {
            indices.push(graphics_family);
        }
        let ghost chosen_graphics = indices@;
        assert(chosen_graphics =~= match self.graphics_family {
            Some(g) => seq![g],
            None => Seq::<u32>::empty(),
        });
        if let Some(present_family) = self.present_family {
            if !vec_contains_u32(&indices, present_family) {
                proof {
                    if chosen_graphics.len() == 1 {
                        assert(chosen_graphics[0] != present_family);
                    }
                }
                indices.push(present_family);
            }
        }
        proof {
            match (self.graphics_family, self.present_family) {
                (Some(g), Some(q)) => {
                    if g == q {
                        assert(indices@ =~= seq![g]);
                    } else {
                        assert(indices@ =~= seq![g, q]);
                    }
                },
                (Some(g), None) => {
                    assert(indices@ =~= seq![g]);
                },
                (None, Some(q)) => {
                    assert(indices@ =~= seq![q]);
                },
                (None, None) => {
                    assert(indices@ =~= Seq::<u32>::empty());
                },
            }
        }
        indices
    }
}

/// Law: the queue families to create never repeat, and are exactly the chosen families.
pub proof fn lemma_unique_indices_distinct_and_exact(indices: QueueFamilyIndices)
    ensures
        indices.spec_unique_indices().len() <= 2,
        forall|i: int, j: int|
            0 <= i < j < indices.spec_unique_indices().len() ==> indices.spec_unique_indices()[i]
                != indices.spec_unique_indices()[j],
        forall|x: u32|
            indices.spec_unique_indices().contains(x) <==> (indices.graphics_family == Some(x)
                || indices.present_family == Some(x)),
        indices.spec_is_complete() ==> indices.spec_unique_indices().len() >= 1,
{
    let u = indices.spec_unique_indices();
    assert forall|x: u32| u.contains(x) <==> (indices.graphics_family == Some(x)
        || indices.present_family == Some(x)) by {
        if indices.graphics_family == Some(x) {
            assert(u[0] == x);
        }
        if indices.present_family == Some(x) {
            if u.len() == 2 {
                assert(u[1] == x);
            } else {
                assert(u[0] == x);
            }
        }
    }
}

/// What one queue family offers, as reported for a physical device.
#[derive(Debug, Clone, Copy, PartialEq, Eq)]
pub struct QueueFamilyReport {
    pub family_index: u32,
    pub queue_count: u32,
    /// `VkQueueFlags` bits.
    pub queue_flags: u32,
    pub supports_present: bool,
}

/// Every queue family of a device, with the families chosen among them.
#[derive(Debug, Clone)]
pub struct QueueFamilySupport {
    pub reports: Vec<QueueFamilyReport>,
    pub indices: QueueFamilyIndices,
}

/// The family has queues and they can do graphics work.
pub open spec fn is_graphics_family(family: QueueFamilyProperties) -> bool {
    family.queue_count > 0 && family.queue_flags & QUEUE_GRAPHICS_BIT == QUEUE_GRAPHICS_BIT
}

/// The family has queues and they can present to the surface.
pub open spec fn is_present_family(family: QueueFamilyProperties, supports_present: bool) -> bool {
    family.queue_count > 0 && supports_present
}

/// `choice` is the first index below `n` where `holds` is true, or `None` when there is none.
pub open spec fn is_first_where(choice: Option<u32>, n: int, holds: spec_fn(int) -> bool) -> bool {
    match choice {
        Some(k) => 0 <= k < n && holds(k as int) && forall|j: int| 0 <= j < k ==> !#[trigger] holds(j),
        None => forall|j: int| 0 <= j < n ==> !#[trigger] holds(j),
    }
}

/// The report that the queue family at `index` gets.
pub open spec fn expected_report(
    families: Seq<QueueFamilyProperties>,
    supports_present: Seq<bool>,
    index: int,
) -> QueueFamilyReport {
    QueueFamilyReport {
        family_index: index as u32,
        queue_count: families[index].queue_count,
        queue_flags: families[index].queue_flags,
        supports_present: supports_present[index],
    }
}

/// Builds the queue family support of a device from what Vulkan reported of its queue
/// families and of each family's ability to present to the surface: one report per family,
/// the first graphics-capable family with queues, and the first present-capable family with
/// queues.
pub fn queue_family_support_from(
    families: &Vec<QueueFamilyProperties>,
    supports_present: &Vec<bool>,
) -> (support: QueueFamilySupport)
    requires
        families@.len() == supports_present@.len(),
        families@.len() <= u32::MAX,
    ensures
        support.reports@.len() == families@.len(),
        forall|i: int|
            0 <= i < families@.len() ==> support.reports@[i] == expected_report(
                families@,
                supports_present@,
                i,
            ),
        is_first_where(
            support.indices.graphics_family,
            families@.len() as int,
            |i: int| is_graphics_family(families@[i]),
        ),
        is_first_where(
            support.indices.present_family,
            families@.len() as int,
            |i: int| is_present_family(families@[i], supports_present@[i]),
        ),
{
    let mut indices = QueueFamilyIndices::default();
    let mut reports: Vec<QueueFamilyReport> = Vec::with_capacity(families.len());
    let ghost graphics = |i: int| is_graphics_family(families@[i]);
    let ghost present = |i: int| is_present_family(families@[i], supports_present@[i]);
    let mut index: usize = 0;
    while index < families.len()
        invariant
            families@.len() == supports_present@.len(),
            families@.len() <= u32::MAX,
            index <= families@.len(),
            reports@.len() == index,
            forall|i: int|
                0 <= i < index ==> reports@[i] == expected_report(families@, supports_present@, i),
            is_first_where(indices.graphics_family, index as int, graphics),
            is_first_where(indices.present_family, index as int, present),
            graphics == (|i: int| is_graphics_family(families@[i])),
            present == (|i: int| is_present_family(families@[i], supports_present@[i])),
        decreases families@.len() - index,
    {
        let family_index = index as u32;
        let queue_family = families[index];
        let family_supports_present = supports_present[index];
        if queue_family.queue_count > 0 && queue_family.queue_flags & QUEUE_GRAPHICS_BIT
            == QUEUE_GRAPHICS_BIT && indices.graphics_family.is_none() {
            indices.graphics_family = Some(family_index);
        }
        if queue_family.queue_count > 0 && family_supports_present
            && indices.present_family.is_none() {
            indices.present_family = Some(family_index);
        }
        reports.push(
            QueueFamilyReport {
                family_index,
                queue_count: queue_family.queue_count,
                queue_flags: queue_family.queue_flags,
                supports_present: family_supports_present,
            },
        );
        index = index + 1;
    }
    QueueFamilySupport { reports, indices }
}

/// At least one device offered complete queue families: succeeds exactly when one of the
/// devices' chosen families is complete, and fails with `NoSuitableQueueFamilies` otherwise.
pub fn require_complete_queue_families(device_indices: &Vec<QueueFamilyIndices>) -> (result: Result<
    (),
    DeviceError,
>)
    ensures
        result is Ok <==> exists|i: int|
            0 <= i < device_indices@.len() && (#[trigger] device_indices@[i]).spec_is_complete(),
        result matches Err(error) ==> error is NoSuitableQueueFamilies,
{
    let mut found_complete_device = false;
    let mut i: usize = 0;
    while i < device_indices.len()
        invariant
            i <= device_indices@.len(),
            found_complete_device <==> exists|j: int|
                0 <= j < i && (#[trigger] device_indices@[j]).spec_is_complete(),
        decreases device_indices@.len() - i,
    {
        found_complete_device = found_complete_device || device_indices[i].is_complete();
        i = i + 1;
    }
    if !found_complete_device {
        return Err(DeviceError::NoSuitableQueueFamilies);
    }
    Ok(())
}

// ---------------------------------------------------------------------------------------------
// Swapchain support summary
// ---------------------------------------------------------------------------------------------

/// A short account of what a surface supports for swapchains on a device.
#[derive(Debug, Clone, Copy, PartialEq, Eq)]
pub struct SwapchainSupportSummary {
    pub min_image_count: u32,
    /// Zero means that the surface sets no upper limit.
    pub max_image_count: u32,
    pub current_extent: Extent2D,
    pub format_count: usize,
    pub present_mode_count: usize,
}

impl SwapchainSupportSummary {
    /// Summarizes the swapchain support that Vulkan reported for a device and surface.
    pub fn from_details(details: &SwapchainSupportDetails) -> (summary: Self)
        ensures
            summary.min_image_count == details.capabilities.min_image_count,
            summary.max_image_count == details.capabilities.max_image_count,
            summary.current_extent == details.capabilities.current_extent,
            summary.format_count == details.formats@.len(),
            summary.present_mode_count == details.present_modes@.len(),
    {
        SwapchainSupportSummary {
            min_image_count: details.capabilities.min_image_count,
            max_image_count: details.capabilities.max_image_count,
            current_extent: details.capabilities.current_extent,
            format_count: details.formats.len(),
            present_mode_count: details.present_modes.len(),
        }
    }

    /// The surface offers at least one format and at least one present mode.
    pub open spec fn spec_is_adequate(self) -> bool {
        self.format_count > 0 && self.present_mode_count > 0
    }

    pub fn is_adequate(&self) -> (adequate: bool)
        ensures
            adequate == self.spec_is_adequate(),
    {
        self.format_count != 0 && self.present_mode_count != 0
    }

    /// The largest image count the surface allows: `u32::MAX` when it sets no limit.
    pub fn image_count_upper_bound(&self) -> (bound: u32)
        ensures
            bound == (if self.max_image_count == 0 {
                u32::MAX
            } else {
                self.max_image_count
            }),
    {
        if self.max_image_count == 0 {
            u32::MAX
        } else {
            self.max_image_count
        }
    }
}

// ---------------------------------------------------------------------------------------------
// Extensions and features
// ---------------------------------------------------------------------------------------------

/// The device extensions that the renderer looks for.
#[derive(Debug, Clone, Copy, PartialEq, Eq)]
pub enum DeviceExtension {
    Swapchain,
    AccelerationStructure,
    RayTracingPipeline,
    DeferredHostOperations,
    BufferDeviceAddress,
    Spirv14,
    ShaderFloatControls,
}

impl DeviceExtension {
    /// The extension's name as the Vulkan registry spells it.
    pub open spec fn spec_name(self) -> Seq<char> {
        match self {
            DeviceExtension::Swapchain => "VK_KHR_swapchain"@,
            DeviceExtension::AccelerationStructure => "VK_KHR_acceleration_structure"@,
            DeviceExtension::RayTracingPipeline => "VK_KHR_ray_tracing_pipeline"@,
            DeviceExtension::DeferredHostOperations => "VK_KHR_deferred_host_operations"@,
            DeviceExtension::BufferDeviceAddress => "VK_KHR_buffer_device_address"@,
            DeviceExtension::Spirv14 => "VK_KHR_spirv_1_4"@,
            DeviceExtension::ShaderFloatControls => "VK_KHR_shader_float_controls"@,
        }
    }

    /// The bytes of the extension's name.
    pub open spec fn spec_name_bytes(self) -> Seq<u8> {
        vstd::utf8::encode_utf8(self.spec_name())
    }

    pub fn name(&self) -> (name: &'static str)
        ensures
            name@ == self.spec_name(),
    {
        match self {
            DeviceExtension::Swapchain => "VK_KHR_swapchain",
            DeviceExtension::AccelerationStructure => "VK_KHR_acceleration_structure",
            DeviceExtension::RayTracingPipeline => "VK_KHR_ray_tracing_pipeline",
            DeviceExtension::DeferredHostOperations => "VK_KHR_deferred_host_operations",
            DeviceExtension::BufferDeviceAddress => "VK_KHR_buffer_device_address",
            DeviceExtension::Spirv14 => "VK_KHR_spirv_1_4",
            DeviceExtension::ShaderFloatControls => "VK_KHR_shader_float_controls",
        }
    }
}

/// Every array holds a C string.
pub open spec fn all_hold_c_strings(names: Seq<Vec<u8>>) -> bool {
    forall|i: int| 0 <= i < names.len() ==> holds_c_string(#[trigger] names[i]@)
}

/// One of the reported extension names is `required`.
pub open spec fn extension_listed(names: Seq<Vec<u8>>, required: Seq<u8>) -> bool {
    exists|i: int| 0 <= i < names.len() && c_string_bytes(#[trigger] names[i]@) == required
}

/// Whether the device reported the extension named `required`; `extension_names` holds the
/// raw `extensionName` arrays of the device's `VkExtensionProperties`.
pub fn device_extension_available(extension_names: &Vec<Vec<u8>>, required: &[u8]) -> (available:
    bool)
    requires
        all_hold_c_strings(extension_names@),
    ensures
        available == extension_listed(extension_names@, required@),
{
    let mut i: usize = 0;
    while i < extension_names.len()
        invariant
            all_hold_c_strings(extension_names@),
            i <= extension_names@.len(),
            forall|j: int|
                0 <= j < i ==> c_string_bytes(#[trigger] extension_names@[j]@) != required@,
        decreases extension_names@.len() - i,
    {
        assert(holds_c_string(extension_names@[i as int]@));
        if c_string_equals(extension_names[i].as_slice(), required) {
            return true;
        }
        i = i + 1;
    }
    false
}

/// Whether the device reported extension `extension`.
fn extension_reported(extension_names: &Vec<Vec<u8>>, extension: DeviceExtension) -> (available:
    bool)
    requires
        all_hold_c_strings(extension_names@),
    ensures
        available == extension_listed(extension_names@, extension.spec_name_bytes()),
{
    device_extension_available(extension_names, extension.name().as_bytes())
}

/// Which of the renderer's device extensions a device offers.
#[derive(Debug, Clone, Copy, PartialEq, Eq)]
pub struct DeviceExtensionSupport {
    pub swapchain: bool,
    pub acceleration_structure: bool,
    pub ray_tracing_pipeline: bool,
    pub deferred_host_operations: bool,
    pub buffer_device_address: bool,
    pub spirv_1_4: bool,
    pub shader_float_controls: bool,
}

/// Which ray tracing features a device offers.
#[derive(Debug, Clone, Copy, PartialEq, Eq)]
pub struct RayTracingFeatureSupport {
    pub acceleration_structure: bool,
    pub ray_tracing_pipeline: bool,
    pub ray_traversal_primitive_culling: bool,
    pub buffer_device_address: bool,
}

/// A device's extensions and ray tracing features.
#[derive(Debug, Clone, Copy, PartialEq, Eq)]
pub struct PhysicalDeviceFeatureMatrix {
    pub extensions: DeviceExtensionSupport,
    pub ray_tracing_features: RayTracingFeatureSupport,
}

impl PhysicalDeviceFeatureMatrix {
    /// The device can present through a swapchain.
    pub open spec fn spec_swapchain_ready(self) -> bool {
        self.extensions.swapchain
    }

    /// The device has every extension and feature that hardware ray tracing needs.
    pub open spec fn spec_ray_tracing_ready(self) -> bool {
        &&& self.extensions.acceleration_structure
        &&& self.extensions.ray_tracing_pipeline
        &&& self.extensions.deferred_host_operations
        &&& self.extensions.buffer_device_address
        &&& self.extensions.spirv_1_4
        &&& self.extensions.shader_float_controls
        &&& self.ray_tracing_features.acceleration_structure
        &&& self.ray_tracing_features.ray_tracing_pipeline
        &&& self.ray_tracing_features.buffer_device_address
    }

    pub fn swapchain_ready(&self) -> (ready: bool)
        ensures
            ready == self.spec_swapchain_ready(),
    {
        self.extensions.swapchain
    }

    pub fn ray_tracing_ready(&self) -> (ready: bool)
        ensures
            ready == self.spec_ray_tracing_ready(),
    {
        self.extensions.acceleration_structure && self.extensions.ray_tracing_pipeline
            && self.extensions.deferred_host_operations && self.extensions.buffer_device_address
            && self.extensions.spirv_1_4 && self.extensions.shader_float_controls
            && self.ray_tracing_features.acceleration_structure
            && self.ray_tracing_features.ray_tracing_pipeline
            && self.ray_tracing_features.buffer_device_address
    }

    /// Builds the matrix from what Vulkan reported for a device: the raw `extensionName`
    /// arrays of its extensions, and the `VkBool32` ray tracing features.
    pub fn from_queries(extension_names: &Vec<Vec<u8>>, features: RayTracingFeatureFlags) -> (matrix:
        Self)
        requires
            all_hold_c_strings(extension_names@),
        ensures
            matrix.extensions.swapchain == extension_listed(
                extension_names@,
                DeviceExtension::Swapchain.spec_name_bytes(),
            ),
            matrix.extensions.acceleration_structure == extension_listed(
                extension_names@,
                DeviceExtension::AccelerationStructure.spec_name_bytes(),
            ),
            matrix.extensions.ray_tracing_pipeline == extension_listed(
                extension_names@,
                DeviceExtension::RayTracingPipeline.spec_name_bytes(),
            ),
            matrix.extensions.deferred_host_operations == extension_listed(
                extension_names@,
                DeviceExtension::DeferredHostOperations.spec_name_bytes(),
            ),
            matrix.extensions.buffer_device_address == extension_listed(
                extension_names@,
                DeviceExtension::BufferDeviceAddress.spec_name_bytes(),
            ),
            matrix.extensions.spirv_1_4 == extension_listed(
                extension_names@,
                DeviceExtension::Spirv14.spec_name_bytes(),
            ),
            matrix.extensions.shader_float_controls == extension_listed(
                extension_names@,
                DeviceExtension::ShaderFloatControls.spec_name_bytes(),
            ),
            matrix.ray_tracing_features.acceleration_structure == (features.acceleration_structure
                == VK_TRUE),
            matrix.ray_tracing_features.ray_tracing_pipeline == (features.ray_tracing_pipeline
                == VK_TRUE),
            matrix.ray_tracing_features.ray_traversal_primitive_culling == (
            features.ray_traversal_primitive_culling == VK_TRUE),
            matrix.ray_tracing_features.buffer_device_address == (features.buffer_device_address
                == VK_TRUE),
    {
        let extensions = DeviceExtensionSupport {
            swapchain: extension_reported(extension_names, DeviceExtension::Swapchain),
            acceleration_structure: extension_reported(
                extension_names,
                DeviceExtension::AccelerationStructure,
            ),
            ray_tracing_pipeline: extension_reported(
                extension_names,
                DeviceExtension::RayTracingPipeline,
            ),
            deferred_host_operations: extension_reported(
                extension_names,
                DeviceExtension::DeferredHostOperations,
            ),
            buffer_device_address: extension_reported(
                extension_names,
                DeviceExtension::BufferDeviceAddress,
            ),
            spirv_1_4: extension_reported(extension_names, DeviceExtension::Spirv14),
            shader_float_controls: extension_reported(
                extension_names,
                DeviceExtension::ShaderFloatControls,
            ),
        };
        PhysicalDeviceFeatureMatrix {
            extensions,
            ray_tracing_features: RayTracingFeatureSupport {
                acceleration_structure: features.acceleration_structure == VK_TRUE,
                ray_tracing_pipeline: features.ray_tracing_pipeline == VK_TRUE,
                ray_traversal_primitive_culling: features.ray_traversal_primitive_culling
                    == VK_TRUE,
                buffer_device_address: features.buffer_device_address == VK_TRUE,
            },
        }
    }
}

// ---------------------------------------------------------------------------------------------
// Physical device descriptions
// ---------------------------------------------------------------------------------------------

/// The text that std's `String::from_utf8_lossy` makes of `bytes`.
pub uninterp spec fn utf8_lossy(bytes: Seq<u8>) -> Seq<char>;

/// Calls std's `String::from_utf8_lossy` and takes the owned text. Claimed of it: the text is
/// determined by the bytes alone, and bytes that are valid UTF-8 come back decoded, unchanged,
/// as std documents. What replaces invalid sequences is not stated.
#[verifier::external_body]
fn text_from_utf8_lossy(bytes: &[u8]) -> (text: String)
    ensures
        text@ == utf8_lossy(bytes@),
        valid_utf8(bytes@) ==> text@ == decode_utf8(bytes@),
{
    String::from_utf8_lossy(bytes).into_owned()
}

/// Calls ash's `vk::api_version_major`, which the ash source defines as `(version >> 22) & 0x7f`.
#[verifier::external_body]
fn api_version_major(version: u32) -> (major: u32)
    ensures
        major == (version >> 22u32) & 0x7fu32,
{
    ash::vk::api_version_major(version)
}

/// Calls ash's `vk::api_version_minor`, which the ash source defines as `(version >> 12) & 0x3ff`.
#[verifier::external_body]
fn api_version_minor(version: u32) -> (minor: u32)
    ensures
        minor == (version >> 12u32) & 0x3ffu32,
{
    ash::vk::api_version_minor(version)
}

/// Calls ash's `vk::api_version_patch`, which the ash source defines as `version & 0xfff`.
#[verifier::external_body]
fn api_version_patch(version: u32) -> (patch: u32)
    ensures
        patch == version & 0xfffu32,
{
    ash::vk::api_version_patch(version)
}

/// The decimal digit `d`.
pub open spec fn digit_char(d: nat) -> char {
    if d == 0 {
        '0'
    } else if d == 1 {
        '1'
    } else if d == 2 {
        '2'
    } else if d == 3 {
        '3'
    } else if d == 4 {
        '4'
    } else if d == 5 {
        '5'
    } else if d == 6 {
        '6'
    } else if d == 7 {
        '7'
    } else if d == 8 {
        '8'
    } else {
        '9'
    }
}

/// The decimal numeral of `n`, without leading zeros.
pub open spec fn decimal(n: nat) -> Seq<char>
    decreases n,
{
    if n < 10 {
        seq![digit_char(n)]
    } else {
        decimal(n / 10).push(digit_char(n % 10))
    }
}

fn digit_text(d: u32) -> (text: &'static str)
    requires
        d < 10,
    ensures
        text@ == seq![digit_char(d as nat)],
{
    if d == 0 {
        proof { reveal_strlit("0"); }
        "0"
    } else if d == 1 {
        proof { reveal_strlit("1"); }
        "1"
    } else if d == 2 {
        proof { reveal_strlit("2"); }
        "2"
    } else if d == 3 {
        proof { reveal_strlit("3"); }
        "3"
    } else if d == 4 {
        proof { reveal_strlit("4"); }
        "4"
    } else if d == 5 {
        proof { reveal_strlit("5"); }
        "5"
    } else if d == 6 {
        proof { reveal_strlit("6"); }
        "6"
    } else if d == 7 {
        proof { reveal_strlit("7"); }
        "7"
    } else if d == 8 {
        proof { reveal_strlit("8"); }
        "8"
    } else {
        proof { reveal_strlit("9"); }
        "9"
    }
}

/// Appends the decimal numeral of `n`.
fn append_decimal(text: &mut String, n: u32)
    ensures
        final(text)@ == old(text)@ + decimal(n as nat),
    decreases n,
{
    if n >= 10 {
        append_decimal(text, n / 10);
    }
    text.append(digit_text(n % 10));
    proof {
        if n >= 10 {
            assert(old(text)@ + decimal((n / 10) as nat) + seq![digit_char((n % 10) as nat)]
                =~= old(text)@ + decimal(n as nat));
        } else {
            assert(old(text)@ + seq![digit_char((n % 10) as nat)] =~= old(text)@ + decimal(n as nat));
        }
    }
}

/// "major.minor.patch" of a packed Vulkan API version.
pub open spec fn spec_api_version_text(version: u32) -> Seq<char> {
    decimal(((version >> 22u32) & 0x7fu32) as nat) + seq!['.'] + decimal(
        ((version >> 12u32) & 0x3ffu32) as nat,
    ) + seq!['.'] + decimal((version & 0xfffu32) as nat)
}

/// A Vulkan API version packed from `major.minor.patch`, as `vk::make_api_version` packs it
/// for variant 0.
pub open spec fn packed_api_version(major: u32, minor: u32, patch: u32) -> u32 {
    (major << 22u32) | (minor << 12u32) | patch
}

/// Law: the version text of a packed version shows the numbers it was packed from.
pub proof fn lemma_api_version_text_round_trip(major: u32, minor: u32, patch: u32)
    requires
        major < 128,
        minor < 1024,
        patch < 4096,
    ensures
        spec_api_version_text(packed_api_version(major, minor, patch)) == decimal(major as nat)
            + seq!['.'] + decimal(minor as nat) + seq!['.'] + decimal(patch as nat),
{
    let version = packed_api_version(major, minor, patch);
    assert((version >> 22u32) & 0x7fu32 == major && (version >> 12u32) & 0x3ffu32 == minor
        && version & 0xfffu32 == patch) by (bit_vector)
        requires
            major < 128,
            minor < 1024,
            patch < 4096,
            version == (major << 22u32) | (minor << 12u32) | patch,
    ;
}

/// A physical device as the renderer describes it.
#[derive(Debug, Clone)]
pub struct PhysicalDeviceInfo {
    /// The raw `VkPhysicalDevice` handle.
    pub handle: u64,
    pub name: String,
    /// `VkPhysicalDeviceType`.
    pub device_type: i32,
    pub api_version: u32,
    pub driver_version: u32,
    pub vendor_id: u32,
    pub device_id: u32,
}

/// `info` describes the device with `handle` and `properties`.
pub open spec fn describes_device(
    info: PhysicalDeviceInfo,
    handle: u64,
    properties: PhysicalDeviceProperties,
) -> bool {
    &&& info.handle == handle
    &&& info.name@ == utf8_lossy(c_string_bytes(properties.device_name@))
    &&& info.device_type == properties.device_type
    &&& info.api_version == properties.api_version
    &&& info.driver_version == properties.driver_version
    &&& info.vendor_id == properties.vendor_id
    &&& info.device_id == properties.device_id
}

impl PhysicalDeviceInfo {
    /// Describes the device with `handle` from its `VkPhysicalDeviceProperties`: the name is
    /// the C string in `deviceName`, read as UTF-8 with invalid sequences replaced.
    pub fn from_properties(handle: u64, properties: &PhysicalDeviceProperties) -> (info: Self)
        requires
            holds_c_string(properties.device_name@),
        ensures
            describes_device(info, handle, *properties),
    {
        let name_length = c_string_length(properties.device_name.as_slice());
        let name_bytes = properties.device_name.as_slice();
        let name = text_from_utf8_lossy(slice_prefix(name_bytes, name_length).as_slice());
        PhysicalDeviceInfo {
            handle,
            name,
            device_type: properties.device_type,
            api_version: properties.api_version,
            driver_version: properties.driver_version,
            vendor_id: properties.vendor_id,
            device_id: properties.device_id,
        }
    }

    /// The device's Vulkan API version as "major.minor.patch".
    pub fn api_version_string(&self) -> (text: String)
        ensures
            text@ == spec_api_version_text(self.api_version),
    {
        let mut text = String::new();
        append_decimal(&mut text, api_version_major(self.api_version));
        proof { reveal_strlit("."); }
        text.append(".");
        append_decimal(&mut text, api_version_minor(self.api_version));
        text.append(".");
        append_decimal(&mut text, api_version_patch(self.api_version));
        text
    }
}

/// The first `length` bytes of `bytes`.
fn slice_prefix(bytes: &[u8], length: usize) -> (prefix: Vec<u8>)
    requires
        length <= bytes@.len(),
    ensures
        prefix@ == bytes@.take(length as int),
{
    let mut prefix: Vec<u8> = Vec::with_capacity(length);
    let mut i: usize = 0;
    while i < length
        invariant
            length <= bytes@.len(),
            i <= length,
            prefix@ == bytes@.take(i as int),
        decreases length - i,
    {
        prefix.push(bytes[i]);
        i = i + 1;
        assert(prefix@ =~= bytes@.take(i as int));
    }
    prefix
}

/// Describes every physical device that an instance enumerated, in enumeration order; an
/// instance without physical devices is an error.
pub fn physical_device_infos(devices: &Vec<(u64, PhysicalDeviceProperties)>) -> (result: Result<
    Vec<PhysicalDeviceInfo>,
    DeviceError,
>)
    requires
        forall|i: int|
            0 <= i < devices@.len() ==> holds_c_string((#[trigger] devices@[i]).1.device_name@),
    ensures
        result is Err <==> devices@.len() == 0,
        result matches Err(error) ==> error is NoPhysicalDevices,
        result matches Ok(infos) ==> {
            &&& infos@.len() == devices@.len()
            &&& forall|i: int|
                0 <= i < devices@.len() ==> describes_device(
                    #[trigger] infos@[i],
                    devices@[i].0,
                    devices@[i].1,
                )
        },
{
    if devices.len() == 0 {
        return Err(DeviceError::NoPhysicalDevices);
    }
    let mut infos: Vec<PhysicalDeviceInfo> = Vec::with_capacity(devices.len());
    let mut i: usize = 0;
    while i < devices.len()
        invariant
            forall|j: int|
                0 <= j < devices@.len() ==> holds_c_string(
                    (#[trigger] devices@[j]).1.device_name@,
                ),
            i <= devices@.len(),
            infos@.len() == i,
            forall|j: int|
                0 <= j < i ==> describes_device(#[trigger] infos@[j], devices@[j].0, devices@[j].1),
        decreases devices@.len() - i,
    {
        let device = &devices[i];
        assert(holds_c_string(devices@[i as int].1.device_name@));
        infos.push(PhysicalDeviceInfo::from_properties(device.0, &device.1));
        i = i + 1;
    }
    Ok(infos)
}

// ---------------------------------------------------------------------------------------------
// Physical device selection
// ---------------------------------------------------------------------------------------------

/// The physical device chosen for rendering, with what was found out about it.
#[derive(Debug, Clone)]
pub struct SelectedPhysicalDevice {
    pub info: PhysicalDeviceInfo,
    pub queue_indices: QueueFamilyIndices,
    pub swapchain_support: SwapchainSupportSummary,
    pub feature_matrix: PhysicalDeviceFeatureMatrix,
}

/// The device meets every requirement of the renderer: graphics and present queue families,
/// the swapchain extension, and at least one surface format and present mode.
pub open spec fn meets_requirements(
    queue_indices: QueueFamilyIndices,
    feature_matrix: PhysicalDeviceFeatureMatrix,
    swapchain_support: SwapchainSupportSummary,
) -> bool {
    &&& queue_indices.spec_is_complete()
    &&& feature_matrix.spec_swapchain_ready()
    &&& swapchain_support.spec_is_adequate()
}

/// Which check of the current candidate is pending, with what the passed checks found.
#[derive(Debug, Clone, Copy, PartialEq, Eq)]
pub enum SelectionStage {
    QueueFamilies,
    FeatureMatrix(QueueFamilyIndices),
    SwapchainSupport(QueueFamilyIndices, PhysicalDeviceFeatureMatrix),
}

/// What the driver has to be asked next while a device is being selected.
#[derive(Debug)]
pub enum SelectionAction {
    /// Query the queue families of the candidate with this raw handle.
    QueryQueueFamilies(u64),
    /// Query the extensions and features of the candidate with this raw handle.
    QueryFeatureMatrix(u64),
    /// Query the swapchain support of the candidate with this raw handle.
    QuerySwapchainSupport(u64),
    /// Every candidate was rejected.
    Failed(DeviceError),
}

/// Selection of the first enumerated physical device that meets the renderer's requirements.
///
/// Candidates are checked in order; each check needs one driver query, which the caller makes
/// when `next_action` asks for it and hands back through the matching `on_*` method. A
/// candidate is dropped at its first failed check, and the queries of the later checks are
/// then not made for it.
#[derive(Debug)]
pub struct DeviceSelection {
    candidates: Vec<PhysicalDeviceInfo>,
    current: usize,
    stage: SelectionStage,
}

impl DeviceSelection {
    /// The candidates, in enumeration order.
    pub closed spec fn candidates(self) -> Seq<PhysicalDeviceInfo> {
        self.candidates@
    }

    /// Index of the candidate under check; every earlier candidate has been rejected.
    pub closed spec fn current(self) -> nat {
        self.current as nat
    }

    /// The pending check of the current candidate.
    pub closed spec fn stage(self) -> SelectionStage {
        self.stage
    }

    /// The selection is consistent: a pending check belongs to an existing candidate, and the
    /// findings carried by the stage passed their checks.
    pub open spec fn wf(self) -> bool {
        &&& self.current() <= self.candidates().len()
        &&& self.current() == self.candidates().len() ==> self.stage() is QueueFamilies
        &&& match self.stage() {
            SelectionStage::QueueFamilies => true,
            SelectionStage::FeatureMatrix(indices) => indices.spec_is_complete(),
            SelectionStage::SwapchainSupport(indices, matrix) => indices.spec_is_complete()
                && matrix.spec_swapchain_ready(),
        }
    }

    /// Starts with the first candidate's queue families.
    pub fn new(candidates: Vec<PhysicalDeviceInfo>) -> (selection: Self)
        ensures
            selection.wf(),
            selection.candidates() == candidates@,
            selection.current() == 0,
            selection.stage() == SelectionStage::QueueFamilies,
    {
        DeviceSelection { candidates, current: 0, stage: SelectionStage::QueueFamilies }
    }

    /// The query that the pending check needs, or the failure once no candidate is left.
    pub fn next_action(&self) -> (action: SelectionAction)
        requires
            self.wf(),
        ensures
            self.current() == self.candidates().len() ==> (action matches SelectionAction::Failed(
                error,
            ) && error is NoSuitablePhysicalDevice),
            self.current() < self.candidates().len() ==> action == match self.stage() {
                SelectionStage::QueueFamilies => SelectionAction::QueryQueueFamilies(
                    self.candidates()[self.current() as int].handle,
                ),
                SelectionStage::FeatureMatrix(_) => SelectionAction::QueryFeatureMatrix(
                    self.candidates()[self.current() as int].handle,
                ),
                SelectionStage::SwapchainSupport(_, _) => SelectionAction::QuerySwapchainSupport(
                    self.candidates()[self.current() as int].handle,
                ),
            },
    {
        if self.current == self.candidates.len() {
            return SelectionAction::Failed(DeviceError::NoSuitablePhysicalDevice);
        }
        let handle = self.candidates[self.current].handle;
        match self.stage {
            SelectionStage::QueueFamilies => SelectionAction::QueryQueueFamilies(handle),
            SelectionStage::FeatureMatrix(_) => SelectionAction::QueryFeatureMatrix(handle),
            SelectionStage::SwapchainSupport(_, _) => SelectionAction::QuerySwapchainSupport(handle),
        }
    }

    /// Moves on to the next candidate.
    fn reject_current(&mut self)
        requires
            old(self).current() < old(self).candidates().len(),
        ensures
            final(self).wf(),
            final(self).candidates() == old(self).candidates(),
            final(self).current() == old(self).current() + 1,
            final(self).stage() == SelectionStage::QueueFamilies,
    {
        let candidate_count = self.candidates.len();
        assert(self.current < candidate_count);
        self.current = self.current + 1;
        self.stage = SelectionStage::QueueFamilies;
    }

    /// Takes the current candidate's queue families: a candidate without both a graphics and
    /// a present family is rejected.
    pub fn on_queue_families(&mut self, indices: QueueFamilyIndices)
        requires
            old(self).wf(),
            old(self).current() < old(self).candidates().len(),
            old(self).stage() is QueueFamilies,
        ensures
            final(self).wf(),
            final(self).candidates() == old(self).candidates(),
            indices.spec_is_complete() ==> final(self).current() == old(self).current()
                && final(self).stage() == SelectionStage::FeatureMatrix(indices),
            !indices.spec_is_complete() ==> final(self).current() == old(self).current() + 1
                && final(self).stage() == SelectionStage::QueueFamilies,
    {
        if !indices.is_complete() {
            self.reject_current();
            return;
        }
        self.stage = SelectionStage::FeatureMatrix(indices);
    }

    /// Takes the current candidate's feature matrix: a candidate without the swapchain
    /// extension is rejected.
    pub fn on_feature_matrix(&mut self, matrix: PhysicalDeviceFeatureMatrix)
        requires
            old(self).wf(),
            old(self).current() < old(self).candidates().len(),
            old(self).stage() is FeatureMatrix,
        ensures
            final(self).wf(),
            final(self).candidates() == old(self).candidates(),
            old(self).stage() matches SelectionStage::FeatureMatrix(indices) && {
                &&& matrix.spec_swapchain_ready() ==> final(self).current() == old(self).current()
                    && final(self).stage() == SelectionStage::SwapchainSupport(indices, matrix)
                &&& !matrix.spec_swapchain_ready() ==> final(self).current() == old(
                    self,
                ).current() + 1 && final(self).stage() == SelectionStage::QueueFamilies
            },
    {
        if !matrix.swapchain_ready() {
            self.reject_current();
            return;
        }
        if let SelectionStage::FeatureMatrix(indices) = self.stage {
            self.stage = SelectionStage::SwapchainSupport(indices, matrix);
        }
    }

    /// Takes the current candidate's swapchain support: a candidate with a surface format and
    /// a present mode is selected, with everything found out about it; any other is rejected
    /// and the selection goes on.
    pub fn on_swapchain_support(self, summary: SwapchainSupportSummary) -> (outcome: Result<
        SelectedPhysicalDevice,
        DeviceSelection,
    >)
        requires
            self.wf(),
            self.current() < self.candidates().len(),
            self.stage() is SwapchainSupport,
        ensures
            self.stage() matches SelectionStage::SwapchainSupport(indices, matrix) && {
                &&& summary.spec_is_adequate() ==> (outcome matches Ok(selected) && {
                    &&& meets_requirements(
                        selected.queue_indices,
                        selected.feature_matrix,
                        selected.swapchain_support,
                    )
                    &&& selected.info == self.candidates()[self.current() as int]
                    &&& selected.queue_indices == indices
                    &&& selected.feature_matrix == matrix
                    &&& selected.swapchain_support == summary
                })
                &&& !summary.spec_is_adequate() ==> (outcome matches Err(rest) && {
                    &&& rest.wf()
                    &&& rest.candidates() == self.candidates()
                    &&& rest.current() == self.current() + 1
                    &&& rest.stage() == SelectionStage::QueueFamilies
                })
            },
    {
        let mut selection = self;
        if !summary.is_adequate() {
            selection.reject_current();
            return Err(selection);
        }
        match selection.stage {
            SelectionStage::SwapchainSupport(queue_indices, feature_matrix) => {
                let current = selection.current;
                let mut candidates = selection.candidates;
                let info = candidates.swap_remove(current);
                Ok(
                    SelectedPhysicalDevice {
                        info,
                        queue_indices,
                        swapchain_support: summary,
                        feature_matrix,
                    },
                )
            },
            _ => Err(selection),
        }
    }
}


// ---------------------------------------------------------------------------------------------
// Laws on the checks above
// ---------------------------------------------------------------------------------------------

/// Law: the present family is chosen by surface support alone. When family `k` is the first
/// family that has queues and can present to the surface, it is the present family, whatever
/// its queue flags; when no family has queues and can present, there is no present family.
pub proof fn lemma_present_family_is_first_presenting(
    families: Seq<QueueFamilyProperties>,
    supports_present: Seq<bool>,
    choice: Option<u32>,
)
    requires
        families.len() == supports_present.len(),
        is_first_where(
            choice,
            families.len() as int,
            |i: int| is_present_family(families[i], supports_present[i]),
        ),
    ensures
        forall|k: int|
            0 <= k < families.len() && families[k].queue_count > 0 && supports_present[k] && (
            forall|j: int|
                0 <= j < k ==> !(families[j].queue_count > 0 && supports_present[j]))
                ==> choice == Some(k as u32),
        (forall|j: int|
            0 <= j < families.len() ==> !(families[j].queue_count > 0 && supports_present[j]))
            ==> choice is None,
{
    let holds = |i: int| is_present_family(families[i], supports_present[i]);
    assert forall|k: int|
        0 <= k < families.len() && families[k].queue_count > 0 && supports_present[k] && (
        forall|j: int| 0 <= j < k ==> !(families[j].queue_count > 0 && supports_present[j]))
        implies choice == Some(k as u32) by {
        assert(holds(k));
        match choice {
            Some(c) => {
                if (c as int) < k {
                    assert(holds(c as int));
                } else if (c as int) > k {
                    assert(!holds(k));
                }
            },
            None => {
                assert(!holds(k));
            },
        }
    }
    if forall|j: int|
        0 <= j < families.len() ==> !(families[j].queue_count > 0 && supports_present[j]) {
        if let Some(c) = choice {
            assert(holds(c as int));
        }
    }
}

/// Law: the graphics family is the first family that has queues and whose flags hold the
/// graphics bit; when there is none, there is no graphics family.
pub proof fn lemma_graphics_family_is_first_graphics(
    families: Seq<QueueFamilyProperties>,
    choice: Option<u32>,
)
    requires
        is_first_where(choice, families.len() as int, |i: int| is_graphics_family(families[i])),
    ensures
        forall|k: int|
            0 <= k < families.len() && families[k].queue_count > 0 && families[k].queue_flags
                & QUEUE_GRAPHICS_BIT != 0 && (forall|j: int|
                0 <= j < k ==> !(families[j].queue_count > 0 && families[j].queue_flags
                    & QUEUE_GRAPHICS_BIT != 0)) ==> choice == Some(k as u32),
        (forall|j: int|
            0 <= j < families.len() ==> !(families[j].queue_count > 0 && families[j].queue_flags
                & QUEUE_GRAPHICS_BIT != 0)) ==> choice is None,
{
    assert forall|flags: u32| (flags & QUEUE_GRAPHICS_BIT != 0) == (flags & QUEUE_GRAPHICS_BIT
        == QUEUE_GRAPHICS_BIT) by {
        assert((flags & 1u32 != 0) == (flags & 1u32 == 1u32)) by (bit_vector);
    }
    let holds = |i: int| is_graphics_family(families[i]);
    assert forall|k: int|
        0 <= k < families.len() && families[k].queue_count > 0 && families[k].queue_flags
            & QUEUE_GRAPHICS_BIT != 0 && (forall|j: int|
            0 <= j < k ==> !(families[j].queue_count > 0 && families[j].queue_flags
                & QUEUE_GRAPHICS_BIT != 0)) implies choice == Some(k as u32) by {
        assert(holds(k));
        match choice {
            Some(c) => {
                if (c as int) < k {
                    assert(holds(c as int));
                } else if (c as int) > k {
                    assert(!holds(k));
                }
            },
            None => {
                assert(!holds(k));
            },
        }
    }
    if forall|j: int|
        0 <= j < families.len() ==> !(families[j].queue_count > 0 && families[j].queue_flags
            & QUEUE_GRAPHICS_BIT != 0) {
        if let Some(c) = choice {
            assert(holds(c as int));
        }
    }
}

/// Law: a summary of swapchain support is adequate exactly when the support it summarizes
/// offers at least one surface format and at least one present mode.
pub proof fn lemma_adequate_exactly_with_format_and_mode(summary: SwapchainSupportSummary)
    ensures
        summary.spec_is_adequate() <==> (summary.format_count >= 1 && summary.present_mode_count
            >= 1),
{
}

/// Law: hardware ray tracing needs every one of the six ray tracing extensions and the
/// acceleration structure, ray tracing pipeline and buffer device address features; primitive
/// culling and the swapchain extension play no part.
pub proof fn lemma_ray_tracing_readiness(matrix: PhysicalDeviceFeatureMatrix)
    ensures
        matrix.spec_ray_tracing_ready() ==> {
            &&& matrix.extensions.acceleration_structure
            &&& matrix.extensions.ray_tracing_pipeline
            &&& matrix.extensions.deferred_host_operations
            &&& matrix.extensions.buffer_device_address
            &&& matrix.extensions.spirv_1_4
            &&& matrix.extensions.shader_float_controls
            &&& matrix.ray_tracing_features.acceleration_structure
            &&& matrix.ray_tracing_features.ray_tracing_pipeline
            &&& matrix.ray_tracing_features.buffer_device_address
        },
        (matrix.extensions.acceleration_structure && matrix.extensions.ray_tracing_pipeline
            && matrix.extensions.deferred_host_operations && matrix.extensions.buffer_device_address
            && matrix.extensions.spirv_1_4 && matrix.extensions.shader_float_controls
            && matrix.ray_tracing_features.acceleration_structure
            && matrix.ray_tracing_features.ray_tracing_pipeline
            && matrix.ray_tracing_features.buffer_device_address)
            ==> matrix.spec_ray_tracing_ready(),
{
}

/// Law: two devices that agree on the six ray tracing extensions and on the acceleration
/// structure, ray tracing pipeline and buffer device address features are equally ready for
/// ray tracing, whatever their swapchain extension and primitive culling support.
pub proof fn lemma_ray_tracing_readiness_ignores_other_flags(
    matrix: PhysicalDeviceFeatureMatrix,
    other: PhysicalDeviceFeatureMatrix,
)
    requires
        other.extensions.acceleration_structure == matrix.extensions.acceleration_structure,
        other.extensions.ray_tracing_pipeline == matrix.extensions.ray_tracing_pipeline,
        other.extensions.deferred_host_operations == matrix.extensions.deferred_host_operations,
        other.extensions.buffer_device_address == matrix.extensions.buffer_device_address,
        other.extensions.spirv_1_4 == matrix.extensions.spirv_1_4,
        other.extensions.shader_float_controls == matrix.extensions.shader_float_controls,
        other.ray_tracing_features.acceleration_structure
            == matrix.ray_tracing_features.acceleration_structure,
        other.ray_tracing_features.ray_tracing_pipeline
            == matrix.ray_tracing_features.ray_tracing_pipeline,
        other.ray_tracing_features.buffer_device_address
            == matrix.ray_tracing_features.buffer_device_address,
    ensures
        other.spec_ray_tracing_ready() == matrix.spec_ray_tracing_ready(),
{
}

/// The number that a string of decimal digits spells, most significant digit first.
pub open spec fn decimal_value(digits: Seq<char>) -> int
    decreases digits.len(),
{
    if digits.len() == 0 {
        0
    } else {
        decimal_value(digits.drop_last()) * 10 + (digits.last() as int - '0' as int)
    }
}

/// Every character is one of '0' to '9'.
pub open spec fn all_decimal_digits(digits: Seq<char>) -> bool {
    forall|i: int| 0 <= i < digits.len() ==> '0' <= #[trigger] digits[i] <= '9'
}

/// The digit character of `d` is '0' moved up by `d`.
pub proof fn lemma_digit_char_code(d: nat)
    requires
        d < 10,
    ensures
        digit_char(d) as int == '0' as int + d,
{
}

/// Law: the numeral of `n` is its standard base-10 spelling: it holds digits only, it does
/// not start with a zero unless it is "0", and read back it gives `n`.
pub proof fn lemma_decimal_reads_back(n: nat)
    ensures
        all_decimal_digits(decimal(n)),
        decimal(n).len() >= 1,
        n > 0 ==> decimal(n)[0] != '0',
        decimal(n).len() > 1 ==> decimal(n)[0] != '0',
        decimal_value(decimal(n)) == n,
    decreases n,
{
    if n < 10 {
        lemma_digit_char_code(n);
        let digits = decimal(n);
        assert(digits.drop_last() =~= Seq::<char>::empty());
        assert(decimal_value(digits.drop_last()) == 0);
        assert(digits.last() == digit_char(n));
        assert(decimal_value(digits) == 0 * 10 + (digit_char(n) as int - '0' as int));
    } else {
        lemma_decimal_reads_back(n / 10);
        lemma_digit_char_code(n % 10);
        let prefix = decimal(n / 10);
        let digits = decimal(n);
        assert(digits.drop_last() =~= prefix);
        assert(digits.last() == digit_char(n % 10));
        assert(digits[0] == prefix[0]);
        assert(decimal_value(digits) == decimal_value(prefix) * 10 + (n % 10) as int);
        assert((n / 10) * 10 + n % 10 == n) by (nonlinear_arith);
        assert(n / 10 > 0) by (nonlinear_arith)
            requires
                n >= 10,
        ;
    }
}

/// Law: the version text is three numerals separated by the only two dots in it, and the
/// numerals read back as the major, minor and patch numbers packed in the version.
pub proof fn lemma_api_version_text_reads_back(version: u32)
    ensures
        ({
            let major = decimal(((version >> 22u32) & 0x7fu32) as nat);
            let minor = decimal(((version >> 12u32) & 0x3ffu32) as nat);
            let patch = decimal((version & 0xfffu32) as nat);
            &&& spec_api_version_text(version) == major + seq!['.'] + minor + seq!['.'] + patch
            &&& all_decimal_digits(major) && all_decimal_digits(minor) && all_decimal_digits(patch)
            &&& decimal_value(major) == ((version >> 22u32) & 0x7fu32) as int
            &&& decimal_value(minor) == ((version >> 12u32) & 0x3ffu32) as int
            &&& decimal_value(patch) == (version & 0xfffu32) as int
        }),
{
    lemma_decimal_reads_back(((version >> 22u32) & 0x7fu32) as nat);
    lemma_decimal_reads_back(((version >> 12u32) & 0x3ffu32) as nat);
    lemma_decimal_reads_back((version & 0xfffu32) as nat);
}

} // verus!
