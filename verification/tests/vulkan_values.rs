use ash::vk;
use learn_vulkan_renderer::vulkan::{
    c_string_equals, c_string_length, COLOR_SPACE_SRGB_NONLINEAR, ERROR_OUT_OF_DATE_KHR,
    FORMAT_B8G8R8A8_SRGB, PRESENT_MODE_FIFO, PRESENT_MODE_MAILBOX, QUEUE_GRAPHICS_BIT,
    UNDEFINED_EXTENT_WIDTH, VK_TRUE,
};
use learn_vulkan_renderer::DeviceExtension;

#[test]
fn constants_match_ash() {
    assert_eq!(FORMAT_B8G8R8A8_SRGB, vk::Format::B8G8R8A8_SRGB.as_raw());
    assert_eq!(COLOR_SPACE_SRGB_NONLINEAR, vk::ColorSpaceKHR::SRGB_NONLINEAR.as_raw());
    assert_eq!(PRESENT_MODE_MAILBOX, vk::PresentModeKHR::MAILBOX.as_raw());
    assert_eq!(PRESENT_MODE_FIFO, vk::PresentModeKHR::FIFO.as_raw());
    assert_eq!(QUEUE_GRAPHICS_BIT, vk::QueueFlags::GRAPHICS.as_raw());
    assert_eq!(VK_TRUE, vk::TRUE);
    assert_eq!(ERROR_OUT_OF_DATE_KHR, vk::Result::ERROR_OUT_OF_DATE_KHR.as_raw());
    assert_eq!(UNDEFINED_EXTENT_WIDTH, u32::MAX);
}

#[test]
fn extension_names_match_ash() {
    let pairs = [
        (DeviceExtension::Swapchain, ash::khr::swapchain::NAME),
        (DeviceExtension::AccelerationStructure, ash::khr::acceleration_structure::NAME),
        (DeviceExtension::RayTracingPipeline, ash::khr::ray_tracing_pipeline::NAME),
        (DeviceExtension::DeferredHostOperations, ash::khr::deferred_host_operations::NAME),
        (DeviceExtension::BufferDeviceAddress, ash::khr::buffer_device_address::NAME),
        (DeviceExtension::Spirv14, ash::khr::spirv_1_4::NAME),
        (DeviceExtension::ShaderFloatControls, ash::khr::shader_float_controls::NAME),
    ];
    for (extension, name) in pairs {
        assert_eq!(extension.name().as_bytes(), name.to_bytes());
    }
}

#[test]
fn c_string_stops_at_first_nul() {
    let raw = [b'a', b'b', 0, b'c', 0, 0];
    assert_eq!(c_string_length(&raw), 2);
    assert!(c_string_equals(&raw, b"ab"));
    assert!(!c_string_equals(&raw, b"abc"));
    assert!(!c_string_equals(&raw, b"a"));
    assert!(!c_string_equals(&raw, b"ax"));
}

#[test]
fn empty_c_string() {
    let raw = [0u8, b'x', 0];
    assert_eq!(c_string_length(&raw), 0);
    assert!(c_string_equals(&raw, b""));
    assert!(!c_string_equals(&raw, b"x"));
}
