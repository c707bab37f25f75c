use learn_vulkan_renderer::{
    device_extension_available, physical_device_infos, queue_family_support_from,
    require_complete_queue_families, DeviceError, DeviceExtensionSupport,
    DeviceSelection, Extent2D, PhysicalDeviceFeatureMatrix, PhysicalDeviceInfo,
    PhysicalDeviceProperties, QueueFamilyIndices, QueueFamilyProperties, QueueFamilyReport,
    RayTracingFeatureFlags, RayTracingFeatureSupport, SelectionAction,
    SurfaceCapabilities, SurfaceFormat, SwapchainSupportDetails, SwapchainSupportSummary,
};

fn c_array(text: &str) -> Vec<u8> {
    let mut raw = text.as_bytes().to_vec();
    raw.resize(256, 0);
    raw
}

fn properties(name: &str, api_version: u32) -> PhysicalDeviceProperties {
    PhysicalDeviceProperties {
        device_name: c_array(name),
        device_type: 2,
        api_version,
        driver_version: 7,
        vendor_id: 0x10de,
        device_id: 0x2204,
    }
}

fn info(handle: u64, name: &str) -> PhysicalDeviceInfo {
    PhysicalDeviceInfo::from_properties(handle, &properties(name, 0))
}

fn indices(graphics: Option<u32>, present: Option<u32>) -> QueueFamilyIndices {
    QueueFamilyIndices { graphics_family: graphics, present_family: present }
}

fn matrix(swapchain: bool) -> PhysicalDeviceFeatureMatrix {
    PhysicalDeviceFeatureMatrix {
        extensions: DeviceExtensionSupport {
            swapchain,
            acceleration_structure: false,
            ray_tracing_pipeline: false,
            deferred_host_operations: false,
            buffer_device_address: false,
            spirv_1_4: false,
            shader_float_controls: false,
        },
        ray_tracing_features: RayTracingFeatureSupport {
            acceleration_structure: false,
            ray_tracing_pipeline: false,
            ray_traversal_primitive_culling: false,
            buffer_device_address: false,
        },
    }
}

fn summary(format_count: usize, present_mode_count: usize) -> SwapchainSupportSummary {
    SwapchainSupportSummary {
        min_image_count: 2,
        max_image_count: 8,
        current_extent: Extent2D { width: 800, height: 600 },
        format_count,
        present_mode_count,
    }
}

#[test]
fn default_indices_are_incomplete() {
    let indices = QueueFamilyIndices::default();
    assert_eq!(indices.graphics_family, None);
    assert_eq!(indices.present_family, None);
    assert!(!indices.is_complete());
}

#[test]
fn completeness_needs_both_families() {
    assert!(indices(Some(0), Some(1)).is_complete());
    assert!(!indices(Some(0), None).is_complete());
    assert!(!indices(None, Some(1)).is_complete());
}

#[test]
fn unique_indices_lists_shared_family_once() {
    assert_eq!(indices(Some(0), Some(0)).unique_indices(), vec![0]);
    assert_eq!(indices(Some(0), Some(2)).unique_indices(), vec![0, 2]);
    assert_eq!(indices(Some(3), Some(1)).unique_indices(), vec![3, 1]);
    assert_eq!(indices(Some(4), None).unique_indices(), vec![4]);
    assert_eq!(indices(None, Some(5)).unique_indices(), vec![5]);
    assert_eq!(indices(None, None).unique_indices(), Vec::<u32>::new());
}

#[test]
fn queue_support_picks_first_capable_families() {
    let families = vec![
        QueueFamilyProperties { queue_flags: 0b0100, queue_count: 2 },
        QueueFamilyProperties { queue_flags: 0b0001, queue_count: 0 },
        QueueFamilyProperties { queue_flags: 0b0011, queue_count: 1 },
        QueueFamilyProperties { queue_flags: 0b0001, queue_count: 4 },
    ];
    let present = vec![false, true, false, true];
    let support = queue_family_support_from(&families, &present);

    assert_eq!(support.indices.graphics_family, Some(2));
    assert_eq!(support.indices.present_family, Some(3));
    assert_eq!(support.reports.len(), 4);
    assert_eq!(
        support.reports[1],
        QueueFamilyReport { family_index: 1, queue_count: 0, queue_flags: 1, supports_present: true }
    );
    assert_eq!(
        support.reports[3],
        QueueFamilyReport { family_index: 3, queue_count: 4, queue_flags: 1, supports_present: true }
    );
}

#[test]
fn queue_support_shares_one_family_when_possible() {
    let families = vec![QueueFamilyProperties { queue_flags: 0b0111, queue_count: 16 }];
    let support = queue_family_support_from(&families, &vec![true]);
    assert_eq!(support.indices, indices(Some(0), Some(0)));
    assert_eq!(support.indices.unique_indices(), vec![0]);
}

#[test]
fn queue_support_without_families() {
    let support = queue_family_support_from(&Vec::new(), &Vec::new());
    assert!(support.reports.is_empty());
    assert_eq!(support.indices, QueueFamilyIndices::default());
}

#[test]
fn queue_support_without_present() {
    let families = vec![QueueFamilyProperties { queue_flags: 1, queue_count: 1 }];
    let support = queue_family_support_from(&families, &vec![false]);
    assert_eq!(support.indices, indices(Some(0), None));
    assert!(!support.indices.is_complete());
}

#[test]
fn some_device_must_offer_complete_families() {
    assert!(require_complete_queue_families(&vec![indices(Some(0), None), indices(Some(1), Some(1))]).is_ok());
    assert!(matches!(
        require_complete_queue_families(&vec![indices(Some(0), None), indices(None, Some(1))]),
        Err(DeviceError::NoSuitableQueueFamilies)
    ));
    assert!(matches!(
        require_complete_queue_families(&Vec::new()),
        Err(DeviceError::NoSuitableQueueFamilies)
    ));
}

#[test]
fn summary_counts_formats_and_modes() {
    let details = SwapchainSupportDetails {
        capabilities: SurfaceCapabilities {
            min_image_count: 2,
            max_image_count: 0,
            current_extent: Extent2D { width: 640, height: 480 },
            min_image_extent: Extent2D { width: 1, height: 1 },
            max_image_extent: Extent2D { width: 4096, height: 4096 },
        },
        formats: vec![SurfaceFormat { format: 44, color_space: 0 }, SurfaceFormat { format: 50, color_space: 0 }],
        present_modes: vec![2],
    };
    let summary = SwapchainSupportSummary::from_details(&details);
    assert_eq!(summary.min_image_count, 2);
    assert_eq!(summary.max_image_count, 0);
    assert_eq!(summary.current_extent, Extent2D { width: 640, height: 480 });
    assert_eq!(summary.format_count, 2);
    assert_eq!(summary.present_mode_count, 1);
    assert!(summary.is_adequate());
    assert_eq!(summary.image_count_upper_bound(), u32::MAX);
}

#[test]
fn summary_upper_bound_and_adequacy() {
    assert_eq!(summary(1, 1).image_count_upper_bound(), 8);
    assert!(!summary(0, 1).is_adequate());
    assert!(!summary(1, 0).is_adequate());
}

#[test]
fn extension_lookup_reads_c_strings() {
    let names = vec![c_array("VK_KHR_swapchain"), c_array("VK_KHR_spirv_1_4")];
    assert!(device_extension_available(&names, b"VK_KHR_swapchain"));
    assert!(device_extension_available(&names, b"VK_KHR_spirv_1_4"));
    assert!(!device_extension_available(&names, b"VK_KHR_swap"));
    assert!(!device_extension_available(&names, b"VK_KHR_swapchain_extra"));
    assert!(!device_extension_available(&Vec::new(), b"VK_KHR_swapchain"));
}

fn all_ray_tracing_extensions() -> Vec<Vec<u8>> {
    vec![
        c_array("VK_KHR_swapchain"),
        c_array("VK_KHR_acceleration_structure"),
        c_array("VK_KHR_ray_tracing_pipeline"),
        c_array("VK_KHR_deferred_host_operations"),
        c_array("VK_KHR_buffer_device_address"),
        c_array("VK_KHR_spirv_1_4"),
        c_array("VK_KHR_shader_float_controls"),
    ]
}

#[test]
fn feature_matrix_ready_for_ray_tracing() {
    let features = RayTracingFeatureFlags {
        acceleration_structure: 1,
        ray_tracing_pipeline: 1,
        ray_traversal_primitive_culling: 0,
        buffer_device_address: 1,
    };
    let matrix = PhysicalDeviceFeatureMatrix::from_queries(&all_ray_tracing_extensions(), features);
    assert!(matrix.swapchain_ready());
    assert!(matrix.ray_tracing_ready());
    assert!(matrix.extensions.shader_float_controls);
    assert!(!matrix.ray_tracing_features.ray_traversal_primitive_culling);
}

#[test]
fn feature_matrix_missing_pieces() {
    let mut names = all_ray_tracing_extensions();
    names.remove(3);
    let features = RayTracingFeatureFlags {
        acceleration_structure: 1,
        ray_tracing_pipeline: 1,
        ray_traversal_primitive_culling: 1,
        buffer_device_address: 1,
    };
    let matrix = PhysicalDeviceFeatureMatrix::from_queries(&names, features);
    assert!(!matrix.extensions.deferred_host_operations);
    assert!(matrix.swapchain_ready());
    assert!(!matrix.ray_tracing_ready());

    let only_swapchain = vec![c_array("VK_KHR_swapchain")];
    let no_features = RayTracingFeatureFlags {
        acceleration_structure: 0,
        ray_tracing_pipeline: 0,
        ray_traversal_primitive_culling: 0,
        buffer_device_address: 0,
    };
    let matrix = PhysicalDeviceFeatureMatrix::from_queries(&only_swapchain, no_features);
    assert!(matrix.swapchain_ready());
    assert!(!matrix.ray_tracing_ready());

    let matrix = PhysicalDeviceFeatureMatrix::from_queries(&all_ray_tracing_extensions(), no_features);
    assert!(!matrix.ray_tracing_ready());
    let matrix = PhysicalDeviceFeatureMatrix::from_queries(&Vec::new(), features);
    assert!(!matrix.swapchain_ready());
    assert!(!matrix.ray_tracing_ready());
}

#[test]
fn device_info_from_properties() {
    let version = ash::vk::make_api_version(0, 1, 3, 250);
    let info = PhysicalDeviceInfo::from_properties(0xabc, &properties("NVIDIA GeForce RTX 3090", version));
    assert_eq!(info.handle, 0xabc);
    assert_eq!(info.name, "NVIDIA GeForce RTX 3090");
    assert_eq!(info.device_type, 2);
    assert_eq!(info.api_version, version);
    assert_eq!(info.driver_version, 7);
    assert_eq!(info.vendor_id, 0x10de);
    assert_eq!(info.device_id, 0x2204);
    assert_eq!(info.api_version_string(), "1.3.250");
}

#[test]
fn device_name_with_invalid_utf8_is_replaced() {
    let mut props = properties("GPU", 0);
    props.device_name[3] = 0xff;
    props.device_name[4] = b'!';
    let info = PhysicalDeviceInfo::from_properties(1, &props);
    assert_eq!(info.name, "GPU\u{fffd}!");
}

#[test]
fn api_version_strings() {
    let of = |version: u32| PhysicalDeviceInfo { api_version: version, ..info(1, "x") }.api_version_string();
    assert_eq!(of(ash::vk::API_VERSION_1_0), "1.0.0");
    assert_eq!(of(ash::vk::make_api_version(0, 1, 2, 0)), "1.2.0");
    assert_eq!(of(ash::vk::make_api_version(0, 12, 1023, 4095)), "12.1023.4095");
    assert_eq!(of(0), "0.0.0");
    assert_eq!(of(u32::MAX), "127.1023.4095");
}

#[test]
fn enumeration_without_devices_fails() {
    assert!(matches!(physical_device_infos(&Vec::new()), Err(DeviceError::NoPhysicalDevices)));
}

#[test]
fn enumeration_describes_devices_in_order() {
    let devices = vec![(10, properties("first", 0)), (20, properties("second", 0))];
    let infos = physical_device_infos(&devices).unwrap();
    assert_eq!(infos.len(), 2);
    assert_eq!((infos[0].handle, infos[0].name.as_str()), (10, "first"));
    assert_eq!((infos[1].handle, infos[1].name.as_str()), (20, "second"));
}

#[test]
fn selection_takes_first_device_meeting_requirements() {
    let mut selection = DeviceSelection::new(vec![info(1, "integrated"), info(2, "no swapchain"), info(3, "discrete")]);

    assert!(matches!(selection.next_action(), SelectionAction::QueryQueueFamilies(1)));
    selection.on_queue_families(indices(Some(0), None));

    assert!(matches!(selection.next_action(), SelectionAction::QueryQueueFamilies(2)));
    selection.on_queue_families(indices(Some(0), Some(0)));
    assert!(matches!(selection.next_action(), SelectionAction::QueryFeatureMatrix(2)));
    selection.on_feature_matrix(matrix(false));

    assert!(matches!(selection.next_action(), SelectionAction::QueryQueueFamilies(3)));
    selection.on_queue_families(indices(Some(0), Some(1)));
    selection.on_feature_matrix(matrix(true));
    assert!(matches!(selection.next_action(), SelectionAction::QuerySwapchainSupport(3)));
    let selected = selection.on_swapchain_support(summary(3, 2)).unwrap();

    assert_eq!(selected.info.handle, 3);
    assert_eq!(selected.info.name, "discrete");
    assert_eq!(selected.queue_indices, indices(Some(0), Some(1)));
    assert_eq!(selected.swapchain_support, summary(3, 2));
    assert!(selected.feature_matrix.swapchain_ready());
}

#[test]
fn selection_rejects_surface_without_formats() {
    let mut selection = DeviceSelection::new(vec![info(7, "only")]);
    selection.on_queue_families(indices(Some(0), Some(0)));
    selection.on_feature_matrix(matrix(true));
    let selection = match selection.on_swapchain_support(summary(0, 1)) {
        Ok(_) => panic!("a surface without formats was accepted"),
        Err(rest) => rest,
    };
    assert!(matches!(selection.next_action(), SelectionAction::Failed(DeviceError::NoSuitablePhysicalDevice)));
}

#[test]
fn selection_without_candidates_fails_at_once() {
    let selection = DeviceSelection::new(Vec::new());
    assert!(matches!(selection.next_action(), SelectionAction::Failed(DeviceError::NoSuitablePhysicalDevice)));
}

#[test]
fn complete_indices_give_their_families() {
    assert_eq!(indices(Some(2), Some(5)).graphics_and_present(), (2, 5));
    assert_eq!(indices(Some(0), Some(0)).graphics_and_present(), (0, 0));
}
