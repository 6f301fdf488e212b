use ash::vk;
use vulkanize::vulkan::{contains, ERROR_MEMORY_MAP_FAILED, ERROR_OUT_OF_DEVICE_MEMORY};
use vulkanize::{
    check_buffer_size, check_map, check_write_range, format_device_type, format_queue_flags,
    format_vendor_id, format_version, select_device, select_queue_family, MemoryTypeSelector,
    PhysicalDeviceInfo, QueueFamilyInfo, QueueFamilySelection, VulkanError,
};

// --- format_version ---

#[test]
fn test_format_version_1_0() {
    let v = vk::make_api_version(0, 1, 0, 0);
    assert_eq!(format_version(v), "1.0.0");
}

#[test]
fn test_format_version_1_1() {
    let v = vk::make_api_version(0, 1, 1, 0);
    assert_eq!(format_version(v), "1.1.0");
}

#[test]
fn test_format_version_1_2() {
    let v = vk::make_api_version(0, 1, 2, 0);
    assert_eq!(format_version(v), "1.2.0");
}

#[test]
fn test_format_version_1_3() {
    let v = vk::make_api_version(0, 1, 3, 0);
    assert_eq!(format_version(v), "1.3.0");
}

#[test]
fn test_format_version_with_patch() {
    let v = vk::make_api_version(0, 1, 2, 195);
    assert_eq!(format_version(v), "1.2.195");
}

#[test]
fn test_format_version_zero() {
    let v = vk::make_api_version(0, 0, 0, 0);
    assert_eq!(format_version(v), "0.0.0");
}

// --- format_device_type ---

#[test]
fn test_format_device_type_discrete() {
    assert_eq!(format_device_type(vk::PhysicalDeviceType::DISCRETE_GPU.as_raw()), "Discrete GPU");
}

#[test]
fn test_format_device_type_integrated() {
    assert_eq!(
        format_device_type(vk::PhysicalDeviceType::INTEGRATED_GPU.as_raw()),
        "Integrated GPU"
    );
}

#[test]
fn test_format_device_type_cpu() {
    assert_eq!(format_device_type(vk::PhysicalDeviceType::CPU.as_raw()), "CPU");
}

#[test]
fn test_format_device_type_other() {
    assert_eq!(format_device_type(vk::PhysicalDeviceType::OTHER.as_raw()), "Other");
}

// --- format_vendor_id ---

#[test]
fn test_format_vendor_amd() {
    assert_eq!(format_vendor_id(0x1002), "AMD");
}

#[test]
fn test_format_vendor_nvidia() {
    assert_eq!(format_vendor_id(0x10DE), "NVIDIA");
}

#[test]
fn test_format_vendor_intel() {
    assert_eq!(format_vendor_id(0x8086), "Intel");
}

#[test]
fn test_format_vendor_unknown() {
    assert_eq!(format_vendor_id(0xBEEF), "0xBEEF");
}

// --- format_queue_flags ---

#[test]
fn test_format_queue_flags_compute() {
    assert_eq!(format_queue_flags(vk::QueueFlags::COMPUTE.as_raw()), "compute");
}

#[test]
fn test_format_queue_flags_graphics_compute() {
    let flags = vk::QueueFlags::GRAPHICS | vk::QueueFlags::COMPUTE;
    assert_eq!(format_queue_flags(flags.as_raw()), "graphics, compute");
}

#[test]
fn test_format_queue_flags_all() {
    let flags = vk::QueueFlags::GRAPHICS | vk::QueueFlags::COMPUTE | vk::QueueFlags::TRANSFER;
    assert_eq!(format_queue_flags(flags.as_raw()), "graphics, compute, transfer");
}

#[test]
fn test_format_queue_flags_empty() {
    assert_eq!(format_queue_flags(vk::QueueFlags::empty().as_raw()), "none");
}

// --- queue family records ---

#[test]
fn test_queue_family_selection_fields() {
    let sel = QueueFamilySelection {
        queue_family_index: 2,
        queue_count: 4,
        queue_flags: (vk::QueueFlags::COMPUTE | vk::QueueFlags::TRANSFER).as_raw(),
    };
    assert_eq!(sel.queue_family_index, 2);
    assert_eq!(sel.queue_count, 4);
    assert!(contains(sel.queue_flags, vk::QueueFlags::COMPUTE.as_raw()));
    assert!(contains(sel.queue_flags, vk::QueueFlags::TRANSFER.as_raw()));
    assert!(!contains(sel.queue_flags, vk::QueueFlags::GRAPHICS.as_raw()));
}

#[test]
fn test_queue_family_info_compute_only() {
    let info = QueueFamilyInfo {
        index: 0,
        queue_count: 1,
        queue_flags: vk::QueueFlags::COMPUTE.as_raw(),
        supports_compute: true,
        supports_graphics: false,
        supports_transfer: false,
    };
    assert!(info.supports_compute);
    assert!(!info.supports_graphics);
    assert!(!info.supports_transfer);
}

#[test]
fn test_queue_family_info_all_flags() {
    let info = QueueFamilyInfo {
        index: 1,
        queue_count: 2,
        queue_flags: (vk::QueueFlags::GRAPHICS | vk::QueueFlags::COMPUTE | vk::QueueFlags::TRANSFER)
            .as_raw(),
        supports_compute: true,
        supports_graphics: true,
        supports_transfer: true,
    };
    assert!(info.supports_compute);
    assert!(info.supports_graphics);
    assert!(info.supports_transfer);
}

// --- error messages ---

#[test]
fn test_error_display_loader_not_found() {
    let err = VulkanError::LoaderNotFound;
    let msg = err.to_string();
    assert!(msg.contains("Vulkan loader"));
}

#[test]
fn test_error_display_no_physical_devices() {
    let err = VulkanError::NoPhysicalDevices;
    assert!(err.to_string().contains("physical devices"));
}

#[test]
fn test_error_display_no_compute_queue() {
    let err = VulkanError::NoComputeQueue;
    assert!(err.to_string().contains("compute queue"));
}

#[test]
fn test_error_display_device_creation() {
    let err = VulkanError::DeviceCreation(vk::Result::ERROR_OUT_OF_DEVICE_MEMORY.as_raw());
    assert!(err.to_string().contains("logical device"));
}

#[test]
fn test_error_display_command_pool_creation() {
    let err = VulkanError::CommandPoolCreation(vk::Result::ERROR_OUT_OF_DEVICE_MEMORY.as_raw());
    assert!(err.to_string().contains("command pool"));
}

#[test]
fn test_error_display_buffer_creation() {
    let err = VulkanError::BufferCreation(vk::Result::ERROR_OUT_OF_DEVICE_MEMORY.as_raw());
    assert!(err.to_string().contains("buffer creation"));
}

#[test]
fn test_error_display_memory_allocation() {
    let err = VulkanError::MemoryAllocation(vk::Result::ERROR_OUT_OF_DEVICE_MEMORY.as_raw());
    assert!(err.to_string().contains("memory allocation"));
}

#[test]
fn test_error_display_memory_binding() {
    let err = VulkanError::MemoryBinding(vk::Result::ERROR_OUT_OF_DEVICE_MEMORY.as_raw());
    assert!(err.to_string().contains("memory binding"));
}

#[test]
fn test_error_display_no_suitable_memory_type() {
    let err = VulkanError::NoSuitableMemoryType;
    assert!(err.to_string().contains("memory type"));
}

#[test]
fn test_error_display_memory_mapping() {
    let err = VulkanError::MemoryMapping(vk::Result::ERROR_MEMORY_MAP_FAILED.as_raw());
    assert!(err.to_string().contains("memory mapping"));
}

// --- MemoryTypeSelector ---

fn selector(types: &[vk::MemoryPropertyFlags]) -> MemoryTypeSelector {
    MemoryTypeSelector::new(types.iter().map(|f| f.as_raw()).collect())
}

#[test]
fn test_memory_type_selector_device_local() {
    let selector = selector(&[
        vk::MemoryPropertyFlags::DEVICE_LOCAL,
        vk::MemoryPropertyFlags::HOST_VISIBLE,
    ]);
    let idx = selector.find_memory_type(0b11, vk::MemoryPropertyFlags::DEVICE_LOCAL.as_raw());
    assert_eq!(idx, Some(0));
}

#[test]
fn test_memory_type_selector_host_visible() {
    let selector = selector(&[
        vk::MemoryPropertyFlags::DEVICE_LOCAL,
        vk::MemoryPropertyFlags::HOST_VISIBLE | vk::MemoryPropertyFlags::HOST_COHERENT,
    ]);
    let idx = selector.find_memory_type(0b11, vk::MemoryPropertyFlags::HOST_VISIBLE.as_raw());
    assert_eq!(idx, Some(1));
}

#[test]
fn test_memory_type_selector_host_coherent() {
    let selector = selector(&[
        vk::MemoryPropertyFlags::HOST_VISIBLE,
        vk::MemoryPropertyFlags::HOST_VISIBLE | vk::MemoryPropertyFlags::HOST_COHERENT,
    ]);
    let idx = selector.find_memory_type(
        0b11,
        (vk::MemoryPropertyFlags::HOST_VISIBLE | vk::MemoryPropertyFlags::HOST_COHERENT).as_raw(),
    );
    assert_eq!(idx, Some(1));
}

#[test]
fn test_memory_type_selector_no_match() {
    let selector = selector(&[vk::MemoryPropertyFlags::DEVICE_LOCAL]);
    let idx = selector.find_memory_type(0b1, vk::MemoryPropertyFlags::HOST_VISIBLE.as_raw());
    assert_eq!(idx, None);
}

#[test]
fn test_memory_type_selector_bitmask_filter() {
    let selector = selector(&[
        vk::MemoryPropertyFlags::HOST_VISIBLE | vk::MemoryPropertyFlags::HOST_COHERENT,
        vk::MemoryPropertyFlags::HOST_VISIBLE | vk::MemoryPropertyFlags::HOST_COHERENT,
    ]);
    // Only bit 1 is set, so index 0 should be skipped
    let idx = selector.find_memory_type(
        0b10,
        (vk::MemoryPropertyFlags::HOST_VISIBLE | vk::MemoryPropertyFlags::HOST_COHERENT).as_raw(),
    );
    assert_eq!(idx, Some(1));
}

#[test]
fn test_memory_type_selector_empty_bitmask() {
    let selector = selector(&[vk::MemoryPropertyFlags::DEVICE_LOCAL]);
    let idx = selector.find_memory_type(0, vk::MemoryPropertyFlags::DEVICE_LOCAL.as_raw());
    assert_eq!(idx, None);
}

#[test]
fn test_memory_type_selector_prefers_first_match() {
    let selector = selector(&[
        vk::MemoryPropertyFlags::DEVICE_LOCAL,
        vk::MemoryPropertyFlags::DEVICE_LOCAL,
        vk::MemoryPropertyFlags::DEVICE_LOCAL,
    ]);
    let idx = selector.find_memory_type(0b111, vk::MemoryPropertyFlags::DEVICE_LOCAL.as_raw());
    assert_eq!(idx, Some(0));
}

#[test]
fn test_memory_type_selector_cached_device_local() {
    // Simulates AMD GPU memory layout: type 0 is DEVICE_LOCAL
    let selector = selector(&[
        vk::MemoryPropertyFlags::DEVICE_LOCAL,
        vk::MemoryPropertyFlags::HOST_VISIBLE
            | vk::MemoryPropertyFlags::HOST_COHERENT
            | vk::MemoryPropertyFlags::HOST_CACHED,
        vk::MemoryPropertyFlags::HOST_VISIBLE | vk::MemoryPropertyFlags::HOST_COHERENT,
    ]);

    // Device-local should find type 0
    assert_eq!(
        selector.find_memory_type(0b111, vk::MemoryPropertyFlags::DEVICE_LOCAL.as_raw()),
        Some(0)
    );

    // Host-visible + coherent should find type 1 (first match)
    assert_eq!(
        selector.find_memory_type(
            0b111,
            (vk::MemoryPropertyFlags::HOST_VISIBLE | vk::MemoryPropertyFlags::HOST_COHERENT)
                .as_raw()
        ),
        Some(1)
    );

    // Host-visible only should also find type 1
    assert_eq!(
        selector.find_memory_type(0b111, vk::MemoryPropertyFlags::HOST_VISIBLE.as_raw()),
        Some(1)
    );
}

// --- further cases: formatting ---

#[test]
fn format_version_ignores_the_variant_bits() {
    let v = vk::make_api_version(7, 1, 3, 4095);
    assert_eq!(format_version(v), "1.3.4095");
    assert_eq!(format_version(u32::MAX), "127.1023.4095");
}

#[test]
fn format_device_type_virtual_and_unknown() {
    assert_eq!(format_device_type(vk::PhysicalDeviceType::VIRTUAL_GPU.as_raw()), "Virtual GPU");
    assert_eq!(format_device_type(42), "Unknown");
    assert_eq!(format_device_type(-1), "Unknown");
}

#[test]
fn format_vendor_other_known_and_padded() {
    assert_eq!(format_vendor_id(0x1AE0), "ImgTec");
    assert_eq!(format_vendor_id(0x1414), "NVIDIA (Tesla)");
    assert_eq!(format_vendor_id(0x1), "0x0001");
    assert_eq!(format_vendor_id(0xABCDE), "0xABCDE");
    assert_eq!(format_vendor_id(0), "0x0000");
}

#[test]
fn format_queue_flags_sparse_and_unknown_bits() {
    let flags = vk::QueueFlags::TRANSFER | vk::QueueFlags::SPARSE_BINDING;
    assert_eq!(format_queue_flags(flags.as_raw()), "transfer, sparse");
    assert_eq!(format_queue_flags(0x10), "none");
    assert_eq!(format_queue_flags(0xF), "graphics, compute, transfer, sparse");
}

#[test]
fn error_message_names_the_vk_result() {
    let err = VulkanError::DeviceCreation(vk::Result::ERROR_OUT_OF_DEVICE_MEMORY.as_raw());
    assert_eq!(err.to_string(), "logical device creation failed: ERROR_OUT_OF_DEVICE_MEMORY");
    let err = VulkanError::InstanceCreation(vk::Result::ERROR_INITIALIZATION_FAILED.as_raw());
    assert_eq!(err.to_string(), "instance creation failed: ERROR_INITIALIZATION_FAILED");
    assert_eq!(
        VulkanError::NoSuitableMemoryType.to_string(),
        "no suitable memory type found for requested properties"
    );
}

// --- further cases: memory selection and buffer checks ---

#[test]
fn memory_type_selector_ignores_bits_beyond_the_types() {
    let selector = selector(&[vk::MemoryPropertyFlags::HOST_VISIBLE]);
    assert_eq!(
        selector.find_memory_type(0xFFFF_FFFE, vk::MemoryPropertyFlags::HOST_VISIBLE.as_raw()),
        None
    );
    assert_eq!(selector.find_memory_type(1, 0), Some(0));
}

#[test]
fn memory_type_selector_last_of_32_types() {
    let mut flags = vec![vk::MemoryPropertyFlags::DEVICE_LOCAL; 31];
    flags.push(vk::MemoryPropertyFlags::HOST_VISIBLE);
    let selector = selector(&flags);
    assert_eq!(
        selector.find_memory_type(u32::MAX, vk::MemoryPropertyFlags::HOST_VISIBLE.as_raw()),
        Some(31)
    );
}

#[test]
fn buffer_size_must_not_be_zero() {
    assert_eq!(check_buffer_size(1), Ok(()));
    assert_eq!(
        check_buffer_size(0),
        Err(VulkanError::BufferCreation(ERROR_OUT_OF_DEVICE_MEMORY))
    );
    assert_eq!(ERROR_OUT_OF_DEVICE_MEMORY, vk::Result::ERROR_OUT_OF_DEVICE_MEMORY.as_raw());
}

#[test]
fn map_needs_unmapped_host_visible_memory() {
    let host = (vk::MemoryPropertyFlags::HOST_VISIBLE | vk::MemoryPropertyFlags::HOST_COHERENT).as_raw();
    let device = vk::MemoryPropertyFlags::DEVICE_LOCAL.as_raw();
    assert_eq!(check_map(false, host), Ok(()));
    assert_eq!(check_map(true, host), Err(VulkanError::MemoryMapping(ERROR_MEMORY_MAP_FAILED)));
    assert_eq!(check_map(false, device), Err(VulkanError::MemoryMapping(ERROR_MEMORY_MAP_FAILED)));
    assert_eq!(ERROR_MEMORY_MAP_FAILED, vk::Result::ERROR_MEMORY_MAP_FAILED.as_raw());
}

#[test]
fn write_range_must_fit_the_buffer() {
    assert_eq!(check_write_range(1024, 0, 1024), Ok(()));
    assert_eq!(check_write_range(1024, 1000, 24), Ok(()));
    assert_eq!(
        check_write_range(1024, 1000, 25),
        Err(VulkanError::MemoryMapping(ERROR_OUT_OF_DEVICE_MEMORY))
    );
    assert_eq!(
        check_write_range(u64::MAX, u64::MAX, 1),
        Err(VulkanError::MemoryMapping(ERROR_OUT_OF_DEVICE_MEMORY))
    );
}

// --- further cases: device and queue selection ---

fn family(index: u32, queue_count: u32, flags: vk::QueueFlags) -> QueueFamilyInfo {
    QueueFamilyInfo::from_properties(index, queue_count, flags.as_raw())
}

fn device(
    name: &str,
    vendor_id: u32,
    device_type: vk::PhysicalDeviceType,
    driver_version: u32,
    families: Vec<QueueFamilyInfo>,
) -> PhysicalDeviceInfo {
    PhysicalDeviceInfo {
        name: name.to_string(),
        device_type: device_type.as_raw(),
        vendor_id,
        device_id: 0,
        api_version: vk::make_api_version(0, 1, 3, 0),
        driver_version,
        driver_name: String::new(),
        queue_families: families,
        extensions: Vec::new(),
    }
}

#[test]
fn queue_family_info_from_flags() {
    let info = family(3, 2, vk::QueueFlags::COMPUTE | vk::QueueFlags::TRANSFER);
    assert_eq!(info.index, 3);
    assert_eq!(info.queue_count, 2);
    assert!(info.supports_compute);
    assert!(!info.supports_graphics);
    assert!(info.supports_transfer);
}

#[test]
fn select_device_prefers_amd() {
    let devices = vec![
        device("nv", 0x10DE, vk::PhysicalDeviceType::DISCRETE_GPU, 900, vec![family(0, 16, vk::QueueFlags::COMPUTE)]),
        device("amd", 0x1002, vk::PhysicalDeviceType::INTEGRATED_GPU, 1, vec![family(0, 1, vk::QueueFlags::COMPUTE)]),
    ];
    assert_eq!(select_device(&devices), Ok(1));
}

#[test]
fn select_device_prefers_discrete_then_queues() {
    let devices = vec![
        device("igpu", 0x8086, vk::PhysicalDeviceType::INTEGRATED_GPU, 0, vec![family(0, 8, vk::QueueFlags::COMPUTE)]),
        device("dgpu", 0x8086, vk::PhysicalDeviceType::DISCRETE_GPU, 0, vec![family(0, 1, vk::QueueFlags::COMPUTE)]),
        device("cpu", 0x8086, vk::PhysicalDeviceType::CPU, 0, vec![family(0, 40, vk::QueueFlags::COMPUTE)]),
    ];
    // scores: 50_000 + 8_000, 100_000 + 1_000, 40_000
    assert_eq!(select_device(&devices), Ok(1));
}

#[test]
fn select_device_first_of_equal_scores() {
    let fams = || vec![family(0, 2, vk::QueueFlags::COMPUTE | vk::QueueFlags::GRAPHICS)];
    let devices = vec![
        device("a", 0x1002, vk::PhysicalDeviceType::DISCRETE_GPU, 5, fams()),
        device("b", 0x1002, vk::PhysicalDeviceType::DISCRETE_GPU, 5, fams()),
    ];
    assert_eq!(select_device(&devices), Ok(0));
}

#[test]
fn select_device_skips_devices_without_compute() {
    let devices = vec![
        device("gfx", 0x1002, vk::PhysicalDeviceType::DISCRETE_GPU, 9, vec![family(0, 4, vk::QueueFlags::GRAPHICS)]),
        device("cmp", 0x10DE, vk::PhysicalDeviceType::CPU, 0, vec![family(0, 1, vk::QueueFlags::COMPUTE)]),
    ];
    assert_eq!(select_device(&devices), Ok(1));
}

#[test]
fn select_device_errors() {
    assert_eq!(select_device(&vec![]), Err(VulkanError::NoPhysicalDevices));
    let devices = vec![device("gfx", 0x1002, vk::PhysicalDeviceType::DISCRETE_GPU, 0, vec![
        family(0, 4, vk::QueueFlags::GRAPHICS | vk::QueueFlags::TRANSFER),
    ])];
    assert_eq!(select_device(&devices), Err(VulkanError::NoComputeQueue));
}

#[test]
fn select_queue_family_takes_the_first_compute_family() {
    let families = vec![
        family(0, 1, vk::QueueFlags::GRAPHICS),
        family(1, 4, vk::QueueFlags::COMPUTE | vk::QueueFlags::TRANSFER),
        family(2, 8, vk::QueueFlags::COMPUTE),
    ];
    let sel = select_queue_family(&families).unwrap();
    assert_eq!(sel.queue_family_index, 1);
    assert_eq!(sel.queue_count, 4);
    assert_eq!(sel.queue_flags, (vk::QueueFlags::COMPUTE | vk::QueueFlags::TRANSFER).as_raw());
}

#[test]
fn select_queue_family_without_compute() {
    let families = vec![family(0, 1, vk::QueueFlags::GRAPHICS)];
    assert_eq!(select_queue_family(&families).unwrap_err(), VulkanError::NoComputeQueue);
    assert_eq!(select_queue_family(&vec![]).unwrap_err(), VulkanError::NoComputeQueue);
}

#[test]
fn driver_version_can_outweigh_the_amd_bonus() {
    // The AMD bonus is 1_000_000; a driver version above it lets another vendor win.
    let devices = vec![
        device("amd", 0x1002, vk::PhysicalDeviceType::INTEGRATED_GPU, 1, vec![family(0, 1, vk::QueueFlags::COMPUTE)]),
        device("nv", 0x10DE, vk::PhysicalDeviceType::DISCRETE_GPU, 2_000_000, vec![family(0, 1, vk::QueueFlags::COMPUTE)]),
    ];
    assert_eq!(select_device(&devices), Ok(1));
}

#[test]
fn compute_queues_of_every_compute_family_count() {
    // 2 + 3 compute queues (5000) beat one family of 4 (4000); graphics-only queues do not count.
    let devices = vec![
        device("one", 0x8086, vk::PhysicalDeviceType::CPU, 0, vec![
            family(0, 4, vk::QueueFlags::COMPUTE),
            family(1, 16, vk::QueueFlags::GRAPHICS),
        ]),
        device("two", 0x8086, vk::PhysicalDeviceType::CPU, 0, vec![
            family(0, 2, vk::QueueFlags::COMPUTE),
            family(1, 3, vk::QueueFlags::COMPUTE | vk::QueueFlags::TRANSFER),
        ]),
    ];
    assert_eq!(select_device(&devices), Ok(1));
}

#[test]
fn vendor_ids_pad_to_four_hex_digits() {
    assert_eq!(format_vendor_id(0xF), "0x000F");
    assert_eq!(format_vendor_id(0xA0), "0x00A0");
    assert_eq!(format_vendor_id(0x123), "0x0123");
    assert_eq!(format_vendor_id(0xFFFF_FFFF), "0xFFFFFFFF");
}
