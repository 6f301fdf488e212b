//! The decision logic of the Vulkan backend: device and queue selection, memory type
//! selection, buffer checks, error messages and device description text.
//!
//! Vulkan handles and flags appear here as their raw integer values (`VkResult`,
//! `VkPhysicalDeviceType`, `VkQueueFlags`, `VkMemoryPropertyFlags`).

use vstd::prelude::*;

use crate::text::{concat, decimal, hex_upper, owned, u32_to_hex4, u64_to_decimal, zero_pad};

verus! {

/// AMD PCI vendor ID
pub const AMD_VENDOR_ID: u32 = 0x1002;

/// `VK_ERROR_OUT_OF_DEVICE_MEMORY`
pub const ERROR_OUT_OF_DEVICE_MEMORY: i32 = -2;

/// `VK_ERROR_MEMORY_MAP_FAILED`
pub const ERROR_MEMORY_MAP_FAILED: i32 = -5;

/// `VK_PHYSICAL_DEVICE_TYPE_OTHER`
pub const DEVICE_TYPE_OTHER: i32 = 0;

/// `VK_PHYSICAL_DEVICE_TYPE_INTEGRATED_GPU`
pub const DEVICE_TYPE_INTEGRATED_GPU: i32 = 1;

/// `VK_PHYSICAL_DEVICE_TYPE_DISCRETE_GPU`
pub const DEVICE_TYPE_DISCRETE_GPU: i32 = 2;

/// `VK_PHYSICAL_DEVICE_TYPE_VIRTUAL_GPU`
pub const DEVICE_TYPE_VIRTUAL_GPU: i32 = 3;

/// `VK_PHYSICAL_DEVICE_TYPE_CPU`
pub const DEVICE_TYPE_CPU: i32 = 4;

/// `VK_QUEUE_GRAPHICS_BIT`
pub const QUEUE_GRAPHICS: u32 = 1;

/// `VK_QUEUE_COMPUTE_BIT`
pub const QUEUE_COMPUTE: u32 = 2;

/// `VK_QUEUE_TRANSFER_BIT`
pub const QUEUE_TRANSFER: u32 = 4;

/// `VK_QUEUE_SPARSE_BINDING_BIT`
pub const QUEUE_SPARSE_BINDING: u32 = 8;

/// `VK_MEMORY_PROPERTY_DEVICE_LOCAL_BIT`
pub const MEMORY_DEVICE_LOCAL: u32 = 1;

/// `VK_MEMORY_PROPERTY_HOST_VISIBLE_BIT`
pub const MEMORY_HOST_VISIBLE: u32 = 2;

/// `VK_MEMORY_PROPERTY_HOST_COHERENT_BIT`
pub const MEMORY_HOST_COHERENT: u32 = 4;

/// `VK_MEMORY_PROPERTY_HOST_CACHED_BIT`
pub const MEMORY_HOST_CACHED: u32 = 8;

/// The most memory types a device reports (`VK_MAX_MEMORY_TYPES`).
pub const MAX_MEMORY_TYPES: usize = 32;

/// Every bit of `other` is set in `flags`.
pub open spec fn has_flags(flags: u32, other: u32) -> bool {
    flags & other == other
}

/// Every bit of `other` is set in `flags` (the `contains` of Vulkan flag types).
pub fn contains(flags: u32, other: u32) -> (b: bool)
    ensures
        b == has_flags(flags, other),
{
    flags & other == other
}

// ---------------------------------------------------------------------------
// Errors
// ---------------------------------------------------------------------------

/// Errors that can occur during Vulkan initialisation.
/// Variants that carry a `VkResult` hold its raw value.
#[derive(Debug, Clone, Copy, PartialEq, Eq)]
pub enum VulkanError {
    /// Vulkan loader could not be loaded.
    LoaderNotFound,
    /// Failed to create the Vulkan instance.
    InstanceCreation(i32),
    /// No physical devices found.
    NoPhysicalDevices,
    /// No physical device with a compute queue family was found.
    NoComputeQueue,
    /// Failed to create the logical device.
    DeviceCreation(i32),
    /// Failed to create the command pool.
    CommandPoolCreation(i32),
    /// Failed to create a Vulkan buffer.
    BufferCreation(i32),
    /// Failed to allocate device memory for a buffer.
    MemoryAllocation(i32),
    /// Failed to bind device memory to a buffer.
    MemoryBinding(i32),
    /// No suitable memory type found for the requested properties.
    NoSuitableMemoryType,
    /// Failed to map device memory.
    MemoryMapping(i32),
}

/// The text `ash` gives for a `VkResult` with its `Debug` formatting (its name, such as
/// `ERROR_OUT_OF_DEVICE_MEMORY`, for a known code).
pub uninterp spec fn vk_result_text(code: i32) -> Seq<char>;

/// Formats `ash::vk::Result::from_raw(code)` with its `Debug` impl.
/// Claims only that the text is a function of the code, named `vk_result_text`.
#[verifier::external_body]
fn vk_result_debug(code: i32) -> (s: String)
    ensures
        s@ == vk_result_text(code),
{
    format!("{:?}", ash::vk::Result::from_raw(code))
}

/// The message of each error.
pub open spec fn vulkan_error_text(e: VulkanError) -> Seq<char> {
    match e {
        VulkanError::LoaderNotFound => "Vulkan loader not found"@,
        VulkanError::InstanceCreation(c) => "instance creation failed: "@ + vk_result_text(c),
        VulkanError::NoPhysicalDevices => "no Vulkan physical devices found"@,
        VulkanError::NoComputeQueue => "no physical device with a compute queue family found"@,
        VulkanError::DeviceCreation(c) => "logical device creation failed: "@ + vk_result_text(c),
        VulkanError::CommandPoolCreation(c) => "command pool creation failed: "@ + vk_result_text(c),
        VulkanError::BufferCreation(c) => "buffer creation failed: "@ + vk_result_text(c),
        VulkanError::MemoryAllocation(c) => "device memory allocation failed: "@ + vk_result_text(c),
        VulkanError::MemoryBinding(c) => "buffer memory binding failed: "@ + vk_result_text(c),
        VulkanError::NoSuitableMemoryType => "no suitable memory type found for requested properties"@,
        VulkanError::MemoryMapping(c) => "device memory mapping failed: "@ + vk_result_text(c),
    }
}

impl VulkanError {
    /// The human-readable message of the error.
    pub fn to_string(&self) -> (s: String)
        ensures
            s@ == vulkan_error_text(*self),
    {
        match self {
            VulkanError::LoaderNotFound => owned("Vulkan loader not found"),
            VulkanError::InstanceCreation(c) => concat(
                owned("instance creation failed: "),
                vk_result_debug(*c).as_str(),
            ),
            VulkanError::NoPhysicalDevices => owned("no Vulkan physical devices found"),
            VulkanError::NoComputeQueue => owned("no physical device with a compute queue family found"),
            VulkanError::DeviceCreation(c) => concat(
                owned("logical device creation failed: "),
                vk_result_debug(*c).as_str(),
            ),
            VulkanError::CommandPoolCreation(c) => concat(
                owned("command pool creation failed: "),
                vk_result_debug(*c).as_str(),
            ),
            VulkanError::BufferCreation(c) => concat(
                owned("buffer creation failed: "),
                vk_result_debug(*c).as_str(),
            ),
            VulkanError::MemoryAllocation(c) => concat(
                owned("device memory allocation failed: "),
                vk_result_debug(*c).as_str(),
            ),
            VulkanError::MemoryBinding(c) => concat(
                owned("buffer memory binding failed: "),
                vk_result_debug(*c).as_str(),
            ),
            VulkanError::NoSuitableMemoryType => owned("no suitable memory type found for requested properties"),
            VulkanError::MemoryMapping(c) => concat(
                owned("device memory mapping failed: "),
                vk_result_debug(*c).as_str(),
            ),
        }
    }
}

// ---------------------------------------------------------------------------
// Device description and selection
// ---------------------------------------------------------------------------

/// Information about a single queue family on a physical device.
#[derive(Debug, Clone)]
pub struct QueueFamilyInfo {
    /// Index of the queue family.
    pub index: u32,
    /// Number of queues in this family.
    pub queue_count: u32,
    /// Queue flags (raw `VkQueueFlags`).
    pub queue_flags: u32,
    /// Does this family support compute?
    pub supports_compute: bool,
    /// Does this family support graphics?
    pub supports_graphics: bool,
    /// Does this family support transfer?
    pub supports_transfer: bool,
}

impl QueueFamilyInfo {
    /// The description of queue family `index` with `queue_count` queues and flags `queue_flags`.
    pub fn from_properties(index: u32, queue_count: u32, queue_flags: u32) -> (q: Self)
        ensures
            q.index == index,
            q.queue_count == queue_count,
            q.queue_flags == queue_flags,
            q.supports_compute == has_flags(queue_flags, QUEUE_COMPUTE),
            q.supports_graphics == has_flags(queue_flags, QUEUE_GRAPHICS),
            q.supports_transfer == has_flags(queue_flags, QUEUE_TRANSFER),
    {
        QueueFamilyInfo {
            index,
            queue_count,
            queue_flags,
            supports_compute: contains(queue_flags, QUEUE_COMPUTE),
            supports_graphics: contains(queue_flags, QUEUE_GRAPHICS),
            supports_transfer: contains(queue_flags, QUEUE_TRANSFER),
        }
    }
}

/// Describes a Vulkan physical device.
#[derive(Debug, Clone)]
pub struct PhysicalDeviceInfo {
    /// Human-readable device name.
    pub name: String,
    /// Device type (raw `VkPhysicalDeviceType`).
    pub device_type: i32,
    /// PCI vendor ID (0x1002 = AMD).
    pub vendor_id: u32,
    /// PCI device ID.
    pub device_id: u32,
    /// Vulkan API version supported by this device.
    pub api_version: u32,
    /// Driver version.
    pub driver_version: u32,
    /// Driver name (Vulkan 1.1+).
    pub driver_name: String,
    /// All queue families exposed by this device.
    pub queue_families: Vec<QueueFamilyInfo>,
    /// Enabled device extensions.
    pub extensions: Vec<String>,
}

/// Result of selecting a compute-capable queue family from a physical device.
#[derive(Debug, Clone)]
pub struct QueueFamilySelection {
    /// Index of the selected queue family.
    pub queue_family_index: u32,
    /// Number of queues available in this family.
    pub queue_count: u32,
    /// Queue flags for the selected family (raw `VkQueueFlags`).
    pub queue_flags: u32,
}

/// The total number of queues in the compute-capable families among the first `n`.
pub open spec fn compute_queue_total(fs: Seq<QueueFamilyInfo>, n: int) -> int
    decreases n,
{
    if n <= 0 {
        0
    } else {
        compute_queue_total(fs, n - 1) + if fs[n - 1].supports_compute {
            fs[n - 1].queue_count as int
        } else {
            0
        }
    }
}

/// The device has a compute-capable queue family.
pub open spec fn has_compute(d: PhysicalDeviceInfo) -> bool {
    exists|i: int| 0 <= i < d.queue_families@.len() && #[trigger] d.queue_families@[i].supports_compute
}

/// The preference score of a device: an AMD bonus, a bonus for discrete and a smaller one
/// for integrated GPUs, 1000 per compute queue, and the driver version as tie-breaker.
pub open spec fn device_score(d: PhysicalDeviceInfo) -> int {
    (if d.vendor_id == AMD_VENDOR_ID { 1_000_000int } else { 0 }) + (if d.device_type
        == DEVICE_TYPE_DISCRETE_GPU {
        100_000int
    } else if d.device_type == DEVICE_TYPE_INTEGRATED_GPU {
        50_000int
    } else {
        0
    }) + compute_queue_total(d.queue_families@, d.queue_families@.len() as int) * 1000
        + d.driver_version
}

/// Every device's compute queue total fits in a `u32` (it is summed as one).
pub open spec fn compute_totals_fit(ds: Seq<PhysicalDeviceInfo>) -> bool {
    forall|i: int|
        0 <= i < ds.len() ==> compute_queue_total(
            (#[trigger] ds[i]).queue_families@,
            ds[i].queue_families@.len() as int,
        ) <= u32::MAX
}

/// Device `i` is the choice among `ds`: it has a compute queue family, no device with one
/// scores higher, and every earlier one scores lower.
pub open spec fn is_best_device(ds: Seq<PhysicalDeviceInfo>, i: int) -> bool {
    &&& 0 <= i < ds.len()
    &&& has_compute(ds[i])
    &&& forall|j: int| 0 <= j < ds.len() && has_compute(#[trigger] ds[j]) ==> device_score(ds[j]) <= device_score(ds[i])
    &&& forall|j: int| 0 <= j < i && has_compute(#[trigger] ds[j]) ==> device_score(ds[j]) < device_score(ds[i])
}

/// The score of a device without its AMD bonus: the device-type bonus, 1000 per compute queue
/// and the driver version.
pub open spec fn base_score(d: PhysicalDeviceInfo) -> int {
    (if d.device_type == DEVICE_TYPE_DISCRETE_GPU {
        100_000int
    } else if d.device_type == DEVICE_TYPE_INTEGRATED_GPU {
        50_000int
    } else {
        0
    }) + compute_queue_total(d.queue_families@, d.queue_families@.len() as int) * 1000
        + d.driver_version
}

/// AMD first: when no device's score without the AMD bonus reaches the bonus itself, the
/// chosen device is an AMD device as soon as one AMD device has a compute queue family.
pub proof fn lemma_amd_preferred(ds: Seq<PhysicalDeviceInfo>, chosen: int, amd: int)
    requires
        is_best_device(ds, chosen),
        0 <= amd < ds.len(),
        ds[amd].vendor_id == AMD_VENDOR_ID,
        has_compute(ds[amd]),
        forall|j: int| 0 <= j < ds.len() ==> base_score(#[trigger] ds[j]) < 1_000_000,
    ensures
        ds[chosen].vendor_id == AMD_VENDOR_ID,
{
    let a = ds[amd];
    let c = ds[chosen];
    lemma_compute_total_monotone(a.queue_families@, 0, a.queue_families@.len() as int);
    assert(base_score(a) >= 0);
    assert(device_score(a) == 1_000_000 + base_score(a));
    assert(base_score(c) < 1_000_000);
    assert(device_score(a) <= device_score(c));
}

/// How each part of a device description moves its score, for every vendor:
/// - the vendor counts only through the AMD bonus: changing the vendor moves the score by
///   1_000_000 into or out of AMD, and not at all between other vendors;
/// - the device type adds 100_000 for a discrete GPU and 50_000 for an integrated GPU over any
///   other type, whatever the vendor;
/// - the driver version adds itself;
/// - what is left of a non-AMD device of another type with driver version 0 is 1000 per queue
///   in its compute-capable families.
pub proof fn lemma_score_parts(d: PhysicalDeviceInfo, vendor_id: u32, device_type: i32, driver_version: u32)
    ensures
        device_score(PhysicalDeviceInfo { vendor_id, ..d }) - device_score(d) == (if vendor_id
            == 0x1002 {
            1_000_000int
        } else {
            0
        }) - (if d.vendor_id == 0x1002 {
            1_000_000int
        } else {
            0
        }),
        device_score(PhysicalDeviceInfo { device_type, ..d }) - device_score(
            PhysicalDeviceInfo { device_type: 4, ..d },
        ) == (if device_type == 2 {
            100_000int
        } else if device_type == 1 {
            50_000int
        } else {
            0
        }),
        device_score(PhysicalDeviceInfo { driver_version, ..d }) - device_score(d) == driver_version
            - d.driver_version,
        device_score(PhysicalDeviceInfo { vendor_id: 0, device_type: 4, driver_version: 0, ..d })
            == 1000 * compute_queue_total(d.queue_families@, d.queue_families@.len() as int),
{
}

/// The number of queues in compute-capable families, summed as a `u32`.
fn compute_queue_count(families: &Vec<QueueFamilyInfo>) -> (total: u32)
    requires
        compute_queue_total(families@, families@.len() as int) <= u32::MAX,
    ensures
        total == compute_queue_total(families@, families@.len() as int),
{
    let mut total: u32 = 0;
    let mut i: usize = 0;
    while i < families.len()
        invariant
            i <= families@.len(),
            compute_queue_total(families@, families@.len() as int) <= u32::MAX,
            total == compute_queue_total(families@, i as int),
        decreases families@.len() - i,
    {
        proof {
            lemma_compute_total_monotone(families@, i as int + 1, families@.len() as int);
        }
        if families[i].supports_compute {
            total = total + families[i].queue_count;
        }
        i = i + 1;
    }
    total
}

/// The compute queue total grows with the number of families counted.
proof fn lemma_compute_total_monotone(fs: Seq<QueueFamilyInfo>, m: int, n: int)
    requires
        0 <= m <= n,
    ensures
        compute_queue_total(fs, m) <= compute_queue_total(fs, n),
    decreases n,
{
    if n > m {
        lemma_compute_total_monotone(fs, m, n - 1);
    }
}

/// The device has a compute-capable queue family (searched in order).
fn device_has_compute(d: &PhysicalDeviceInfo) -> (b: bool)
    ensures
        b == has_compute(*d),
{
    let mut i: usize = 0;
    while i < d.queue_families.len()
        invariant
            i <= d.queue_families@.len(),
            forall|j: int| 0 <= j < i ==> !(#[trigger] d.queue_families@[j]).supports_compute,
        decreases d.queue_families@.len() - i,
    {
        if d.queue_families[i].supports_compute {
            return true;
        }
        i = i + 1;
    }
    false
}

/// The preference score of a device.
fn score_device(d: &PhysicalDeviceInfo) -> (score: i64)
    requires
        compute_queue_total(d.queue_families@, d.queue_families@.len() as int) <= u32::MAX,
    ensures
        score == device_score(*d),
{
    let mut score: i64 = 0;
    if d.vendor_id == AMD_VENDOR_ID {
        score = score + 1_000_000;
    }
    if d.device_type == DEVICE_TYPE_DISCRETE_GPU {
        score = score + 100_000;
    } else if d.device_type == DEVICE_TYPE_INTEGRATED_GPU {
        score = score + 50_000;
    }
    let compute_queues = compute_queue_count(&d.queue_families);
    score = score + compute_queues as i64 * 1_000;
    score = score + d.driver_version as i64;
    score
}

/// Select the best physical device, preferring AMD GPUs: among the devices with a compute
/// queue family, the first of highest score. Returns its index.
pub fn select_device(devices: &Vec<PhysicalDeviceInfo>) -> (r: Result<usize, VulkanError>)
    requires
        compute_totals_fit(devices@),
    ensures
        devices@.len() == 0 ==> r == Err::<usize, VulkanError>(VulkanError::NoPhysicalDevices),
        devices@.len() > 0 && (forall|j: int| 0 <= j < devices@.len() ==> !has_compute(#[trigger] devices@[j]))
            ==> r == Err::<usize, VulkanError>(VulkanError::NoComputeQueue),
        (exists|j: int| 0 <= j < devices@.len() && has_compute(#[trigger] devices@[j])) ==> (r matches Ok(i)
            && is_best_device(devices@, i as int)),
{
    if devices.len() == 0 {
        return Err(VulkanError::NoPhysicalDevices);
    }
    let mut best: Option<(usize, i64)> = None;
    let mut i: usize = 0;
    while i < devices.len()
        invariant
            i <= devices@.len(),
            compute_totals_fit(devices@),
            best is None ==> forall|j: int| 0 <= j < i ==> !has_compute(#[trigger] devices@[j]),
            best matches Some((b, s)) ==> {
                &&& b < i
                &&& s == device_score(devices@[b as int])
                &&& has_compute(devices@[b as int])
                &&& forall|j: int| 0 <= j < i && has_compute(#[trigger] devices@[j]) ==> device_score(devices@[j]) <= s
                &&& forall|j: int| 0 <= j < b && has_compute(#[trigger] devices@[j]) ==> device_score(devices@[j]) < s
            },
        decreases devices@.len() - i,
    {
        let d = &devices[i];
        if device_has_compute(d) {
            assert(compute_queue_total(devices@[i as int].queue_families@, devices@[i as int].queue_families@.len() as int) <= u32::MAX);
            let score = score_device(d);
            match best {
                None => {
                    best = Some((i, score));
                },
                Some((_, best_score)) => {
                    if score > best_score {
                        best = Some((i, score));
                    }
                },
            }
        }
        i = i + 1;
    }
    match best {
        Some((b, _)) => Ok(b),
        None => Err(VulkanError::NoComputeQueue),
    }
}

/// Select the first compute-capable queue family (by its flags).
pub fn select_queue_family(families: &Vec<QueueFamilyInfo>) -> (r: Result<QueueFamilySelection, VulkanError>)
    requires
        families@.len() <= u32::MAX,
    ensures
        match r {
            Ok(sel) => {
                let i = sel.queue_family_index as int;
                &&& 0 <= i < families@.len()
                &&& has_flags(families@[i].queue_flags, QUEUE_COMPUTE)
                &&& forall|j: int| 0 <= j < i ==> !has_flags(#[trigger] families@[j].queue_flags, QUEUE_COMPUTE)
                &&& sel.queue_count == families@[i].queue_count
                &&& sel.queue_flags == families@[i].queue_flags
            },
            Err(e) => e == VulkanError::NoComputeQueue && forall|j: int| 0 <= j < families@.len() ==> !has_flags(
                #[trigger] families@[j].queue_flags,
                QUEUE_COMPUTE,
            ),
        },
{
    let mut i: usize = 0;
    while i < families.len()
        invariant
            i <= families@.len(),
            families@.len() <= u32::MAX,
            forall|j: int| 0 <= j < i ==> !has_flags(#[trigger] families@[j].queue_flags, QUEUE_COMPUTE),
        decreases families@.len() - i,
    {
        if contains(families[i].queue_flags, QUEUE_COMPUTE) {
            return Ok(
                QueueFamilySelection {
                    queue_family_index: i as u32,
                    queue_count: families[i].queue_count,
                    queue_flags: families[i].queue_flags,
                },
            );
        }
        i = i + 1;
    }
    Err(VulkanError::NoComputeQueue)
}

// ---------------------------------------------------------------------------
// Memory type selection
// ---------------------------------------------------------------------------

/// Cached physical device memory properties with a helper to find
/// a compatible memory type index for buffer allocations.
///
/// Holds the property flags (raw `VkMemoryPropertyFlags`) of each memory type the device
/// reports, in order; a device reports at most 32.
pub struct MemoryTypeSelector {
    memory_types: Vec<u32>,
}

impl MemoryTypeSelector {
    #[verifier::type_invariant]
    spec fn wf(self) -> bool {
        self.memory_types@.len() <= MAX_MEMORY_TYPES
    }

    /// The property flags of the device's memory types, in order.
    pub closed spec fn memory_types(self) -> Seq<u32> {
        self.memory_types@
    }

    /// Create a selector from the property flags of the device's memory types.
    pub fn new(memory_type_flags: Vec<u32>) -> (s: Self)
        requires
            memory_type_flags@.len() <= MAX_MEMORY_TYPES,
        ensures
            s.memory_types() == memory_type_flags@,
    {
        MemoryTypeSelector { memory_types: memory_type_flags }
    }

    /// Memory type `i` is allowed by `memory_type_bits` and has every property in `properties`.
    pub open spec fn suits(self, memory_type_bits: u32, properties: u32, i: int) -> bool {
        &&& 0 <= i < self.memory_types().len()
        &&& memory_type_bits & (1u32 << i as u32) != 0
        &&& has_flags(self.memory_types()[i], properties)
    }

    /// Find a memory type index that is both compatible with the given
    /// `memory_type_bits` bitmask and satisfies all requested `properties`.
    ///
    /// Returns `None` if no suitable memory type exists.
    pub fn find_memory_type(&self, memory_type_bits: u32, properties: u32) -> (r: Option<u32>)
        ensures
            match r {
                Some(i) => self.suits(memory_type_bits, properties, i as int) && forall|j: int|
                    0 <= j < i ==> !#[trigger] self.suits(memory_type_bits, properties, j),
                None => forall|j: int| !#[trigger] self.suits(memory_type_bits, properties, j),
            },
    {
        proof {
            use_type_invariant(self);
        }
        let count = self.memory_types.len();
        let mut i: usize = 0;
        while i < count
            invariant
                i <= count,
                count == self.memory_types().len(),
                count <= MAX_MEMORY_TYPES,
                forall|j: int| 0 <= j < i ==> !#[trigger] self.suits(memory_type_bits, properties, j),
            decreases count - i,
        {
            let shift = i as u32;
            if (memory_type_bits & (1u32 << shift)) != 0 && contains(self.memory_types[i], properties) {
                return Some(shift);
            }
            i = i + 1;
        }
        None
    }
}

// ---------------------------------------------------------------------------
// Buffer checks
// ---------------------------------------------------------------------------

/// A buffer of `size` bytes can be created: the size is not zero.
pub fn check_buffer_size(size: u64) -> (r: Result<(), VulkanError>)
    ensures
        r == if size == 0 {
            Err::<(), VulkanError>(VulkanError::BufferCreation(ERROR_OUT_OF_DEVICE_MEMORY))
        } else {
            Ok::<(), VulkanError>(())
        },
{
    if size == 0 {
        return Err(VulkanError::BufferCreation(ERROR_OUT_OF_DEVICE_MEMORY));
    }
    Ok(())
}

/// A buffer can be mapped: it is not mapped already and its memory is host-visible.
pub fn check_map(is_mapped: bool, memory_property_flags: u32) -> (r: Result<(), VulkanError>)
    ensures
        r == if is_mapped || !has_flags(memory_property_flags, MEMORY_HOST_VISIBLE) {
            Err::<(), VulkanError>(VulkanError::MemoryMapping(ERROR_MEMORY_MAP_FAILED))
        } else {
            Ok::<(), VulkanError>(())
        },
{
    if is_mapped {
        return Err(VulkanError::MemoryMapping(ERROR_MEMORY_MAP_FAILED));
    }
    if !contains(memory_property_flags, MEMORY_HOST_VISIBLE) {
        return Err(VulkanError::MemoryMapping(ERROR_MEMORY_MAP_FAILED));
    }
    Ok(())
}

/// `len` bytes can be written at byte `offset` of a buffer of `size` bytes: the end of the
/// write is within the buffer (and fits in a `u64`).
pub fn check_write_range(size: u64, offset: u64, len: u64) -> (r: Result<(), VulkanError>)
    ensures
        r == if offset + len > size {
            Err::<(), VulkanError>(VulkanError::MemoryMapping(ERROR_OUT_OF_DEVICE_MEMORY))
        } else {
            Ok::<(), VulkanError>(())
        },
{
    let end = match offset.checked_add(len) {
        Some(end) => end,
        None => {
            return Err(VulkanError::MemoryMapping(ERROR_OUT_OF_DEVICE_MEMORY));
        },
    };
    if end > size {
        return Err(VulkanError::MemoryMapping(ERROR_OUT_OF_DEVICE_MEMORY));
    }
    Ok(())
}

// ---------------------------------------------------------------------------
// Formatting helpers
// ---------------------------------------------------------------------------

/// The major version number packed in a Vulkan version (`ash::vk::api_version_major`).
pub assume_specification[ ash::vk::api_version_major ](version: u32) -> (r: u32)
    ensures
        r == (version >> 22u32) & 0x7fu32,
;

/// The minor version number packed in a Vulkan version (`ash::vk::api_version_minor`).
pub assume_specification[ ash::vk::api_version_minor ](version: u32) -> (r: u32)
    ensures
        r == (version >> 12u32) & 0x3ffu32,
;

/// The patch version number packed in a Vulkan version (`ash::vk::api_version_patch`).
pub assume_specification[ ash::vk::api_version_patch ](version: u32) -> (r: u32)
    ensures
        r == version & 0xfffu32,
;

/// "major.minor.patch" of a packed Vulkan version.
pub open spec fn version_text(version: u32) -> Seq<char> {
    decimal(((version >> 22u32) & 0x7fu32) as nat) + "."@ + decimal(((version >> 12u32) & 0x3ffu32) as nat)
        + "."@ + decimal((version & 0xfffu32) as nat)
}

/// Format a Vulkan version number as "major.minor.patch".
pub fn format_version(version: u32) -> (s: String)
    ensures
        s@ == version_text(version),
{
    let major = ash::vk::api_version_major(version);
    let minor = ash::vk::api_version_minor(version);
    let patch = ash::vk::api_version_patch(version);
    let s = u64_to_decimal(major as u64);
    let s = concat(s, ".");
    let s = concat(s, u64_to_decimal(minor as u64).as_str());
    let s = concat(s, ".");
    concat(s, u64_to_decimal(patch as u64).as_str())
}

/// The name of each device type.
pub open spec fn device_type_name(device_type: i32) -> Seq<char> {
    if device_type == DEVICE_TYPE_OTHER {
        "Other"@
    } else if device_type == DEVICE_TYPE_INTEGRATED_GPU {
        "Integrated GPU"@
    } else if device_type == DEVICE_TYPE_DISCRETE_GPU {
        "Discrete GPU"@
    } else if device_type == DEVICE_TYPE_VIRTUAL_GPU {
        "Virtual GPU"@
    } else if device_type == DEVICE_TYPE_CPU {
        "CPU"@
    } else {
        "Unknown"@
    }
}

/// The names of the Vulkan device types by their `VkPhysicalDeviceType` values: 0 `Other`,
/// 1 `Integrated GPU`, 2 `Discrete GPU`, 3 `Virtual GPU`, 4 `CPU`; any other value `Unknown`.
pub proof fn lemma_device_type_names()
    ensures
        device_type_name(0) == "Other"@,
        device_type_name(1) == "Integrated GPU"@,
        device_type_name(2) == "Discrete GPU"@,
        device_type_name(3) == "Virtual GPU"@,
        device_type_name(4) == "CPU"@,
        forall|t: i32| (t < 0 || t > 4) ==> device_type_name(t) == "Unknown"@,
{
}

/// Format a VkPhysicalDeviceType (raw value) as a human-readable string.
pub fn format_device_type(device_type: i32) -> (s: &'static str)
    ensures
        s@ == device_type_name(device_type),
{
    if device_type == DEVICE_TYPE_OTHER {
        "Other"
    } else if device_type == DEVICE_TYPE_INTEGRATED_GPU {
        "Integrated GPU"
    } else if device_type == DEVICE_TYPE_DISCRETE_GPU {
        "Discrete GPU"
    } else if device_type == DEVICE_TYPE_VIRTUAL_GPU {
        "Virtual GPU"
    } else if device_type == DEVICE_TYPE_CPU {
        "CPU"
    } else {
        "Unknown"
    }
}

/// The name of a known vendor, or its ID as `0x` and at least four upper-case hex digits.
pub open spec fn vendor_text(vendor_id: u32) -> Seq<char> {
    if vendor_id == 0x1002 {
        "AMD"@
    } else if vendor_id == 0x10DE {
        "NVIDIA"@
    } else if vendor_id == 0x8086 {
        "Intel"@
    } else if vendor_id == 0x1AE0 {
        "ImgTec"@
    } else if vendor_id == 0x1414 {
        "NVIDIA (Tesla)"@
    } else {
        "0x"@ + zero_pad(hex_upper(vendor_id as nat), 4)
    }
}

/// Format a vendor ID, resolving known vendors.
pub fn format_vendor_id(vendor_id: u32) -> (s: String)
    ensures
        s@ == vendor_text(vendor_id),
{
    match vendor_id {
        0x1002 => owned("AMD"),
        0x10DE => owned("NVIDIA"),
        0x8086 => owned("Intel"),
        0x1AE0 => owned("ImgTec"),
        0x1414 => owned("NVIDIA (Tesla)"),
        _ => concat(owned("0x"), u32_to_hex4(vendor_id).as_str()),
    }
}

/// `parts` joined with `sep` between consecutive parts.
pub open spec fn join(parts: Seq<Seq<char>>, sep: Seq<char>) -> Seq<char>
    decreases parts.len(),
{
    if parts.len() == 0 {
        seq![]
    } else if parts.len() == 1 {
        parts[0]
    } else {
        join(parts.drop_last(), sep) + sep + parts.last()
    }
}

/// `name` as a one-element list when `present`, else the empty list.
pub open spec fn part_if(present: bool, name: Seq<char>) -> Seq<Seq<char>> {
    if present {
        seq![name]
    } else {
        seq![]
    }
}

/// The names of the graphics, compute, transfer and sparse-binding flags set in `flags`,
/// in that order.
pub open spec fn queue_flag_names(flags: u32) -> Seq<Seq<char>> {
    part_if(has_flags(flags, QUEUE_GRAPHICS), "graphics"@) + part_if(
        has_flags(flags, QUEUE_COMPUTE),
        "compute"@,
    ) + part_if(has_flags(flags, QUEUE_TRANSFER), "transfer"@) + part_if(
        has_flags(flags, QUEUE_SPARSE_BINDING),
        "sparse"@,
    )
}

/// The flag names joined with ", ", or "none" when no such flag is set.
pub open spec fn queue_flags_text(flags: u32) -> Seq<char> {
    if queue_flag_names(flags).len() == 0 {
        "none"@
    } else {
        join(queue_flag_names(flags), ", "@)
    }
}

/// Appends `name` to the text of `parts` when `present`; `any` tells whether `parts` is
/// non-empty, and the returned flag whether the new list is.
fn add_flag_name(text: String, parts: Ghost<Seq<Seq<char>>>, any: bool, present: bool, name: &str) -> (r: (String, bool))
    requires
        text@ == join(parts@, ", "@),
        any == (parts@.len() > 0),
    ensures
        r.0@ == join(parts@ + part_if(present, name@), ", "@),
        r.1 == ((parts@ + part_if(present, name@)).len() > 0),
{
    if !present {
        assert(parts@ + part_if(present, name@) =~= parts@);
        return (text, any);
    }
    let ghost next = parts@ + part_if(present, name@);
    assert(next.drop_last() =~= parts@);
    if !any {
        assert(next =~= seq![name@]);
        (concat(text, name), true)
    } else {
        (concat(concat(text, ", "), name), true)
    }
}

/// Format queue flags (raw `VkQueueFlags`) as a comma-separated list.
pub fn format_queue_flags(flags: u32) -> (s: String)
    ensures
        s@ == queue_flags_text(flags),
{
    let ghost p0: Seq<Seq<char>> = seq![];
    let text = String::new();
    let (text, any) = add_flag_name(text, Ghost(p0), false, contains(flags, QUEUE_GRAPHICS), "graphics");
    let ghost p1 = p0 + part_if(has_flags(flags, QUEUE_GRAPHICS), "graphics"@);
    let (text, any) = add_flag_name(text, Ghost(p1), any, contains(flags, QUEUE_COMPUTE), "compute");
    let ghost p2 = p1 + part_if(has_flags(flags, QUEUE_COMPUTE), "compute"@);
    let (text, any) = add_flag_name(text, Ghost(p2), any, contains(flags, QUEUE_TRANSFER), "transfer");
    let ghost p3 = p2 + part_if(has_flags(flags, QUEUE_TRANSFER), "transfer"@);
    let (text, any) = add_flag_name(text, Ghost(p3), any, contains(flags, QUEUE_SPARSE_BINDING), "sparse");
    let ghost p4 = p3 + part_if(has_flags(flags, QUEUE_SPARSE_BINDING), "sparse"@);
    assert(p4 =~= queue_flag_names(flags));
    if !any {
        owned("none")
    } else {
        text
    }
}

} // verus!
