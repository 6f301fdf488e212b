//! Verified GGUF v3 parsing, and the decision logic of an AMD-first Vulkan compute backend.

pub mod embedding;
pub mod gguf_arch;
pub mod gguf_laws;
pub mod gguf_parse;
pub mod gguf_types;
pub mod half;
pub mod le_bytes;
pub mod text;
pub mod vulkan;

pub use embedding::embedding_lookup;
pub use gguf_arch::{FloatBits, MissingMetadata, ModelArch};
pub use gguf_parse::{
    parse_gguf, parse_gguf_full, parse_header, parse_metadata, parse_metadata_entry,
    parse_string, parse_tensor_descriptor, parse_tensors, parse_value, GgufMetadata,
    GgufTensors, MetadataEntry, MetadataValue, TensorDescriptor,
};
pub use gguf_types::{
    GgufError, GgufHeader, GgufTensorType, GgufValueType, GGUF_MAGIC_STR, HEADER_SIZE,
    SUPPORTED_VERSION,
};
pub use half::{f16_bytes_to_f32_bits, f16_to_f32_bits};
pub use vulkan::{
    check_buffer_size, check_map, check_write_range, format_device_type, format_queue_flags,
    format_vendor_id, format_version, select_device, select_queue_family, MemoryTypeSelector,
    PhysicalDeviceInfo, QueueFamilyInfo, QueueFamilySelection, VulkanError,
};
