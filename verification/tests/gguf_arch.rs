use vulkanize::{parse_gguf, FloatBits, GgufMetadata, MetadataEntry, MetadataValue, MissingMetadata, HEADER_SIZE};

fn make_header(magic: [u8; 4], version: u32, tensor_count: u64, kv_count: u64) -> Vec<u8> {
    let mut buf = Vec::with_capacity(HEADER_SIZE);
    buf.extend_from_slice(&magic);
    buf.extend_from_slice(&version.to_le_bytes());
    buf.extend_from_slice(&tensor_count.to_le_bytes());
    buf.extend_from_slice(&kv_count.to_le_bytes());
    buf
}

fn encode_string(s: &str) -> Vec<u8> {
    let len = s.len() as u64;
    let mut buf = Vec::with_capacity(8 + s.len());
    buf.extend_from_slice(&len.to_le_bytes());
    buf.extend_from_slice(s.as_bytes());
    buf
}

fn make_entry(key: &str, type_id: u32, data: &[u8]) -> Vec<u8> {
    let mut buf = encode_string(key);
    buf.extend_from_slice(&type_id.to_le_bytes());
    buf.extend_from_slice(data);
    buf
}

fn make_gguf(kv_entries: &[(&str, u32, &[u8])]) -> Vec<u8> {
    let mut buf = make_header(*b"GGUF", 3, 0, kv_entries.len() as u64);
    for (key, type_id, data) in kv_entries {
        buf.extend_from_slice(&make_entry(key, *type_id, data));
    }
    buf
}

/// The value a reader of the metadata sees: a float64 narrowed to f32.
fn as_f32(bits: FloatBits) -> f32 {
    match bits {
        FloatBits::F32(b) => f32::from_bits(b),
        FloatBits::F64(b) => f64::from_bits(b) as f32,
    }
}

#[test]
fn test_extract_arch_llama_full() {
    let bytes = make_gguf(&[
        ("general.architecture", 8, &encode_string("llama")),
        ("general.name", 8, &encode_string("Llama-2-7b")),
        ("tokenizer.ggml.model", 8, &encode_string("llama")),
        ("llama.block_count", 5, &32u32.to_le_bytes()),
        ("llama.context_length", 11, &4096u64.to_le_bytes()),
        ("llama.embedding_length", 5, &4096u32.to_le_bytes()),
        ("llama.feed_forward_length", 5, &11008u32.to_le_bytes()),
        ("llama.attention.head_count", 5, &32u32.to_le_bytes()),
        ("llama.attention.head_count_kv", 5, &4u32.to_le_bytes()),
        ("llama.rope.freq_base", 6, &f32::to_le_bytes(10000.0)),
        ("general.file_type", 0, &[0xFF]),
    ]);
    let (_, metadata) = parse_gguf(&bytes).unwrap();
    let arch = metadata.extract_model_arch().unwrap();

    assert_eq!(arch.architecture, "llama");
    assert_eq!(arch.name, Some("Llama-2-7b".to_string()));
    assert_eq!(arch.tokenizer_model, Some("llama".to_string()));
    assert_eq!(arch.block_count, 32);
    assert_eq!(arch.context_length, 4096);
    assert_eq!(arch.embedding_length, 4096);
    assert_eq!(arch.feed_forward_length, 11008);
    assert_eq!(arch.attention_head_count, 32);
    assert_eq!(arch.attention_head_count_kv, Some(4));
    assert_eq!(arch.rope_freq_base.map(as_f32), Some(10000.0));
    assert_eq!(arch.file_type, Some(255));
}

#[test]
fn test_extract_arch_llama_minimal() {
    let bytes = make_gguf(&[
        ("general.architecture", 8, &encode_string("llama")),
        ("llama.block_count", 5, &32u32.to_le_bytes()),
        ("llama.context_length", 11, &4096u64.to_le_bytes()),
        ("llama.embedding_length", 5, &4096u32.to_le_bytes()),
        ("llama.feed_forward_length", 5, &11008u32.to_le_bytes()),
        ("llama.attention.head_count", 5, &32u32.to_le_bytes()),
    ]);
    let (_, metadata) = parse_gguf(&bytes).unwrap();
    let arch = metadata.extract_model_arch().unwrap();

    assert_eq!(arch.architecture, "llama");
    assert_eq!(arch.name, None);
    assert_eq!(arch.tokenizer_model, None);
    assert_eq!(arch.block_count, 32);
    assert_eq!(arch.attention_head_count_kv, None);
    assert_eq!(arch.rope_freq_base, None);
    assert_eq!(arch.file_type, None);
}

#[test]
fn test_extract_arch_qwen2() {
    let bytes = make_gguf(&[
        ("general.architecture", 8, &encode_string("qwen2")),
        ("general.name", 8, &encode_string("Qwen2-7B")),
        ("qwen2.block_count", 5, &32u32.to_le_bytes()),
        ("qwen2.context_length", 11, &32768u64.to_le_bytes()),
        ("qwen2.embedding_length", 5, &4096u32.to_le_bytes()),
        ("qwen2.feed_forward_length", 5, &22016u32.to_le_bytes()),
        ("qwen2.attention.head_count", 5, &32u32.to_le_bytes()),
        ("qwen2.attention.head_count_kv", 5, &2u32.to_le_bytes()),
        ("qwen2.rope.freq_base", 6, &f32::to_le_bytes(1_000_000.0)),
        ("general.file_type", 0, &[2]),
    ]);
    let (_, metadata) = parse_gguf(&bytes).unwrap();
    let arch = metadata.extract_model_arch().unwrap();

    assert_eq!(arch.architecture, "qwen2");
    assert_eq!(arch.name, Some("Qwen2-7B".to_string()));
    assert_eq!(arch.block_count, 32);
    assert_eq!(arch.context_length, 32768);
    assert_eq!(arch.embedding_length, 4096);
    assert_eq!(arch.feed_forward_length, 22016);
    assert_eq!(arch.attention_head_count, 32);
    assert_eq!(arch.attention_head_count_kv, Some(2));
    assert_eq!(arch.rope_freq_base.map(as_f32), Some(1_000_000.0));
    assert_eq!(arch.file_type, Some(2));
}

#[test]
fn test_extract_arch_missing_architecture() {
    let bytes = make_gguf(&[("llama.block_count", 5, &32u32.to_le_bytes())]);
    let (_, metadata) = parse_gguf(&bytes).unwrap();
    let err = metadata.extract_model_arch().unwrap_err();
    assert_eq!(err.key, "general.architecture");
}

#[test]
fn test_extract_arch_missing_block_count() {
    let bytes = make_gguf(&[
        ("general.architecture", 8, &encode_string("llama")),
        ("llama.context_length", 11, &4096u64.to_le_bytes()),
        ("llama.embedding_length", 5, &4096u32.to_le_bytes()),
        ("llama.feed_forward_length", 5, &11008u32.to_le_bytes()),
        ("llama.attention.head_count", 5, &32u32.to_le_bytes()),
    ]);
    let (_, metadata) = parse_gguf(&bytes).unwrap();
    let err = metadata.extract_model_arch().unwrap_err();
    assert_eq!(err.key, "llama.block_count");
}

#[test]
fn test_extract_arch_missing_context_length() {
    let bytes = make_gguf(&[
        ("general.architecture", 8, &encode_string("llama")),
        ("llama.block_count", 5, &32u32.to_le_bytes()),
        ("llama.embedding_length", 5, &4096u32.to_le_bytes()),
        ("llama.feed_forward_length", 5, &11008u32.to_le_bytes()),
        ("llama.attention.head_count", 5, &32u32.to_le_bytes()),
    ]);
    let (_, metadata) = parse_gguf(&bytes).unwrap();
    let err = metadata.extract_model_arch().unwrap_err();
    assert_eq!(err.key, "llama.context_length");
}

#[test]
fn test_extract_arch_missing_embedding_length() {
    let bytes = make_gguf(&[
        ("general.architecture", 8, &encode_string("llama")),
        ("llama.block_count", 5, &32u32.to_le_bytes()),
        ("llama.context_length", 11, &4096u64.to_le_bytes()),
        ("llama.feed_forward_length", 5, &11008u32.to_le_bytes()),
        ("llama.attention.head_count", 5, &32u32.to_le_bytes()),
    ]);
    let (_, metadata) = parse_gguf(&bytes).unwrap();
    let err = metadata.extract_model_arch().unwrap_err();
    assert_eq!(err.key, "llama.embedding_length");
}

#[test]
fn test_extract_arch_missing_ffn_length() {
    let bytes = make_gguf(&[
        ("general.architecture", 8, &encode_string("llama")),
        ("llama.block_count", 5, &32u32.to_le_bytes()),
        ("llama.context_length", 11, &4096u64.to_le_bytes()),
        ("llama.embedding_length", 5, &4096u32.to_le_bytes()),
        ("llama.attention.head_count", 5, &32u32.to_le_bytes()),
    ]);
    let (_, metadata) = parse_gguf(&bytes).unwrap();
    let err = metadata.extract_model_arch().unwrap_err();
    assert_eq!(err.key, "llama.feed_forward_length");
}

#[test]
fn test_extract_arch_missing_head_count() {
    let bytes = make_gguf(&[
        ("general.architecture", 8, &encode_string("llama")),
        ("llama.block_count", 5, &32u32.to_le_bytes()),
        ("llama.context_length", 11, &4096u64.to_le_bytes()),
        ("llama.embedding_length", 5, &4096u32.to_le_bytes()),
        ("llama.feed_forward_length", 5, &11008u32.to_le_bytes()),
    ]);
    let (_, metadata) = parse_gguf(&bytes).unwrap();
    let err = metadata.extract_model_arch().unwrap_err();
    assert_eq!(err.key, "llama.attention.head_count");
}

#[test]
fn test_extract_arch_wrong_type() {
    let bytes = make_gguf(&[
        ("general.architecture", 8, &encode_string("llama")),
        ("llama.block_count", 8, &encode_string("not_a_number")),
        ("llama.context_length", 11, &4096u64.to_le_bytes()),
        ("llama.embedding_length", 5, &4096u32.to_le_bytes()),
        ("llama.feed_forward_length", 5, &11008u32.to_le_bytes()),
        ("llama.attention.head_count", 5, &32u32.to_le_bytes()),
    ]);
    let (_, metadata) = parse_gguf(&bytes).unwrap();
    let err = metadata.extract_model_arch().unwrap_err();
    assert_eq!(err.key, "llama.block_count");
}

#[test]
fn test_extract_arch_int32_block_count() {
    let bytes = make_gguf(&[
        ("general.architecture", 8, &encode_string("llama")),
        ("llama.block_count", 5, &32i32.to_le_bytes()),
        ("llama.context_length", 11, &4096i64.to_le_bytes()),
        ("llama.embedding_length", 4, &4096u32.to_le_bytes()),
        ("llama.feed_forward_length", 11, &11008i64.to_le_bytes()),
        ("llama.attention.head_count", 10, &32u64.to_le_bytes()),
    ]);
    let (_, metadata) = parse_gguf(&bytes).unwrap();
    let arch = metadata.extract_model_arch().unwrap();

    assert_eq!(arch.block_count, 32);
    assert_eq!(arch.context_length, 4096);
    assert_eq!(arch.embedding_length, 4096);
    assert_eq!(arch.feed_forward_length, 11008);
    assert_eq!(arch.attention_head_count, 32);
}

#[test]
fn test_extract_arch_float64_rope() {
    let bytes = make_gguf(&[
        ("general.architecture", 8, &encode_string("llama")),
        ("llama.block_count", 5, &32u32.to_le_bytes()),
        ("llama.context_length", 11, &4096u64.to_le_bytes()),
        ("llama.embedding_length", 5, &4096u32.to_le_bytes()),
        ("llama.feed_forward_length", 5, &11008u32.to_le_bytes()),
        ("llama.attention.head_count", 5, &32u32.to_le_bytes()),
        ("llama.rope.freq_base", 12, &f64::to_le_bytes(10000.0)),
    ]);
    let (_, metadata) = parse_gguf(&bytes).unwrap();
    let arch = metadata.extract_model_arch().unwrap();
    assert_eq!(arch.rope_freq_base.map(as_f32), Some(10000.0));
    assert_eq!(arch.rope_freq_base, Some(FloatBits::F64(f64::to_bits(10000.0))));
}

#[test]
fn test_extract_arch_unknown_architecture() {
    let bytes = make_gguf(&[
        ("general.architecture", 8, &encode_string("mpt")),
        ("mpt.block_count", 5, &24u32.to_le_bytes()),
        ("mpt.context_length", 11, &8192u64.to_le_bytes()),
        ("mpt.embedding_length", 5, &2048u32.to_le_bytes()),
        ("mpt.feed_forward_length", 5, &8192u32.to_le_bytes()),
        ("mpt.attention.head_count", 5, &16u32.to_le_bytes()),
    ]);
    let (_, metadata) = parse_gguf(&bytes).unwrap();
    let arch = metadata.extract_model_arch().unwrap();

    assert_eq!(arch.architecture, "mpt");
    assert_eq!(arch.block_count, 24);
    assert_eq!(arch.context_length, 8192);
    assert_eq!(arch.embedding_length, 2048);
    assert_eq!(arch.feed_forward_length, 8192);
    assert_eq!(arch.attention_head_count, 16);
    assert_eq!(arch.attention_head_count_kv, None);
}

#[test]
fn test_missing_metadata_display() {
    let err = MissingMetadata { key: "test.key".to_string() };
    let msg = err.to_string();
    assert!(msg.contains("missing metadata key"));
    assert!(msg.contains("test.key"));
}

// --- further cases ---

fn entry(key: &str, value: MetadataValue) -> MetadataEntry {
    MetadataEntry { key: key.to_string(), value }
}

fn minimal(arch: &str) -> Vec<MetadataEntry> {
    vec![
        entry("general.architecture", MetadataValue::String(arch.to_string())),
        entry(&format!("{}.block_count", arch), MetadataValue::Uint32(2)),
        entry(&format!("{}.context_length", arch), MetadataValue::Uint32(128)),
        entry(&format!("{}.embedding_length", arch), MetadataValue::Uint32(64)),
        entry(&format!("{}.feed_forward_length", arch), MetadataValue::Uint32(256)),
        entry(&format!("{}.attention.head_count", arch), MetadataValue::Uint32(4)),
    ]
}

#[test]
fn missing_metadata_message_is_exact() {
    let err = MissingMetadata { key: "a.b".to_string() };
    assert_eq!(err.to_string(), "missing metadata key: a.b");
}

#[test]
fn first_entry_of_a_key_wins() {
    let mut entries = minimal("llama");
    entries.push(entry("llama.block_count", MetadataValue::Uint32(99)));
    let arch = GgufMetadata { entries }.extract_model_arch().unwrap();
    assert_eq!(arch.block_count, 2);
}

#[test]
fn negative_integers_wrap_as_counts() {
    let mut entries = minimal("llama");
    entries[1] = entry("llama.block_count", MetadataValue::Int32(-1));
    let arch = GgufMetadata { entries }.extract_model_arch().unwrap();
    assert_eq!(arch.block_count, u32::MAX);
}

#[test]
fn wide_integers_are_truncated_to_u32() {
    let mut entries = minimal("llama");
    entries[2] = entry("llama.context_length", MetadataValue::Uint64((1 << 32) + 7));
    entries[3] = entry("llama.embedding_length", MetadataValue::Int64(-2));
    let arch = GgufMetadata { entries }.extract_model_arch().unwrap();
    assert_eq!(arch.context_length, 7);
    assert_eq!(arch.embedding_length, u32::MAX - 1);
}

#[test]
fn narrow_unsigned_integers_are_counts() {
    let mut entries = minimal("llama");
    entries[5] = entry("llama.attention.head_count", MetadataValue::Uint8(4));
    entries[4] = entry("llama.feed_forward_length", MetadataValue::Uint16(300));
    let arch = GgufMetadata { entries }.extract_model_arch().unwrap();
    assert_eq!(arch.attention_head_count, 4);
    assert_eq!(arch.feed_forward_length, 300);
}

#[test]
fn small_signed_integers_are_not_counts() {
    let mut entries = minimal("llama");
    entries[5] = entry("llama.attention.head_count", MetadataValue::Int8(4));
    let err = GgufMetadata { entries }.extract_model_arch().unwrap_err();
    assert_eq!(err.key, "llama.attention.head_count");
}

#[test]
fn optional_fields_of_the_wrong_type_are_absent() {
    let mut entries = minimal("llama");
    entries.push(entry("general.name", MetadataValue::Uint32(5)));
    entries.push(entry("llama.rope.freq_base", MetadataValue::String("x".to_string())));
    entries.push(entry("general.file_type", MetadataValue::Bool(true)));
    let arch = GgufMetadata { entries }.extract_model_arch().unwrap();
    assert_eq!(arch.name, None);
    assert_eq!(arch.rope_freq_base, None);
    assert_eq!(arch.file_type, None);
}

#[test]
fn architecture_must_be_a_string() {
    let mut entries = minimal("llama");
    entries[0] = entry("general.architecture", MetadataValue::Uint32(1));
    let err = GgufMetadata { entries }.extract_model_arch().unwrap_err();
    assert_eq!(err.key, "general.architecture");
}

#[test]
fn keys_are_prefixed_by_the_architecture() {
    let mut entries = minimal("gemma");
    entries.push(entry("llama.attention.head_count_kv", MetadataValue::Uint32(8)));
    entries.push(entry("gemma.attention.head_count_kv", MetadataValue::Int64(1)));
    let arch = GgufMetadata { entries }.extract_model_arch().unwrap();
    assert_eq!(arch.architecture, "gemma");
    assert_eq!(arch.attention_head_count_kv, Some(1));
}
