use vulkanize::{parse_header, GgufError, GgufHeader, GgufTensorType, GgufValueType, HEADER_SIZE};

fn make_header(magic: [u8; 4], version: u32, tensor_count: u64, kv_count: u64) -> Vec<u8> {
    let mut buf = Vec::with_capacity(HEADER_SIZE);
    buf.extend_from_slice(&magic);
    buf.extend_from_slice(&version.to_le_bytes());
    buf.extend_from_slice(&tensor_count.to_le_bytes());
    buf.extend_from_slice(&kv_count.to_le_bytes());
    buf
}

#[test]
fn test_parse_valid_header() {
    let bytes = make_header(*b"GGUF", 3, 42, 17);
    let header = parse_header(&bytes).unwrap();
    assert_eq!(header.version, 3);
    assert_eq!(header.tensor_count, 42);
    assert_eq!(header.metadata_kv_count, 17);
}

#[test]
fn test_parse_zero_counts() {
    let bytes = make_header(*b"GGUF", 3, 0, 0);
    let header = parse_header(&bytes).unwrap();
    assert_eq!(header.tensor_count, 0);
    assert_eq!(header.metadata_kv_count, 0);
}

#[test]
fn test_parse_large_counts() {
    let bytes = make_header(*b"GGUF", 3, u64::MAX, u64::MAX);
    let header = parse_header(&bytes).unwrap();
    assert_eq!(header.tensor_count, u64::MAX);
    assert_eq!(header.metadata_kv_count, u64::MAX);
}

#[test]
fn test_file_too_short_exact() {
    let bytes = vec![0u8; HEADER_SIZE - 1];
    match parse_header(&bytes) {
        Err(GgufError::FileTooShort { required, available }) => {
            assert_eq!(required, HEADER_SIZE);
            assert_eq!(available, HEADER_SIZE - 1);
        }
        other => panic!("expected FileTooShort, got {:?}", other),
    }
}

#[test]
fn test_file_too_short_empty() {
    match parse_header(&[]) {
        Err(GgufError::FileTooShort { required, available }) => {
            assert_eq!(required, HEADER_SIZE);
            assert_eq!(available, 0);
        }
        other => panic!("expected FileTooShort, got {:?}", other),
    }
}

#[test]
fn test_invalid_magic() {
    let bytes = make_header(*b"gguf", 3, 0, 0);
    match parse_header(&bytes) {
        Err(GgufError::InvalidMagic { got }) => {
            assert_eq!(got, *b"gguf");
        }
        other => panic!("expected InvalidMagic, got {:?}", other),
    }
}

#[test]
fn test_invalid_magic_random() {
    let bytes = make_header(*b"XXXX", 3, 0, 0);
    match parse_header(&bytes) {
        Err(GgufError::InvalidMagic { .. }) => {}
        other => panic!("expected InvalidMagic, got {:?}", other),
    }
}

#[test]
fn test_unsupported_version_v2() {
    let bytes = make_header(*b"GGUF", 2, 0, 0);
    match parse_header(&bytes) {
        Err(GgufError::UnsupportedVersion { version }) => {
            assert_eq!(version, 2);
        }
        other => panic!("expected UnsupportedVersion, got {:?}", other),
    }
}

#[test]
fn test_unsupported_version_v4() {
    let bytes = make_header(*b"GGUF", 4, 0, 0);
    match parse_header(&bytes) {
        Err(GgufError::UnsupportedVersion { version }) => {
            assert_eq!(version, 4);
        }
        other => panic!("expected UnsupportedVersion, got {:?}", other),
    }
}

#[test]
fn test_unsupported_version_zero() {
    let bytes = make_header(*b"GGUF", 0, 0, 0);
    assert!(matches!(
        parse_header(&bytes),
        Err(GgufError::UnsupportedVersion { version: 0 })
    ));
}

#[test]
fn test_error_display_file_too_short() {
    let err = GgufError::FileTooShort { required: 24, available: 10 };
    let msg = err.to_string();
    assert!(msg.contains("file too short"));
    assert!(msg.contains("24"));
    assert!(msg.contains("10"));
}

#[test]
fn test_error_display_invalid_magic() {
    let err = GgufError::InvalidMagic { got: *b"XXXX" };
    let msg = err.to_string();
    assert!(msg.contains("invalid magic"));
    assert!(msg.contains("GGUF"));
}

#[test]
fn test_error_display_unsupported_version() {
    let err = GgufError::UnsupportedVersion { version: 2 };
    let msg = err.to_string();
    assert!(msg.contains("unsupported"));
    assert!(msg.contains("2"));
}

#[test]
fn test_header_is_copy() {
    let bytes = make_header(*b"GGUF", 3, 1, 2);
    let h1 = parse_header(&bytes).unwrap();
    let h2 = h1;
    assert_eq!(h1.version, h2.version);
    assert_eq!(h1.tensor_count, h2.tensor_count);
}

#[test]
fn test_parse_header_exact_size() {
    let bytes = make_header(*b"GGUF", 3, 5, 3);
    let header = parse_header(&bytes).unwrap();
    assert_eq!(header.version, 3);
    assert_eq!(header.tensor_count, 5);
    assert_eq!(header.metadata_kv_count, 3);
}

#[test]
fn test_parse_header_with_trailing_data() {
    let mut bytes = make_header(*b"GGUF", 3, 5, 3);
    bytes.extend_from_slice(b"extra data that should be ignored");
    let header = parse_header(&bytes).unwrap();
    assert_eq!(header.version, 3);
    assert_eq!(header.tensor_count, 5);
    assert_eq!(header.metadata_kv_count, 3);
}

#[test]
fn test_value_type_roundtrip() {
    for id in 0..=12u32 {
        let vt = GgufValueType::from_u32(id).unwrap();
        assert_eq!(vt.to_u32(), id);
    }
}

#[test]
fn test_value_type_unknown() {
    assert!(GgufValueType::from_u32(13).is_none());
    assert!(GgufValueType::from_u32(100).is_none());
    assert!(GgufValueType::from_u32(u32::MAX).is_none());
}

#[test]
fn test_value_type_display() {
    assert_eq!(GgufValueType::Uint8.to_string(), "uint8");
    assert_eq!(GgufValueType::String.to_string(), "string");
    assert_eq!(GgufValueType::Float64.to_string(), "float64");
    assert_eq!(GgufValueType::Array.to_string(), "array");
}

#[test]
fn test_error_display_truncated_metadata() {
    let err = GgufError::TruncatedMetadata { context: "test context" };
    let msg = err.to_string();
    assert!(msg.contains("truncated metadata"));
    assert!(msg.contains("test context"));
}

#[test]
fn test_error_display_invalid_utf8() {
    let err = GgufError::InvalidUtf8;
    let msg = err.to_string();
    assert!(msg.contains("invalid UTF-8"));
}

#[test]
fn test_error_display_unsupported_value_type() {
    let err = GgufError::UnsupportedValueType { type_id: 99 };
    let msg = err.to_string();
    assert!(msg.contains("unsupported"));
    assert!(msg.contains("99"));
}

#[test]
fn test_tensor_type_from_u32_known() {
    assert_eq!(GgufTensorType::from_u32(0).unwrap(), GgufTensorType::F32);
    assert_eq!(GgufTensorType::from_u32(1).unwrap(), GgufTensorType::F16);
    assert_eq!(GgufTensorType::from_u32(2).unwrap(), GgufTensorType::Q4_0);
    assert_eq!(GgufTensorType::from_u32(7).unwrap(), GgufTensorType::Q8_0);
    assert_eq!(GgufTensorType::from_u32(9).unwrap(), GgufTensorType::Q5_0);
    assert_eq!(GgufTensorType::from_u32(15).unwrap(), GgufTensorType::Q6_K);
    assert_eq!(GgufTensorType::from_u32(24).unwrap(), GgufTensorType::I8);
    assert_eq!(GgufTensorType::from_u32(30).unwrap(), GgufTensorType::BF16);
}

#[test]
fn test_tensor_type_from_u32_unknown() {
    assert!(matches!(
        GgufTensorType::from_u32(5),
        Err(GgufError::UnsupportedTensorType { type_id: 5 })
    ));
    assert!(matches!(
        GgufTensorType::from_u32(100),
        Err(GgufError::UnsupportedTensorType { type_id: 100 })
    ));
}

#[test]
fn test_tensor_type_display() {
    assert_eq!(GgufTensorType::F32.to_string(), "F32");
    assert_eq!(GgufTensorType::F16.to_string(), "F16");
    assert_eq!(GgufTensorType::Q4_0.to_string(), "Q4_0");
    assert_eq!(GgufTensorType::Q8_0.to_string(), "Q8_0");
    assert_eq!(GgufTensorType::Q5_K.to_string(), "Q5_K");
    assert_eq!(GgufTensorType::IQ2_XXS.to_string(), "IQ2_XXS");
    assert_eq!(GgufTensorType::BF16.to_string(), "BF16");
    assert_eq!(GgufTensorType::F64.to_string(), "F64");
}

#[test]
fn test_error_display_truncated_tensor() {
    let err = GgufError::TruncatedTensor { context: "shape" };
    let msg = err.to_string();
    assert!(msg.contains("truncated tensor"));
    assert!(msg.contains("shape"));
}

#[test]
fn test_error_display_unsupported_tensor_type() {
    let err = GgufError::UnsupportedTensorType { type_id: 999 };
    let msg = err.to_string();
    assert!(msg.contains("unsupported"));
    assert!(msg.contains("999"));
}

// --- further cases ---

#[test]
fn header_error_messages_are_exact() {
    assert_eq!(
        GgufError::FileTooShort { required: 24, available: 10 }.to_string(),
        "file too short: need 24 bytes, got 10"
    );
    assert_eq!(
        GgufError::UnsupportedVersion { version: 2 }.to_string(),
        "unsupported GGUF version 2: supported versions are [3]"
    );
    assert_eq!(GgufError::InvalidUtf8.to_string(), "invalid UTF-8 in metadata string");
    assert_eq!(
        GgufError::TruncatedTensor { context: "dtype" }.to_string(),
        "truncated tensor header while reading: dtype"
    );
}

#[test]
fn invalid_magic_message_shows_the_bytes_read() {
    let msg = GgufError::InvalidMagic { got: *b"XXXX" }.to_string();
    assert_eq!(msg, "invalid magic: expected GGUF, got \"XXXX\"");
    let msg = GgufError::InvalidMagic { got: [0xFF, 0, 0, 0] }.to_string();
    assert_eq!(msg, "invalid magic: expected GGUF, got \"<invalid utf8>\"");
}

#[test]
fn io_error_message_keeps_the_cause() {
    let err = GgufError::Io(std::io::Error::new(std::io::ErrorKind::NotFound, "no such file"));
    let msg = err.to_string();
    assert!(msg.starts_with("io error: "));
    assert!(msg.contains("no such file"));
}

#[test]
fn value_type_ids_follow_the_format() {
    assert_eq!(GgufValueType::from_u32(9), Some(GgufValueType::Array));
    assert_eq!(GgufValueType::from_u32(10), Some(GgufValueType::Uint64));
    assert_eq!(GgufValueType::Int64.to_u32(), 11);
    assert_eq!(GgufValueType::Bool.to_string(), "bool");
}

#[test]
fn tensor_type_ids_roundtrip_through_names() {
    for id in (0..=4u32).chain(7..=35u32) {
        let t = GgufTensorType::from_u32(id).unwrap();
        assert_eq!(GgufTensorType::from_u32(id).unwrap(), t, "id {}", id);
    }
    assert_eq!(GgufTensorType::from_u32(35).unwrap().to_string(), "TQ2_0");
    for id in [5u32, 6, 36, 1000, u32::MAX] {
        assert!(GgufTensorType::from_u32(id).is_err(), "id {}", id);
    }
}

#[test]
fn header_fields_compare_equal() {
    let bytes = make_header(*b"GGUF", 3, 7, 8);
    let header = parse_header(&bytes).unwrap();
    assert_eq!(header, GgufHeader { version: 3, tensor_count: 7, metadata_kv_count: 8 });
}

#[test]
fn io_errors_convert_into_gguf_errors() {
    let err: GgufError = std::io::Error::new(std::io::ErrorKind::UnexpectedEof, "short read").into();
    match err {
        GgufError::Io(e) => assert_eq!(e.kind(), std::io::ErrorKind::UnexpectedEof),
        other => panic!("expected Io, got {:?}", other),
    }
}

#[test]
fn tensor_type_to_u32_gives_the_ggml_id() {
    assert_eq!(GgufTensorType::F32.to_u32(), 0);
    assert_eq!(GgufTensorType::Q8_0.to_u32(), 7);
    assert_eq!(GgufTensorType::Q6_K.to_u32(), 15);
    assert_eq!(GgufTensorType::BF16.to_u32(), 30);
    assert_eq!(GgufTensorType::TQ2_0.to_u32(), 35);
    for id in (0..=4u32).chain(7..=35) {
        assert_eq!(GgufTensorType::from_u32(id).unwrap().to_u32(), id);
    }
}
