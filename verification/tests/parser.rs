use pesti_gguf::{
    compute_data_section_start, extract_tensor_bytes, extract_tensor_bytes_from, parse_gguf_bytes,
    tensor_bytes_for_dtype, GgufError, GgufKvPair, GgufKvValue, GgufTensorInfo, GgufValueType,
    GgufWireFormat,
};

fn v3_header(tensor_count: u64, kv_count: u64) -> Vec<u8> {
    let mut buf = Vec::new();
    buf.extend_from_slice(b"GGUF");
    buf.extend_from_slice(&3u32.to_le_bytes());
    buf.extend_from_slice(&tensor_count.to_le_bytes());
    buf.extend_from_slice(&kv_count.to_le_bytes());
    buf
}

fn push_v3_key(buf: &mut Vec<u8>, key: &str, value_type: u32) {
    buf.extend_from_slice(&(key.len() as u64).to_le_bytes());
    buf.extend_from_slice(key.as_bytes());
    buf.extend_from_slice(&value_type.to_le_bytes());
}

#[test]
fn test_bfloat16_bit_reinterpretation() {
    let bf16_bits: u16 = 0x3F80;
    let expected_value = f32::from_bits((bf16_bits as u32) << 16);
    assert_eq!(expected_value, 1.0, "BF16 0x3F80 should represent 1.0");
    let bf16_zero: u16 = 0x0000;
    let zero_value = f32::from_bits((bf16_zero as u32) << 16);
    assert_eq!(zero_value, 0.0, "BF16 0x0000 should represent 0.0");
    let wrong_conversion = bf16_bits as f32;
    assert_eq!(wrong_conversion, 16256.0, "Numeric conversion of 0x3F80 gives 16256.0 (WRONG)");

    // The parser keeps the bits, shifted into an f32.
    let mut buf = v3_header(0, 1);
    push_v3_key(&mut buf, "bf", 15);
    buf.extend_from_slice(&bf16_bits.to_le_bytes());
    let header = parse_gguf_bytes(&buf).expect("bf16 value");
    match &header.kv_pairs[0].value {
        GgufKvValue::Bfloat16(bits) => assert_eq!(f32::from_bits(*bits), 1.0),
        other => panic!("unexpected {other:?}"),
    }
}

#[test]
fn test_v3_header_structure() {
    let mut buf = v3_header(0, 1);
    push_v3_key(&mut buf, "test.arch", 8);
    buf.extend_from_slice(&5u64.to_le_bytes());
    buf.extend_from_slice(b"llama");
    let header = parse_gguf_bytes(&buf).expect("Should parse minimal v3 file");
    assert_eq!(header.version, 3);
    assert_eq!(header.kv_pairs.len(), 1);
    let kv = &header.kv_pairs[0];
    assert_eq!(kv.key, "test.arch");
    if let GgufKvValue::String(arch) = &kv.value {
        assert_eq!(arch, "llama");
    } else {
        panic!("Expected string value");
    }
}

#[test]
fn test_v3_tensor_metadata() {
    let mut buf = v3_header(1, 0);
    buf.extend_from_slice(&17u64.to_le_bytes());
    buf.extend_from_slice(b"blk.0.attn.weight");
    buf.extend_from_slice(&4u32.to_le_bytes());
    buf.extend_from_slice(&4096u64.to_le_bytes());
    buf.extend_from_slice(&11u64.to_le_bytes());
    buf.extend_from_slice(&256u64.to_le_bytes());
    buf.extend_from_slice(&8u64.to_le_bytes());
    buf.extend_from_slice(&1u32.to_le_bytes());
    buf.extend_from_slice(&0u64.to_le_bytes());
    let header = parse_gguf_bytes(&buf).expect("Should parse tensor metadata");
    assert_eq!(header.tensors.len(), 1);
    let tensor = &header.tensors[0];
    assert_eq!(tensor.name, "blk.0.attn.weight");
    assert_eq!(tensor.shape.len(), 4);
    assert_eq!(tensor.shape[0], 4096);
    assert_eq!(tensor.shape[1], 11);
    assert_eq!(tensor.shape[2], 256);
    assert_eq!(tensor.shape[3], 8);
    assert_eq!(tensor.dtype, 1);
    assert_eq!(tensor.offset, 0);
    // 24 + (8 + 17 + 4 + 32 + 4 + 8) = 97, aligned to 32.
    assert_eq!(header.data_alignment, Some(32));
    assert_eq!(header.data_section_start, 128);
}

#[test]
fn test_v3_empty_file() {
    let buf = v3_header(0, 0);
    let header = parse_gguf_bytes(&buf).expect("Should parse empty file");
    assert_eq!(header.version, 3);
    assert_eq!(header.kv_pairs.len(), 0);
    assert_eq!(header.tensors.len(), 0);
    assert_eq!(header.data_section_start, 32);
}

#[test]
fn test_v3_large_values() {
    let mut buf = v3_header(0, 1);
    let value = "x".repeat(1024);
    push_v3_key(&mut buf, "large_value", 8);
    buf.extend_from_slice(&(value.len() as u64).to_le_bytes());
    buf.extend_from_slice(value.as_bytes());
    let header = parse_gguf_bytes(&buf).expect("Should parse large value");
    assert_eq!(header.kv_pairs.len(), 1);
    let kv = &header.kv_pairs[0];
    assert_eq!(kv.key, "large_value");
    if let GgufKvValue::String(s) = &kv.value {
        assert_eq!(s.len(), 1024);
        assert_eq!(s.as_str(), value);
    } else {
        panic!("Expected string");
    }
}

#[test]
fn bad_magic_is_reported_with_its_text() {
    let mut buf = v3_header(0, 0);
    buf[0] = b'X';
    match parse_gguf_bytes(&buf) {
        Err(GgufError::InvalidMagic(m)) => assert_eq!(m, "XGUF"),
        other => panic!("unexpected {other:?}"),
    }
}

#[test]
fn unsupported_version_and_truncation() {
    let mut buf = v3_header(0, 0);
    buf[4] = 4;
    assert!(matches!(parse_gguf_bytes(&buf), Err(GgufError::UnsupportedVersion(4))));
    assert!(matches!(parse_gguf_bytes(b"GG"), Err(GgufError::Binary(_))));
    let short = v3_header(0, 1);
    assert!(matches!(parse_gguf_bytes(&short), Err(GgufError::Binary(_))));
}

#[test]
fn count_limits_and_key_lengths_are_checked() {
    let buf = v3_header(10_000_001, 0);
    assert!(matches!(parse_gguf_bytes(&buf), Err(GgufError::InvalidMetadata(_))));
    let mut empty_key = v3_header(0, 1);
    empty_key.extend_from_slice(&0u64.to_le_bytes());
    assert!(matches!(parse_gguf_bytes(&empty_key), Err(GgufError::KeyLengthOutOfRange(0))));
    let mut long_key = v3_header(0, 1);
    long_key.extend_from_slice(&(1_048_577u64).to_le_bytes());
    assert!(matches!(
        parse_gguf_bytes(&long_key),
        Err(GgufError::KeyLengthOutOfRange(1_048_577))
    ));
    let mut cut_key = v3_header(0, 1);
    cut_key.extend_from_slice(&5u64.to_le_bytes());
    cut_key.extend_from_slice(b"ab");
    assert!(matches!(
        parse_gguf_bytes(&cut_key),
        Err(GgufError::UnexpectedEof { expected: 5, actual: 0 })
    ));
    let mut bad_name = v3_header(1, 0);
    bad_name.extend_from_slice(&0u64.to_le_bytes());
    assert!(matches!(parse_gguf_bytes(&bad_name), Err(GgufError::TensorNameLengthOutOfRange(0))));
}

#[test]
fn value_types_are_checked() {
    let mut unknown = v3_header(0, 1);
    push_v3_key(&mut unknown, "k", 17);
    assert!(matches!(parse_gguf_bytes(&unknown), Err(GgufError::InvalidValueType(17))));
    let mut nested = v3_header(0, 1);
    push_v3_key(&mut nested, "k", 9);
    nested.extend_from_slice(&9u32.to_le_bytes());
    nested.extend_from_slice(&1u64.to_le_bytes());
    assert!(matches!(parse_gguf_bytes(&nested), Err(GgufError::UnsupportedArrayElementType(9))));
    let mut bad_utf8 = v3_header(0, 1);
    push_v3_key(&mut bad_utf8, "k", 8);
    bad_utf8.extend_from_slice(&1u64.to_le_bytes());
    bad_utf8.push(0xff);
    assert!(matches!(parse_gguf_bytes(&bad_utf8), Err(GgufError::Utf8(_))));
}

#[test]
fn alignment_comes_from_general_alignment() {
    let mut buf = v3_header(0, 1);
    push_v3_key(&mut buf, "general.alignment", 4);
    buf.extend_from_slice(&64u32.to_le_bytes());
    let header = parse_gguf_bytes(&buf).expect("aligned");
    assert_eq!(header.data_alignment, Some(64));
    assert_eq!(header.data_section_start % 64, 0);
    let mut bad = v3_header(0, 1);
    push_v3_key(&mut bad, "general.alignment", 4);
    bad.extend_from_slice(&48u32.to_le_bytes());
    assert!(matches!(parse_gguf_bytes(&bad), Err(GgufError::AlignmentOutOfRange(48))));
    let mut zero = v3_header(0, 1);
    push_v3_key(&mut zero, "general.alignment", 4);
    zero.extend_from_slice(&0u32.to_le_bytes());
    assert!(matches!(parse_gguf_bytes(&zero), Err(GgufError::AlignmentOutOfRange(0))));
}

#[test]
fn v1_and_v2_layouts_parse() {
    // v1: u32 counts, u32 key and string lengths, no tensor descriptors.
    let mut v1 = Vec::new();
    v1.extend_from_slice(b"GGUF");
    v1.extend_from_slice(&1u32.to_le_bytes());
    v1.extend_from_slice(&0u32.to_le_bytes());
    v1.extend_from_slice(&1u32.to_le_bytes());
    v1.extend_from_slice(&3u32.to_le_bytes());
    v1.extend_from_slice(b"key");
    v1.extend_from_slice(&8u32.to_le_bytes());
    v1.extend_from_slice(&2u32.to_le_bytes());
    v1.extend_from_slice(b"hi");
    let h1 = parse_gguf_bytes(&v1).expect("v1");
    assert_eq!(h1.version, 1);
    assert_eq!(h1.kv_pairs[0].value, GgufKvValue::String("hi".to_string()));
    // v2: u64 counts, u32 key lengths, u64 array counts.
    let mut v2 = Vec::new();
    v2.extend_from_slice(b"GGUF");
    v2.extend_from_slice(&2u32.to_le_bytes());
    v2.extend_from_slice(&0u64.to_le_bytes());
    v2.extend_from_slice(&1u64.to_le_bytes());
    v2.extend_from_slice(&1u32.to_le_bytes());
    v2.extend_from_slice(b"a");
    v2.extend_from_slice(&9u32.to_le_bytes());
    v2.extend_from_slice(&3u32.to_le_bytes());
    v2.extend_from_slice(&2u64.to_le_bytes());
    v2.extend_from_slice(&(-1i16).to_le_bytes());
    v2.extend_from_slice(&7i16.to_le_bytes());
    let h2 = parse_gguf_bytes(&v2).expect("v2");
    assert_eq!(
        h2.kv_pairs[0].value,
        GgufKvValue::Array(vec![GgufKvValue::Int16(-1), GgufKvValue::Int16(7)])
    );
    assert_eq!(h2.kv_pairs[0].value_type, GgufValueType::Array);
}

#[test]
fn data_section_start_adds_the_sections_and_aligns() {
    let kv_pairs = vec![GgufKvPair {
        key: "k".to_string(),
        value_type: GgufValueType::Uint32,
        value: GgufKvValue::Uint32(1),
    }];
    let tensors = vec![GgufTensorInfo { name: "t".to_string(), shape: vec![4], offset: 0, dtype: 0 }];
    // 24 + (8 + 1 + 4 + 4) + (8 + 1 + 4 + 8 + 4 + 8) = 74
    assert_eq!(compute_data_section_start(&GgufWireFormat::v3(), &kv_pairs, &tensors, None), 74);
    assert_eq!(compute_data_section_start(&GgufWireFormat::v3(), &kv_pairs, &tensors, Some(0)), 74);
    assert_eq!(compute_data_section_start(&GgufWireFormat::v3(), &kv_pairs, &tensors, Some(32)), 96);
    // v2 uses 4-byte key and name lengths: 24 + 13 + 29 = 66.
    assert_eq!(compute_data_section_start(&GgufWireFormat::v2(), &kv_pairs, &tensors, Some(2)), 66);
}

#[test]
fn tensor_bytes_are_read_at_the_data_start_plus_the_offset() {
    assert_eq!(tensor_bytes_for_dtype(0, 4), 16);
    assert_eq!(tensor_bytes_for_dtype(2, 64), 36);
    assert_eq!(tensor_bytes_for_dtype(2, 33), 0);
    assert_eq!(tensor_bytes_for_dtype(4, 32), 0);
    let file: Vec<u8> = (0u8..40).collect();
    assert_eq!(extract_tensor_bytes(&file, 0, 2, 0, 0).unwrap(), (0u8..8).collect::<Vec<u8>>());
    assert_eq!(extract_tensor_bytes(&file, 0, 2, 4, 16).unwrap(), (20u8..28).collect::<Vec<u8>>());
    assert_eq!(extract_tensor_bytes_from(&file, 1, 3, 2, 32).unwrap(), vec![34, 35, 36, 37, 38, 39]);
    assert!(matches!(extract_tensor_bytes(&file, 0, 11, 0, 0), Err(GgufError::Binary(_))));
    assert!(matches!(extract_tensor_bytes(&file, 0, 2, 1, 32), Err(GgufError::Binary(_))));
    assert!(matches!(extract_tensor_bytes(&file, 0, 1, u64::MAX, 1), Err(GgufError::Binary(_))));
}

#[test]
fn a_v1_file_holds_its_tensor_descriptors() {
    let mut v1 = Vec::new();
    v1.extend_from_slice(b"GGUF");
    v1.extend_from_slice(&1u32.to_le_bytes());
    v1.extend_from_slice(&1u32.to_le_bytes());
    v1.extend_from_slice(&0u32.to_le_bytes());
    v1.extend_from_slice(&1u32.to_le_bytes());
    v1.extend_from_slice(b"t");
    v1.extend_from_slice(&1u32.to_le_bytes());
    v1.extend_from_slice(&32u64.to_le_bytes());
    v1.extend_from_slice(&0u32.to_le_bytes());
    v1.extend_from_slice(&0u64.to_le_bytes());
    let h = parse_gguf_bytes(&v1).expect("v1 with a tensor");
    assert_eq!(h.version, 1);
    assert!(h.kv_pairs.is_empty());
    assert_eq!(h.tensors.len(), 1);
    assert_eq!(h.tensors[0].name, "t");
    assert_eq!(h.tensors[0].shape, vec![32]);
    assert_eq!(h.tensors[0].offset, 0);
    assert_eq!(h.tensors[0].dtype, 0);
    // 16 + (4 + 1 + 4 + 8 + 4 + 8) = 45, aligned to 32.
    assert_eq!(v1.len(), 45);
    assert_eq!(h.data_section_start, 64);
    assert_eq!(compute_data_section_start(&GgufWireFormat::v1(), &[], &h.tensors, Some(32)), 64);
    assert_eq!(compute_data_section_start(&GgufWireFormat::v1(), &[], &[], None), 16);
}

#[test]
fn the_data_starts_after_the_bytes_read() {
    // A bfloat16 array takes 2 bytes an element.
    let mut buf = v3_header(0, 1);
    push_v3_key(&mut buf, "bf", 9);
    buf.extend_from_slice(&15u32.to_le_bytes());
    buf.extend_from_slice(&20u64.to_le_bytes());
    buf.extend_from_slice(&[0u8; 40]);
    let end = buf.len();
    assert_eq!(end, 24 + 8 + 2 + 4 + 4 + 8 + 40);
    let h = parse_gguf_bytes(&buf).expect("bf16 array");
    assert_eq!(h.data_section_start, 96);
    let kv = &h.kv_pairs;
    assert_eq!(compute_data_section_start(&GgufWireFormat::v3(), kv, &[], Some(32)), 96);
    assert_eq!(compute_data_section_start(&GgufWireFormat::v3(), kv, &[], None), end as u64);
}

#[test]
fn arrays_refuse_f64_elements_and_overlong_counts() {
    let mut f64s = v3_header(0, 1);
    push_v3_key(&mut f64s, "f", 9);
    f64s.extend_from_slice(&12u32.to_le_bytes());
    f64s.extend_from_slice(&1u64.to_le_bytes());
    f64s.extend_from_slice(&1.5f64.to_le_bytes());
    assert!(matches!(parse_gguf_bytes(&f64s), Err(GgufError::UnsupportedArrayElementType(12))));
    let mut long = v3_header(0, 1);
    push_v3_key(&mut long, "l", 9);
    long.extend_from_slice(&4u32.to_le_bytes());
    long.extend_from_slice(&10_000_001u64.to_le_bytes());
    assert!(matches!(parse_gguf_bytes(&long), Err(GgufError::ArrayLengthOutOfRange(10_000_001))));
}

#[test]
fn bytes_after_the_header_do_not_change_it() {
    let mut buf = v3_header(1, 1);
    push_v3_key(&mut buf, "general.alignment", 4);
    buf.extend_from_slice(&64u32.to_le_bytes());
    buf.extend_from_slice(&1u64.to_le_bytes());
    buf.extend_from_slice(b"t");
    buf.extend_from_slice(&1u32.to_le_bytes());
    buf.extend_from_slice(&3u64.to_le_bytes());
    buf.extend_from_slice(&0u32.to_le_bytes());
    buf.extend_from_slice(&0u64.to_le_bytes());
    let alone = parse_gguf_bytes(&buf).expect("header");
    let mut longer = buf.clone();
    longer.extend_from_slice(&[0xAB; 100]);
    let followed = parse_gguf_bytes(&longer).expect("header with data");
    assert_eq!(alone.kv_pairs.len(), followed.kv_pairs.len());
    assert_eq!(alone.kv_pairs[0].key, followed.kv_pairs[0].key);
    assert_eq!(alone.kv_pairs[0].value, followed.kv_pairs[0].value);
    assert_eq!(alone.tensors.len(), followed.tensors.len());
    assert_eq!(alone.tensors[0].shape, followed.tensors[0].shape);
    assert_eq!(alone.data_alignment, followed.data_alignment);
    assert_eq!(alone.data_section_start, followed.data_section_start);
    assert_eq!(alone.data_section_start, 128);
}

#[test]
fn a_top_level_typed_array_is_reported_by_its_declaration_index() {
    // Type 13 (Int8Array) has no reader as a value of its own; the error
    // carries the variant's position in the enum (12), not the wire number.
    let mut buf = v3_header(0, 1);
    push_v3_key(&mut buf, "k", 13);
    assert!(matches!(parse_gguf_bytes(&buf), Err(GgufError::InvalidValueType(12))));
    let mut u8s = v3_header(0, 1);
    push_v3_key(&mut u8s, "k", 14);
    assert!(matches!(parse_gguf_bytes(&u8s), Err(GgufError::InvalidValueType(13))));
    assert_eq!(pesti_gguf::types::default_data_alignment(), Some(32));
}

#[test]
fn the_prefix_parse_reports_where_the_header_ends() {
    let mut buf = v3_header(1, 0);
    buf.extend_from_slice(&3u64.to_le_bytes());
    buf.extend_from_slice(b"abc");
    buf.extend_from_slice(&2u32.to_le_bytes());
    buf.extend_from_slice(&2u64.to_le_bytes());
    buf.extend_from_slice(&5u64.to_le_bytes());
    buf.extend_from_slice(&0u32.to_le_bytes());
    buf.extend_from_slice(&0u64.to_le_bytes());
    let header_len = buf.len();
    assert_eq!(header_len, 24 + 8 + 3 + 4 + 16 + 4 + 8);
    buf.extend_from_slice(&[1u8; 40]);
    let (header, end) = pesti_gguf::parser::parse_gguf_prefix(&buf).expect("header");
    assert_eq!(end, header_len);
    assert_eq!(header.tensors[0].shape, vec![2, 5]);
    assert!(pesti_gguf::parser::parse_gguf_prefix(&buf[..header_len - 1]).is_err());
}

#[test]
fn the_count_limit_names_both_counts() {
    let buf = v3_header(3, 10_000_001);
    match parse_gguf_bytes(&buf) {
        Err(GgufError::InvalidMetadata(m)) => {
            assert_eq!(m, "Counts exceed maximum: kv=10000001, tensors=3")
        },
        other => panic!("unexpected {other:?}"),
    }
}
