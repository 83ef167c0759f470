use pesti_gguf::compute_data_section_start;
use pesti_gguf::{
    GgufDtype, GgufHeader, GgufKvPair, GgufKvValue, GgufTensorInfo, GgufValueType, GgufVersion,
    GgufWireFormat, IntWidth,
};

fn kv(key: &str, value: GgufKvValue) -> GgufKvPair {
    GgufKvPair { key: key.to_string(), value_type: value.value_type(), value }
}

fn header(kv_pairs: Vec<GgufKvPair>, tensors: Vec<GgufTensorInfo>) -> GgufHeader {
    GgufHeader { version: 3, kv_pairs, tensors, data_alignment: Some(32), data_section_start: 0 }
}

#[test]
fn types_test_dtype_roundtrip_all() {
    // Every dtype id that maps to a named variant in ggml.h.
    for v in [
        0, 1, 2, 3, 6, 7, 8, 9, 10, 11, 12, 13, 14, 15, 16, 17, 18, 19, 20, 21, 22, 23, 24, 25,
        26, 27, 28, 29, 30, 34, 35, 39, 40, 41, 42,
    ] {
        let dt = GgufDtype::from_u32(v);
        assert_eq!(dt.to_u32(), v, "roundtrip failed for {v}");
    }
    // Removed ids must resolve to Unknown.
    for v in [4, 5, 31, 32, 33, 36, 37, 38] {
        assert!(matches!(GgufDtype::from_u32(v), GgufDtype::Unknown(_)), "id {v} should be Unknown");
    }
}

#[test]
fn test_dtype_integer_types() {
    assert_eq!(GgufDtype::from_u32(24), GgufDtype::I8);
    assert_eq!(GgufDtype::from_u32(25), GgufDtype::I16);
    assert_eq!(GgufDtype::from_u32(26), GgufDtype::I32);
    assert_eq!(GgufDtype::from_u32(27), GgufDtype::I64);
    assert_eq!(GgufDtype::from_u32(28), GgufDtype::F64);
}

#[test]
fn test_stored_size_i8() {
    let info = GgufTensorInfo { name: "t".to_string(), shape: vec![100], offset: 0, dtype: 24 };
    assert_eq!(info.stored_size().unwrap(), 100);
}

#[test]
fn test_stored_size_i16() {
    let info = GgufTensorInfo { name: "t".to_string(), shape: vec![100], offset: 0, dtype: 25 };
    assert_eq!(info.stored_size().unwrap(), 200);
}

#[test]
fn test_stored_size_i32() {
    let info = GgufTensorInfo { name: "t".to_string(), shape: vec![100], offset: 0, dtype: 26 };
    assert_eq!(info.stored_size().unwrap(), 400);
}

#[test]
fn test_stored_size_i64() {
    let info = GgufTensorInfo { name: "t".to_string(), shape: vec![100], offset: 0, dtype: 27 };
    assert_eq!(info.stored_size().unwrap(), 800);
}

#[test]
fn test_stored_size_f64() {
    let info = GgufTensorInfo { name: "t".to_string(), shape: vec![100], offset: 0, dtype: 28 };
    assert_eq!(info.stored_size().unwrap(), 800);
}

#[test]
fn test_stored_size_overflow() {
    let info =
        GgufTensorInfo { name: "t".to_string(), shape: vec![u64::MAX / 4 + 1], offset: 0, dtype: 0 };
    assert!(info.stored_size().is_err());
}

#[test]
fn test_total_tensor_bytes_f32() {
    let h = header(
        vec![],
        vec![
            GgufTensorInfo { name: "a".into(), shape: vec![100], offset: 0, dtype: 0 },
            GgufTensorInfo { name: "b".into(), shape: vec![50], offset: 0, dtype: 0 },
        ],
    );
    // (100 + 50) elements * 4 bytes per F32 = 600 bytes
    assert_eq!(h.total_tensor_bytes_f32(), 600);
}

#[test]
fn test_v2_alignment_computation() {
    let kv_pairs: Vec<GgufKvPair> = vec![];
    let tensors: Vec<GgufTensorInfo> = vec![];
    let data_start = compute_data_section_start(&GgufWireFormat::v2(), &kv_pairs, &tensors, Some(256));
    assert_eq!(data_start % 256, 0, "Data section start should be aligned to 256 bytes");
    let data_start_32 =
        compute_data_section_start(&GgufWireFormat::v2(), &kv_pairs, &tensors, Some(32));
    assert_eq!(data_start_32 % 32, 0, "Data section start should be aligned to 32 bytes");
}

#[test]
fn test_embedding_length_architecture_specific() {
    let h = header(
        vec![
            kv("general.architecture", GgufKvValue::String("qwen2".to_string())),
            kv("qwen2.embedding_length", GgufKvValue::Uint32(4096)),
        ],
        vec![],
    );
    assert_eq!(h.embedding_length(), Some(4096));
}

#[test]
fn test_embedding_length_fallback_order() {
    let mut kv_pairs = vec![
        kv("general.architecture", GgufKvValue::String("mistral".to_string())),
        kv("llama.embedding_length", GgufKvValue::Uint32(5120)),
        kv("n_embd", GgufKvValue::Uint32(4096)),
        kv("mistral.embedding_length", GgufKvValue::Uint32(3072)),
    ];
    assert_eq!(header(kv_pairs.clone(), vec![]).embedding_length(), Some(5120));
    kv_pairs.remove(1);
    assert_eq!(header(kv_pairs.clone(), vec![]).embedding_length(), Some(4096));
    kv_pairs.remove(1);
    assert_eq!(header(kv_pairs.clone(), vec![]).embedding_length(), Some(3072));
    kv_pairs.remove(1);
    assert_eq!(header(kv_pairs.clone(), vec![]).embedding_length(), None);
    assert_eq!(header(vec![], vec![]).embedding_length(), None);
}

#[test]
fn dtype_from_u32_then_to_u32_gives_the_id_back() {
    for v in 0..100u32 {
        assert_eq!(GgufDtype::from_u32(v).to_u32(), v);
    }
    assert_eq!(GgufDtype::from_u32(u32::MAX).to_u32(), u32::MAX);
}

#[test]
fn dtype_to_u32_then_from_u32_gives_named_dtypes_back() {
    for v in 0..50u32 {
        let d = GgufDtype::from_u32(v);
        assert_eq!(GgufDtype::from_u32(d.to_u32()), d);
    }
    // An unknown dtype carrying an assigned id does not come back as itself.
    assert_eq!(GgufDtype::from_u32(GgufDtype::Unknown(0).to_u32()), GgufDtype::F32);
}

#[test]
fn dtype_block_layouts_follow_ggml() {
    assert_eq!(GgufDtype::Q4_0.block_size(), Some(32));
    assert_eq!(GgufDtype::Q4_0.bytes_per_block(), Some(18));
    assert_eq!(GgufDtype::Q4_K.block_size(), Some(256));
    assert_eq!(GgufDtype::Q4_K.bytes_per_block(), Some(144));
    assert_eq!(GgufDtype::F32.block_size(), Some(1));
    assert_eq!(GgufDtype::F32.bytes_per_element(), Some(4));
    assert_eq!(GgufDtype::Q8_0.bytes_per_element(), None);
    assert_eq!(GgufDtype::Unknown(99).block_size(), None);
    assert!(GgufDtype::Q6_K.is_quantized());
    assert!(!GgufDtype::BF16.is_quantized());
    assert_eq!(GgufDtype::Q5_K.name(), "Q5_K");
    assert_eq!(GgufDtype::Unknown(4).name(), "unknown");
}

#[test]
fn stored_size_is_blocks_times_block_bytes() {
    let q4 = GgufTensorInfo { name: "q".to_string(), shape: vec![64, 2], offset: 0, dtype: 2 };
    assert_eq!(q4.stored_size().unwrap(), 4 * 18);
    let q6 = GgufTensorInfo { name: "q".to_string(), shape: vec![512], offset: 0, dtype: 14 };
    assert_eq!(q6.stored_size().unwrap(), 2 * 210);
    let bf16 = GgufTensorInfo { name: "b".to_string(), shape: vec![3, 5], offset: 0, dtype: 30 };
    assert_eq!(bf16.stored_size().unwrap(), 30);
}

#[test]
fn stored_size_refuses_partial_blocks_and_unknown_dtypes() {
    let partial = GgufTensorInfo { name: "p".to_string(), shape: vec![33], offset: 0, dtype: 8 };
    assert!(matches!(partial.stored_size(), Err(pesti_gguf::GgufError::InvalidTensor(_))));
    let unknown = GgufTensorInfo { name: "u".to_string(), shape: vec![32], offset: 0, dtype: 4 };
    assert!(matches!(unknown.stored_size(), Err(pesti_gguf::GgufError::InvalidTensor(_))));
}

#[test]
fn element_count_multiplies_the_dimensions() {
    let t = GgufTensorInfo { name: "t".to_string(), shape: vec![2, 3, 4], offset: 0, dtype: 0 };
    assert_eq!(t.element_count(), 24);
    assert_eq!(t.element_count_checked(), Some(24));
    assert_eq!(t.ndims(), 3);
    let scalar = GgufTensorInfo { name: "s".to_string(), shape: vec![], offset: 0, dtype: 0 };
    assert_eq!(scalar.element_count(), 1);
    let huge = GgufTensorInfo { name: "h".to_string(), shape: vec![u64::MAX, 2], offset: 0, dtype: 0 };
    assert_eq!(huge.element_count_checked(), None);
}

#[test]
fn raw_byte_sizes_follow_the_wire_widths() {
    let t = GgufTensorInfo { name: "abc".to_string(), shape: vec![1, 2], offset: 0, dtype: 0 };
    assert_eq!(t.raw_byte_size_for_format(&GgufWireFormat::v3()), 8 + 3 + 4 + 16 + 4 + 8);
    assert_eq!(t.raw_byte_size_for_format(&GgufWireFormat::v2()), 4 + 3 + 4 + 16 + 4 + 8);
    let p = kv("arch", GgufKvValue::String("llama".to_string()));
    assert_eq!(p.raw_byte_size_for_format(&GgufWireFormat::v3()), 8 + 4 + 4 + 8 + 5);
    assert_eq!(p.raw_byte_size_for_format(&GgufWireFormat::v1()), 4 + 4 + 4 + 4 + 5);
    let arr = kv(
        "a",
        GgufKvValue::Array(vec![GgufKvValue::Uint16(1), GgufKvValue::Uint16(2)]),
    );
    assert_eq!(arr.raw_byte_size_for_format(&GgufWireFormat::v3()), 8 + 1 + 4 + 12 + 4);
    let strs = kv(
        "s",
        GgufKvValue::Array(vec![GgufKvValue::String("ab".into()), GgufKvValue::String("c".into())]),
    );
    assert_eq!(strs.raw_byte_size_for_format(&GgufWireFormat::v3()), 8 + 1 + 4 + 12 + 10 + 9);
    // The array count is counted as 8 bytes in every layout.
    assert_eq!(arr.raw_byte_size_for_format(&GgufWireFormat::v1()), 4 + 1 + 4 + 12 + 4);
}

#[test]
fn array_elements_count_their_own_fixed_size() {
    let f64s = GgufKvValue::Array(vec![GgufKvValue::Float64(0), GgufKvValue::Float64(1)]);
    assert_eq!(f64s.raw_byte_size_with_str_width(8), 28);
    let bf16s = GgufKvValue::Array(vec![GgufKvValue::Bfloat16(0); 3]);
    assert_eq!(bf16s.raw_byte_size_with_str_width(4), 12 + 6);
    assert_eq!(GgufKvValue::Array(vec![]).raw_byte_size_with_str_width(8), 12);
}

#[test]
fn an_overflowing_element_count_is_an_invalid_tensor() {
    let huge = GgufTensorInfo { name: "h".to_string(), shape: vec![u64::MAX, 2], offset: 0, dtype: 0 };
    assert!(matches!(huge.stored_size(), Err(pesti_gguf::GgufError::InvalidTensor(_))));
}

#[test]
fn versions_and_wire_formats() {
    assert_eq!(GgufVersion::from_u32(2), Some(GgufVersion::V2));
    assert_eq!(GgufVersion::from_u32(0), None);
    assert_eq!(GgufVersion::V3.to_u32(), 3);
    assert_eq!(GgufVersion::V1.wire_format(), GgufWireFormat::v1());
    assert_eq!(GgufVersion::V3.wire_format(), GgufWireFormat::v3());
    assert!(GgufWireFormat::v2().key_width.is_u32());
    assert!(GgufWireFormat::v2().array_count_width.is_u64());
    assert!(!IntWidth::U64.is_u32());
}

#[test]
fn value_types_and_conversions() {
    assert_eq!(GgufValueType::from_u32(6), Some(GgufValueType::Float32));
    assert_eq!(GgufValueType::from_u32(17), None);
    assert_eq!(GgufValueType::Float64.to_u32(), 12);
    assert_eq!(GgufValueType::Bfloat16.element_size(), Some(2));
    assert_eq!(GgufValueType::String.element_size(), None);
    assert_eq!(GgufKvValue::Int16(-1).as_u32(), Some(u32::MAX));
    assert_eq!(GgufKvValue::Int64(-2).as_u64(), Some(u64::MAX - 1));
    assert_eq!(GgufKvValue::Int64(-2).as_u32(), None);
    assert_eq!(GgufKvValue::Bool(true).as_bool(), Some(true));
    assert_eq!(GgufKvValue::String("x".into()).as_str(), Some("x"));
    assert_eq!(GgufKvValue::Float32(1.5f32.to_bits()).value_type(), GgufValueType::Float32);
    let v = GgufKvValue::Array(vec![GgufKvValue::String("a".into())]);
    assert_eq!(v.clone(), v);
}

#[test]
fn header_lookups_take_the_first_matching_pair() {
    let h = header(
        vec![
            kv("general.architecture", GgufKvValue::String("llama".to_string())),
            kv("llama.context_length", GgufKvValue::Uint32(4096)),
            kv("llama.context_length", GgufKvValue::Uint32(8192)),
            kv("n_layer", GgufKvValue::Uint64(32)),
        ],
        vec![GgufTensorInfo { name: "token_embd.weight".into(), shape: vec![8], offset: 0, dtype: 1 }],
    );
    assert_eq!(h.architecture(), Some("llama"));
    assert_eq!(h.context_length(), Some(4096));
    assert_eq!(h.block_count(), Some(32));
    assert_eq!(h.get_kv_str("llama.context_length"), None);
    assert_eq!(h.get_kv_u32("general.architecture"), None);
    let v: Option<GgufKvValue> = h.get_kv("llama.context_length");
    assert_eq!(v, Some(GgufKvValue::Uint32(4096)));
    assert!(h.has_tensor("token_embd.weight"));
    assert!(!h.has_tensor("missing"));
    let arch = header(vec![kv("arch", GgufKvValue::String("phi".into()))], vec![]);
    assert_eq!(arch.architecture(), Some("phi"));
    let h2 = h.clone();
    assert_eq!(h2.kv_pairs.len(), 4);
}

#[test]
fn stored_size_errors_name_the_fault() {
    let huge = GgufTensorInfo { name: "h".to_string(), shape: vec![u64::MAX, 2], offset: 0, dtype: 0 };
    match huge.stored_size() {
        Err(pesti_gguf::GgufError::InvalidTensor(m)) => assert_eq!(m, "tensor 'h' stored size overflow"),
        other => panic!("unexpected {other:?}"),
    }
    let partial = GgufTensorInfo { name: "q".to_string(), shape: vec![33], offset: 0, dtype: 8 };
    match partial.stored_size() {
        Err(pesti_gguf::GgufError::InvalidTensor(m)) => assert_eq!(
            m,
            "tensor 'q' has 33 elements, not a multiple of the 32-element block for dtype 8 (Q8_0)"
        ),
        other => panic!("unexpected {other:?}"),
    }
    let unknown = GgufTensorInfo { name: "u".to_string(), shape: vec![4], offset: 0, dtype: 4 };
    match unknown.stored_size() {
        Err(pesti_gguf::GgufError::InvalidTensor(m)) => {
            assert!(m.starts_with("dtype 4 ("));
            assert!(m.ends_with(") has no known block size"));
        },
        other => panic!("unexpected {other:?}"),
    }
}
