use pesti_gguf::src::types::{
    GgufDtype, GgufHeader, GgufKvPair, GgufKvValue, GgufTensorInfo, GgufValueType, GgufVersion,
};

fn kv(key: &str, value_type: GgufValueType, value: GgufKvValue) -> GgufKvPair {
    GgufKvPair { key: key.to_string(), value_type, value }
}

fn header(kv_pairs: Vec<GgufKvPair>, tensors: Vec<GgufTensorInfo>) -> GgufHeader {
    GgufHeader { version: 3, kv_pairs, tensors, data_alignment: None, data_section_start: 0 }
}

#[test]
fn test_gguf_version_from_u32() {
    assert_eq!(GgufVersion::from_u32(1), Some(GgufVersion::V1));
    assert_eq!(GgufVersion::from_u32(2), Some(GgufVersion::V2));
    assert_eq!(GgufVersion::from_u32(3), Some(GgufVersion::V3));
    assert_eq!(GgufVersion::from_u32(4), None);
}

#[test]
fn test_gguf_version_to_u32() {
    assert_eq!(GgufVersion::V1.to_u32(), 1);
    assert_eq!(GgufVersion::V2.to_u32(), 2);
    assert_eq!(GgufVersion::V3.to_u32(), 3);
}

#[test]
fn test_value_type_from_u32() {
    assert_eq!(GgufValueType::from_u32(0), Some(GgufValueType::Uint8));
    assert_eq!(GgufValueType::from_u32(6), Some(GgufValueType::Float32));
    assert_eq!(GgufValueType::from_u32(7), Some(GgufValueType::Bool));
    assert_eq!(GgufValueType::from_u32(8), Some(GgufValueType::String));
    assert_eq!(GgufValueType::from_u32(9), Some(GgufValueType::Array));
    assert_eq!(GgufValueType::from_u32(10), Some(GgufValueType::Uint64));
    assert_eq!(GgufValueType::from_u32(11), Some(GgufValueType::Int64));
    assert_eq!(GgufValueType::from_u32(12), Some(GgufValueType::Float64));
    assert_eq!(GgufValueType::from_u32(13), Some(GgufValueType::Int8Array));
    assert_eq!(GgufValueType::from_u32(14), Some(GgufValueType::Uint8Array));
    assert_eq!(GgufValueType::from_u32(15), Some(GgufValueType::Bfloat16));
    assert_eq!(GgufValueType::from_u32(16), Some(GgufValueType::Float16));
}

#[test]
fn test_value_type_element_size() {
    assert_eq!(GgufValueType::Uint8.element_size(), Some(1));
    assert_eq!(GgufValueType::Float32.element_size(), Some(4));
    assert_eq!(GgufValueType::String.element_size(), None);
    assert_eq!(GgufValueType::Array.element_size(), None);
}

#[test]
fn test_tensor_info_element_count() {
    let info = GgufTensorInfo { name: "test".to_string(), shape: vec![2, 3, 4], offset: 0, dtype: 0 };
    assert_eq!(info.element_count(), 24);
    assert_eq!(info.ndims(), 3);
}

#[test]
fn test_gguf_header_helpers() {
    let h = header(
        vec![
            kv(
                "general.architecture",
                GgufValueType::String,
                GgufKvValue::String("llama".to_string()),
            ),
            kv("llama.context_length", GgufValueType::Uint32, GgufKvValue::Uint32(4096)),
            kv("llama.embedding_length", GgufValueType::Uint32, GgufKvValue::Uint32(4096)),
            kv(
                "llama.attention.layer_norm_rms_epsilon",
                GgufValueType::Float32,
                GgufKvValue::Float32(1e-5f32.to_bits()),
            ),
        ],
        vec![GgufTensorInfo { name: "token_embd.weight".to_string(), shape: vec![4096], offset: 0, dtype: 1 }],
    );
    assert_eq!(h.architecture(), Some("llama"));
    assert_eq!(h.context_length(), Some(4096));
    assert_eq!(h.embedding_length(), Some(4096));
    assert_eq!(h.has_tensor("token_embd.weight"), true);
    assert_eq!(h.has_tensor("missing"), false);
}

#[test]
fn test_empty_header() {
    let h = header(vec![], vec![]);
    assert_eq!(h.architecture(), None);
    assert_eq!(h.context_length(), None);
    assert_eq!(h.get_kv_str("anything"), None);
    assert_eq!(h.get_kv_u32("anything"), None);
    assert_eq!(h.get_kv_i32("anything"), None);
    assert_eq!(h.get_kv_u64("anything"), None);
    assert_eq!(h.get_kv_bool("anything"), None);
    assert!(h.get_kv_array("anything").is_none());
    assert!(h.get_tensor("anything").is_none());
    assert!(!h.has_tensor("anything"));
    assert_eq!(h.file_type(), None);
    assert_eq!(h.rope_scaling_type(), None);
    assert_eq!(h.quantization_description(), None);
    assert_eq!(h.vocab_size(), None);
    assert_eq!(h.feed_forward_length(), None);
    assert_eq!(h.rope_dimension_count(), None);
    assert_eq!(h.block_count(), None);
    assert_eq!(h.attention_head_count(), None);
    assert_eq!(h.attention_head_count_kv(), None);
    assert!(h.rope_scaling().is_none());
}

#[test]
fn test_string_kv_pair_raw_byte_size() {
    let p = kv("arch", GgufValueType::String, GgufKvValue::String("llama".to_string()));
    assert_eq!(p.raw_byte_size(), 25);
}

#[test]
fn test_string_kv_pair_raw_byte_size_empty() {
    let p = kv("k", GgufValueType::String, GgufKvValue::String("".to_string()));
    assert_eq!(p.raw_byte_size(), 17);
}

#[test]
fn the_v3_size_counts_a_u64_key_length() {
    let p = kv("k", GgufValueType::String, GgufKvValue::String("".to_string()));
    assert_eq!(p.raw_byte_size_v3(), 21);
    let q = kv("arch", GgufValueType::String, GgufKvValue::String("llama".to_string()));
    assert_eq!(q.raw_byte_size_v3(), 29);
}

#[test]
fn test_array_kv_pair_raw_byte_size() {
    let p = kv(
        "arr",
        GgufValueType::Array,
        GgufKvValue::Array(vec![GgufKvValue::Uint32(1), GgufKvValue::Uint32(2), GgufKvValue::Uint32(3)]),
    );
    assert_eq!(p.raw_byte_size(), 32);
}

#[test]
fn string_array_size_counts_only_the_strings() {
    let p = kv(
        "tokens",
        GgufValueType::Array,
        GgufKvValue::Array(vec![GgufKvValue::String("ab".into()), GgufKvValue::String("c".into())]),
    );
    assert_eq!(p.raw_byte_size(), (8 + 2) + (8 + 1) + 1 + 8);
    assert_eq!(p.raw_byte_size_v3(), p.raw_byte_size());
}

#[test]
fn test_kv_value_conversions() {
    let u8_val = GgufKvValue::Uint8(255);
    assert_eq!(u8_val.as_u64(), Some(255));
    assert_eq!(u8_val.as_u32(), Some(255));
    assert!(u8_val.as_i64().is_none());
    assert!(u8_val.as_bool().is_none());
    assert!(u8_val.as_str().is_none());
    assert!(u8_val.as_array().is_none());

    let i8_val = GgufKvValue::Int8(-128);
    assert_eq!(i8_val.as_i64(), Some(-128));
    assert!(i8_val.as_u64().is_none());

    let f32_val = GgufKvValue::Float32(3.14f32.to_bits());
    assert!(matches!(f32_val, GgufKvValue::Float32(bits) if f32::from_bits(bits) == 3.14));
    assert_eq!(f32_val.as_u32(), None);

    let f32_val = GgufKvValue::Float32(3.14159f32.to_bits());
    assert!(matches!(f32_val, GgufKvValue::Float32(bits) if f32::from_bits(bits) == 3.14159f32));

    let bool_val = GgufKvValue::Bool(true);
    assert_eq!(bool_val.as_bool(), Some(true));

    let str_val = GgufKvValue::String("hello".to_string());
    assert_eq!(str_val.as_str(), Some("hello"));

    assert_eq!(GgufKvValue::Int16(-3).as_i32(), Some(-3));
    assert_eq!(GgufKvValue::Int64(-3).as_i32(), None);
    assert_eq!(GgufKvValue::Uint64(u64::MAX).as_u32(), Some(u32::MAX));
    assert_eq!(GgufKvValue::Int8Array(vec![1]).value_type(), GgufValueType::Int8Array);
    assert_eq!(GgufKvValue::Bfloat16(0).value_type_name(), "bf16");
    assert_eq!(GgufKvValue::Array(vec![]).value_type_name(), "array");
    let arr = GgufKvValue::Array(vec![GgufKvValue::Uint8(1)]);
    assert_eq!(arr.as_array().map(|a| a.len()), Some(1));
}

#[test]
fn test_dtype_roundtrip_all() {
    for v in [0, 1, 2, 3, 6, 7, 8, 9, 10, 11, 12, 13, 14, 15, 24, 25, 26, 27, 28, 30] {
        let dt = GgufDtype::from_u32(v);
        assert_eq!(dt.to_u32(), v, "roundtrip failed for {v}");
    }
    for v in [4, 5, 16, 17, 18, 19, 31, 32, 33, 34, 35, 100] {
        let dt = GgufDtype::from_u32(v);
        if let GgufDtype::Unknown(val) = dt {
            assert_eq!(val, v);
        } else {
            panic!("expected Unknown({v}) for input {v}");
        }
    }
}

#[test]
fn test_is_quantized_all() {
    let quantized = [
        GgufDtype::Q4_0, GgufDtype::Q4_1, GgufDtype::Q5_0, GgufDtype::Q5_1,
        GgufDtype::Q8_0, GgufDtype::Q8_1, GgufDtype::Q2_K, GgufDtype::Q3_K,
        GgufDtype::Q4_K, GgufDtype::Q5_K, GgufDtype::Q6_K, GgufDtype::Q8_K,
        GgufDtype::Q1_K, GgufDtype::Q4_K_M, GgufDtype::Q5_K_M, GgufDtype::Q6_K_S,
        GgufDtype::Q8_K_M, GgufDtype::Q2_K_S, GgufDtype::Q3_K_S, GgufDtype::Q4_K_S,
        GgufDtype::Q5_K_S, GgufDtype::Q2_K_M,
    ];
    for dt in &quantized {
        assert!(dt.is_quantized(), "{dt:?} should be quantized");
    }
    let unquantized = [
        GgufDtype::F32, GgufDtype::F16, GgufDtype::I8, GgufDtype::I16,
        GgufDtype::I32, GgufDtype::I64, GgufDtype::F64, GgufDtype::BF16,
    ];
    for dt in &unquantized {
        assert!(!dt.is_quantized(), "{dt:?} should not be quantized");
    }
}

#[test]
fn test_stored_size_quantized_variants() {
    let q8 = GgufTensorInfo { name: "t".to_string(), shape: vec![32], offset: 0, dtype: 8 };
    assert_eq!(q8.stored_size(), 34);
    let q8_2 = GgufTensorInfo { name: "t".to_string(), shape: vec![64], offset: 0, dtype: 8 };
    assert_eq!(q8_2.stored_size(), 68);
    let q8_3 = GgufTensorInfo { name: "t".to_string(), shape: vec![33], offset: 0, dtype: 8 };
    assert_eq!(q8_3.stored_size(), 37);
    let q4 = GgufTensorInfo { name: "t".to_string(), shape: vec![32], offset: 0, dtype: 2 };
    assert_eq!(q4.stored_size(), 18);
    let q4_2 = GgufTensorInfo { name: "t".to_string(), shape: vec![64], offset: 0, dtype: 2 };
    assert_eq!(q4_2.stored_size(), 36);
    let q2 = GgufTensorInfo { name: "t".to_string(), shape: vec![1], offset: 0, dtype: 10 };
    assert!(q2.stored_size() > 0);
    let q6 = GgufTensorInfo { name: "t".to_string(), shape: vec![256], offset: 0, dtype: 14 };
    assert!(q6.stored_size() > 0);
    let q8k = GgufTensorInfo { name: "t".to_string(), shape: vec![256], offset: 0, dtype: 15 };
    assert!(q8k.stored_size() > 0);
}

#[test]
fn test_stored_size_integer_types() {
    let i8_t = GgufTensorInfo { name: "t".to_string(), shape: vec![100], offset: 0, dtype: 24 };
    assert_eq!(i8_t.stored_size(), 100);
    let i16_t = GgufTensorInfo { name: "t".to_string(), shape: vec![100], offset: 0, dtype: 25 };
    assert_eq!(i16_t.stored_size(), 200);
    let i32_t = GgufTensorInfo { name: "t".to_string(), shape: vec![100], offset: 0, dtype: 26 };
    assert_eq!(i32_t.stored_size(), 400);
    let i64_t = GgufTensorInfo { name: "t".to_string(), shape: vec![100], offset: 0, dtype: 27 };
    assert_eq!(i64_t.stored_size(), 800);
    let f64_t = GgufTensorInfo { name: "t".to_string(), shape: vec![100], offset: 0, dtype: 28 };
    assert_eq!(f64_t.stored_size(), 800);
}

#[test]
fn stored_size_estimates_exact_values() {
    // Q4_1: one whole block of 32 and a partial block of 5 (4 + ceil(5/2)).
    let q4_1 = GgufTensorInfo { name: "t".to_string(), shape: vec![37], offset: 0, dtype: 3 };
    assert_eq!(q4_1.stored_size(), 20 + 4 + 3);
    // Q6_K: n/2 + n/4 + 256.
    let q6 = GgufTensorInfo { name: "t".to_string(), shape: vec![256], offset: 0, dtype: 14 };
    assert_eq!(q6.stored_size(), 128 + 64 + 256);
    // Q2_K: n/4 + n*6/32 + 8.
    let q2 = GgufTensorInfo { name: "t".to_string(), shape: vec![64], offset: 0, dtype: 10 };
    assert_eq!(q2.stored_size(), 16 + 12 + 8);
    // Unknown dtypes count 2 bytes per element.
    let unk = GgufTensorInfo { name: "t".to_string(), shape: vec![10], offset: 0, dtype: 99 };
    assert_eq!(unk.stored_size(), 20);
    assert_eq!(unk.raw_byte_size(), 8 + 1 + 4 + 8 + 4 + 8);
}

#[test]
fn test_get_kv_with_type_conversion() {
    let h = header(
        vec![
            kv("general.architecture", GgufValueType::String, GgufKvValue::String("llama".to_string())),
            kv("general.file_type", GgufValueType::Uint32, GgufKvValue::Uint32(6)),
        ],
        vec![],
    );
    assert_eq!(h.get_kv_str("general.architecture"), Some("llama"));
    assert_eq!(h.get_kv_u32("general.file_type"), Some(6));
    assert!(h.get_kv_str("nonexistent").is_none());
    let v: Option<GgufKvValue> = h.get_kv("general.file_type");
    assert_eq!(v, Some(GgufKvValue::Uint32(6)));
}

#[test]
fn test_file_type_fallback_keys() {
    let h = header(vec![kv("ft", GgufValueType::String, GgufKvValue::String("Q4_0".to_string()))], vec![]);
    assert_eq!(h.file_type(), Some("Q4_0".to_string()));
}

#[test]
fn test_context_length_fallback_keys() {
    let h = header(vec![kv("n_ctx", GgufValueType::Uint32, GgufKvValue::Uint32(8192))], vec![]);
    assert_eq!(h.context_length(), Some(8192));
}

#[test]
fn test_embedding_length_fallback_keys() {
    let h = header(vec![kv("n_embd", GgufValueType::Uint32, GgufKvValue::Uint32(4096))], vec![]);
    assert_eq!(h.embedding_length(), Some(4096));
}

#[test]
fn test_block_count_fallback_keys() {
    let h = header(vec![kv("n_layer", GgufValueType::Uint32, GgufKvValue::Uint32(32))], vec![]);
    assert_eq!(h.block_count(), Some(32));
}

#[test]
fn test_attention_head_count_fallback_keys() {
    let h = header(vec![kv("n_head", GgufValueType::Uint32, GgufKvValue::Uint32(32))], vec![]);
    assert_eq!(h.attention_head_count(), Some(32));
}

#[test]
fn test_rope_fallback_keys() {
    let h = header(vec![kv("rope_type", GgufValueType::String, GgufKvValue::String("yarn".to_string()))], vec![]);
    assert_eq!(h.rope_scaling_type(), Some("yarn"));
}

#[test]
fn test_vocab_size_fallback_keys() {
    let h = header(vec![kv("n_vocab", GgufValueType::Uint32, GgufKvValue::Uint32(32000))], vec![]);
    assert_eq!(h.vocab_size(), Some(32000));
}

#[test]
fn test_quantization_description_fallback_keys() {
    let h = header(
        vec![kv("quantization", GgufValueType::String, GgufKvValue::String("Q4_0".to_string()))],
        vec![],
    );
    assert_eq!(h.quantization_description(), Some("Q4_0"));
}

#[test]
fn test_architecture_fallback_arch_key() {
    let h = header(vec![kv("arch", GgufValueType::String, GgufKvValue::String("mistral".to_string()))], vec![]);
    assert_eq!(h.architecture(), Some("mistral"));
}

#[test]
fn test_file_type_from_u32_key() {
    let h = header(vec![kv("general.file_type", GgufValueType::Uint32, GgufKvValue::Uint32(7))], vec![]);
    assert_eq!(h.file_type(), Some("7".to_string()));
}

#[test]
fn test_file_type_from_ft_u32_key() {
    let h = header(vec![kv("ft", GgufValueType::Uint32, GgufKvValue::Uint32(8))], vec![]);
    assert_eq!(h.file_type(), Some("8".to_string()));
}

#[test]
fn file_type_numbers_are_written_in_decimal() {
    let h = header(vec![kv("ft", GgufValueType::Uint32, GgufKvValue::Uint32(4_294_967_295))], vec![]);
    assert_eq!(h.file_type(), Some("4294967295".to_string()));
    let zero = header(vec![kv("ft", GgufValueType::Uint32, GgufKvValue::Uint32(0))], vec![]);
    assert_eq!(zero.file_type(), Some("0".to_string()));
}

#[test]
fn test_feed_forward_length_fallback_keys() {
    let h = header(vec![kv("n_ff", GgufValueType::Uint32, GgufKvValue::Uint32(11008))], vec![]);
    assert_eq!(h.feed_forward_length(), Some(11008));
}

#[test]
fn test_rope_dimension_count_fallback_keys() {
    let h = header(vec![kv("rope_dim", GgufValueType::Int32, GgufKvValue::Int32(128))], vec![]);
    assert_eq!(h.rope_dimension_count(), Some(128));
}

#[test]
fn head_count_kv_rope_scaling_and_lookups() {
    let h = header(
        vec![
            kv("attention.head_count_kv", GgufValueType::Uint32, GgufKvValue::Uint32(8)),
            kv(
                "rope.scaling",
                GgufValueType::Array,
                GgufKvValue::Array(vec![GgufKvValue::Uint32(1), GgufKvValue::Uint32(2)]),
            ),
            kv("flag", GgufValueType::Bool, GgufKvValue::Bool(false)),
            kv("big", GgufValueType::Uint64, GgufKvValue::Uint64(1 << 40)),
        ],
        vec![GgufTensorInfo { name: "w".to_string(), shape: vec![2, 2], offset: 64, dtype: 0 }],
    );
    assert_eq!(h.attention_head_count_kv(), Some(8));
    assert_eq!(h.rope_scaling().map(|a| a.len()), Some(2));
    assert_eq!(h.get_kv_bool("flag"), Some(false));
    assert_eq!(h.get_kv_u64("big"), Some(1 << 40));
    assert_eq!(h.get_tensor("w").map(|t| t.offset), Some(64));
}

#[test]
fn test_value_type_is_array() {
    assert!(GgufValueType::Array.is_array());
    assert!(!GgufValueType::Uint32.is_array());
    assert!(!GgufValueType::String.is_array());
}

#[test]
fn test_value_type_to_u32_roundtrip() {
    let types = vec![
        GgufValueType::Uint8, GgufValueType::Int8, GgufValueType::Uint16,
        GgufValueType::Int16, GgufValueType::Uint32, GgufValueType::Int32,
        GgufValueType::Uint64, GgufValueType::Int64, GgufValueType::String,
        GgufValueType::Float32, GgufValueType::Bool,
        GgufValueType::Array, GgufValueType::Int8Array, GgufValueType::Uint8Array,
        GgufValueType::Bfloat16, GgufValueType::Float16,
    ];
    for t in types {
        let raw = t.to_u32();
        assert_eq!(GgufValueType::from_u32(raw), Some(t), "failed for {:?}", t);
        assert_eq!(t.to_u8() as u32, raw);
    }
}

#[test]
fn test_value_type_from_u32_unmapped_reserved() {
    assert!(GgufValueType::from_u32(17).is_none());
    assert_eq!(GgufValueType::from_u32(16), Some(GgufValueType::Float16));
}

#[test]
fn test_gguf_version_from_u32_unmapped() {
    assert!(GgufVersion::from_u32(0).is_none());
    assert!(GgufVersion::from_u32(4).is_none());
    assert!(GgufVersion::from_u32(99).is_none());
}

#[test]
fn test_tensor_stored_size_q4_0_partial() {
    let info = GgufTensorInfo { name: "test".to_string(), shape: vec![32], offset: 0, dtype: 2 };
    assert_eq!(info.stored_size(), 18);
}

#[test]
fn test_total_tensor_bytes_f32_empty() {
    let h = header(vec![], vec![]);
    assert_eq!(h.total_tensor_bytes_f32(), 0);
}

#[test]
fn test_total_tensor_bytes_f32_single() {
    let h = header(
        vec![],
        vec![GgufTensorInfo { name: "t".to_string(), shape: vec![100, 200], offset: 0, dtype: 0 }],
    );
    assert_eq!(h.total_tensor_bytes_f32(), 100 * 200);
}

#[test]
fn dtype_names_and_mix_ids() {
    assert_eq!(GgufDtype::Q4_K_M.to_u32(), 21);
    assert_eq!(GgufDtype::Q8_K_M.to_u32(), 24);
    // The mixes share ids with other dtypes, so their ids do not name them.
    assert_eq!(GgufDtype::from_u32(GgufDtype::Q8_K_M.to_u32()), GgufDtype::I8);
    assert_eq!(GgufDtype::Q5_K_S.name(), "Q5_K_S");
    assert_eq!(GgufDtype::Unknown(77).name(), "unknown");
    assert_eq!(GgufDtype::Q8_0.bytes_per_element(), 2);
    assert_eq!(GgufDtype::Q4_K.bytes_per_element(), 0);
    assert_eq!(GgufDtype::F64.bytes_per_element(), 8);
}

#[test]
fn catalogue_header_clones_keep_everything() {
    let h = header(
        vec![kv("n_ctx", GgufValueType::Uint32, GgufKvValue::Uint32(2048))],
        vec![GgufTensorInfo { name: "w".to_string(), shape: vec![4], offset: 8, dtype: 1 }],
    );
    let c = h.clone();
    assert_eq!(c.context_length(), Some(2048));
    assert_eq!(c.tensors[0].offset, 8);
    assert_eq!(c.kv_pairs[0].value, GgufKvValue::Uint32(2048));
}

#[test]
fn config_entries_keep_the_last_value_of_each_key() {
    let h = header(
        vec![
            kv("a", GgufValueType::Uint32, GgufKvValue::Uint32(1)),
            kv("b", GgufValueType::String, GgufKvValue::String("x".to_string())),
            kv("a", GgufValueType::Uint32, GgufKvValue::Uint32(2)),
        ],
        vec![],
    );
    let entries = h.config_entries();
    assert_eq!(entries.len(), 2);
    assert_eq!(entries[0].0, "b");
    assert_eq!(entries[0].1, GgufKvValue::String("x".to_string()));
    assert_eq!(entries[1].0, "a");
    assert_eq!(entries[1].1, GgufKvValue::Uint32(2));
    assert!(header(vec![], vec![]).config_entries().is_empty());
}
