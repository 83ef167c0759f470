use pesti_gguf::{
    parse_gguf_bytes, GgufDtype, GgufError, GgufKvPair, GgufKvValue, GgufTensorInfo, GgufValueType,
    GgufWriter,
};

fn kv(key: &str, value: GgufKvValue) -> GgufKvPair {
    GgufKvPair { key: key.to_string(), value_type: value.value_type(), value }
}

fn tensor(name: &str, shape: Vec<u64>, dtype: GgufDtype) -> GgufTensorInfo {
    GgufTensorInfo { name: name.to_string(), shape, dtype: dtype.to_u32(), offset: 0 }
}

#[test]
fn test_write_round_trip() {
    let mut writer = GgufWriter::new();
    writer.add_kv(kv("general.architecture", GgufKvValue::String("llama".to_string())));
    writer.add_kv(kv("general.quantization_version", GgufKvValue::Uint32(2)));
    writer.add_tensor(tensor("test.weight", vec![4], GgufDtype::F32));
    let data: Vec<f32> = vec![1.0, 2.0, 3.0, 4.0];
    let raw_data: Vec<u8> = data.iter().flat_map(|v| v.to_le_bytes()).collect();
    writer.add_tensor_data("test.weight", raw_data.clone());
    let bytes = writer.to_bytes().expect("Failed to write GGUF");
    let header = parse_gguf_bytes(&bytes).expect("Failed to parse written GGUF");
    assert_eq!(header.kv_pairs.len(), 2);
    assert_eq!(header.tensors.len(), 1);
    // The default writer alignment (256) is not what the pairs ask for (32),
    // so the data sits at the writer's 256-byte boundary.
    assert_eq!(&bytes[256..272], &raw_data[..]);
    assert_eq!(bytes.len(), 272);
}

#[test]
fn test_write_with_alignment() {
    let mut writer = GgufWriter::new().with_alignment(4096);
    writer.add_kv(kv("general.architecture", GgufKvValue::String("llama".to_string())));
    writer.add_tensor(tensor("test_tensor", vec![10], GgufDtype::F32));
    let data: Vec<f32> = (0..10).map(|v| v as f32).collect();
    let raw_data: Vec<u8> = data.iter().flat_map(|v| v.to_le_bytes()).collect();
    writer.add_tensor_data("test_tensor", raw_data);
    let bytes = writer.to_bytes().expect("Failed to write with alignment");
    assert!(bytes.len() > 0);
    assert_eq!(bytes.len(), 4096 + 40);
}

#[test]
fn test_round_trip_full_model() {
    let mut writer = GgufWriter::new();
    writer.add_kv(kv("general.architecture", GgufKvValue::String("qwen2".to_string())));
    writer.add_kv(kv("general.quantization_version", GgufKvValue::Uint32(2)));
    writer.add_kv(kv("general.type", GgufKvValue::String("q4_k_m".to_string())));
    writer.add_kv(kv("general.file_type", GgufKvValue::Uint32(15)));
    writer.add_kv(kv("qwen2.block_count", GgufKvValue::Uint32(32)));
    writer.add_kv(kv("qwen2.context_length", GgufKvValue::Uint32(4096)));
    writer.add_kv(kv("qwen2.embedding_length", GgufKvValue::Uint32(4096)));
    writer.add_kv(kv("qwen2.feed_forward_length", GgufKvValue::Uint32(11008)));
    writer.add_kv(kv("qwen2.attention.head_count", GgufKvValue::Uint32(32)));
    writer.add_kv(kv("qwen2.attention.head_count_kv", GgufKvValue::Uint32(8)));
    writer.add_kv(kv("qwen2.rope.freq_base", GgufKvValue::Float32(10000.0f32.to_bits())));
    writer.add_kv(kv(
        "qwen2.attention.layer_norm_rms_epsilon",
        GgufKvValue::Float32(1e-5f32.to_bits()),
    ));
    writer.add_kv(kv("tokenizer.ggml.model", GgufKvValue::String("qwen2".to_string())));
    writer.add_kv(kv(
        "tokenizer.ggml.tokens",
        GgufKvValue::Array(vec![
            GgufKvValue::String("[PAD]".to_string()),
            GgufKvValue::String("[UNK]".to_string()),
            GgufKvValue::String("[CLS]".to_string()),
            GgufKvValue::String("[SEP]".to_string()),
            GgufKvValue::String("[MASK]".to_string()),
        ]),
    ));
    let tensors = vec![
        tensor("token_embd.weight", vec![4096, 32000], GgufDtype::Q4_0),
        tensor("output.weight", vec![32000, 4096], GgufDtype::F32),
        tensor("blk.0.attn_norm.weight", vec![4096], GgufDtype::F32),
        tensor("blk.0.ffn_norm.weight", vec![4096], GgufDtype::F32),
        tensor("blk.0.attn_q.weight", vec![4096, 4096], GgufDtype::Q4_0),
        tensor("blk.0.attn_k.weight", vec![1024, 4096], GgufDtype::Q4_0),
        tensor("blk.0.attn_v.weight", vec![1024, 4096], GgufDtype::Q4_0),
        tensor("blk.0.attn_output.weight", vec![4096, 4096], GgufDtype::Q4_0),
        tensor("blk.0.ffn_gate.weight", vec![11008, 4096], GgufDtype::Q4_0),
        tensor("blk.0.ffn_down.weight", vec![4096, 11008], GgufDtype::Q4_0),
        tensor("blk.0.ffn_up.weight", vec![11008, 4096], GgufDtype::Q4_0),
    ];
    for t in &tensors {
        writer.add_tensor(t.clone());
    }
    for t in &tensors {
        let data_size = t.stored_size().unwrap() as usize;
        writer.add_tensor_data(&t.name, vec![0u8; data_size]);
    }
    let bytes = writer.to_bytes().expect("Failed to write full model GGUF");
    let header = parse_gguf_bytes(&bytes).expect("Failed to parse written GGUF");
    assert_eq!(header.kv_pairs.len(), 14, "Should have 14 KV pairs");
    assert_eq!(header.tensors.len(), 11, "Should have 11 tensors");
    let find = |k: &str| header.kv_pairs.iter().find(|p| p.key == k).map(|p| &p.value);
    assert_eq!(find("general.architecture"), Some(&GgufKvValue::String("qwen2".to_string())));
    assert_eq!(find("general.quantization_version"), Some(&GgufKvValue::Uint32(2)));
    assert_eq!(find("qwen2.block_count"), Some(&GgufKvValue::Uint32(32)));
    let tensor_names: Vec<&str> = header.tensors.iter().map(|t| t.name.as_str()).collect();
    assert!(tensor_names.contains(&"token_embd.weight"));
    assert!(tensor_names.contains(&"output.weight"));
    assert!(tensor_names.contains(&"blk.0.attn_q.weight"));
}

#[test]
fn written_header_parses_back_to_the_same_pairs_and_tensors() {
    let mut writer = GgufWriter::new().with_alignment(32);
    let pairs = vec![
        kv("a.i8", GgufKvValue::Int8(-5)),
        kv("a.i16", GgufKvValue::Int16(-300)),
        kv("a.i32", GgufKvValue::Int32(-70000)),
        kv("a.i64", GgufKvValue::Int64(-5_000_000_000)),
        kv("a.u16", GgufKvValue::Uint16(65535)),
        kv("a.u64", GgufKvValue::Uint64(u64::MAX)),
        kv("a.f64", GgufKvValue::Float64(2.5f64.to_bits())),
        kv("a.bool", GgufKvValue::Bool(true)),
        kv("a.arr", GgufKvValue::Array(vec![GgufKvValue::Int32(1), GgufKvValue::Int32(-2)])),
        kv("a.empty", GgufKvValue::Array(vec![])),
        kv("a.text", GgufKvValue::String("héllo".to_string())),
        kv("a.u8", GgufKvValue::Uint8(7)),
        kv("a.f16", GgufKvValue::Float16(0x3C00)),
        kv("a.bf16", GgufKvValue::Bfloat16(0x3F80_0000)),
        kv("a.u8s", GgufKvValue::Array(vec![GgufKvValue::Uint8(1), GgufKvValue::Uint8(200)])),
    ];
    for p in &pairs {
        writer.add_kv(p.clone());
    }
    let t = GgufTensorInfo { name: "w".to_string(), shape: vec![2, 3], offset: 0, dtype: 0 };
    writer.add_tensor(t.clone());
    writer.add_tensor_data("w", vec![7u8; 24]);
    let bytes = writer.to_bytes().unwrap();
    let header = parse_gguf_bytes(&bytes).unwrap();
    assert_eq!(header.version, 3);
    assert_eq!(header.kv_pairs.len(), pairs.len());
    for (got, want) in header.kv_pairs.iter().zip(pairs.iter()) {
        assert_eq!(got.key, want.key);
        assert_eq!(got.value_type, want.value_type);
        assert_eq!(got.value, want.value);
    }
    assert_eq!(header.tensors[0].name, t.name);
    assert_eq!(header.tensors[0].shape, t.shape);
    // With the writer aligned as the pairs ask (32), the parser finds the data
    // where the writer put it.
    let start = header.data_section_start as usize;
    assert_eq!(start % 32, 0);
    assert_eq!(&bytes[start..], &[7u8; 24][..]);
}

#[test]
fn a_v2_writer_writes_the_v2_layout() {
    let mut writer = GgufWriter::new().with_version(2).with_alignment(1);
    writer.add_kv(kv("a", GgufKvValue::String("b".to_string())));
    let bytes = writer.to_bytes().unwrap();
    assert_eq!(&bytes[4..8], &2u32.to_le_bytes());
    assert_eq!(&bytes[8..16], &0u64.to_le_bytes());
    assert_eq!(&bytes[16..24], &1u64.to_le_bytes());
    // u32 key length, key, type, u32 string length, string
    assert_eq!(&bytes[24..28], &1u32.to_le_bytes());
    assert_eq!(bytes[28], b'a');
    assert_eq!(&bytes[29..33], &8u32.to_le_bytes());
    assert_eq!(&bytes[33..37], &1u32.to_le_bytes());
    assert_eq!(bytes[37], b'b');
    assert_eq!(bytes.len(), 38);
    let header = parse_gguf_bytes(&bytes).unwrap();
    assert_eq!(header.version, 2);
    assert_eq!(header.kv_pairs[0].key, "a");
    assert_eq!(header.kv_pairs[0].value, GgufKvValue::String("b".to_string()));
}

#[test]
fn a_v1_writer_writes_u32_counts_and_reads_back() {
    let mut writer = GgufWriter::new().with_version(1).with_alignment(32);
    writer.add_kv(kv("general.alignment", GgufKvValue::Uint32(32)));
    writer.add_kv(kv("n", GgufKvValue::Array(vec![GgufKvValue::Uint16(5)])));
    writer.add_tensor(tensor("t", vec![32], GgufDtype::F32));
    writer.add_tensor_data("t", vec![1u8; 128]);
    let bytes = writer.to_bytes().unwrap();
    assert_eq!(&bytes[8..12], &1u32.to_le_bytes());
    assert_eq!(&bytes[12..16], &2u32.to_le_bytes());
    let header = parse_gguf_bytes(&bytes).unwrap();
    assert_eq!(header.version, 1);
    assert_eq!(header.kv_pairs.len(), 2);
    assert_eq!(header.kv_pairs[1].value, GgufKvValue::Array(vec![GgufKvValue::Uint16(5)]));
    assert_eq!(header.tensors[0].name, "t");
    let start = header.data_section_start as usize;
    assert_eq!(&bytes[start..], &[1u8; 128][..]);
}

#[test]
fn tensor_data_must_match_the_stored_size() {
    let mut writer = GgufWriter::default();
    writer.add_tensor(tensor("w", vec![4], GgufDtype::F32));
    writer.add_tensor_data("w", vec![0u8; 15]);
    match writer.to_bytes() {
        Err(GgufError::Io(m)) => assert_eq!(m, "tensor 'w' data size mismatch: expected 16, got 15"),
        other => panic!("unexpected {other:?}"),
    }

    let mut partial = GgufWriter::new();
    partial.add_tensor(tensor("q", vec![33], GgufDtype::Q8_0));
    partial.add_tensor_data("q", vec![0u8; 34]);
    assert!(matches!(partial.to_bytes(), Err(GgufError::InvalidTensor(_))));

    // Data under a name that no descriptor has is written as it is.
    let mut loose = GgufWriter::new().with_alignment(0);
    loose.add_tensor_data("nobody", vec![1, 2, 3]);
    let bytes = loose.to_bytes().unwrap();
    assert_eq!(bytes.len(), 24 + 3);
    assert_eq!(&bytes[24..], &[1, 2, 3]);
    assert_eq!(GgufValueType::Uint32.to_u32(), 4);
}

#[test]
fn sizes_fit_for_ordinary_writers() {
    let mut writer = GgufWriter::new();
    assert!(writer.sizes_fit());
    writer.add_kv(kv("k", GgufKvValue::Array(vec![GgufKvValue::String("a".into())])));
    writer.add_tensor(tensor("w", vec![3, 3], GgufDtype::F16));
    writer.add_tensor_data("w", vec![0u8; 18]);
    assert!(writer.sizes_fit());
    // Data for a tensor whose element count overflows is refused as an
    // invalid tensor.
    let mut huge = GgufWriter::new();
    huge.add_tensor(tensor("h", vec![u64::MAX, 3], GgufDtype::F32));
    huge.add_tensor_data("h", vec![]);
    assert!(huge.sizes_fit());
    assert!(matches!(huge.to_bytes(), Err(GgufError::InvalidTensor(_))));
    // Without data for it, the descriptor alone is written.
    let mut described = GgufWriter::new();
    described.add_tensor(tensor("h", vec![u64::MAX, 3], GgufDtype::F32));
    assert!(described.sizes_fit());
    assert!(described.to_bytes().is_ok());
}

#[test]
fn the_data_starts_after_the_written_header() {
    // An f64 array is written with 8 bytes an element; the data starts at
    // the first aligned position after the header's actual bytes.
    let mut writer = GgufWriter::new().with_alignment(32);
    let values: Vec<GgufKvValue> = (0..8).map(|i| GgufKvValue::Float64((i as f64).to_bits())).collect();
    writer.add_kv(kv("a", GgufKvValue::Array(values)));
    writer.add_tensor_data("x", vec![9u8; 4]);
    let bytes = writer.to_bytes().unwrap();
    let header_len = 24 + 8 + 1 + 4 + 12 + 64;
    assert_eq!(header_len, 113);
    assert_eq!(bytes.len(), 128 + 4);
    assert!(bytes[header_len..128].iter().all(|b| *b == 0));
    assert_eq!(&bytes[128..], &[9u8; 4]);
    // Arrays may not hold f64 values, so the reader refuses the file.
    assert!(matches!(parse_gguf_bytes(&bytes), Err(GgufError::UnsupportedArrayElementType(12))));
}

#[test]
fn small_scalars_and_byte_arrays_are_written() {
    let mut writer = GgufWriter::new().with_alignment(1);
    writer.add_kv(kv("u", GgufKvValue::Uint8(7)));
    let bytes = writer.to_bytes().unwrap();
    assert_eq!(bytes.len(), 24 + 8 + 1 + 4 + 1);
    assert_eq!(bytes[bytes.len() - 1], 7);

    let mut bf = GgufWriter::new().with_alignment(1);
    bf.add_kv(kv("b", GgufKvValue::Bfloat16(0x3F80_0000)));
    let bytes = bf.to_bytes().unwrap();
    assert_eq!(&bytes[bytes.len() - 2..], &0x3F80u16.to_le_bytes());
    let back = parse_gguf_bytes(&bytes).unwrap();
    assert_eq!(back.kv_pairs[0].value, GgufKvValue::Bfloat16(0x3F80_0000));

    let mut raw = GgufWriter::new().with_alignment(1);
    raw.add_kv(kv("r", GgufKvValue::Uint8Array(vec![1, 2, 3])));
    raw.add_kv(kv("s", GgufKvValue::Int8Array(vec![-1])));
    let bytes = raw.to_bytes().unwrap();
    let first = 24 + 8 + 1 + 4;
    assert_eq!(&bytes[first..first + 8], &3u64.to_le_bytes());
    assert_eq!(&bytes[first + 8..first + 11], &[1, 2, 3]);
    assert_eq!(bytes[bytes.len() - 1], 0xFF);
}

#[test]
fn a_parsed_header_written_back_reads_the_same() {
    let mut first = GgufWriter::new().with_alignment(64);
    first.add_kv(kv("general.alignment", GgufKvValue::Uint32(64)));
    first.add_kv(kv("general.name", GgufKvValue::String("tiny".to_string())));
    first.add_kv(kv(
        "flags",
        GgufKvValue::Array(vec![GgufKvValue::Bool(true), GgufKvValue::Bool(false)]),
    ));
    first.add_tensor(tensor("w", vec![32], GgufDtype::Q8_0));
    first.add_tensor_data("w", vec![3u8; 34]);
    let bytes = first.to_bytes().unwrap();
    let header = parse_gguf_bytes(&bytes).unwrap();

    let mut second = GgufWriter::new();
    for p in &header.kv_pairs {
        second.add_kv(p.clone());
    }
    for t in &header.tensors {
        second.add_tensor(t.clone());
    }
    let again = parse_gguf_bytes(&second.to_bytes().unwrap()).unwrap();
    assert_eq!(again.kv_pairs.len(), header.kv_pairs.len());
    for (a, b) in again.kv_pairs.iter().zip(header.kv_pairs.iter()) {
        assert_eq!(a.key, b.key);
        assert_eq!(a.value, b.value);
    }
    assert_eq!(again.tensors.len(), 1);
    assert_eq!(again.tensors[0].name, "w");
    assert_eq!(again.tensors[0].dtype, 8);
    assert_eq!(again.data_alignment, Some(64));
    assert_eq!(header.data_alignment, Some(64));
}
