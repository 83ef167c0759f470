use pesti_gguf::format_inference::{
    expected_data_size, format_specs, is_suspicious_layer, suggested_layer_dtypes,
};
use pesti_gguf::GgufDtype;

#[test]
fn format_table_follows_ggml_type_traits() {
    let specs = format_specs();
    assert_eq!(specs.len(), 6);
    assert_eq!(specs[0], (GgufDtype::Q4_0, 32, 18));
    assert_eq!(specs[1], (GgufDtype::Q4_K, 256, 144));
    assert_eq!(specs[5], (GgufDtype::Q8_0, 32, 34));
    for (dtype, epb, bpb) in specs {
        assert_eq!(dtype.block_size(), Some(epb));
        assert_eq!(dtype.bytes_per_block(), Some(bpb));
    }
}

#[test]
fn expected_size_rounds_up_to_whole_blocks() {
    assert_eq!(expected_data_size(32, 32, 18), Some(18));
    assert_eq!(expected_data_size(33, 32, 18), Some(36));
    assert_eq!(expected_data_size(0, 32, 18), Some(0));
    assert_eq!(expected_data_size(394_002_432, 256, 176), Some(270_876_672));
    assert_eq!(expected_data_size(usize::MAX, 1, 2), None);
}

#[test]
fn suspicious_layers_by_name() {
    assert!(is_suspicious_layer("token_embd.weight"));
    assert!(is_suspicious_layer("TOKEN_EMBD.weight"));
    assert!(is_suspicious_layer("model.embeddings.word"));
    assert!(is_suspicious_layer("Output.weight"));
    assert!(is_suspicious_layer("lm_head.weight"));
    assert!(!is_suspicious_layer("blk.0.attn_q.weight"));
}

#[test]
fn layer_suggestions_for_quantized_special_layers() {
    assert_eq!(suggested_layer_dtypes("token_embd.weight", GgufDtype::Q5_K), vec![GgufDtype::F16]);
    assert_eq!(suggested_layer_dtypes("token_embd.weight", GgufDtype::Q4_0), vec![]);
    assert_eq!(suggested_layer_dtypes("token_embd.weight", GgufDtype::F16), vec![]);
    assert_eq!(
        suggested_layer_dtypes("output.weight", GgufDtype::Q6_K),
        vec![GgufDtype::F16, GgufDtype::F32]
    );
    assert_eq!(suggested_layer_dtypes("output.weight", GgufDtype::Q4_0), vec![GgufDtype::F32]);
    // The second check looks at the name as given, not lowercased.
    assert_eq!(suggested_layer_dtypes("OUTPUT.weight", GgufDtype::Q6_K), vec![GgufDtype::F16]);
    assert_eq!(suggested_layer_dtypes("blk.0.ffn_up.weight", GgufDtype::Q6_K), vec![]);
}
