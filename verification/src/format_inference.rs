//! The integer side of format inference: the quantization layouts that a
//! tensor's stored size is checked against, the size each layout gives an
//! element count, and the warnings that a tensor's name and dtype call for.
//!
//! The confidence scores, which are floating-point, are computed outside
//! this library from these sizes.
use crate::text::{occurs_in, str_contains, to_lowercase, unicode_lowercase};
use crate::types::GgufDtype;
use vstd::prelude::*;

verus! {

/// The quantization layouts that inference knows, as ggml's type traits
/// give them: dtype, elements per block, bytes per block.
pub open spec fn format_table() -> Seq<(GgufDtype, usize, usize)> {
    seq![
        (GgufDtype::Q4_0, 32usize, 18usize),
        (GgufDtype::Q4_K, 256usize, 144usize),
        (GgufDtype::Q5_0, 32usize, 22usize),
        (GgufDtype::Q5_K, 256usize, 176usize),
        (GgufDtype::Q6_K, 256usize, 210usize),
        (GgufDtype::Q8_0, 32usize, 34usize),
    ]
}

/// The known quantization layouts, in the order inference tries them.
pub fn format_specs() -> (r: Vec<(GgufDtype, usize, usize)>)
    ensures
        r@ == format_table(),
{
    let r = vec![
        (GgufDtype::Q4_0, 32usize, 18usize),
        (GgufDtype::Q4_K, 256usize, 144usize),
        (GgufDtype::Q5_0, 32usize, 22usize),
        (GgufDtype::Q5_K, 256usize, 176usize),
        (GgufDtype::Q6_K, 256usize, 210usize),
        (GgufDtype::Q8_0, 32usize, 34usize),
    ];
    assert(r@ =~= format_table());
    r
}

/// The bytes that `elements` take in blocks of `elements_per_block`
/// elements and `bytes_per_block` bytes, a partial last block counted whole.
pub open spec fn blocks_size(elements: int, elements_per_block: int, bytes_per_block: int) -> int {
    (elements + elements_per_block - 1) / elements_per_block * bytes_per_block
}

/// The size a layout gives `claimed_elements` elements: whole blocks, the
/// last one rounded up; `None` where that size does not fit in `usize`.
pub fn expected_data_size(
    claimed_elements: usize,
    elements_per_block: usize,
    bytes_per_block: usize,
) -> (r: Option<usize>)
    requires
        elements_per_block > 0,
    ensures
        r == if blocks_size(
            claimed_elements as int,
            elements_per_block as int,
            bytes_per_block as int,
        ) <= usize::MAX {
            Some(
                blocks_size(
                    claimed_elements as int,
                    elements_per_block as int,
                    bytes_per_block as int,
                ) as usize,
            )
        } else {
            None::<usize>
        },
{
    let whole = claimed_elements / elements_per_block;
    let rem = claimed_elements % elements_per_block;
    assert(rem != 0 ==> whole < claimed_elements) by (nonlinear_arith)
        requires
            elements_per_block > 0,
            whole == claimed_elements / elements_per_block,
            rem == claimed_elements % elements_per_block,
    ;
    let num_blocks = if rem == 0 {
        whole
    } else {
        whole + 1
    };
    assert(num_blocks == (claimed_elements + elements_per_block - 1) / (elements_per_block as int))
        by (nonlinear_arith)
        requires
            elements_per_block > 0,
            whole == claimed_elements / elements_per_block,
            rem == claimed_elements % elements_per_block,
            rem == 0 ==> num_blocks == whole,
            rem != 0 ==> num_blocks == whole + 1,
    ;
    num_blocks.checked_mul(bytes_per_block)
}

/// The lowercase names of layers whose format deserves a second look:
/// embeddings and outputs.
pub open spec fn suspicious_name(lower: Seq<char>) -> bool {
    occurs_in(lower, "token_embd"@) || occurs_in(lower, "embeddings"@) || occurs_in(
        lower,
        "output"@,
    ) || occurs_in(lower, "lm_head"@)
}

/// Check if tensor name suggests it's a special layer (embedding/output).
pub fn is_suspicious_layer(name: &str) -> (r: bool)
    ensures
        r == suspicious_name(unicode_lowercase(name@)),
{
    let lower = to_lowercase(name);
    let lower = lower.as_str();
    str_contains(lower, "token_embd") || str_contains(lower, "embeddings") || str_contains(
        lower,
        "output",
    ) || str_contains(lower, "lm_head")
}

/// The formats suggested for a special layer named `name` with dtype `d`:
/// F16 when it is quantized other than `Q4_0`, and F32 as well when its name
/// holds `output` and it is quantized. Other layers get none.
pub open spec fn layer_suggestions(name: Seq<char>, d: GgufDtype) -> Seq<GgufDtype> {
    if !suspicious_name(unicode_lowercase(name)) {
        Seq::empty()
    } else {
        let embedding: Seq<GgufDtype> = if d.quantized() && d != GgufDtype::Q4_0 {
            seq![GgufDtype::F16]
        } else {
            Seq::empty()
        };
        let output: Seq<GgufDtype> = if occurs_in(name, "output"@) && d.quantized() {
            seq![GgufDtype::F32]
        } else {
            Seq::empty()
        };
        embedding + output
    }
}

/// The formats to suggest for a tensor named `name` with dtype `dtype`, in
/// the order its warnings are raised (see [`layer_suggestions`]).
pub fn suggested_layer_dtypes(name: &str, dtype: GgufDtype) -> (r: Vec<GgufDtype>)
    ensures
        r@ == layer_suggestions(name@, dtype),
{
    let mut out: Vec<GgufDtype> = Vec::new();
    if is_suspicious_layer(name) {
        // Embedding layers should typically be F32 or F16, not quantized
        if dtype.is_quantized() && dtype != GgufDtype::Q4_0 {
            out.push(GgufDtype::F16);
        }
        // Output layers should typically be F32 or F16
        if str_contains(name, "output") && dtype.is_quantized() {
            out.push(GgufDtype::F32);
        }
    }
    assert(out@ =~= layer_suggestions(name@, dtype));
    out
}

} // verus!
