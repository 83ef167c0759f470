//! A GGUF data model with a wider dtype catalogue and size estimates.
//!
//! Beside ggml's own types, [`GgufDtype`] names the K-quant mixes that some
//! tools write (`Q4_K_M`, `Q5_K_S`, ...). [`GgufTensorInfo::stored_size`]
//! estimates a tensor's bytes per dtype, partial quantization blocks
//! included, and [`GgufHeader`] looks hyperparameters up under several
//! fallback keys. Values, pairs and descriptors share their mathematical
//! views with [`crate::types`].
pub use crate::types::{GgufValueType, GgufVersion};
use crate::types::{
    find_kv, lemma_shape_product_nonneg, lemma_shape_product_step, lemma_string_elems_size_prefix,
    product_fits, shape_product, string_elems_size, utf8_len, wire_v3, KvPairView, KvValueView,
    TensorView,
};
use crate::text::{decimal, push_decimal, str_eq};
use crate::writer::find_tensor;
use vstd::prelude::*;
use vstd::string::*;
use vstd::std_specs::convert::FromSpec;

verus! {

impl GgufValueType {
    /// The type's number on the wire, as a byte.
    pub fn to_u8(self) -> (r: u8)
        ensures
            r == self.id() as u8,
    {
        self.to_u32() as u8
    }

    /// Whether this is the array type.
    pub fn is_array(self) -> (r: bool)
        ensures
            r == (self == GgufValueType::Array),
    {
        self == GgufValueType::Array
    }
}

/// A tensor's data type: ggml's types by their ids, and labels for the
/// K-quant mixes that some tools write.
#[allow(non_camel_case_types)]
#[derive(Debug, Clone, Copy, PartialEq, Eq, Structural)]
pub enum GgufDtype {
    F32, F16, Q4_0, Q4_1, Q5_0, Q5_1, Q8_0, Q8_1, Q2_K, Q3_K, Q4_K, Q5_K, Q6_K, Q8_K, I8, I16, I32, I64, F64, BF16, Q1_K, Q4_K_M, Q5_K_M, Q6_K_S, Q8_K_M, Q2_K_S, Q3_K_S, Q4_K_S, Q5_K_S, Q2_K_M,
    Unknown(u32),
}

/// The ids that [`GgufDtype::from_u32`] maps to a named variant.
pub open spec fn is_named_dtype_id(v: u32) -> bool {
    v <= 3 || (6 <= v && v <= 15) || (24 <= v && v <= 28) || v == 30
}

/// The dtype that id `v` names.
pub open spec fn dtype_of_id(v: u32) -> GgufDtype {
    match v {
        0 => GgufDtype::F32,
        1 => GgufDtype::F16,
        2 => GgufDtype::Q4_0,
        3 => GgufDtype::Q4_1,
        6 => GgufDtype::Q5_0,
        7 => GgufDtype::Q5_1,
        8 => GgufDtype::Q8_0,
        9 => GgufDtype::Q8_1,
        10 => GgufDtype::Q2_K,
        11 => GgufDtype::Q3_K,
        12 => GgufDtype::Q4_K,
        13 => GgufDtype::Q5_K,
        14 => GgufDtype::Q6_K,
        15 => GgufDtype::Q8_K,
        24 => GgufDtype::I8,
        25 => GgufDtype::I16,
        26 => GgufDtype::I32,
        27 => GgufDtype::I64,
        28 => GgufDtype::F64,
        30 => GgufDtype::BF16,
        _ => GgufDtype::Unknown(v),
    }
}

impl GgufDtype {
    /// Whether this is one of the K-quant mix labels, whose ids other dtypes
    /// also use.
    pub open spec fn is_mix(self) -> bool {
        match self {
            GgufDtype::Q1_K | GgufDtype::Q4_K_M | GgufDtype::Q5_K_M | GgufDtype::Q6_K_S
            | GgufDtype::Q8_K_M | GgufDtype::Q2_K_S | GgufDtype::Q3_K_S | GgufDtype::Q4_K_S
            | GgufDtype::Q5_K_S | GgufDtype::Q2_K_M => true,
            _ => false,
        }
    }

    /// The id written for this dtype.
    pub open spec fn id(self) -> u32 {
        match self {
            GgufDtype::F32 => 0,
            GgufDtype::F16 => 1,
            GgufDtype::Q4_0 => 2,
            GgufDtype::Q4_1 => 3,
            GgufDtype::Q5_0 => 6,
            GgufDtype::Q5_1 => 7,
            GgufDtype::Q8_0 => 8,
            GgufDtype::Q8_1 => 9,
            GgufDtype::Q2_K => 10,
            GgufDtype::Q3_K => 11,
            GgufDtype::Q4_K => 12,
            GgufDtype::Q5_K => 13,
            GgufDtype::Q6_K => 14,
            GgufDtype::Q8_K => 15,
            GgufDtype::I8 => 24,
            GgufDtype::I16 => 25,
            GgufDtype::I32 => 26,
            GgufDtype::I64 => 27,
            GgufDtype::F64 => 28,
            GgufDtype::BF16 => 30,
            GgufDtype::Q1_K => 20,
            GgufDtype::Q4_K_M => 21,
            GgufDtype::Q5_K_M => 22,
            GgufDtype::Q6_K_S => 23,
            GgufDtype::Q8_K_M => 24,
            GgufDtype::Q2_K_S => 25,
            GgufDtype::Q3_K_S => 26,
            GgufDtype::Q4_K_S => 27,
            GgufDtype::Q5_K_S => 28,
            GgufDtype::Q2_K_M => 29,
            GgufDtype::Unknown(v) => v,
        }
    }

    /// Whether this dtype stores its elements in quantized blocks.
    pub open spec fn quantized(self) -> bool {
        match self {
            GgufDtype::F32 => false,
            GgufDtype::F16 => false,
            GgufDtype::Q4_0 => true,
            GgufDtype::Q4_1 => true,
            GgufDtype::Q5_0 => true,
            GgufDtype::Q5_1 => true,
            GgufDtype::Q8_0 => true,
            GgufDtype::Q8_1 => true,
            GgufDtype::Q2_K => true,
            GgufDtype::Q3_K => true,
            GgufDtype::Q4_K => true,
            GgufDtype::Q5_K => true,
            GgufDtype::Q6_K => true,
            GgufDtype::Q8_K => true,
            GgufDtype::I8 => false,
            GgufDtype::I16 => false,
            GgufDtype::I32 => false,
            GgufDtype::I64 => false,
            GgufDtype::F64 => false,
            GgufDtype::BF16 => false,
            GgufDtype::Q1_K => true,
            GgufDtype::Q4_K_M => true,
            GgufDtype::Q5_K_M => true,
            GgufDtype::Q6_K_S => true,
            GgufDtype::Q8_K_M => true,
            GgufDtype::Q2_K_S => true,
            GgufDtype::Q3_K_S => true,
            GgufDtype::Q4_K_S => true,
            GgufDtype::Q5_K_S => true,
            GgufDtype::Q2_K_M => true,
            GgufDtype::Unknown(_) => false,
        }
    }

    /// Bytes per element; 0 where the bytes are not a whole number per element.
    pub open spec fn element_bytes(self) -> usize {
        match self {
            GgufDtype::F32 => 4,
            GgufDtype::F16 => 2,
            GgufDtype::Q4_0 => 0,
            GgufDtype::Q4_1 => 0,
            GgufDtype::Q5_0 => 0,
            GgufDtype::Q5_1 => 0,
            GgufDtype::Q8_0 => 2,
            GgufDtype::Q8_1 => 2,
            GgufDtype::Q2_K => 0,
            GgufDtype::Q3_K => 0,
            GgufDtype::Q4_K => 0,
            GgufDtype::Q5_K => 0,
            GgufDtype::Q6_K => 0,
            GgufDtype::Q8_K => 0,
            GgufDtype::I8 => 1,
            GgufDtype::I16 => 2,
            GgufDtype::I32 => 4,
            GgufDtype::I64 => 8,
            GgufDtype::F64 => 8,
            GgufDtype::BF16 => 2,
            GgufDtype::Q1_K => 0,
            GgufDtype::Q4_K_M => 0,
            GgufDtype::Q5_K_M => 0,
            GgufDtype::Q6_K_S => 0,
            GgufDtype::Q8_K_M => 0,
            GgufDtype::Q2_K_S => 0,
            GgufDtype::Q3_K_S => 0,
            GgufDtype::Q4_K_S => 0,
            GgufDtype::Q5_K_S => 0,
            GgufDtype::Q2_K_M => 0,
            GgufDtype::Unknown(_) => 0,
        }
    }

    /// The dtype's name.
    pub open spec fn label(self) -> Seq<char> {
        match self {
            GgufDtype::F32 => "F32"@,
            GgufDtype::F16 => "F16"@,
            GgufDtype::Q4_0 => "Q4_0"@,
            GgufDtype::Q4_1 => "Q4_1"@,
            GgufDtype::Q5_0 => "Q5_0"@,
            GgufDtype::Q5_1 => "Q5_1"@,
            GgufDtype::Q8_0 => "Q8_0"@,
            GgufDtype::Q8_1 => "Q8_1"@,
            GgufDtype::Q2_K => "Q2_K"@,
            GgufDtype::Q3_K => "Q3_K"@,
            GgufDtype::Q4_K => "Q4_K"@,
            GgufDtype::Q5_K => "Q5_K"@,
            GgufDtype::Q6_K => "Q6_K"@,
            GgufDtype::Q8_K => "Q8_K"@,
            GgufDtype::I8 => "I8"@,
            GgufDtype::I16 => "I16"@,
            GgufDtype::I32 => "I32"@,
            GgufDtype::I64 => "I64"@,
            GgufDtype::F64 => "F64"@,
            GgufDtype::BF16 => "BF16"@,
            GgufDtype::Q1_K => "Q1_K"@,
            GgufDtype::Q4_K_M => "Q4_K_M"@,
            GgufDtype::Q5_K_M => "Q5_K_M"@,
            GgufDtype::Q6_K_S => "Q6_K_S"@,
            GgufDtype::Q8_K_M => "Q8_K_M"@,
            GgufDtype::Q2_K_S => "Q2_K_S"@,
            GgufDtype::Q3_K_S => "Q3_K_S"@,
            GgufDtype::Q4_K_S => "Q4_K_S"@,
            GgufDtype::Q5_K_S => "Q5_K_S"@,
            GgufDtype::Q2_K_M => "Q2_K_M"@,
            GgufDtype::Unknown(_) => "unknown"@,
        }
    }

    /// The dtype with id `v`; ids that name no variant give `Unknown(v)`.
    pub fn from_u32(v: u32) -> (r: Self)
        ensures
            r == dtype_of_id(v),
            r is Unknown <==> !is_named_dtype_id(v),
    {
        match v {
            0 => GgufDtype::F32,
            1 => GgufDtype::F16,
            2 => GgufDtype::Q4_0,
            3 => GgufDtype::Q4_1,
            6 => GgufDtype::Q5_0,
            7 => GgufDtype::Q5_1,
            8 => GgufDtype::Q8_0,
            9 => GgufDtype::Q8_1,
            10 => GgufDtype::Q2_K,
            11 => GgufDtype::Q3_K,
            12 => GgufDtype::Q4_K,
            13 => GgufDtype::Q5_K,
            14 => GgufDtype::Q6_K,
            15 => GgufDtype::Q8_K,
            24 => GgufDtype::I8,
            25 => GgufDtype::I16,
            26 => GgufDtype::I32,
            27 => GgufDtype::I64,
            28 => GgufDtype::F64,
            30 => GgufDtype::BF16,
            _ => GgufDtype::Unknown(v),
        }
    }

    /// The id written for this dtype; `Unknown(v)` gives `v` back.
    pub fn to_u32(self) -> (r: u32)
        ensures
            r == self.id(),
    {
        match self {
            GgufDtype::F32 => 0,
            GgufDtype::F16 => 1,
            GgufDtype::Q4_0 => 2,
            GgufDtype::Q4_1 => 3,
            GgufDtype::Q5_0 => 6,
            GgufDtype::Q5_1 => 7,
            GgufDtype::Q8_0 => 8,
            GgufDtype::Q8_1 => 9,
            GgufDtype::Q2_K => 10,
            GgufDtype::Q3_K => 11,
            GgufDtype::Q4_K => 12,
            GgufDtype::Q5_K => 13,
            GgufDtype::Q6_K => 14,
            GgufDtype::Q8_K => 15,
            GgufDtype::I8 => 24,
            GgufDtype::I16 => 25,
            GgufDtype::I32 => 26,
            GgufDtype::I64 => 27,
            GgufDtype::F64 => 28,
            GgufDtype::BF16 => 30,
            GgufDtype::Q1_K => 20,
            GgufDtype::Q4_K_M => 21,
            GgufDtype::Q5_K_M => 22,
            GgufDtype::Q6_K_S => 23,
            GgufDtype::Q8_K_M => 24,
            GgufDtype::Q2_K_S => 25,
            GgufDtype::Q3_K_S => 26,
            GgufDtype::Q4_K_S => 27,
            GgufDtype::Q5_K_S => 28,
            GgufDtype::Q2_K_M => 29,
            GgufDtype::Unknown(v) => v,
        }
    }

    /// True for the block-quantized dtypes and the K-quant mixes.
    pub fn is_quantized(self) -> (r: bool)
        ensures
            r == self.quantized(),
    {
        match self {
            GgufDtype::F32 => false,
            GgufDtype::F16 => false,
            GgufDtype::Q4_0 => true,
            GgufDtype::Q4_1 => true,
            GgufDtype::Q5_0 => true,
            GgufDtype::Q5_1 => true,
            GgufDtype::Q8_0 => true,
            GgufDtype::Q8_1 => true,
            GgufDtype::Q2_K => true,
            GgufDtype::Q3_K => true,
            GgufDtype::Q4_K => true,
            GgufDtype::Q5_K => true,
            GgufDtype::Q6_K => true,
            GgufDtype::Q8_K => true,
            GgufDtype::I8 => false,
            GgufDtype::I16 => false,
            GgufDtype::I32 => false,
            GgufDtype::I64 => false,
            GgufDtype::F64 => false,
            GgufDtype::BF16 => false,
            GgufDtype::Q1_K => true,
            GgufDtype::Q4_K_M => true,
            GgufDtype::Q5_K_M => true,
            GgufDtype::Q6_K_S => true,
            GgufDtype::Q8_K_M => true,
            GgufDtype::Q2_K_S => true,
            GgufDtype::Q3_K_S => true,
            GgufDtype::Q4_K_S => true,
            GgufDtype::Q5_K_S => true,
            GgufDtype::Q2_K_M => true,
            GgufDtype::Unknown(_) => false,
        }
    }

    /// Bytes per element; 0 for the dtypes without a whole number of bytes per element.
    pub fn bytes_per_element(self) -> (r: usize)
        ensures
            r == self.element_bytes(),
    {
        match self {
            GgufDtype::F32 => 4,
            GgufDtype::F16 => 2,
            GgufDtype::Q4_0 => 0,
            GgufDtype::Q4_1 => 0,
            GgufDtype::Q5_0 => 0,
            GgufDtype::Q5_1 => 0,
            GgufDtype::Q8_0 => 2,
            GgufDtype::Q8_1 => 2,
            GgufDtype::Q2_K => 0,
            GgufDtype::Q3_K => 0,
            GgufDtype::Q4_K => 0,
            GgufDtype::Q5_K => 0,
            GgufDtype::Q6_K => 0,
            GgufDtype::Q8_K => 0,
            GgufDtype::I8 => 1,
            GgufDtype::I16 => 2,
            GgufDtype::I32 => 4,
            GgufDtype::I64 => 8,
            GgufDtype::F64 => 8,
            GgufDtype::BF16 => 2,
            GgufDtype::Q1_K => 0,
            GgufDtype::Q4_K_M => 0,
            GgufDtype::Q5_K_M => 0,
            GgufDtype::Q6_K_S => 0,
            GgufDtype::Q8_K_M => 0,
            GgufDtype::Q2_K_S => 0,
            GgufDtype::Q3_K_S => 0,
            GgufDtype::Q4_K_S => 0,
            GgufDtype::Q5_K_S => 0,
            GgufDtype::Q2_K_M => 0,
            GgufDtype::Unknown(_) => 0,
        }
    }

    /// The dtype's name.
    pub fn name(self) -> (r: &'static str)
        ensures
            r@ == self.label(),
    {
        match self {
            GgufDtype::F32 => "F32",
            GgufDtype::F16 => "F16",
            GgufDtype::Q4_0 => "Q4_0",
            GgufDtype::Q4_1 => "Q4_1",
            GgufDtype::Q5_0 => "Q5_0",
            GgufDtype::Q5_1 => "Q5_1",
            GgufDtype::Q8_0 => "Q8_0",
            GgufDtype::Q8_1 => "Q8_1",
            GgufDtype::Q2_K => "Q2_K",
            GgufDtype::Q3_K => "Q3_K",
            GgufDtype::Q4_K => "Q4_K",
            GgufDtype::Q5_K => "Q5_K",
            GgufDtype::Q6_K => "Q6_K",
            GgufDtype::Q8_K => "Q8_K",
            GgufDtype::I8 => "I8",
            GgufDtype::I16 => "I16",
            GgufDtype::I32 => "I32",
            GgufDtype::I64 => "I64",
            GgufDtype::F64 => "F64",
            GgufDtype::BF16 => "BF16",
            GgufDtype::Q1_K => "Q1_K",
            GgufDtype::Q4_K_M => "Q4_K_M",
            GgufDtype::Q5_K_M => "Q5_K_M",
            GgufDtype::Q6_K_S => "Q6_K_S",
            GgufDtype::Q8_K_M => "Q8_K_M",
            GgufDtype::Q2_K_S => "Q2_K_S",
            GgufDtype::Q3_K_S => "Q3_K_S",
            GgufDtype::Q4_K_S => "Q4_K_S",
            GgufDtype::Q5_K_S => "Q5_K_S",
            GgufDtype::Q2_K_M => "Q2_K_M",
            GgufDtype::Unknown(_) => "unknown",
        }
    }

}

/// The byte-size estimate for `n` elements of dtype `d`: whole bytes per
/// element for the scalar dtypes; for `Q8_0`, `Q8_1`, `Q4_0` and `Q4_1`
/// whole 32-element blocks plus a partial block of a scale and its elements;
/// for the other quantized dtypes a linear estimate; and 2 bytes per element
/// for an unknown dtype.
pub open spec fn stored_estimate(d: GgufDtype, n: int) -> int {
    match d {
        GgufDtype::F32 => n * 4,
        GgufDtype::F16 | GgufDtype::BF16 => n * 2,
        GgufDtype::Q8_0 => n / 32 * 34 + if n % 32 > 0 { 2 + n % 32 } else { 0 },
        GgufDtype::Q8_1 => n / 32 * 36 + if n % 32 > 0 { 4 + n % 32 } else { 0 },
        GgufDtype::Q4_0 => n / 32 * 18 + if n % 32 > 0 { 2 + (n % 32 + 1) / 2 } else { 0 },
        GgufDtype::Q4_1 => n / 32 * 20 + if n % 32 > 0 { 4 + (n % 32 + 1) / 2 } else { 0 },
        GgufDtype::Q5_0 => n / 2 + 32 + 16,
        GgufDtype::Q5_1 => n / 2 + 64 + 16,
        GgufDtype::Q2_K => n / 4 + n * 6 / 32 + 8,
        GgufDtype::Q3_K => n / 8 + n * 6 / 32 + 16,
        GgufDtype::Q4_K => n / 4 + n * 6 / 32 + 16 + 32,
        GgufDtype::Q5_K => n / 4 + n * 6 / 32 + 16 + 32 + 16,
        GgufDtype::Q6_K => n / 2 + n / 4 + 256,
        GgufDtype::Q8_K => n / 2 + n * 6 / 32 + 256,
        GgufDtype::Q1_K => n / 8 + n * 6 / 32 + 96,
        GgufDtype::Q4_K_M | GgufDtype::Q5_K_M | GgufDtype::Q8_K_M => n / 4 + n * 6 / 32 + 48,
        GgufDtype::Q2_K_S | GgufDtype::Q3_K_S | GgufDtype::Q4_K_S | GgufDtype::Q5_K_S
        | GgufDtype::Q6_K_S | GgufDtype::Q2_K_M => n / 4 + n * 6 / 32 + 24,
        GgufDtype::I8 => n,
        GgufDtype::I16 => n * 2,
        GgufDtype::I32 => n * 4,
        GgufDtype::I64 => n * 8,
        GgufDtype::F64 => n * 8,
        GgufDtype::Unknown(_) => n * 2,
    }
}

/// Whether the estimate for dtype `d` multiplies the element count by 6.
pub open spec fn estimate_scales_by_six(d: GgufDtype) -> bool {
    match d {
        GgufDtype::Q2_K | GgufDtype::Q3_K | GgufDtype::Q4_K | GgufDtype::Q5_K | GgufDtype::Q8_K
        | GgufDtype::Q1_K | GgufDtype::Q4_K_M | GgufDtype::Q5_K_M | GgufDtype::Q8_K_M
        | GgufDtype::Q2_K_S | GgufDtype::Q3_K_S | GgufDtype::Q4_K_S | GgufDtype::Q5_K_S
        | GgufDtype::Q6_K_S | GgufDtype::Q2_K_M => true,
        _ => false,
    }
}

/// Every step of the estimate for `n` elements of `d` fits in `u64`.
pub open spec fn estimate_fits(d: GgufDtype, n: int) -> bool {
    &&& stored_estimate(d, n) <= u64::MAX
    &&& estimate_scales_by_six(d) ==> n * 6 <= u64::MAX
}

/// A single tensor's metadata (name, shape, dtype, offset).
#[derive(Debug)]
pub struct GgufTensorInfo {
    pub name: String,
    pub shape: Vec<u64>,
    pub offset: u64,
    pub dtype: u32,
}

impl View for GgufTensorInfo {
    type V = TensorView;

    open spec fn view(&self) -> TensorView {
        TensorView { name: self.name@, shape: self.shape@, offset: self.offset, dtype: self.dtype }
    }
}

impl Clone for GgufTensorInfo {
    fn clone(&self) -> (r: Self)
        ensures
            r@ == self@,
    {
        let mut shape: Vec<u64> = Vec::new();
        let mut i: usize = 0;
        while i < self.shape.len()
            invariant
                i <= self.shape.len(),
                shape@ =~= self.shape@.take(i as int),
            decreases self.shape.len() - i,
        {
            shape.push(self.shape[i]);
            i = i + 1;
        }
        assert(shape@ =~= self.shape@);
        GgufTensorInfo { name: self.name.clone(), shape, offset: self.offset, dtype: self.dtype }
    }
}

impl GgufTensorInfo {
    /// The number of elements: the product of the dimensions.
    pub fn element_count(&self) -> (r: u64)
        requires
            product_fits(self.shape@),
        ensures
            r == self@.elements(),
    {
        let mut acc: u64 = 1;
        let mut i: usize = 0;
        assert(self.shape@.take(0) =~= Seq::<u64>::empty());
        while i < self.shape.len()
            invariant
                i <= self.shape.len(),
                product_fits(self.shape@),
                acc == shape_product(self.shape@.take(i as int)),
            decreases self.shape.len() - i,
        {
            proof {
                lemma_shape_product_step(self.shape@, i as int);
            }
            acc = acc * self.shape[i];
            i = i + 1;
        }
        assert(self.shape@.take(self.shape.len() as int) =~= self.shape@);
        acc
    }

    /// The number of dimensions, as a `u32` (truncated as `as` does).
    pub fn ndims(&self) -> (r: u32)
        ensures
            r == self.shape@.len() as u32,
    {
        self.shape.len() as u32
    }

    /// The stored byte size estimated from the element count and the dtype
    /// (see [`stored_estimate`]).
    ///
    /// For quantized tensors, this is much smaller than element_count * 2 (F16).
    pub fn stored_size(&self) -> (r: u64)
        requires
            product_fits(self.shape@),
            estimate_fits(dtype_of_id(self.dtype), self@.elements()),
        ensures
            r == stored_estimate(dtype_of_id(self.dtype), self@.elements()),
    {
        let n = self.element_count();
        let dtype = GgufDtype::from_u32(self.dtype);
        match dtype {
            GgufDtype::F32 => n * 4,
            GgufDtype::F16 | GgufDtype::BF16 => n * 2,
            GgufDtype::Q8_0 => {
                let full_blocks = n / 32;
                let remaining = n % 32;
                full_blocks * 34 + if remaining > 0 { 2 + remaining } else { 0 }
            },
            GgufDtype::Q8_1 => {
                let full_blocks = n / 32;
                let remaining = n % 32;
                full_blocks * 36 + if remaining > 0 { 4 + remaining } else { 0 }
            },
            GgufDtype::Q4_0 => {
                let full_blocks = n / 32;
                let remaining = n % 32;
                full_blocks * 18 + if remaining > 0 { 2 + (remaining + 1) / 2 } else { 0 }
            },
            GgufDtype::Q4_1 => {
                let full_blocks = n / 32;
                let remaining = n % 32;
                full_blocks * 20 + if remaining > 0 { 4 + (remaining + 1) / 2 } else { 0 }
            },
            GgufDtype::Q5_0 => n / 2 + 32 + 16,
            GgufDtype::Q5_1 => n / 2 + 64 + 16,
            GgufDtype::Q2_K => n / 4 + n * 6 / 32 + 8,
            GgufDtype::Q3_K => n / 8 + n * 6 / 32 + 16,
            GgufDtype::Q4_K => n / 4 + n * 6 / 32 + 16 + 32,
            GgufDtype::Q5_K => n / 4 + n * 6 / 32 + 16 + 32 + 16,
            GgufDtype::Q6_K => n / 2 + n / 4 + 256,
            GgufDtype::Q8_K => n / 2 + n * 6 / 32 + 256,
            GgufDtype::Q1_K => n / 8 + n * 6 / 32 + 96,
            GgufDtype::Q4_K_M | GgufDtype::Q5_K_M | GgufDtype::Q8_K_M => n / 4 + n * 6 / 32 + 48,
            GgufDtype::Q2_K_S | GgufDtype::Q3_K_S | GgufDtype::Q4_K_S | GgufDtype::Q5_K_S
            | GgufDtype::Q6_K_S | GgufDtype::Q2_K_M => n / 4 + n * 6 / 32 + 24,
            GgufDtype::I8 => n,
            GgufDtype::I16 => n * 2,
            GgufDtype::I32 => n * 4,
            GgufDtype::I64 => n * 8,
            GgufDtype::F64 => n * 8,
            GgufDtype::Unknown(_) => n * 2,
        }
    }

    /// Total byte size of this tensor info in the file: name length (u64),
    /// name, dimension count (4), dimensions (8 each), dtype (4), offset (8).
    pub fn raw_byte_size(&self) -> (r: usize)
        requires
            self@.wire_size(wire_v3()) <= usize::MAX,
        ensures
            r == self@.wire_size(wire_v3()),
    {
        8 + self.name.as_str().len() + 4 + (self.shape.len() * 8) + 4 + 8
    }
}

/// Parsed key-value value (runtime representation).
///
/// Floating-point values are held as their IEEE-754 bit patterns: `Float32`
/// and `Bfloat16` the bits of an `f32`, `Float64` the bits of an `f64`, and
/// `Float16` the raw half-precision bits.
#[derive(Debug, PartialEq)]
pub enum GgufKvValue {
    Uint8(u8),
    Int8(i8),
    Uint16(u16),
    Int16(i16),
    Uint32(u32),
    Int32(i32),
    Uint64(u64),
    Int64(i64),
    Float32(u32),
    Bool(bool),
    String(String),
    Array(Vec<GgufKvValue>),
    Int8Array(Vec<i8>),
    Uint8Array(Vec<u8>),
    Float64(u64),
    Bfloat16(u32),
    Float16(u16),
}

/// The mathematical value of a [`GgufKvValue`].
pub open spec fn value_view(v: GgufKvValue) -> KvValueView
    decreases v,
{
    match v {
        GgufKvValue::Uint8(x) => KvValueView::Uint8(x),
        GgufKvValue::Int8(x) => KvValueView::Int8(x),
        GgufKvValue::Uint16(x) => KvValueView::Uint16(x),
        GgufKvValue::Int16(x) => KvValueView::Int16(x),
        GgufKvValue::Uint32(x) => KvValueView::Uint32(x),
        GgufKvValue::Int32(x) => KvValueView::Int32(x),
        GgufKvValue::Uint64(x) => KvValueView::Uint64(x),
        GgufKvValue::Int64(x) => KvValueView::Int64(x),
        GgufKvValue::Float32(x) => KvValueView::Float32(x),
        GgufKvValue::Bool(x) => KvValueView::Bool(x),
        GgufKvValue::String(s) => KvValueView::String(s@),
        GgufKvValue::Array(a) => KvValueView::Array(
            Seq::new(
                a@.len(),
                |i: int|
                    if 0 <= i < a@.len() {
                        value_view(a@[i])
                    } else {
                        KvValueView::Bool(false)
                    },
            ),
        ),
        GgufKvValue::Int8Array(a) => KvValueView::Int8Array(a@),
        GgufKvValue::Uint8Array(a) => KvValueView::Uint8Array(a@),
        GgufKvValue::Float64(x) => KvValueView::Float64(x),
        GgufKvValue::Bfloat16(x) => KvValueView::Bfloat16(x),
        GgufKvValue::Float16(x) => KvValueView::Float16(x),
    }
}

impl View for GgufKvValue {
    type V = KvValueView;

    open spec fn view(&self) -> KvValueView {
        value_view(*self)
    }
}

/// The views of the elements of an array value.
pub open spec fn array_view(a: Seq<GgufKvValue>) -> Seq<KvValueView> {
    Seq::new(a.len(), |i: int| a[i]@)
}

/// An unsigned integer as a `u64`.
pub open spec fn unsigned_u64(v: KvValueView) -> Option<u64> {
    match v {
        KvValueView::Uint8(x) => Some(x as u64),
        KvValueView::Uint16(x) => Some(x as u64),
        KvValueView::Uint32(x) => Some(x as u64),
        KvValueView::Uint64(x) => Some(x),
        _ => None,
    }
}

/// A signed integer as an `i64`.
pub open spec fn signed_i64(v: KvValueView) -> Option<i64> {
    match v {
        KvValueView::Int8(x) => Some(x as i64),
        KvValueView::Int16(x) => Some(x as i64),
        KvValueView::Int32(x) => Some(x as i64),
        KvValueView::Int64(x) => Some(x),
        _ => None,
    }
}

/// An unsigned integer as a `u32`, a `u64` truncated as `as` does.
pub open spec fn unsigned_u32(v: KvValueView) -> Option<u32> {
    match v {
        KvValueView::Uint8(x) => Some(x as u32),
        KvValueView::Uint16(x) => Some(x as u32),
        KvValueView::Uint32(x) => Some(x),
        KvValueView::Uint64(x) => Some(x as u32),
        _ => None,
    }
}

/// A signed integer of at most 32 bits as an `i32`.
pub open spec fn signed_i32(v: KvValueView) -> Option<i32> {
    match v {
        KvValueView::Int8(x) => Some(x as i32),
        KvValueView::Int16(x) => Some(x as i32),
        KvValueView::Int32(x) => Some(x),
        _ => None,
    }
}

/// The short name of a value's type.
pub open spec fn type_label(v: KvValueView) -> Seq<char> {
    match v {
        KvValueView::Uint8(_) => "u8"@,
        KvValueView::Int8(_) => "i8"@,
        KvValueView::Uint16(_) => "u16"@,
        KvValueView::Int16(_) => "i16"@,
        KvValueView::Uint32(_) => "u32"@,
        KvValueView::Int32(_) => "i32"@,
        KvValueView::Uint64(_) => "u64"@,
        KvValueView::Int64(_) => "i64"@,
        KvValueView::String(_) => "str"@,
        KvValueView::Float32(_) => "f32"@,
        KvValueView::Bool(_) => "bool"@,
        KvValueView::Array(_) => "array"@,
        KvValueView::Int8Array(_) => "i8[]"@,
        KvValueView::Uint8Array(_) => "u8[]"@,
        KvValueView::Float64(_) => "f64"@,
        KvValueView::Float16(_) => "f16"@,
        KvValueView::Bfloat16(_) => "bf16"@,
    }
}

impl GgufKvValue {
    /// A copy of this value.
    fn duplicate(&self) -> (r: Self)
        ensures
            r@ == self@,
        decreases self@,
    {
        match self {
            GgufKvValue::Uint8(x) => GgufKvValue::Uint8(*x),
            GgufKvValue::Int8(x) => GgufKvValue::Int8(*x),
            GgufKvValue::Uint16(x) => GgufKvValue::Uint16(*x),
            GgufKvValue::Int16(x) => GgufKvValue::Int16(*x),
            GgufKvValue::Uint32(x) => GgufKvValue::Uint32(*x),
            GgufKvValue::Int32(x) => GgufKvValue::Int32(*x),
            GgufKvValue::Uint64(x) => GgufKvValue::Uint64(*x),
            GgufKvValue::Int64(x) => GgufKvValue::Int64(*x),
            GgufKvValue::Float32(x) => GgufKvValue::Float32(*x),
            GgufKvValue::Bool(x) => GgufKvValue::Bool(*x),
            GgufKvValue::String(s) => GgufKvValue::String(s.clone()),
            GgufKvValue::Array(a) => {
                let mut out: Vec<GgufKvValue> = Vec::new();
                let mut i: usize = 0;
                while i < a.len()
                    invariant
                        i <= a.len(),
                        self@ is Array,
                        self@->Array_0.len() == a@.len(),
                        forall|j: int| 0 <= j < a@.len() ==> self@->Array_0[j] == #[trigger] a@[j]@,
                        out@.len() == i,
                        forall|j: int| 0 <= j < i ==> out@[j]@ == #[trigger] a@[j]@,
                    decreases a.len() - i,
                {
                    proof {
                        let ghost sv = self@;
                        assert(sv->Array_0[i as int] == a@[i as int]@);
                        assert(decreases_to!(sv => sv->Array_0));
                    }
                    let e = a[i].duplicate();
                    out.push(e);
                    i = i + 1;
                }
                let r = GgufKvValue::Array(out);
                assert(r@->Array_0.len() == out@.len());
                assert forall|j: int| 0 <= j < out@.len() implies r@->Array_0[j]
                    == self@->Array_0[j] by {
                    assert(r@->Array_0[j] == out@[j]@);
                    assert(out@[j]@ == a@[j]@);
                }
                assert(r@->Array_0 =~= self@->Array_0);
                r
            },
            GgufKvValue::Int8Array(a) => {
                let mut out: Vec<i8> = Vec::new();
                let mut i: usize = 0;
                while i < a.len()
                    invariant
                        i <= a.len(),
                        out@ =~= a@.take(i as int),
                    decreases a.len() - i,
                {
                    out.push(a[i]);
                    i = i + 1;
                }
                assert(out@ =~= a@);
                GgufKvValue::Int8Array(out)
            },
            GgufKvValue::Uint8Array(a) => {
                let mut out: Vec<u8> = Vec::new();
                let mut i: usize = 0;
                while i < a.len()
                    invariant
                        i <= a.len(),
                        out@ =~= a@.take(i as int),
                    decreases a.len() - i,
                {
                    out.push(a[i]);
                    i = i + 1;
                }
                assert(out@ =~= a@);
                GgufKvValue::Uint8Array(out)
            },
            GgufKvValue::Float64(x) => GgufKvValue::Float64(*x),
            GgufKvValue::Bfloat16(x) => GgufKvValue::Bfloat16(*x),
            GgufKvValue::Float16(x) => GgufKvValue::Float16(*x),
        }
    }

    /// The value as a `u64`, for unsigned integers.
    pub fn as_u64(&self) -> (r: Option<u64>)
        ensures
            r == unsigned_u64(self@),
    {
        match self {
            GgufKvValue::Uint8(v) => Some(*v as u64),
            GgufKvValue::Uint16(v) => Some(*v as u64),
            GgufKvValue::Uint32(v) => Some(*v as u64),
            GgufKvValue::Uint64(v) => Some(*v),
            _ => None,
        }
    }

    /// The value as an `i64`, for signed integers.
    pub fn as_i64(&self) -> (r: Option<i64>)
        ensures
            r == signed_i64(self@),
    {
        match self {
            GgufKvValue::Int8(v) => Some(*v as i64),
            GgufKvValue::Int16(v) => Some(*v as i64),
            GgufKvValue::Int32(v) => Some(*v as i64),
            GgufKvValue::Int64(v) => Some(*v),
            _ => None,
        }
    }

    /// The value as a `u32`, for unsigned integers (a `u64` truncated as `as` does).
    pub fn as_u32(&self) -> (r: Option<u32>)
        ensures
            r == unsigned_u32(self@),
    {
        match self {
            GgufKvValue::Uint8(v) => Some(*v as u32),
            GgufKvValue::Uint16(v) => Some(*v as u32),
            GgufKvValue::Uint32(v) => Some(*v),
            GgufKvValue::Uint64(v) => Some(*v as u32),
            _ => None,
        }
    }

    /// The value as an `i32`, for signed integers of at most 32 bits.
    pub fn as_i32(&self) -> (r: Option<i32>)
        ensures
            r == signed_i32(self@),
    {
        match self {
            GgufKvValue::Int8(v) => Some(*v as i32),
            GgufKvValue::Int16(v) => Some(*v as i32),
            GgufKvValue::Int32(v) => Some(*v),
            _ => None,
        }
    }

    /// The value of a boolean.
    pub fn as_bool(&self) -> (r: Option<bool>)
        ensures
            r == self@.to_bool(),
    {
        match self {
            GgufKvValue::Bool(v) => Some(*v),
            _ => None,
        }
    }

    /// The text of a string value.
    pub fn as_str(&self) -> (r: Option<&str>)
        ensures
            r is Some <==> self@.text() is Some,
            r matches Some(s) ==> self@.text() == Some(s@),
    {
        match self {
            GgufKvValue::String(s) => Some(s.as_str()),
            _ => None,
        }
    }

    /// The elements of an array value.
    pub fn as_array(&self) -> (r: Option<&Vec<GgufKvValue>>)
        ensures
            r is Some <==> self@ is Array,
            r matches Some(a) ==> self@ == KvValueView::Array(array_view(a@)),
    {
        match self {
            GgufKvValue::Array(v) => {
                assert(self@->Array_0 =~= array_view(v@));
                Some(v)
            },
            _ => None,
        }
    }

    /// The value type of this value.
    pub fn value_type(&self) -> (r: GgufValueType)
        ensures
            r == self@.kind(),
    {
        match self {
            GgufKvValue::Uint8(..) => GgufValueType::Uint8,
            GgufKvValue::Int8(..) => GgufValueType::Int8,
            GgufKvValue::Uint16(..) => GgufValueType::Uint16,
            GgufKvValue::Int16(..) => GgufValueType::Int16,
            GgufKvValue::Uint32(..) => GgufValueType::Uint32,
            GgufKvValue::Int32(..) => GgufValueType::Int32,
            GgufKvValue::Uint64(..) => GgufValueType::Uint64,
            GgufKvValue::Int64(..) => GgufValueType::Int64,
            GgufKvValue::String(..) => GgufValueType::String,
            GgufKvValue::Float32(..) => GgufValueType::Float32,
            GgufKvValue::Bool(..) => GgufValueType::Bool,
            GgufKvValue::Array(..) => GgufValueType::Array,
            GgufKvValue::Int8Array(..) => GgufValueType::Int8Array,
            GgufKvValue::Uint8Array(..) => GgufValueType::Uint8Array,
            GgufKvValue::Float64(..) => GgufValueType::Float64,
            GgufKvValue::Float16(..) => GgufValueType::Float16,
            GgufKvValue::Bfloat16(..) => GgufValueType::Bfloat16,
        }
    }

    /// The short name of this value's type.
    pub fn value_type_name(&self) -> (r: &'static str)
        ensures
            r@ == type_label(self@),
    {
        match self {
            GgufKvValue::Uint8(_) => "u8",
            GgufKvValue::Int8(_) => "i8",
            GgufKvValue::Uint16(_) => "u16",
            GgufKvValue::Int16(_) => "i16",
            GgufKvValue::Uint32(_) => "u32",
            GgufKvValue::Int32(_) => "i32",
            GgufKvValue::Uint64(_) => "u64",
            GgufKvValue::Int64(_) => "i64",
            GgufKvValue::String(_) => "str",
            GgufKvValue::Float32(_) => "f32",
            GgufKvValue::Bool(_) => "bool",
            GgufKvValue::Array(_) => "array",
            GgufKvValue::Int8Array(_) => "i8[]",
            GgufKvValue::Uint8Array(_) => "u8[]",
            GgufKvValue::Float64(_) => "f64",
            GgufKvValue::Float16(_) => "f16",
            GgufKvValue::Bfloat16(_) => "bf16",
        }
    }
}

impl Clone for GgufKvValue {
    fn clone(&self) -> (r: Self)
        ensures
            r@ == self@,
    {
        self.duplicate()
    }
}

/// A single key-value pair from the GGUF header.
#[derive(Debug)]
pub struct GgufKvPair {
    pub key: String,
    pub value_type: GgufValueType,
    pub value: GgufKvValue,
}

impl View for GgufKvPair {
    type V = KvPairView;

    open spec fn view(&self) -> KvPairView {
        KvPairView { key: self.key@, value_type: self.value_type, value: self.value@ }
    }
}

impl Clone for GgufKvPair {
    fn clone(&self) -> (r: Self)
        ensures
            r@ == self@,
    {
        GgufKvPair { key: self.key.clone(), value_type: self.value_type, value: self.value.duplicate() }
    }
}

/// The size estimate of a pair with a key length of `kw` bytes: the key
/// length, the key, the 4-byte type and the value. An array counts 1 byte
/// for its element type and 8 for its count, then its elements by the fixed
/// size of the first one's type; an array of strings counts only its strings
/// (8 bytes of length and the bytes of each) and those 9 bytes, without the
/// key or the type.
pub open spec fn pair_size_estimate(kv: KvPairView, kw: int) -> int {
    match kv.value {
        KvValueView::Array(a) => if a.len() > 0 && a[0].kind() == GgufValueType::String {
            string_elems_size(a, 8) + 1 + 8
        } else {
            kw + utf8_len(kv.key) + 4 + 1 + 8 + a.len() * KvValueView::array_elem_size(a)
        },
        v => kw + utf8_len(kv.key) + 4 + v.wire_size(8),
    }
}

/// The key length width of a version: 8 bytes from v3 on, 4 before.
pub open spec fn key_len_width(version: u32) -> int {
    if version >= 3 {
        8
    } else {
        4
    }
}

impl GgufKvPair {
    /// Total byte size of this KV pair for GGUF v2 and earlier, with a u32
    /// key length (see [`pair_size_estimate`]).
    pub fn raw_byte_size(&self) -> (r: usize)
        requires
            pair_size_estimate(self@, 4) <= usize::MAX,
        ensures
            r == pair_size_estimate(self@, 4),
    {
        self.raw_byte_size_for_version(2)
    }

    /// Total byte size of this KV pair in the v3 wire format, with a u64 key
    /// length (see [`pair_size_estimate`]).
    pub fn raw_byte_size_v3(&self) -> (r: usize)
        requires
            pair_size_estimate(self@, 8) <= usize::MAX,
        ensures
            r == pair_size_estimate(self@, 8),
    {
        self.raw_byte_size_for_version(3)
    }

    /// The size estimate for a version: its key length width decides.
    fn raw_byte_size_for_version(&self, version: u32) -> (r: usize)
        requires
            pair_size_estimate(self@, key_len_width(version)) <= usize::MAX,
        ensures
            r == pair_size_estimate(self@, key_len_width(version)),
    {
        let key_bytes = self.key.as_str().len();
        let key_len_bytes: usize = if version >= 3 {
            8
        } else {
            4
        };
        let value_bytes: usize = match &self.value {
            GgufKvValue::Uint8(..) | GgufKvValue::Int8(..) | GgufKvValue::Bool(..) => 1,
            GgufKvValue::Uint16(..) | GgufKvValue::Int16(..) | GgufKvValue::Bfloat16(..)
            | GgufKvValue::Float16(..) => 2,
            GgufKvValue::Uint32(..) | GgufKvValue::Int32(..) | GgufKvValue::Float32(..) => 4,
            GgufKvValue::Uint64(..) | GgufKvValue::Int64(..) | GgufKvValue::Float64(..) => 8,
            GgufKvValue::String(s) => 8 + s.as_str().len(),
            GgufKvValue::Int8Array(arr) => 8 + arr.len(),
            GgufKvValue::Uint8Array(arr) => 8 + arr.len(),
            GgufKvValue::Array(arr) => {
                let ghost a = self.value@->Array_0;
                assert(a.len() == arr@.len());
                let elem_size: usize = if arr.len() == 0 {
                    4
                } else {
                    let first = arr[0].value_type();
                    assert(first == a[0].kind());
                    match first {
                        GgufValueType::String => {
                            let mut total: usize = 0;
                            let mut i: usize = 0;
                            while i < arr.len()
                                invariant
                                    i <= arr.len(),
                                    a.len() == arr@.len(),
                                    forall|j: int| 0 <= j < a.len() ==> a[j] == #[trigger] arr@[j]@,
                                    string_elems_size(a, 8) + 9 <= usize::MAX,
                                    total == string_elems_size(a.take(i as int), 8),
                                decreases arr.len() - i,
                            {
                                proof {
                                    lemma_string_elems_size_prefix(a, 8, i + 1);
                                    assert(a.take(i + 1).drop_last() =~= a.take(i as int));
                                    assert(a.take(i + 1).last() == arr@[i as int]@);
                                }
                                let add = match &arr[i] {
                                    GgufKvValue::String(s) => 8 + s.as_str().len(),
                                    _ => 0,
                                };
                                total = total + add;
                                i = i + 1;
                            }
                            assert(a.take(arr.len() as int) =~= a);
                            return total + 1 + 8;
                        },
                        _ => match first.element_size() {
                            Some(n) => n,
                            None => 4,
                        },
                    }
                };
                assert(elem_size == KvValueView::array_elem_size(a));
                assert(arr.len() * elem_size <= usize::MAX) by (nonlinear_arith)
                    requires
                        9 + arr.len() * elem_size <= usize::MAX,
                ;
                1 + 8 + arr.len() * elem_size
            },
        };
        key_len_bytes + key_bytes + 4 + value_bytes
    }
}

/// `v` in decimal, as `u32::to_string` writes it.
fn decimal_string(v: u32) -> (r: String)
    ensures
        r@ == decimal(v as nat),
{
    let mut out = String::new();
    push_decimal(&mut out, v as u64);
    assert(out@ =~= decimal(v as nat));
    out
}

/// Parsed GGUF header (everything before tensor data).
#[derive(Debug)]
pub struct GgufHeader {
    pub version: u32,
    pub kv_pairs: Vec<GgufKvPair>,
    pub tensors: Vec<GgufTensorInfo>,
    /// Data alignment in bytes (default 32 for llama.cpp).
    pub data_alignment: Option<u64>,
    pub data_section_start: u64,
}

/// The views of a sequence of key-value pairs.
pub open spec fn pairs_view(v: Seq<GgufKvPair>) -> Seq<KvPairView> {
    v.map_values(|p: GgufKvPair| p@)
}

/// The views of a sequence of tensor descriptors.
pub open spec fn descriptors_view(v: Seq<GgufTensorInfo>) -> Seq<TensorView> {
    v.map_values(|t: GgufTensorInfo| t@)
}

impl View for GgufHeader {
    type V = crate::types::HeaderView;

    open spec fn view(&self) -> crate::types::HeaderView {
        crate::types::HeaderView {
            version: self.version,
            kv_pairs: pairs_view(self.kv_pairs@),
            tensors: descriptors_view(self.tensors@),
            data_alignment: self.data_alignment,
            data_section_start: self.data_section_start,
        }
    }
}

impl Clone for GgufHeader {
    fn clone(&self) -> (r: Self)
        ensures
            r@ == self@,
    {
        let mut kv_pairs: Vec<GgufKvPair> = Vec::new();
        let mut i: usize = 0;
        while i < self.kv_pairs.len()
            invariant
                i <= self.kv_pairs.len(),
                kv_pairs@.len() == i,
                forall|k: int| 0 <= k < i ==> (#[trigger] kv_pairs@[k])@ == self.kv_pairs@[k]@,
            decreases self.kv_pairs.len() - i,
        {
            kv_pairs.push(self.kv_pairs[i].clone());
            i = i + 1;
        }
        let mut tensors: Vec<GgufTensorInfo> = Vec::new();
        let mut j: usize = 0;
        while j < self.tensors.len()
            invariant
                j <= self.tensors.len(),
                tensors@.len() == j,
                forall|k: int| 0 <= k < j ==> (#[trigger] tensors@[k])@ == self.tensors@[k]@,
            decreases self.tensors.len() - j,
        {
            tensors.push(self.tensors[j].clone());
            j = j + 1;
        }
        let r = GgufHeader {
            version: self.version,
            kv_pairs,
            tensors,
            data_alignment: self.data_alignment,
            data_section_start: self.data_section_start,
        };
        assert(r@.kv_pairs =~= self@.kv_pairs);
        assert(r@.tensors =~= self@.tensors);
        r
    }
}

/// The text of the first pair with key `key`, if that pair holds a string.
pub open spec fn text_at(kvs: Seq<KvPairView>, key: Seq<char>) -> Option<Seq<char>> {
    match find_kv(kvs, key) {
        Some(p) => p.value.text(),
        None => None,
    }
}

/// The first pair with key `key`, if it holds an unsigned integer, as a `u32`.
pub open spec fn u32_at(kvs: Seq<KvPairView>, key: Seq<char>) -> Option<u32> {
    match find_kv(kvs, key) {
        Some(p) => unsigned_u32(p.value),
        None => None,
    }
}

/// The first pair with key `key`, if it holds a signed integer of at most
/// 32 bits, as an `i32`.
pub open spec fn i32_at(kvs: Seq<KvPairView>, key: Seq<char>) -> Option<i32> {
    match find_kv(kvs, key) {
        Some(p) => signed_i32(p.value),
        None => None,
    }
}

/// The first pair with key `key`, if it holds an unsigned integer, as a `u64`.
pub open spec fn u64_at(kvs: Seq<KvPairView>, key: Seq<char>) -> Option<u64> {
    match find_kv(kvs, key) {
        Some(p) => unsigned_u64(p.value),
        None => None,
    }
}

/// The first pair with key `key`, if it holds a boolean.
pub open spec fn bool_at(kvs: Seq<KvPairView>, key: Seq<char>) -> Option<bool> {
    match find_kv(kvs, key) {
        Some(p) => p.value.to_bool(),
        None => None,
    }
}

/// The elements of the first pair with key `key`, if it holds an array.
pub open spec fn array_at(kvs: Seq<KvPairView>, key: Seq<char>) -> Option<Seq<KvValueView>> {
    match find_kv(kvs, key) {
        Some(p) => match p.value {
            KvValueView::Array(a) => Some(a),
            _ => None,
        },
        None => None,
    }
}

/// The first of several lookups that finds something.
pub open spec fn first_found<T>(lookups: Seq<Option<T>>) -> Option<T>
    decreases lookups.len(),
{
    if lookups.len() == 0 {
        None
    } else {
        match lookups[0] {
            Some(x) => Some(x),
            None => first_found(lookups.drop_first()),
        }
    }
}

/// The sum of the tensors' element counts.
pub open spec fn element_total(ts: Seq<TensorView>) -> int
    decreases ts.len(),
{
    if ts.len() == 0 {
        0
    } else {
        element_total(ts.drop_last()) + ts.last().elements()
    }
}

/// The partial sums of [`element_total`] grow with the prefix.
proof fn lemma_element_total_prefix(ts: Seq<TensorView>, i: int)
    requires
        0 <= i <= ts.len(),
    ensures
        0 <= element_total(ts.take(i)) <= element_total(ts),
    decreases ts.len(),
{
    if i == ts.len() {
        assert(ts.take(i) =~= ts);
        if ts.len() > 0 {
            lemma_element_total_prefix(ts.drop_last(), i - 1);
            lemma_shape_product_nonneg(ts.last().shape);
        }
    } else {
        lemma_element_total_prefix(ts.drop_last(), i);
        assert(ts.drop_last().take(i) =~= ts.take(i));
        lemma_shape_product_nonneg(ts.last().shape);
    }
}

/// Dropping the pairs before `i` keeps the first match when none of them matches.
proof fn lemma_find_kv_skip(kvs: Seq<KvPairView>, key: Seq<char>, i: int)
    requires
        0 <= i < kvs.len(),
        kvs[i].key != key,
    ensures
        find_kv(kvs.skip(i), key) == find_kv(kvs.skip(i + 1), key),
{
    assert(kvs.skip(i).drop_first() =~= kvs.skip(i + 1));
}

/// The index of the first pair with key `key`.
fn pair_index(kvs: &[GgufKvPair], key: &str) -> (r: Option<usize>)
    ensures
        match r {
            Some(i) => i < kvs@.len() && find_kv(pairs_view(kvs@), key@) == Some(kvs@[i as int]@),
            None => find_kv(pairs_view(kvs@), key@) is None,
        },
{
    let ghost all = pairs_view(kvs@);
    let mut i: usize = 0;
    assert(all.skip(0) =~= all);
    while i < kvs.len()
        invariant
            i <= kvs.len(),
            all == pairs_view(kvs@),
            all.len() == kvs@.len(),
            find_kv(all, key@) == find_kv(all.skip(i as int), key@),
        decreases kvs.len() - i,
    {
        assert(all[i as int] == kvs@[i as int]@);
        if str_eq(kvs[i].key.as_str(), key) {
            assert(all.skip(i as int)[0] == all[i as int]);
            return Some(i);
        }
        proof {
            lemma_find_kv_skip(all, key@, i as int);
        }
        i = i + 1;
    }
    None
}

/// The first of two lookups that finds something.
pub open spec fn first_of<T>(a: Option<T>, b: Option<T>) -> Option<T> {
    match a {
        Some(x) => Some(x),
        None => b,
    }
}

/// A number found by a lookup, in decimal.
pub open spec fn decimal_of(v: Option<u32>) -> Option<Seq<char>> {
    match v {
        Some(x) => Some(decimal(x as nat)),
        None => None,
    }
}

/// The architecture name: `general.architecture`, else `arch`.
pub open spec fn architecture_of(kvs: Seq<KvPairView>) -> Option<Seq<char>> {
    first_of(text_at(kvs, "general.architecture"@), text_at(kvs, "arch"@))
}

/// The file type: the text of `general.file_type`, else of `ft`, else the
/// number under `general.file_type`, else under `ft`, in decimal.
pub open spec fn file_type_of(kvs: Seq<KvPairView>) -> Option<Seq<char>> {
    first_of(
        text_at(kvs, "general.file_type"@),
        first_of(
            text_at(kvs, "ft"@),
            first_of(decimal_of(u32_at(kvs, "general.file_type"@)), decimal_of(u32_at(kvs, "ft"@))),
        ),
    )
}

/// The rope scaling type: `rope.scaling.type`, else `rope_type`.
pub open spec fn rope_scaling_type_of(kvs: Seq<KvPairView>) -> Option<Seq<char>> {
    first_of(text_at(kvs, "rope.scaling.type"@), text_at(kvs, "rope_type"@))
}

/// The quantization description: `general.quantization_version`, else
/// `quantization`, as text.
pub open spec fn quantization_description_of(kvs: Seq<KvPairView>) -> Option<Seq<char>> {
    first_of(text_at(kvs, "general.quantization_version"@), text_at(kvs, "quantization"@))
}

/// The keys of `context_length`, in order: `llama.context_length`, `context_length`, `n_ctx`.
pub open spec fn context_length_of(kvs: Seq<KvPairView>) -> Option<u32> {
    first_of(u32_at(kvs, "llama.context_length"@), first_of(u32_at(kvs, "context_length"@), u32_at(kvs, "n_ctx"@)))
}

/// The keys of `embedding_length`, in order: `llama.embedding_length`, `embedding_length`, `n_embd`, `qwen2.embedding_length`.
pub open spec fn embedding_length_of(kvs: Seq<KvPairView>) -> Option<u32> {
    first_of(u32_at(kvs, "llama.embedding_length"@), first_of(u32_at(kvs, "embedding_length"@), first_of(u32_at(kvs, "n_embd"@), u32_at(kvs, "qwen2.embedding_length"@))))
}

/// The keys of `block_count`, in order: `llama.block_count`, `block_count`, `n_layer`, `qwen2.block_count`.
pub open spec fn block_count_of(kvs: Seq<KvPairView>) -> Option<u32> {
    first_of(u32_at(kvs, "llama.block_count"@), first_of(u32_at(kvs, "block_count"@), first_of(u32_at(kvs, "n_layer"@), u32_at(kvs, "qwen2.block_count"@))))
}

/// The keys of `attention_head_count`, in order: `llama.attention.head_count`, `attention.head_count`, `n_head`.
pub open spec fn attention_head_count_of(kvs: Seq<KvPairView>) -> Option<u32> {
    first_of(u32_at(kvs, "llama.attention.head_count"@), first_of(u32_at(kvs, "attention.head_count"@), u32_at(kvs, "n_head"@)))
}

/// The keys of `attention_head_count_kv`, in order: `llama.attention.head_count_kv`, `attention.head_count_kv`.
pub open spec fn attention_head_count_kv_of(kvs: Seq<KvPairView>) -> Option<u32> {
    first_of(u32_at(kvs, "llama.attention.head_count_kv"@), u32_at(kvs, "attention.head_count_kv"@))
}

/// The keys of `rope_dimension_count`, in order: `llama.rope.dimension_count`, `rope.dimension_count`, `rope_dim`.
pub open spec fn rope_dimension_count_of(kvs: Seq<KvPairView>) -> Option<i32> {
    first_of(i32_at(kvs, "llama.rope.dimension_count"@), first_of(i32_at(kvs, "rope.dimension_count"@), i32_at(kvs, "rope_dim"@)))
}

/// The keys of `feed_forward_length`, in order: `llama.feed_forward_length`, `feed_forward_length`, `n_ff`.
pub open spec fn feed_forward_length_of(kvs: Seq<KvPairView>) -> Option<u32> {
    first_of(u32_at(kvs, "llama.feed_forward_length"@), first_of(u32_at(kvs, "feed_forward_length"@), u32_at(kvs, "n_ff"@)))
}

/// The keys of `vocab_size`, in order: `tokenizer.ggml.tokens`, `vocab_size`, `n_vocab`.
pub open spec fn vocab_size_of(kvs: Seq<KvPairView>) -> Option<u32> {
    first_of(u32_at(kvs, "tokenizer.ggml.tokens"@), first_of(u32_at(kvs, "vocab_size"@), u32_at(kvs, "n_vocab"@)))
}

/// Whether pair `i` is the last pair with its key.
pub open spec fn last_with_key(kvs: Seq<KvPairView>, i: int) -> bool {
    forall|j: int| i < j < kvs.len() ==> kvs[j].key != kvs[i].key
}

/// Among the first `n` pairs, those that are the last with their key, in
/// order: one per key, holding the value a later pair with the key would
/// have replaced.
pub open spec fn last_pairs(kvs: Seq<KvPairView>, n: nat) -> Seq<KvPairView>
    decreases n,
{
    if n == 0 {
        Seq::empty()
    } else {
        let init = last_pairs(kvs, (n - 1) as nat);
        if last_with_key(kvs, n - 1) {
            init.push(kvs[n - 1])
        } else {
            init
        }
    }
}

/// The views of key and value entries.
pub open spec fn entries_view(v: Seq<(String, GgufKvValue)>) -> Seq<(Seq<char>, KvValueView)> {
    v.map_values(|e: (String, GgufKvValue)| (e.0@, e.1@))
}

/// The key and value of each pair.
pub open spec fn pair_entries(kvs: Seq<KvPairView>) -> Seq<(Seq<char>, KvValueView)> {
    kvs.map_values(|p: KvPairView| (p.key, p.value))
}

impl GgufHeader {
    /// The pairs as key and value, one entry per key: where a key occurs
    /// more than once, its last pair's value, at that pair's place. These
    /// are the entries of the header's configuration map.
    pub fn config_entries(&self) -> (r: Vec<(String, GgufKvValue)>)
        ensures
            entries_view(r@) == pair_entries(last_pairs(self@.kv_pairs, self@.kv_pairs.len())),
    {
        let ghost kvs = self@.kv_pairs;
        let mut out: Vec<(String, GgufKvValue)> = Vec::new();
        let mut i: usize = 0;
        assert(entries_view(out@) =~= pair_entries(last_pairs(kvs, 0)));
        while i < self.kv_pairs.len()
            invariant
                i <= self.kv_pairs.len(),
                kvs == self@.kv_pairs,
                kvs.len() == self.kv_pairs@.len(),
                entries_view(out@) == pair_entries(last_pairs(kvs, i as nat)),
            decreases self.kv_pairs.len() - i,
        {
            assert(kvs[i as int] == self.kv_pairs@[i as int]@);
            let mut j: usize = i + 1;
            let mut later = false;
            while j < self.kv_pairs.len()
                invariant
                    i < j <= self.kv_pairs.len(),
                    kvs == self@.kv_pairs,
                    kvs.len() == self.kv_pairs@.len(),
                    later ==> !last_with_key(kvs, i as int),
                    !later ==> forall|k: int| i < k < j ==> kvs[k].key != kvs[i as int].key,
                ensures
                    later ==> !last_with_key(kvs, i as int),
                    !later ==> last_with_key(kvs, i as int),
                decreases self.kv_pairs.len() - j,
            {
                assert(kvs[j as int] == self.kv_pairs@[j as int]@);
                if str_eq(self.kv_pairs[j].key.as_str(), self.kv_pairs[i].key.as_str()) {
                    later = true;
                    break;
                }
                j = j + 1;
            }
            let ghost before = out@;
            if !later {
                let key = self.kv_pairs[i].key.clone();
                let value = self.kv_pairs[i].value.clone();
                out.push((key, value));
                assert(entries_view(out@) =~= entries_view(before).push((kvs[i as int].key, kvs[i as int].value)));
            }
            assert(pair_entries(last_pairs(kvs, (i + 1) as nat)) =~= if last_with_key(kvs, i as int) {
                pair_entries(last_pairs(kvs, i as nat)).push((kvs[i as int].key, kvs[i as int].value))
            } else {
                pair_entries(last_pairs(kvs, i as nat))
            });
            i = i + 1;
        }
        out
    }
}

impl GgufHeader {
    /// The value of the first pair with key `key`, converted by `T::from`.
    pub fn get_kv<T: From<GgufKvValue>>(&self, key: &str) -> (r: Option<T>)
        ensures
            r is Some <==> find_kv(self@.kv_pairs, key@) is Some,
            r matches Some(t) ==> T::obeys_from_spec() ==> exists|v: GgufKvValue|
                v@ == find_kv(self@.kv_pairs, key@)->Some_0.value && t == T::from_spec(v),
    {
        match pair_index(self.kv_pairs.as_slice(), key) {
            Some(i) => {
                let v = self.kv_pairs[i].value.duplicate();
                Some(T::from(v))
            },
            None => None,
        }
    }

    /// The text of the first pair with key `key`, if that pair holds a string.
    pub fn get_kv_str(&self, key: &str) -> (r: Option<&str>)
        ensures
            r is Some <==> text_at(self@.kv_pairs, key@) is Some,
            r matches Some(s) ==> text_at(self@.kv_pairs, key@) == Some(s@),
    {
        match pair_index(self.kv_pairs.as_slice(), key) {
            Some(i) => self.kv_pairs[i].value.as_str(),
            None => None,
        }
    }

    /// The first pair with key `key`, if it holds an unsigned integer, as a `u32`.
    pub fn get_kv_u32(&self, key: &str) -> (r: Option<u32>)
        ensures
            r == u32_at(self@.kv_pairs, key@),
    {
        match pair_index(self.kv_pairs.as_slice(), key) {
            Some(i) => self.kv_pairs[i].value.as_u32(),
            None => None,
        }
    }

    /// The first pair with key `key`, if it holds a signed integer of at most
    /// 32 bits, as an `i32`.
    pub fn get_kv_i32(&self, key: &str) -> (r: Option<i32>)
        ensures
            r == i32_at(self@.kv_pairs, key@),
    {
        match pair_index(self.kv_pairs.as_slice(), key) {
            Some(i) => self.kv_pairs[i].value.as_i32(),
            None => None,
        }
    }

    /// The first pair with key `key`, if it holds an unsigned integer, as a `u64`.
    pub fn get_kv_u64(&self, key: &str) -> (r: Option<u64>)
        ensures
            r == u64_at(self@.kv_pairs, key@),
    {
        match pair_index(self.kv_pairs.as_slice(), key) {
            Some(i) => self.kv_pairs[i].value.as_u64(),
            None => None,
        }
    }

    /// The first pair with key `key`, if it holds a boolean.
    pub fn get_kv_bool(&self, key: &str) -> (r: Option<bool>)
        ensures
            r == bool_at(self@.kv_pairs, key@),
    {
        match pair_index(self.kv_pairs.as_slice(), key) {
            Some(i) => self.kv_pairs[i].value.as_bool(),
            None => None,
        }
    }

    /// The elements of the first pair with key `key`, if it holds an array.
    pub fn get_kv_array(&self, key: &str) -> (r: Option<&Vec<GgufKvValue>>)
        ensures
            r is Some <==> array_at(self@.kv_pairs, key@) is Some,
            r matches Some(a) ==> array_at(self@.kv_pairs, key@) == Some(array_view(a@)),
    {
        match pair_index(self.kv_pairs.as_slice(), key) {
            Some(i) => self.kv_pairs[i].value.as_array(),
            None => None,
        }
    }

    /// Extract architecture name (e.g., "llama", "mistral", "qwen2").
    pub fn architecture(&self) -> (r: Option<&str>)
        ensures
            r is Some <==> architecture_of(self@.kv_pairs) is Some,
            r matches Some(s) ==> architecture_of(self@.kv_pairs) == Some(s@),
    {
        match self.get_kv_str("general.architecture") {
            Some(s) => Some(s),
            None => self.get_kv_str("arch"),
        }
    }

    /// Extract file type string (e.g., "F16", "Q4_0", "Q8_0"); a number is
    /// given in decimal.
    pub fn file_type(&self) -> (r: Option<String>)
        ensures
            r is Some <==> file_type_of(self@.kv_pairs) is Some,
            r matches Some(s) ==> file_type_of(self@.kv_pairs) == Some(s@),
    {
        if let Some(s) = self.get_kv_str("general.file_type") {
            return Some(String::from_str(s));
        }
        if let Some(s) = self.get_kv_str("ft") {
            return Some(String::from_str(s));
        }
        if let Some(v) = self.get_kv_u32("general.file_type") {
            return Some(decimal_string(v));
        }
        match self.get_kv_u32("ft") {
            Some(v) => Some(decimal_string(v)),
            None => None,
        }
    }

    /// Extract context length (n_ctx).
    pub fn context_length(&self) -> (r: Option<u32>)
        ensures
            r == context_length_of(self@.kv_pairs),
    {
        if let Some(v) = self.get_kv_u32("llama.context_length") {
            return Some(v);
        }
        if let Some(v) = self.get_kv_u32("context_length") {
            return Some(v);
        }
        self.get_kv_u32("n_ctx")
    }

    /// Extract embedding/vector dimension: llama-style keys first, then the qwen2 key.
    pub fn embedding_length(&self) -> (r: Option<u32>)
        ensures
            r == embedding_length_of(self@.kv_pairs),
    {
        if let Some(v) = self.get_kv_u32("llama.embedding_length") {
            return Some(v);
        }
        if let Some(v) = self.get_kv_u32("embedding_length") {
            return Some(v);
        }
        if let Some(v) = self.get_kv_u32("n_embd") {
            return Some(v);
        }
        self.get_kv_u32("qwen2.embedding_length")
    }

    /// Extract block count (number of layers).
    pub fn block_count(&self) -> (r: Option<u32>)
        ensures
            r == block_count_of(self@.kv_pairs),
    {
        if let Some(v) = self.get_kv_u32("llama.block_count") {
            return Some(v);
        }
        if let Some(v) = self.get_kv_u32("block_count") {
            return Some(v);
        }
        if let Some(v) = self.get_kv_u32("n_layer") {
            return Some(v);
        }
        self.get_kv_u32("qwen2.block_count")
    }

    /// Extract attention head count.
    pub fn attention_head_count(&self) -> (r: Option<u32>)
        ensures
            r == attention_head_count_of(self@.kv_pairs),
    {
        if let Some(v) = self.get_kv_u32("llama.attention.head_count") {
            return Some(v);
        }
        if let Some(v) = self.get_kv_u32("attention.head_count") {
            return Some(v);
        }
        self.get_kv_u32("n_head")
    }

    /// Extract attention head count for KV (QKV projection).
    pub fn attention_head_count_kv(&self) -> (r: Option<u32>)
        ensures
            r == attention_head_count_kv_of(self@.kv_pairs),
    {
        if let Some(v) = self.get_kv_u32("llama.attention.head_count_kv") {
            return Some(v);
        }
        self.get_kv_u32("attention.head_count_kv")
    }

    /// Extract rope dimension count.
    pub fn rope_dimension_count(&self) -> (r: Option<i32>)
        ensures
            r == rope_dimension_count_of(self@.kv_pairs),
    {
        if let Some(v) = self.get_kv_i32("llama.rope.dimension_count") {
            return Some(v);
        }
        if let Some(v) = self.get_kv_i32("rope.dimension_count") {
            return Some(v);
        }
        self.get_kv_i32("rope_dim")
    }

    /// Extract feed-forward dimension.
    pub fn feed_forward_length(&self) -> (r: Option<u32>)
        ensures
            r == feed_forward_length_of(self@.kv_pairs),
    {
        if let Some(v) = self.get_kv_u32("llama.feed_forward_length") {
            return Some(v);
        }
        if let Some(v) = self.get_kv_u32("feed_forward_length") {
            return Some(v);
        }
        self.get_kv_u32("n_ff")
    }

    /// Extract the vocabulary size: `tokenizer.ggml.tokens`, `vocab_size`, `n_vocab`, each read as a number.
    pub fn vocab_size(&self) -> (r: Option<u32>)
        ensures
            r == vocab_size_of(self@.kv_pairs),
    {
        if let Some(v) = self.get_kv_u32("tokenizer.ggml.tokens") {
            return Some(v);
        }
        if let Some(v) = self.get_kv_u32("vocab_size") {
            return Some(v);
        }
        self.get_kv_u32("n_vocab")
    }

    /// Extract rope scaling parameters.
    pub fn rope_scaling(&self) -> (r: Option<&Vec<GgufKvValue>>)
        ensures
            r is Some <==> array_at(self@.kv_pairs, "rope.scaling"@) is Some,
            r matches Some(a) ==> array_at(self@.kv_pairs, "rope.scaling"@) == Some(array_view(a@)),
    {
        self.get_kv_array("rope.scaling")
    }

    /// Extract rope scaling type (e.g., "linear", "yarn").
    pub fn rope_scaling_type(&self) -> (r: Option<&str>)
        ensures
            r is Some <==> rope_scaling_type_of(self@.kv_pairs) is Some,
            r matches Some(s) ==> rope_scaling_type_of(self@.kv_pairs) == Some(s@),
    {
        match self.get_kv_str("rope.scaling.type") {
            Some(s) => Some(s),
            None => self.get_kv_str("rope_type"),
        }
    }

    /// Extract quantization description if present.
    pub fn quantization_description(&self) -> (r: Option<&str>)
        ensures
            r is Some <==> quantization_description_of(self@.kv_pairs) is Some,
            r matches Some(s) ==> quantization_description_of(self@.kv_pairs) == Some(s@),
    {
        match self.get_kv_str("general.quantization_version") {
            Some(s) => Some(s),
            None => self.get_kv_str("quantization"),
        }
    }

    /// Get the first tensor named `name`.
    pub fn get_tensor(&self, name: &str) -> (r: Option<&GgufTensorInfo>)
        ensures
            r is Some <==> find_tensor(self@.tensors, name@) is Some,
            r matches Some(t) ==> find_tensor(self@.tensors, name@) == Some(t@),
    {
        let ghost all = self@.tensors;
        let mut i: usize = 0;
        assert(all.skip(0) =~= all);
        while i < self.tensors.len()
            invariant
                i <= self.tensors.len(),
                all == self@.tensors,
                all.len() == self.tensors@.len(),
                find_tensor(all, name@) == find_tensor(all.skip(i as int), name@),
            decreases self.tensors.len() - i,
        {
            assert(all[i as int] == self.tensors@[i as int]@);
            if str_eq(self.tensors[i].name.as_str(), name) {
                assert(all.skip(i as int)[0] == all[i as int]);
                return Some(&self.tensors[i]);
            }
            assert(all.skip(i as int).drop_first() =~= all.skip(i + 1));
            i = i + 1;
        }
        None
    }

    /// Check if a tensor exists.
    pub fn has_tensor(&self, name: &str) -> (r: bool)
        ensures
            r == exists|i: int| 0 <= i < self@.tensors.len() && #[trigger] self@.tensors[i].name == name@,
    {
        let mut i: usize = 0;
        while i < self.tensors.len()
            invariant
                i <= self.tensors.len(),
                forall|k: int| 0 <= k < i ==> #[trigger] self@.tensors[k].name != name@,
            decreases self.tensors.len() - i,
        {
            assert(self@.tensors[i as int] == self.tensors@[i as int]@);
            if str_eq(self.tensors[i].name.as_str(), name) {
                assert(self@.tensors[i as int].name == name@);
                return true;
            }
            i = i + 1;
        }
        false
    }

    /// Total tensor element count: the sum of the tensors' element counts.
    pub fn total_tensor_bytes_f32(&self) -> (r: u64)
        requires
            forall|i: int| 0 <= i < self.tensors@.len() ==> product_fits(#[trigger] self.tensors@[i].shape@),
            element_total(self@.tensors) <= u64::MAX,
        ensures
            r == element_total(self@.tensors),
    {
        let ghost ts = self@.tensors;
        let mut total: u64 = 0;
        let mut i: usize = 0;
        assert(ts.take(0) =~= Seq::<TensorView>::empty());
        while i < self.tensors.len()
            invariant
                i <= self.tensors.len(),
                ts == self@.tensors,
                ts.len() == self.tensors@.len(),
                forall|k: int| 0 <= k < self.tensors@.len() ==> product_fits(#[trigger] self.tensors@[k].shape@),
                element_total(ts) <= u64::MAX,
                total == element_total(ts.take(i as int)),
            decreases self.tensors.len() - i,
        {
            proof {
                lemma_element_total_prefix(ts, i + 1);
                assert(ts.take(i + 1).drop_last() =~= ts.take(i as int));
                assert(ts.take(i + 1).last() == self.tensors@[i as int]@);
            }
            let n = self.tensors[i].element_count();
            total = total + n;
            i = i + 1;
        }
        assert(ts.take(self.tensors.len() as int) =~= ts);
        total
    }
}

} // verus!
