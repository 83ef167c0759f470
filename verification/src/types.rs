//! The GGUF data model: versions and their wire widths, metadata values,
//! tensor dtypes and tensor descriptors, and the parsed header.
use crate::error::GgufError;
use crate::text::{
    msg_no_block_size, msg_partial_block, msg_size_overflow, no_block_size_text,
    partial_block_text, size_overflow_text, str_eq,
};
use vstd::prelude::*;
use vstd::string::*;
use vstd::std_specs::convert::FromSpec;
use vstd::utf8::*;

verus! {

/// GGUF file format version.
#[derive(Debug, Clone, Copy, PartialEq, Eq, Structural)]
pub enum GgufVersion {
    V1,
    V2,
    V3,
}

impl GgufVersion {
    /// The version number written in the file.
    pub open spec fn number(self) -> u32 {
        match self {
            GgufVersion::V1 => 1,
            GgufVersion::V2 => 2,
            GgufVersion::V3 => 3,
        }
    }

    /// The integer widths that this version uses on the wire.
    pub open spec fn layout(self) -> GgufWireFormat {
        match self {
            GgufVersion::V1 => wire_v1(),
            GgufVersion::V2 => wire_v2(),
            GgufVersion::V3 => wire_v3(),
        }
    }

    /// The version numbered `v`, if there is one.
    pub fn from_u32(v: u32) -> (r: Option<Self>)
        ensures
            r is Some <==> 1 <= v <= 3,
            r matches Some(x) ==> x.number() == v,
    {
        match v {
            1 => Some(GgufVersion::V1),
            2 => Some(GgufVersion::V2),
            3 => Some(GgufVersion::V3),
            _ => None,
        }
    }

    /// The version number.
    pub fn to_u32(self) -> (r: u32)
        ensures
            r == self.number(),
    {
        match self {
            GgufVersion::V1 => 1,
            GgufVersion::V2 => 2,
            GgufVersion::V3 => 3,
        }
    }

    /// Returns the wire format for this GGUF version.
    pub fn wire_format(self) -> (r: GgufWireFormat)
        ensures
            r == self.layout(),
    {
        match self {
            GgufVersion::V1 => GgufWireFormat::v1(),
            GgufVersion::V2 => GgufWireFormat::v2(),
            GgufVersion::V3 => GgufWireFormat::v3(),
        }
    }
}

/// Integer width for wire-format fields.
#[derive(Debug, Clone, Copy, PartialEq, Eq, Structural)]
pub enum IntWidth {
    /// 4-byte little-endian integer.
    U32,
    /// 8-byte little-endian integer.
    U64,
}

impl IntWidth {
    /// The number of bytes a field of this width takes.
    pub open spec fn bytes(self) -> int {
        match self {
            IntWidth::U32 => 4,
            IntWidth::U64 => 8,
        }
    }

    pub fn is_u32(self) -> (r: bool)
        ensures
            r == (self == IntWidth::U32),
    {
        matches!(self, IntWidth::U32)
    }

    pub fn is_u64(self) -> (r: bool)
        ensures
            r == (self == IntWidth::U64),
    {
        matches!(self, IntWidth::U64)
    }
}

/// Describes the wire-format encoding differences between GGUF versions.
///
/// GGUF v1/v2/v3 differ only in the integer widths of some fields; the
/// grammar (what fields exist, in what order) is the same, so the parser and
/// the size computations are parameterized by this struct.
#[derive(Debug, Clone, Copy, PartialEq, Eq, Structural)]
pub struct GgufWireFormat {
    /// Width of tensor_count and kv_count in the file header.
    pub header_count_width: IntWidth,
    /// Width of KV pair key length prefix.
    pub key_width: IntWidth,
    /// Width of string value length prefix (top-level and in arrays).
    pub string_width: IntWidth,
    /// Width of array element count.
    pub array_count_width: IntWidth,
    /// Width of tensor info name length prefix.
    pub tensor_name_width: IntWidth,
}

/// V1: u32 counts, u32 keys, u32 strings, u32 array counts, u32 tensor names.
pub open spec fn wire_v1() -> GgufWireFormat {
    GgufWireFormat {
        header_count_width: IntWidth::U32,
        key_width: IntWidth::U32,
        string_width: IntWidth::U32,
        array_count_width: IntWidth::U32,
        tensor_name_width: IntWidth::U32,
    }
}

/// V2: u64 counts, u32 keys, u32 strings, u64 array counts, u32 tensor names.
pub open spec fn wire_v2() -> GgufWireFormat {
    GgufWireFormat {
        header_count_width: IntWidth::U64,
        key_width: IntWidth::U32,
        string_width: IntWidth::U32,
        array_count_width: IntWidth::U64,
        tensor_name_width: IntWidth::U32,
    }
}

/// V3: u64 counts, u64 keys, u64 strings, u64 array counts, u64 tensor names.
pub open spec fn wire_v3() -> GgufWireFormat {
    GgufWireFormat {
        header_count_width: IntWidth::U64,
        key_width: IntWidth::U64,
        string_width: IntWidth::U64,
        array_count_width: IntWidth::U64,
        tensor_name_width: IntWidth::U64,
    }
}

impl GgufWireFormat {
    /// The v1 layout.
    pub fn v1() -> (r: Self)
        ensures
            r == wire_v1(),
    {
        GgufWireFormat {
            header_count_width: IntWidth::U32,
            key_width: IntWidth::U32,
            string_width: IntWidth::U32,
            array_count_width: IntWidth::U32,
            tensor_name_width: IntWidth::U32,
        }
    }

    /// The v2 layout.
    pub fn v2() -> (r: Self)
        ensures
            r == wire_v2(),
    {
        GgufWireFormat {
            header_count_width: IntWidth::U64,
            key_width: IntWidth::U32,
            string_width: IntWidth::U32,
            array_count_width: IntWidth::U64,
            tensor_name_width: IntWidth::U32,
        }
    }

    /// The v3 layout.
    pub fn v3() -> (r: Self)
        ensures
            r == wire_v3(),
    {
        GgufWireFormat {
            header_count_width: IntWidth::U64,
            key_width: IntWidth::U64,
            string_width: IntWidth::U64,
            array_count_width: IntWidth::U64,
            tensor_name_width: IntWidth::U64,
        }
    }
}

impl From<GgufVersion> for GgufWireFormat {
    fn from(v: GgufVersion) -> (r: Self) {
        v.wire_format()
    }
}

impl vstd::std_specs::convert::FromSpecImpl<GgufVersion> for GgufWireFormat {
    open spec fn obeys_from_spec() -> bool {
        true
    }

    open spec fn from_spec(v: GgufVersion) -> Self {
        v.layout()
    }
}

/// GGUF key-value value type.
#[derive(Debug, Clone, Copy, PartialEq, Eq, Structural)]
pub enum GgufValueType {
    Uint8,
    Int8,
    Uint16,
    Int16,
    Uint32,
    Int32,
    Float32,
    Uint64,
    Int64,
    Bool,
    String,
    Array,
    Int8Array,
    Uint8Array,
    Float64,
    Bfloat16,
    Float16,
}

/// The value type numbered `v` on the wire.
pub open spec fn value_type_of_id(v: u32) -> Option<GgufValueType> {
    match v {
        0 => Some(GgufValueType::Uint8),
        1 => Some(GgufValueType::Int8),
        2 => Some(GgufValueType::Uint16),
        3 => Some(GgufValueType::Int16),
        4 => Some(GgufValueType::Uint32),
        5 => Some(GgufValueType::Int32),
        6 => Some(GgufValueType::Float32),
        7 => Some(GgufValueType::Bool),
        8 => Some(GgufValueType::String),
        9 => Some(GgufValueType::Array),
        10 => Some(GgufValueType::Uint64),
        11 => Some(GgufValueType::Int64),
        12 => Some(GgufValueType::Float64),
        13 => Some(GgufValueType::Int8Array),
        14 => Some(GgufValueType::Uint8Array),
        15 => Some(GgufValueType::Bfloat16),
        16 => Some(GgufValueType::Float16),
        _ => None,
    }
}

impl GgufValueType {
    /// The type's number on the wire.
    pub open spec fn id(self) -> u32 {
        match self {
            GgufValueType::Uint8 => 0,
            GgufValueType::Int8 => 1,
            GgufValueType::Uint16 => 2,
            GgufValueType::Int16 => 3,
            GgufValueType::Uint32 => 4,
            GgufValueType::Int32 => 5,
            GgufValueType::Float32 => 6,
            GgufValueType::Bool => 7,
            GgufValueType::String => 8,
            GgufValueType::Array => 9,
            GgufValueType::Uint64 => 10,
            GgufValueType::Int64 => 11,
            GgufValueType::Float64 => 12,
            GgufValueType::Int8Array => 13,
            GgufValueType::Uint8Array => 14,
            GgufValueType::Bfloat16 => 15,
            GgufValueType::Float16 => 16,
        }
    }

    /// The position of the variant in the declaration, which is what `as u32`
    /// gives for this enum.
    pub open spec fn ordinal(self) -> u32 {
        match self {
            GgufValueType::Uint8 => 0,
            GgufValueType::Int8 => 1,
            GgufValueType::Uint16 => 2,
            GgufValueType::Int16 => 3,
            GgufValueType::Uint32 => 4,
            GgufValueType::Int32 => 5,
            GgufValueType::Float32 => 6,
            GgufValueType::Uint64 => 7,
            GgufValueType::Int64 => 8,
            GgufValueType::Bool => 9,
            GgufValueType::String => 10,
            GgufValueType::Array => 11,
            GgufValueType::Int8Array => 12,
            GgufValueType::Uint8Array => 13,
            GgufValueType::Float64 => 14,
            GgufValueType::Bfloat16 => 15,
            GgufValueType::Float16 => 16,
        }
    }

    /// The position of the variant in the declaration (`as u32`).
    pub(crate) fn declaration_index(self) -> (r: u32)
        ensures
            r == self.ordinal(),
    {
        match self {
            GgufValueType::Uint8 => 0,
            GgufValueType::Int8 => 1,
            GgufValueType::Uint16 => 2,
            GgufValueType::Int16 => 3,
            GgufValueType::Uint32 => 4,
            GgufValueType::Int32 => 5,
            GgufValueType::Float32 => 6,
            GgufValueType::Uint64 => 7,
            GgufValueType::Int64 => 8,
            GgufValueType::Bool => 9,
            GgufValueType::String => 10,
            GgufValueType::Array => 11,
            GgufValueType::Int8Array => 12,
            GgufValueType::Uint8Array => 13,
            GgufValueType::Float64 => 14,
            GgufValueType::Bfloat16 => 15,
            GgufValueType::Float16 => 16,
        }
    }

    /// The fixed size of one value of this type, where it has one.
    pub open spec fn fixed_size(self) -> Option<usize> {
        match self {
            GgufValueType::Uint8 | GgufValueType::Int8 | GgufValueType::Bool
            | GgufValueType::Int8Array | GgufValueType::Uint8Array => Some(1),
            GgufValueType::Uint16 | GgufValueType::Int16 | GgufValueType::Bfloat16
            | GgufValueType::Float16 => Some(2),
            GgufValueType::Uint32 | GgufValueType::Int32 | GgufValueType::Float32 => Some(4),
            GgufValueType::Uint64 | GgufValueType::Int64 | GgufValueType::Float64 => Some(8),
            GgufValueType::String | GgufValueType::Array => None,
        }
    }

    /// The value type numbered `v` on the wire, if there is one.
    pub fn from_u32(v: u32) -> (r: Option<Self>)
        ensures
            r == value_type_of_id(v),
            r is Some <==> v <= 16,
            r matches Some(t) ==> t.id() == v,
    {
        match v {
            0 => Some(GgufValueType::Uint8),
            1 => Some(GgufValueType::Int8),
            2 => Some(GgufValueType::Uint16),
            3 => Some(GgufValueType::Int16),
            4 => Some(GgufValueType::Uint32),
            5 => Some(GgufValueType::Int32),
            6 => Some(GgufValueType::Float32),
            7 => Some(GgufValueType::Bool),
            8 => Some(GgufValueType::String),
            9 => Some(GgufValueType::Array),
            10 => Some(GgufValueType::Uint64),
            11 => Some(GgufValueType::Int64),
            12 => Some(GgufValueType::Float64),
            13 => Some(GgufValueType::Int8Array),
            14 => Some(GgufValueType::Uint8Array),
            15 => Some(GgufValueType::Bfloat16),
            16 => Some(GgufValueType::Float16),
            _ => None,
        }
    }

    /// The type's number on the wire.
    pub fn to_u32(self) -> (r: u32)
        ensures
            r == self.id(),
    {
        match self {
            GgufValueType::Uint8 => 0,
            GgufValueType::Int8 => 1,
            GgufValueType::Uint16 => 2,
            GgufValueType::Int16 => 3,
            GgufValueType::Uint32 => 4,
            GgufValueType::Int32 => 5,
            GgufValueType::Float32 => 6,
            GgufValueType::Bool => 7,
            GgufValueType::String => 8,
            GgufValueType::Array => 9,
            GgufValueType::Uint64 => 10,
            GgufValueType::Int64 => 11,
            GgufValueType::Float64 => 12,
            GgufValueType::Int8Array => 13,
            GgufValueType::Uint8Array => 14,
            GgufValueType::Bfloat16 => 15,
            GgufValueType::Float16 => 16,
        }
    }

    /// Size in bytes of one value of this type; strings and arrays have none.
    pub fn element_size(self) -> (r: Option<usize>)
        ensures
            r == self.fixed_size(),
    {
        match self {
            GgufValueType::Uint8 | GgufValueType::Int8 | GgufValueType::Bool
            | GgufValueType::Int8Array | GgufValueType::Uint8Array => Some(1),
            GgufValueType::Uint16 | GgufValueType::Int16 | GgufValueType::Bfloat16
            | GgufValueType::Float16 => Some(2),
            GgufValueType::Uint32 | GgufValueType::Int32 | GgufValueType::Float32 => Some(4),
            GgufValueType::Uint64 | GgufValueType::Int64 | GgufValueType::Float64 => Some(8),
            GgufValueType::String | GgufValueType::Array => None,
        }
    }
}

/// The number of bytes `s` takes in UTF-8.
pub open spec fn utf8_len(s: Seq<char>) -> int {
    encode_utf8(s).len() as int
}

/// GGUF key-value pair value.
///
/// Floating-point values are held as their IEEE-754 bit patterns: `Float32`
/// and `Bfloat16` hold the bits of an `f32` (for bfloat16, the stored 16 bits
/// shifted into the high half), `Float64` the bits of an `f64`, and `Float16`
/// the raw half-precision bits.
#[derive(Debug, PartialEq)]
pub enum GgufKvValue {
    Uint8(u8),
    Int8(i8),
    Uint16(u16),
    Int16(i16),
    Uint32(u32),
    Int32(i32),
    Float32(u32),
    Uint64(u64),
    Int64(i64),
    Bool(bool),
    String(String),
    Array(Vec<GgufKvValue>),
    Int8Array(Vec<i8>),
    Uint8Array(Vec<u8>),
    Float64(u64),
    Bfloat16(u32),
    Float16(u16),
}

/// The mathematical value of a [`GgufKvValue`]: strings as their characters,
/// vectors as sequences.
pub enum KvValueView {
    Uint8(u8),
    Int8(i8),
    Uint16(u16),
    Int16(i16),
    Uint32(u32),
    Int32(i32),
    Float32(u32),
    Uint64(u64),
    Int64(i64),
    Bool(bool),
    String(Seq<char>),
    Array(Seq<KvValueView>),
    Int8Array(Seq<i8>),
    Uint8Array(Seq<u8>),
    Float64(u64),
    Bfloat16(u32),
    Float16(u16),
}

/// The view of a metadata value.
pub open spec fn kv_value_view(v: GgufKvValue) -> KvValueView
    decreases v,
{
    match v {
        GgufKvValue::Uint8(x) => KvValueView::Uint8(x),
        GgufKvValue::Int8(x) => KvValueView::Int8(x),
        GgufKvValue::Uint16(x) => KvValueView::Uint16(x),
        GgufKvValue::Int16(x) => KvValueView::Int16(x),
        GgufKvValue::Uint32(x) => KvValueView::Uint32(x),
        GgufKvValue::Int32(x) => KvValueView::Int32(x),
        GgufKvValue::Float32(x) => KvValueView::Float32(x),
        GgufKvValue::Uint64(x) => KvValueView::Uint64(x),
        GgufKvValue::Int64(x) => KvValueView::Int64(x),
        GgufKvValue::Bool(x) => KvValueView::Bool(x),
        GgufKvValue::String(s) => KvValueView::String(s@),
        GgufKvValue::Array(a) => KvValueView::Array(
            Seq::new(
                a@.len(),
                |i: int|
                    if 0 <= i < a@.len() {
                        kv_value_view(a@[i])
                    } else {
                        KvValueView::Bool(false)
                    },
            ),
        ),
        GgufKvValue::Int8Array(a) => KvValueView::Int8Array(a@),
        GgufKvValue::Uint8Array(a) => KvValueView::Uint8Array(a@),
        GgufKvValue::Float64(x) => KvValueView::Float64(x),
        GgufKvValue::Bfloat16(x) => KvValueView::Bfloat16(x),
        GgufKvValue::Float16(x) => KvValueView::Float16(x),
    }
}

impl View for GgufKvValue {
    type V = KvValueView;

    open spec fn view(&self) -> KvValueView {
        kv_value_view(*self)
    }
}

/// The serialized size of the string elements of an array: each string
/// element counts its length prefix and its bytes, anything else nothing.
pub open spec fn string_elems_size(a: Seq<KvValueView>, sw: int) -> int
    decreases a.len(),
{
    if a.len() == 0 {
        0
    } else {
        string_elems_size(a.drop_last(), sw) + match a.last() {
            KvValueView::String(s) => sw + utf8_len(s),
            _ => 0,
        }
    }
}

impl KvValueView {
    /// The value type of this value.
    pub open spec fn kind(self) -> GgufValueType {
        match self {
            KvValueView::Uint8(_) => GgufValueType::Uint8,
            KvValueView::Int8(_) => GgufValueType::Int8,
            KvValueView::Uint16(_) => GgufValueType::Uint16,
            KvValueView::Int16(_) => GgufValueType::Int16,
            KvValueView::Uint32(_) => GgufValueType::Uint32,
            KvValueView::Int32(_) => GgufValueType::Int32,
            KvValueView::Float32(_) => GgufValueType::Float32,
            KvValueView::Uint64(_) => GgufValueType::Uint64,
            KvValueView::Int64(_) => GgufValueType::Int64,
            KvValueView::Bool(_) => GgufValueType::Bool,
            KvValueView::String(_) => GgufValueType::String,
            KvValueView::Array(_) => GgufValueType::Array,
            KvValueView::Int8Array(_) => GgufValueType::Int8Array,
            KvValueView::Uint8Array(_) => GgufValueType::Uint8Array,
            KvValueView::Float64(_) => GgufValueType::Float64,
            KvValueView::Bfloat16(_) => GgufValueType::Bfloat16,
            KvValueView::Float16(_) => GgufValueType::Float16,
        }
    }

    /// The per-element size of a non-string array: the fixed size of its
    /// first element's type (4 for an empty array and for an array of
    /// arrays, whose elements have no fixed size).
    pub open spec fn array_elem_size(a: Seq<KvValueView>) -> int {
        if a.len() == 0 {
            4
        } else {
            match a[0].kind().fixed_size() {
                Some(n) => n as int,
                None => 4,
            }
        }
    }

    /// The serialized size of this value, given the width in bytes of a
    /// string length prefix, with a u64 array count. An array counts its
    /// element type (4 bytes) and its count (8 bytes), then its elements:
    /// strings by their own sizes, anything else by
    /// [`KvValueView::array_elem_size`].
    pub open spec fn wire_size(self, sw: int) -> int {
        self.wire_size_in(sw, 8)
    }

    /// The serialized size of this value, given the widths in bytes of a
    /// string length prefix (`sw`) and of an array count (`aw`).
    pub open spec fn wire_size_in(self, sw: int, aw: int) -> int {
        match self {
            KvValueView::Uint8(_) | KvValueView::Int8(_) | KvValueView::Bool(_) => 1,
            KvValueView::Uint16(_) | KvValueView::Int16(_) | KvValueView::Bfloat16(_)
            | KvValueView::Float16(_) => 2,
            KvValueView::Uint32(_) | KvValueView::Int32(_) | KvValueView::Float32(_) => 4,
            KvValueView::Uint64(_) | KvValueView::Int64(_) | KvValueView::Float64(_) => 8,
            KvValueView::String(s) => sw + utf8_len(s),
            KvValueView::Int8Array(a) => 8 + a.len() as int,
            KvValueView::Uint8Array(a) => 8 + a.len() as int,
            KvValueView::Array(a) => if a.len() > 0 && a[0].kind() == GgufValueType::String {
                string_elems_size(a, sw) + 4 + aw
            } else {
                4 + aw + a.len() * KvValueView::array_elem_size(a)
            },
        }
    }

    /// The value as text, for a string.
    pub open spec fn text(self) -> Option<Seq<char>> {
        match self {
            KvValueView::String(s) => Some(s),
            _ => None,
        }
    }

    /// The value as a `u32`: integers up to 64 bits, converted as `as` does.
    pub open spec fn to_u32(self) -> Option<u32> {
        match self {
            KvValueView::Uint8(v) => Some(v as u32),
            KvValueView::Int8(v) => Some(v as u32),
            KvValueView::Uint16(v) => Some(v as u32),
            KvValueView::Int16(v) => Some(v as u32),
            KvValueView::Uint32(v) => Some(v),
            KvValueView::Int32(v) => Some(v as u32),
            KvValueView::Uint64(v) => Some(v as u32),
            _ => None,
        }
    }

    /// The value as a `u64`: integers, converted as `as` does.
    pub open spec fn to_u64(self) -> Option<u64> {
        match self {
            KvValueView::Uint8(v) => Some(v as u64),
            KvValueView::Int8(v) => Some(v as u64),
            KvValueView::Uint16(v) => Some(v as u64),
            KvValueView::Int16(v) => Some(v as u64),
            KvValueView::Uint32(v) => Some(v as u64),
            KvValueView::Int32(v) => Some(v as u64),
            KvValueView::Uint64(v) => Some(v),
            KvValueView::Int64(v) => Some(v as u64),
            _ => None,
        }
    }

    /// The value as a `bool`, for a boolean.
    pub open spec fn to_bool(self) -> Option<bool> {
        match self {
            KvValueView::Bool(v) => Some(v),
            _ => None,
        }
    }
}

/// The partial sums of [`string_elems_size`] grow with the prefix.
pub proof fn lemma_string_elems_size_prefix(a: Seq<KvValueView>, sw: int, i: int)
    requires
        0 <= i <= a.len(),
        sw >= 0,
    ensures
        0 <= string_elems_size(a.take(i), sw) <= string_elems_size(a, sw),
    decreases a.len(),
{
    if i == a.len() {
        assert(a.take(i) =~= a);
        if a.len() > 0 {
            lemma_string_elems_size_prefix(a.drop_last(), sw, i - 1);
        }
    } else {
        lemma_string_elems_size_prefix(a.drop_last(), sw, i);
        assert(a.drop_last().take(i) =~= a.take(i));
    }
}

impl GgufKvValue {
    /// A copy of this value.
    fn duplicate(&self) -> (r: Self)
        ensures
            r@ == self@,
        decreases self@,
    {
        match self {
            GgufKvValue::Uint8(x) => GgufKvValue::Uint8(*x),
            GgufKvValue::Int8(x) => GgufKvValue::Int8(*x),
            GgufKvValue::Uint16(x) => GgufKvValue::Uint16(*x),
            GgufKvValue::Int16(x) => GgufKvValue::Int16(*x),
            GgufKvValue::Uint32(x) => GgufKvValue::Uint32(*x),
            GgufKvValue::Int32(x) => GgufKvValue::Int32(*x),
            GgufKvValue::Float32(x) => GgufKvValue::Float32(*x),
            GgufKvValue::Uint64(x) => GgufKvValue::Uint64(*x),
            GgufKvValue::Int64(x) => GgufKvValue::Int64(*x),
            GgufKvValue::Bool(x) => GgufKvValue::Bool(*x),
            GgufKvValue::String(s) => GgufKvValue::String(s.clone()),
            GgufKvValue::Array(a) => {
                let mut out: Vec<GgufKvValue> = Vec::new();
                let mut i: usize = 0;
                while i < a.len()
                    invariant
                        i <= a.len(),
                        self@ is Array,
                        self@->Array_0.len() == a@.len(),
                        forall|j: int| 0 <= j < a@.len() ==> self@->Array_0[j] == #[trigger] a@[j]@,
                        out@.len() == i,
                        forall|j: int| 0 <= j < i ==> out@[j]@ == #[trigger] a@[j]@,
                    decreases a.len() - i,
                {
                    proof {
                        let ghost sv = self@;
                        assert(sv->Array_0[i as int] == a@[i as int]@);
                        assert(decreases_to!(sv => sv->Array_0));
                    }
                    let e = a[i].duplicate();
                    out.push(e);
                    i = i + 1;
                }
                let r = GgufKvValue::Array(out);
                assert(r@->Array_0.len() == out@.len());
                assert forall|j: int| 0 <= j < out@.len() implies r@->Array_0[j] == self@->Array_0[j] by {
                    assert(r@->Array_0[j] == out@[j]@);
                    assert(out@[j]@ == a@[j]@);
                }
                assert(r@->Array_0 =~= self@->Array_0);
                r
            },
            GgufKvValue::Int8Array(a) => {
                let mut out: Vec<i8> = Vec::new();
                let mut i: usize = 0;
                while i < a.len()
                    invariant
                        i <= a.len(),
                        out@ =~= a@.take(i as int),
                    decreases a.len() - i,
                {
                    out.push(a[i]);
                    i = i + 1;
                }
                assert(out@ =~= a@);
                GgufKvValue::Int8Array(out)
            },
            GgufKvValue::Uint8Array(a) => {
                let mut out: Vec<u8> = Vec::new();
                let mut i: usize = 0;
                while i < a.len()
                    invariant
                        i <= a.len(),
                        out@ =~= a@.take(i as int),
                    decreases a.len() - i,
                {
                    out.push(a[i]);
                    i = i + 1;
                }
                assert(out@ =~= a@);
                GgufKvValue::Uint8Array(out)
            },
            GgufKvValue::Float64(x) => GgufKvValue::Float64(*x),
            GgufKvValue::Bfloat16(x) => GgufKvValue::Bfloat16(*x),
            GgufKvValue::Float16(x) => GgufKvValue::Float16(*x),
        }
    }

    /// Compute the serialized byte size of this value, given the string
    /// length prefix width in bytes. String and array string elements use
    /// `str_len_bytes` for their length prefix.
    pub fn raw_byte_size_with_str_width(&self, str_len_bytes: usize) -> (r: usize)
        requires
            self@.wire_size(str_len_bytes as int) <= usize::MAX,
        ensures
            r == self@.wire_size(str_len_bytes as int),
    {
        // Array wire format: elem_type (u32) + count (u64) + elements.
        let count_bytes: usize = 8;
        match self {
            GgufKvValue::Uint8(..) | GgufKvValue::Int8(..) | GgufKvValue::Bool(..) => 1,
            GgufKvValue::Uint16(..) | GgufKvValue::Int16(..) | GgufKvValue::Bfloat16(..)
            | GgufKvValue::Float16(..) => 2,
            GgufKvValue::Uint32(..) | GgufKvValue::Int32(..) | GgufKvValue::Float32(..) => 4,
            GgufKvValue::Uint64(..) | GgufKvValue::Int64(..) | GgufKvValue::Float64(..) => 8,
            GgufKvValue::String(s) => str_len_bytes + s.as_str().len(),
            GgufKvValue::Int8Array(arr) => 8 + arr.len(),
            GgufKvValue::Uint8Array(arr) => 8 + arr.len(),
            GgufKvValue::Array(arr) => {
                let ghost a = self@->Array_0;
                assert(a.len() == arr@.len());
                if arr.len() == 0 {
                    return 4 + count_bytes + arr.len() * 4;
                }
                let first = arr[0].value_type();
                assert(first == a[0].kind());
                let elem_size: usize = match first {
                    GgufValueType::String => {
                        let mut total: usize = 0;
                        let mut i: usize = 0;
                        while i < arr.len()
                            invariant
                                i <= arr.len(),
                                a.len() == arr@.len(),
                                forall|j: int| 0 <= j < a.len() ==> a[j] == #[trigger] arr@[j]@,
                                string_elems_size(a, str_len_bytes as int) + 4 + count_bytes <= usize::MAX,
                                total == string_elems_size(a.take(i as int), str_len_bytes as int),
                            decreases arr.len() - i,
                        {
                            proof {
                                lemma_string_elems_size_prefix(a, str_len_bytes as int, i + 1);
                                assert(a.take(i + 1).drop_last() =~= a.take(i as int));
                                assert(a.take(i + 1).last() == arr@[i as int]@);
                            }
                            let add = match &arr[i] {
                                GgufKvValue::String(s) => str_len_bytes + s.as_str().len(),
                                _ => 0,
                            };
                            total = total + add;
                            i = i + 1;
                        }
                        assert(a.take(arr.len() as int) =~= a);
                        return total + 4 + count_bytes;
                    },
                    _ => match first.element_size() {
                        Some(n) => n,
                        None => 4,
                    },
                };
                assert(elem_size == KvValueView::array_elem_size(a));
                assert(arr.len() * elem_size <= usize::MAX) by (nonlinear_arith)
                    requires
                        4 + count_bytes + arr.len() * elem_size <= usize::MAX,
                ;
                4 + count_bytes + arr.len() * elem_size
            },
        }
    }

    /// The value type of this value.
    pub fn value_type(&self) -> (r: GgufValueType)
        ensures
            r == self@.kind(),
    {
        match self {
            GgufKvValue::Uint8(_) => GgufValueType::Uint8,
            GgufKvValue::Int8(_) => GgufValueType::Int8,
            GgufKvValue::Uint16(_) => GgufValueType::Uint16,
            GgufKvValue::Int16(_) => GgufValueType::Int16,
            GgufKvValue::Uint32(_) => GgufValueType::Uint32,
            GgufKvValue::Int32(_) => GgufValueType::Int32,
            GgufKvValue::Float32(_) => GgufValueType::Float32,
            GgufKvValue::Uint64(_) => GgufValueType::Uint64,
            GgufKvValue::Int64(_) => GgufValueType::Int64,
            GgufKvValue::Bool(_) => GgufValueType::Bool,
            GgufKvValue::String(_) => GgufValueType::String,
            GgufKvValue::Array(_) => GgufValueType::Array,
            GgufKvValue::Int8Array(_) => GgufValueType::Int8Array,
            GgufKvValue::Uint8Array(_) => GgufValueType::Uint8Array,
            GgufKvValue::Float64(_) => GgufValueType::Float64,
            GgufKvValue::Bfloat16(_) => GgufValueType::Bfloat16,
            GgufKvValue::Float16(_) => GgufValueType::Float16,
        }
    }

    /// The text of a string value.
    pub fn as_str(&self) -> (r: Option<&str>)
        ensures
            r is Some <==> self@.text() is Some,
            r matches Some(s) ==> self@.text() == Some(s@),
    {
        match self {
            GgufKvValue::String(s) => Some(s.as_str()),
            _ => None,
        }
    }

    /// The value as a `u32`, for integers up to 64 bits (converted as `as` does).
    pub fn as_u32(&self) -> (r: Option<u32>)
        ensures
            r == self@.to_u32(),
    {
        match self {
            GgufKvValue::Uint8(v) => Some(*v as u32),
            GgufKvValue::Int8(v) => Some(*v as u32),
            GgufKvValue::Uint16(v) => Some(*v as u32),
            GgufKvValue::Int16(v) => Some(*v as u32),
            GgufKvValue::Uint32(v) => Some(*v),
            GgufKvValue::Int32(v) => Some(*v as u32),
            GgufKvValue::Uint64(v) => Some(*v as u32),
            _ => None,
        }
    }

    /// The value as a `u64`, for integers (converted as `as` does).
    pub fn as_u64(&self) -> (r: Option<u64>)
        ensures
            r == self@.to_u64(),
    {
        match self {
            GgufKvValue::Uint8(v) => Some(*v as u64),
            GgufKvValue::Int8(v) => Some(*v as u64),
            GgufKvValue::Uint16(v) => Some(*v as u64),
            GgufKvValue::Int16(v) => Some(*v as u64),
            GgufKvValue::Uint32(v) => Some(*v as u64),
            GgufKvValue::Int32(v) => Some(*v as u64),
            GgufKvValue::Uint64(v) => Some(*v),
            GgufKvValue::Int64(v) => Some(*v as u64),
            _ => None,
        }
    }

    /// The value of a boolean.
    pub fn as_bool(&self) -> (r: Option<bool>)
        ensures
            r == self@.to_bool(),
    {
        if let GgufKvValue::Bool(v) = self {
            Some(*v)
        } else {
            None
        }
    }
}

impl Clone for GgufKvValue {
    fn clone(&self) -> (r: Self)
        ensures
            r@ == self@,
    {
        self.duplicate()
    }
}

/// A single key-value pair from the GGUF header.
#[derive(Debug)]
pub struct GgufKvPair {
    pub key: String,
    pub value_type: GgufValueType,
    pub value: GgufKvValue,
}

/// The view of a [`GgufKvPair`].
pub struct KvPairView {
    pub key: Seq<char>,
    pub value_type: GgufValueType,
    pub value: KvValueView,
}

impl View for GgufKvPair {
    type V = KvPairView;

    open spec fn view(&self) -> KvPairView {
        KvPairView { key: self.key@, value_type: self.value_type, value: self.value@ }
    }
}

impl KvPairView {
    /// The serialized size of the pair: key length prefix, key, value type
    /// (4 bytes) and value, with the key and string widths of `format` (an
    /// array's count is counted as 8 bytes in every layout).
    pub open spec fn wire_size(self, format: GgufWireFormat) -> int {
        format.key_width.bytes() + utf8_len(self.key) + 4 + self.value.wire_size(
            format.string_width.bytes(),
        )
    }

    /// The bytes the pair takes in the layout `format`: as
    /// [`KvPairView::wire_size`], but with the array count in the layout's
    /// own width.
    pub open spec fn read_size(self, format: GgufWireFormat) -> int {
        format.key_width.bytes() + utf8_len(self.key) + 4 + self.value.wire_size_in(
            format.string_width.bytes(),
            format.array_count_width.bytes(),
        )
    }
}

impl Clone for GgufKvPair {
    fn clone(&self) -> (r: Self)
        ensures
            r@ == self@,
    {
        GgufKvPair { key: self.key.clone(), value_type: self.value_type, value: self.value.duplicate() }
    }
}

impl GgufKvPair {
    /// Compute serialized byte size using the wire format to determine key/string widths.
    pub fn raw_byte_size_for_format(&self, format: &GgufWireFormat) -> (r: usize)
        requires
            self@.wire_size(*format) <= usize::MAX,
        ensures
            r == self@.wire_size(*format),
    {
        let key_bytes = self.key.as_str().len();
        let key_len_bytes: usize = match format.key_width {
            IntWidth::U32 => 4,
            IntWidth::U64 => 8,
        };
        let str_len_bytes: usize = match format.string_width {
            IntWidth::U32 => 4,
            IntWidth::U64 => 8,
        };
        proof {
            lemma_wire_size_nonneg(self.value@, str_len_bytes as int, 8);
        }
        let value_bytes = self.value.raw_byte_size_with_str_width(str_len_bytes);
        key_len_bytes + key_bytes + 4 + value_bytes
    }
}

/// Serialized sizes are never negative.
pub proof fn lemma_wire_size_nonneg(v: KvValueView, sw: int, aw: int)
    requires
        sw >= 0,
        aw >= 0,
    ensures
        v.wire_size_in(sw, aw) >= 0,
{
    if let KvValueView::Array(a) = v {
        lemma_string_elems_size_prefix(a, sw, 0);
        assert(KvValueView::array_elem_size(a) >= 1);
        assert(a.len() * KvValueView::array_elem_size(a) >= 0) by (nonlinear_arith)
            requires
                KvValueView::array_elem_size(a) >= 1,
        ;
    }
}

/// A tensor's data type, numbered as in ggml's `ggml_type` enum.
#[allow(non_camel_case_types)]
#[derive(Debug, Clone, Copy, PartialEq, Eq, Structural)]
pub enum GgufDtype {
    F32, F16, Q4_0, Q4_1, Q5_0, Q5_1, Q8_0, Q8_1, Q2_K, Q3_K, Q4_K, Q5_K, Q6_K, Q8_K, IQ2_XXS, IQ2_XS, IQ3_XXS, IQ1_S, IQ4_NL, IQ3_S, IQ2_S, IQ4_XS, I8, I16, I32, I64, F64, IQ1_M, BF16, TQ1_0, TQ2_0, MXFP4, NVFP4, Q1_0, Q2_0,
    Unknown(u32),
}

/// The ggml type ids that name a variant; the others are absent from ggml or
/// were removed from it.
pub open spec fn is_assigned_dtype_id(v: u32) -> bool {
    v <= 3 || (6 <= v && v <= 30) || v == 34 || v == 35 || (39 <= v && v <= 42)
}

impl GgufDtype {
    /// The ggml type id of this dtype.
    pub open spec fn id(self) -> u32 {
        match self {
            GgufDtype::F32 => 0,
            GgufDtype::F16 => 1,
            GgufDtype::Q4_0 => 2,
            GgufDtype::Q4_1 => 3,
            GgufDtype::Q5_0 => 6,
            GgufDtype::Q5_1 => 7,
            GgufDtype::Q8_0 => 8,
            GgufDtype::Q8_1 => 9,
            GgufDtype::Q2_K => 10,
            GgufDtype::Q3_K => 11,
            GgufDtype::Q4_K => 12,
            GgufDtype::Q5_K => 13,
            GgufDtype::Q6_K => 14,
            GgufDtype::Q8_K => 15,
            GgufDtype::IQ2_XXS => 16,
            GgufDtype::IQ2_XS => 17,
            GgufDtype::IQ3_XXS => 18,
            GgufDtype::IQ1_S => 19,
            GgufDtype::IQ4_NL => 20,
            GgufDtype::IQ3_S => 21,
            GgufDtype::IQ2_S => 22,
            GgufDtype::IQ4_XS => 23,
            GgufDtype::I8 => 24,
            GgufDtype::I16 => 25,
            GgufDtype::I32 => 26,
            GgufDtype::I64 => 27,
            GgufDtype::F64 => 28,
            GgufDtype::IQ1_M => 29,
            GgufDtype::BF16 => 30,
            GgufDtype::TQ1_0 => 34,
            GgufDtype::TQ2_0 => 35,
            GgufDtype::MXFP4 => 39,
            GgufDtype::NVFP4 => 40,
            GgufDtype::Q1_0 => 41,
            GgufDtype::Q2_0 => 42,
            GgufDtype::Unknown(v) => v,
        }
    }

    /// Whether this dtype stores its elements in quantized blocks.
    pub open spec fn quantized(self) -> bool {
        match self {
            GgufDtype::F32 => false,
            GgufDtype::F16 => false,
            GgufDtype::Q4_0 => true,
            GgufDtype::Q4_1 => true,
            GgufDtype::Q5_0 => true,
            GgufDtype::Q5_1 => true,
            GgufDtype::Q8_0 => true,
            GgufDtype::Q8_1 => true,
            GgufDtype::Q2_K => true,
            GgufDtype::Q3_K => true,
            GgufDtype::Q4_K => true,
            GgufDtype::Q5_K => true,
            GgufDtype::Q6_K => true,
            GgufDtype::Q8_K => true,
            GgufDtype::IQ2_XXS => true,
            GgufDtype::IQ2_XS => true,
            GgufDtype::IQ3_XXS => true,
            GgufDtype::IQ1_S => true,
            GgufDtype::IQ4_NL => true,
            GgufDtype::IQ3_S => true,
            GgufDtype::IQ2_S => true,
            GgufDtype::IQ4_XS => true,
            GgufDtype::I8 => false,
            GgufDtype::I16 => false,
            GgufDtype::I32 => false,
            GgufDtype::I64 => false,
            GgufDtype::F64 => false,
            GgufDtype::IQ1_M => true,
            GgufDtype::BF16 => false,
            GgufDtype::TQ1_0 => true,
            GgufDtype::TQ2_0 => true,
            GgufDtype::MXFP4 => true,
            GgufDtype::NVFP4 => true,
            GgufDtype::Q1_0 => true,
            GgufDtype::Q2_0 => true,
            GgufDtype::Unknown(_) => false,
        }
    }

    /// Elements per block, as in ggml's `ggml_type_traits`.
    pub open spec fn block_elems(self) -> Option<usize> {
        match self {
            GgufDtype::F32 => Some(1),
            GgufDtype::F16 => Some(1),
            GgufDtype::Q4_0 => Some(32),
            GgufDtype::Q4_1 => Some(32),
            GgufDtype::Q5_0 => Some(32),
            GgufDtype::Q5_1 => Some(32),
            GgufDtype::Q8_0 => Some(32),
            GgufDtype::Q8_1 => Some(32),
            GgufDtype::Q2_K => Some(256),
            GgufDtype::Q3_K => Some(256),
            GgufDtype::Q4_K => Some(256),
            GgufDtype::Q5_K => Some(256),
            GgufDtype::Q6_K => Some(256),
            GgufDtype::Q8_K => Some(256),
            GgufDtype::IQ2_XXS => Some(256),
            GgufDtype::IQ2_XS => Some(256),
            GgufDtype::IQ3_XXS => Some(256),
            GgufDtype::IQ1_S => Some(256),
            GgufDtype::IQ4_NL => Some(32),
            GgufDtype::IQ3_S => Some(256),
            GgufDtype::IQ2_S => Some(256),
            GgufDtype::IQ4_XS => Some(256),
            GgufDtype::I8 => Some(1),
            GgufDtype::I16 => Some(1),
            GgufDtype::I32 => Some(1),
            GgufDtype::I64 => Some(1),
            GgufDtype::F64 => Some(1),
            GgufDtype::IQ1_M => Some(256),
            GgufDtype::BF16 => Some(1),
            GgufDtype::TQ1_0 => Some(256),
            GgufDtype::TQ2_0 => Some(256),
            GgufDtype::MXFP4 => Some(32),
            GgufDtype::NVFP4 => Some(64),
            GgufDtype::Q1_0 => Some(32),
            GgufDtype::Q2_0 => Some(64),
            GgufDtype::Unknown(_) => None,
        }
    }

    /// Bytes per block, as in ggml's `ggml_type_traits`.
    pub open spec fn block_bytes(self) -> Option<usize> {
        match self {
            GgufDtype::F32 => Some(4),
            GgufDtype::F16 => Some(2),
            GgufDtype::Q4_0 => Some(18),
            GgufDtype::Q4_1 => Some(20),
            GgufDtype::Q5_0 => Some(22),
            GgufDtype::Q5_1 => Some(24),
            GgufDtype::Q8_0 => Some(34),
            GgufDtype::Q8_1 => Some(36),
            GgufDtype::Q2_K => Some(84),
            GgufDtype::Q3_K => Some(110),
            GgufDtype::Q4_K => Some(144),
            GgufDtype::Q5_K => Some(176),
            GgufDtype::Q6_K => Some(210),
            GgufDtype::Q8_K => Some(292),
            GgufDtype::IQ2_XXS => Some(66),
            GgufDtype::IQ2_XS => Some(74),
            GgufDtype::IQ3_XXS => Some(98),
            GgufDtype::IQ1_S => Some(50),
            GgufDtype::IQ4_NL => Some(18),
            GgufDtype::IQ3_S => Some(110),
            GgufDtype::IQ2_S => Some(82),
            GgufDtype::IQ4_XS => Some(136),
            GgufDtype::I8 => Some(1),
            GgufDtype::I16 => Some(2),
            GgufDtype::I32 => Some(4),
            GgufDtype::I64 => Some(8),
            GgufDtype::F64 => Some(8),
            GgufDtype::IQ1_M => Some(56),
            GgufDtype::BF16 => Some(2),
            GgufDtype::TQ1_0 => Some(54),
            GgufDtype::TQ2_0 => Some(66),
            GgufDtype::MXFP4 => Some(17),
            GgufDtype::NVFP4 => Some(36),
            GgufDtype::Q1_0 => Some(18),
            GgufDtype::Q2_0 => Some(18),
            GgufDtype::Unknown(_) => None,
        }
    }

    /// Bytes per element of the scalar (non-block) dtypes.
    pub open spec fn scalar_bytes(self) -> Option<usize> {
        match self {
            GgufDtype::F32 => Some(4),
            GgufDtype::F16 => Some(2),
            GgufDtype::Q4_0 => None,
            GgufDtype::Q4_1 => None,
            GgufDtype::Q5_0 => None,
            GgufDtype::Q5_1 => None,
            GgufDtype::Q8_0 => None,
            GgufDtype::Q8_1 => None,
            GgufDtype::Q2_K => None,
            GgufDtype::Q3_K => None,
            GgufDtype::Q4_K => None,
            GgufDtype::Q5_K => None,
            GgufDtype::Q6_K => None,
            GgufDtype::Q8_K => None,
            GgufDtype::IQ2_XXS => None,
            GgufDtype::IQ2_XS => None,
            GgufDtype::IQ3_XXS => None,
            GgufDtype::IQ1_S => None,
            GgufDtype::IQ4_NL => None,
            GgufDtype::IQ3_S => None,
            GgufDtype::IQ2_S => None,
            GgufDtype::IQ4_XS => None,
            GgufDtype::I8 => Some(1),
            GgufDtype::I16 => Some(2),
            GgufDtype::I32 => Some(4),
            GgufDtype::I64 => Some(8),
            GgufDtype::F64 => Some(8),
            GgufDtype::IQ1_M => None,
            GgufDtype::BF16 => Some(2),
            GgufDtype::TQ1_0 => None,
            GgufDtype::TQ2_0 => None,
            GgufDtype::MXFP4 => None,
            GgufDtype::NVFP4 => None,
            GgufDtype::Q1_0 => None,
            GgufDtype::Q2_0 => None,
            GgufDtype::Unknown(_) => None,
        }
    }

    /// The dtype's name as ggml spells it.
    pub open spec fn label(self) -> Seq<char> {
        match self {
            GgufDtype::F32 => "F32"@,
            GgufDtype::F16 => "F16"@,
            GgufDtype::Q4_0 => "Q4_0"@,
            GgufDtype::Q4_1 => "Q4_1"@,
            GgufDtype::Q5_0 => "Q5_0"@,
            GgufDtype::Q5_1 => "Q5_1"@,
            GgufDtype::Q8_0 => "Q8_0"@,
            GgufDtype::Q8_1 => "Q8_1"@,
            GgufDtype::Q2_K => "Q2_K"@,
            GgufDtype::Q3_K => "Q3_K"@,
            GgufDtype::Q4_K => "Q4_K"@,
            GgufDtype::Q5_K => "Q5_K"@,
            GgufDtype::Q6_K => "Q6_K"@,
            GgufDtype::Q8_K => "Q8_K"@,
            GgufDtype::IQ2_XXS => "IQ2_XXS"@,
            GgufDtype::IQ2_XS => "IQ2_XS"@,
            GgufDtype::IQ3_XXS => "IQ3_XXS"@,
            GgufDtype::IQ1_S => "IQ1_S"@,
            GgufDtype::IQ4_NL => "IQ4_NL"@,
            GgufDtype::IQ3_S => "IQ3_S"@,
            GgufDtype::IQ2_S => "IQ2_S"@,
            GgufDtype::IQ4_XS => "IQ4_XS"@,
            GgufDtype::I8 => "I8"@,
            GgufDtype::I16 => "I16"@,
            GgufDtype::I32 => "I32"@,
            GgufDtype::I64 => "I64"@,
            GgufDtype::F64 => "F64"@,
            GgufDtype::IQ1_M => "IQ1_M"@,
            GgufDtype::BF16 => "BF16"@,
            GgufDtype::TQ1_0 => "TQ1_0"@,
            GgufDtype::TQ2_0 => "TQ2_0"@,
            GgufDtype::MXFP4 => "MXFP4"@,
            GgufDtype::NVFP4 => "NVFP4"@,
            GgufDtype::Q1_0 => "Q1_0"@,
            GgufDtype::Q2_0 => "Q2_0"@,
            GgufDtype::Unknown(_) => "unknown"@,
        }
    }

    /// Maps a raw ggml type id to its variant; ids that ggml does not assign
    /// (4, 5, 31, 32, 33, 36, 37, 38 and anything above 42) give `Unknown`.
    pub fn from_u32(v: u32) -> (r: Self)
        ensures
            r == dtype_of_id(v),
            r.id() == v,
            r is Unknown <==> !is_assigned_dtype_id(v),
    {
        match v {
            0 => GgufDtype::F32,
            1 => GgufDtype::F16,
            2 => GgufDtype::Q4_0,
            3 => GgufDtype::Q4_1,
            6 => GgufDtype::Q5_0,
            7 => GgufDtype::Q5_1,
            8 => GgufDtype::Q8_0,
            9 => GgufDtype::Q8_1,
            10 => GgufDtype::Q2_K,
            11 => GgufDtype::Q3_K,
            12 => GgufDtype::Q4_K,
            13 => GgufDtype::Q5_K,
            14 => GgufDtype::Q6_K,
            15 => GgufDtype::Q8_K,
            16 => GgufDtype::IQ2_XXS,
            17 => GgufDtype::IQ2_XS,
            18 => GgufDtype::IQ3_XXS,
            19 => GgufDtype::IQ1_S,
            20 => GgufDtype::IQ4_NL,
            21 => GgufDtype::IQ3_S,
            22 => GgufDtype::IQ2_S,
            23 => GgufDtype::IQ4_XS,
            24 => GgufDtype::I8,
            25 => GgufDtype::I16,
            26 => GgufDtype::I32,
            27 => GgufDtype::I64,
            28 => GgufDtype::F64,
            29 => GgufDtype::IQ1_M,
            30 => GgufDtype::BF16,
            34 => GgufDtype::TQ1_0,
            35 => GgufDtype::TQ2_0,
            39 => GgufDtype::MXFP4,
            40 => GgufDtype::NVFP4,
            41 => GgufDtype::Q1_0,
            42 => GgufDtype::Q2_0,
            _ => GgufDtype::Unknown(v),
        }
    }

    /// The raw ggml type id; `Unknown(v)` gives `v` back.
    pub fn to_u32(self) -> (r: u32)
        ensures
            r == self.id(),
    {
        match self {
            GgufDtype::F32 => 0,
            GgufDtype::F16 => 1,
            GgufDtype::Q4_0 => 2,
            GgufDtype::Q4_1 => 3,
            GgufDtype::Q5_0 => 6,
            GgufDtype::Q5_1 => 7,
            GgufDtype::Q8_0 => 8,
            GgufDtype::Q8_1 => 9,
            GgufDtype::Q2_K => 10,
            GgufDtype::Q3_K => 11,
            GgufDtype::Q4_K => 12,
            GgufDtype::Q5_K => 13,
            GgufDtype::Q6_K => 14,
            GgufDtype::Q8_K => 15,
            GgufDtype::IQ2_XXS => 16,
            GgufDtype::IQ2_XS => 17,
            GgufDtype::IQ3_XXS => 18,
            GgufDtype::IQ1_S => 19,
            GgufDtype::IQ4_NL => 20,
            GgufDtype::IQ3_S => 21,
            GgufDtype::IQ2_S => 22,
            GgufDtype::IQ4_XS => 23,
            GgufDtype::I8 => 24,
            GgufDtype::I16 => 25,
            GgufDtype::I32 => 26,
            GgufDtype::I64 => 27,
            GgufDtype::F64 => 28,
            GgufDtype::IQ1_M => 29,
            GgufDtype::BF16 => 30,
            GgufDtype::TQ1_0 => 34,
            GgufDtype::TQ2_0 => 35,
            GgufDtype::MXFP4 => 39,
            GgufDtype::NVFP4 => 40,
            GgufDtype::Q1_0 => 41,
            GgufDtype::Q2_0 => 42,
            GgufDtype::Unknown(v) => v,
        }
    }

    /// True for every quantized dtype (the Q*, IQ*, TQ* and FP4 families).
    pub fn is_quantized(self) -> (r: bool)
        ensures
            r == self.quantized(),
    {
        match self {
            GgufDtype::F32 => false,
            GgufDtype::F16 => false,
            GgufDtype::Q4_0 => true,
            GgufDtype::Q4_1 => true,
            GgufDtype::Q5_0 => true,
            GgufDtype::Q5_1 => true,
            GgufDtype::Q8_0 => true,
            GgufDtype::Q8_1 => true,
            GgufDtype::Q2_K => true,
            GgufDtype::Q3_K => true,
            GgufDtype::Q4_K => true,
            GgufDtype::Q5_K => true,
            GgufDtype::Q6_K => true,
            GgufDtype::Q8_K => true,
            GgufDtype::IQ2_XXS => true,
            GgufDtype::IQ2_XS => true,
            GgufDtype::IQ3_XXS => true,
            GgufDtype::IQ1_S => true,
            GgufDtype::IQ4_NL => true,
            GgufDtype::IQ3_S => true,
            GgufDtype::IQ2_S => true,
            GgufDtype::IQ4_XS => true,
            GgufDtype::I8 => false,
            GgufDtype::I16 => false,
            GgufDtype::I32 => false,
            GgufDtype::I64 => false,
            GgufDtype::F64 => false,
            GgufDtype::IQ1_M => true,
            GgufDtype::BF16 => false,
            GgufDtype::TQ1_0 => true,
            GgufDtype::TQ2_0 => true,
            GgufDtype::MXFP4 => true,
            GgufDtype::NVFP4 => true,
            GgufDtype::Q1_0 => true,
            GgufDtype::Q2_0 => true,
            GgufDtype::Unknown(_) => false,
        }
    }

    /// Elements per block; scalar dtypes use blocks of one, `Unknown` has none.
    pub fn block_size(self) -> (r: Option<usize>)
        ensures
            r == self.block_elems(),
    {
        match self {
            GgufDtype::F32 => Some(1),
            GgufDtype::F16 => Some(1),
            GgufDtype::Q4_0 => Some(32),
            GgufDtype::Q4_1 => Some(32),
            GgufDtype::Q5_0 => Some(32),
            GgufDtype::Q5_1 => Some(32),
            GgufDtype::Q8_0 => Some(32),
            GgufDtype::Q8_1 => Some(32),
            GgufDtype::Q2_K => Some(256),
            GgufDtype::Q3_K => Some(256),
            GgufDtype::Q4_K => Some(256),
            GgufDtype::Q5_K => Some(256),
            GgufDtype::Q6_K => Some(256),
            GgufDtype::Q8_K => Some(256),
            GgufDtype::IQ2_XXS => Some(256),
            GgufDtype::IQ2_XS => Some(256),
            GgufDtype::IQ3_XXS => Some(256),
            GgufDtype::IQ1_S => Some(256),
            GgufDtype::IQ4_NL => Some(32),
            GgufDtype::IQ3_S => Some(256),
            GgufDtype::IQ2_S => Some(256),
            GgufDtype::IQ4_XS => Some(256),
            GgufDtype::I8 => Some(1),
            GgufDtype::I16 => Some(1),
            GgufDtype::I32 => Some(1),
            GgufDtype::I64 => Some(1),
            GgufDtype::F64 => Some(1),
            GgufDtype::IQ1_M => Some(256),
            GgufDtype::BF16 => Some(1),
            GgufDtype::TQ1_0 => Some(256),
            GgufDtype::TQ2_0 => Some(256),
            GgufDtype::MXFP4 => Some(32),
            GgufDtype::NVFP4 => Some(64),
            GgufDtype::Q1_0 => Some(32),
            GgufDtype::Q2_0 => Some(64),
            GgufDtype::Unknown(_) => None,
        }
    }

    /// Bytes per block; scalar dtypes store one element per block.
    pub fn bytes_per_block(self) -> (r: Option<usize>)
        ensures
            r == self.block_bytes(),
    {
        match self {
            GgufDtype::F32 => Some(4),
            GgufDtype::F16 => Some(2),
            GgufDtype::Q4_0 => Some(18),
            GgufDtype::Q4_1 => Some(20),
            GgufDtype::Q5_0 => Some(22),
            GgufDtype::Q5_1 => Some(24),
            GgufDtype::Q8_0 => Some(34),
            GgufDtype::Q8_1 => Some(36),
            GgufDtype::Q2_K => Some(84),
            GgufDtype::Q3_K => Some(110),
            GgufDtype::Q4_K => Some(144),
            GgufDtype::Q5_K => Some(176),
            GgufDtype::Q6_K => Some(210),
            GgufDtype::Q8_K => Some(292),
            GgufDtype::IQ2_XXS => Some(66),
            GgufDtype::IQ2_XS => Some(74),
            GgufDtype::IQ3_XXS => Some(98),
            GgufDtype::IQ1_S => Some(50),
            GgufDtype::IQ4_NL => Some(18),
            GgufDtype::IQ3_S => Some(110),
            GgufDtype::IQ2_S => Some(82),
            GgufDtype::IQ4_XS => Some(136),
            GgufDtype::I8 => Some(1),
            GgufDtype::I16 => Some(2),
            GgufDtype::I32 => Some(4),
            GgufDtype::I64 => Some(8),
            GgufDtype::F64 => Some(8),
            GgufDtype::IQ1_M => Some(56),
            GgufDtype::BF16 => Some(2),
            GgufDtype::TQ1_0 => Some(54),
            GgufDtype::TQ2_0 => Some(66),
            GgufDtype::MXFP4 => Some(17),
            GgufDtype::NVFP4 => Some(36),
            GgufDtype::Q1_0 => Some(18),
            GgufDtype::Q2_0 => Some(18),
            GgufDtype::Unknown(_) => None,
        }
    }

    /// Bytes per element for the scalar dtypes; `None` for block-quantized ones.
    pub fn bytes_per_element(self) -> (r: Option<usize>)
        ensures
            r == self.scalar_bytes(),
    {
        match self {
            GgufDtype::F32 => Some(4),
            GgufDtype::F16 => Some(2),
            GgufDtype::Q4_0 => None,
            GgufDtype::Q4_1 => None,
            GgufDtype::Q5_0 => None,
            GgufDtype::Q5_1 => None,
            GgufDtype::Q8_0 => None,
            GgufDtype::Q8_1 => None,
            GgufDtype::Q2_K => None,
            GgufDtype::Q3_K => None,
            GgufDtype::Q4_K => None,
            GgufDtype::Q5_K => None,
            GgufDtype::Q6_K => None,
            GgufDtype::Q8_K => None,
            GgufDtype::IQ2_XXS => None,
            GgufDtype::IQ2_XS => None,
            GgufDtype::IQ3_XXS => None,
            GgufDtype::IQ1_S => None,
            GgufDtype::IQ4_NL => None,
            GgufDtype::IQ3_S => None,
            GgufDtype::IQ2_S => None,
            GgufDtype::IQ4_XS => None,
            GgufDtype::I8 => Some(1),
            GgufDtype::I16 => Some(2),
            GgufDtype::I32 => Some(4),
            GgufDtype::I64 => Some(8),
            GgufDtype::F64 => Some(8),
            GgufDtype::IQ1_M => None,
            GgufDtype::BF16 => Some(2),
            GgufDtype::TQ1_0 => None,
            GgufDtype::TQ2_0 => None,
            GgufDtype::MXFP4 => None,
            GgufDtype::NVFP4 => None,
            GgufDtype::Q1_0 => None,
            GgufDtype::Q2_0 => None,
            GgufDtype::Unknown(_) => None,
        }
    }

    /// The dtype's name as ggml spells it.
    pub fn name(self) -> (r: &'static str)
        ensures
            r@ == self.label(),
    {
        match self {
            GgufDtype::F32 => "F32",
            GgufDtype::F16 => "F16",
            GgufDtype::Q4_0 => "Q4_0",
            GgufDtype::Q4_1 => "Q4_1",
            GgufDtype::Q5_0 => "Q5_0",
            GgufDtype::Q5_1 => "Q5_1",
            GgufDtype::Q8_0 => "Q8_0",
            GgufDtype::Q8_1 => "Q8_1",
            GgufDtype::Q2_K => "Q2_K",
            GgufDtype::Q3_K => "Q3_K",
            GgufDtype::Q4_K => "Q4_K",
            GgufDtype::Q5_K => "Q5_K",
            GgufDtype::Q6_K => "Q6_K",
            GgufDtype::Q8_K => "Q8_K",
            GgufDtype::IQ2_XXS => "IQ2_XXS",
            GgufDtype::IQ2_XS => "IQ2_XS",
            GgufDtype::IQ3_XXS => "IQ3_XXS",
            GgufDtype::IQ1_S => "IQ1_S",
            GgufDtype::IQ4_NL => "IQ4_NL",
            GgufDtype::IQ3_S => "IQ3_S",
            GgufDtype::IQ2_S => "IQ2_S",
            GgufDtype::IQ4_XS => "IQ4_XS",
            GgufDtype::I8 => "I8",
            GgufDtype::I16 => "I16",
            GgufDtype::I32 => "I32",
            GgufDtype::I64 => "I64",
            GgufDtype::F64 => "F64",
            GgufDtype::IQ1_M => "IQ1_M",
            GgufDtype::BF16 => "BF16",
            GgufDtype::TQ1_0 => "TQ1_0",
            GgufDtype::TQ2_0 => "TQ2_0",
            GgufDtype::MXFP4 => "MXFP4",
            GgufDtype::NVFP4 => "NVFP4",
            GgufDtype::Q1_0 => "Q1_0",
            GgufDtype::Q2_0 => "Q2_0",
            GgufDtype::Unknown(_) => "unknown",
        }
    }

}


/// The dtype that the ggml type id `v` names (`Unknown(v)` for an unassigned id).
pub open spec fn dtype_of_id(v: u32) -> GgufDtype {
    match v {
        0 => GgufDtype::F32,
        1 => GgufDtype::F16,
        2 => GgufDtype::Q4_0,
        3 => GgufDtype::Q4_1,
        6 => GgufDtype::Q5_0,
        7 => GgufDtype::Q5_1,
        8 => GgufDtype::Q8_0,
        9 => GgufDtype::Q8_1,
        10 => GgufDtype::Q2_K,
        11 => GgufDtype::Q3_K,
        12 => GgufDtype::Q4_K,
        13 => GgufDtype::Q5_K,
        14 => GgufDtype::Q6_K,
        15 => GgufDtype::Q8_K,
        16 => GgufDtype::IQ2_XXS,
        17 => GgufDtype::IQ2_XS,
        18 => GgufDtype::IQ3_XXS,
        19 => GgufDtype::IQ1_S,
        20 => GgufDtype::IQ4_NL,
        21 => GgufDtype::IQ3_S,
        22 => GgufDtype::IQ2_S,
        23 => GgufDtype::IQ4_XS,
        24 => GgufDtype::I8,
        25 => GgufDtype::I16,
        26 => GgufDtype::I32,
        27 => GgufDtype::I64,
        28 => GgufDtype::F64,
        29 => GgufDtype::IQ1_M,
        30 => GgufDtype::BF16,
        34 => GgufDtype::TQ1_0,
        35 => GgufDtype::TQ2_0,
        39 => GgufDtype::MXFP4,
        40 => GgufDtype::NVFP4,
        41 => GgufDtype::Q1_0,
        42 => GgufDtype::Q2_0,
        _ => GgufDtype::Unknown(v),
    }
}

/// The product of the dimensions of a shape (1 for no dimensions).
pub open spec fn shape_product(s: Seq<u64>) -> int
    decreases s.len(),
{
    if s.len() == 0 {
        1
    } else {
        shape_product(s.drop_last()) * s.last()
    }
}

/// Every running product of the dimensions, taken from the first, fits in a `u64`.
pub open spec fn product_fits(s: Seq<u64>) -> bool {
    forall|i: int| 0 <= i <= s.len() ==> #[trigger] shape_product(s.take(i)) <= u64::MAX
}

/// Products of dimensions are never negative.
pub proof fn lemma_shape_product_nonneg(s: Seq<u64>)
    ensures
        shape_product(s) >= 0,
    decreases s.len(),
{
    if s.len() > 0 {
        lemma_shape_product_nonneg(s.drop_last());
        assert(shape_product(s.drop_last()) * s.last() >= 0) by (nonlinear_arith)
            requires
                shape_product(s.drop_last()) >= 0,
        ;
    }
}

/// One more dimension multiplies the running product.
pub proof fn lemma_shape_product_step(s: Seq<u64>, i: int)
    requires
        0 <= i < s.len(),
    ensures
        shape_product(s.take(i + 1)) == shape_product(s.take(i)) * s[i],
{
    assert(s.take(i + 1).drop_last() =~= s.take(i));
}

/// A single tensor's metadata.
#[derive(Debug)]
pub struct GgufTensorInfo {
    pub name: String,
    pub shape: Vec<u64>,
    pub offset: u64,
    pub dtype: u32,
}

/// The view of a [`GgufTensorInfo`].
pub struct TensorView {
    pub name: Seq<char>,
    pub shape: Seq<u64>,
    pub offset: u64,
    pub dtype: u32,
}

impl View for GgufTensorInfo {
    type V = TensorView;

    open spec fn view(&self) -> TensorView {
        TensorView { name: self.name@, shape: self.shape@, offset: self.offset, dtype: self.dtype }
    }
}

impl TensorView {
    /// The number of elements.
    pub open spec fn elements(self) -> int {
        shape_product(self.shape)
    }

    /// The bytes the tensor's data takes, as ggml's `ggml_row_size` computes
    /// it: `bytes_per_block * elements / block_size`. There is none for a dtype
    /// without a block layout or an element count that is not a whole number
    /// of blocks.
    pub open spec fn stored_bytes(self) -> Option<int> {
        let d = dtype_of_id(self.dtype);
        match (d.block_elems(), d.block_bytes()) {
            (Some(be), Some(bb)) => if self.elements() % (be as int) == 0 {
                Some(self.elements() / (be as int) * (bb as int))
            } else {
                None
            },
            _ => None,
        }
    }

    /// The message of the error that `stored_size` reports: an element count
    /// beyond `u64`, a dtype without a block layout, an element count that is
    /// not a whole number of blocks, or else a size beyond `u64`.
    pub open spec fn stored_size_error(self) -> Seq<char> {
        let d = dtype_of_id(self.dtype);
        if !product_fits(self.shape) {
            size_overflow_text(self.name)
        } else {
            match (d.block_elems(), d.block_bytes()) {
                (Some(be), Some(bb)) => if self.elements() % (be as int) != 0 {
                    partial_block_text(
                        self.name,
                        self.elements() as nat,
                        be as nat,
                        self.dtype,
                        d.label(),
                    )
                } else {
                    size_overflow_text(self.name)
                },
                _ => no_block_size_text(self.dtype, d.label()),
            }
        }
    }

    /// The serialized size of the descriptor: name length prefix, name,
    /// n_dims (4), dims (8 each), dtype (4), offset (8).
    pub open spec fn wire_size(self, format: GgufWireFormat) -> int {
        format.tensor_name_width.bytes() + utf8_len(self.name) + 4 + self.shape.len() * 8 + 4 + 8
    }
}

/// A copy of a vector of integers.
fn copy_u64s(v: &Vec<u64>) -> (r: Vec<u64>)
    ensures
        r@ == v@,
{
    let mut out: Vec<u64> = Vec::new();
    let mut i: usize = 0;
    while i < v.len()
        invariant
            i <= v.len(),
            out@ =~= v@.take(i as int),
        decreases v.len() - i,
    {
        out.push(v[i]);
        i = i + 1;
    }
    assert(out@ =~= v@);
    out
}

impl Clone for GgufTensorInfo {
    fn clone(&self) -> (r: Self)
        ensures
            r@ == self@,
    {
        GgufTensorInfo {
            name: self.name.clone(),
            shape: copy_u64s(&self.shape),
            offset: self.offset,
            dtype: self.dtype,
        }
    }
}

impl GgufTensorInfo {
    /// The number of elements: the product of the dimensions.
    pub fn element_count(&self) -> (r: u64)
        requires
            product_fits(self.shape@),
        ensures
            r == self@.elements(),
    {
        let mut acc: u64 = 1;
        let mut i: usize = 0;
        assert(self.shape@.take(0) =~= Seq::<u64>::empty());
        while i < self.shape.len()
            invariant
                i <= self.shape.len(),
                product_fits(self.shape@),
                acc == shape_product(self.shape@.take(i as int)),
            decreases self.shape.len() - i,
        {
            proof {
                lemma_shape_product_step(self.shape@, i as int);
                assert(shape_product(self.shape@.take(i + 1)) <= u64::MAX);
            }
            acc = acc * self.shape[i];
            i = i + 1;
        }
        assert(self.shape@.take(self.shape.len() as int) =~= self.shape@);
        acc
    }

    /// Safe element count that returns `None` on overflow.
    pub fn element_count_checked(&self) -> (r: Option<u64>)
        ensures
            r == if product_fits(self.shape@) {
                Some(self@.elements() as u64)
            } else {
                None::<u64>
            },
    {
        let mut acc: u64 = 1;
        let mut i: usize = 0;
        assert(self.shape@.take(0) =~= Seq::<u64>::empty());
        while i < self.shape.len()
            invariant
                i <= self.shape.len(),
                acc == shape_product(self.shape@.take(i as int)),
                forall|k: int| 0 <= k <= i ==> #[trigger] shape_product(self.shape@.take(k)) <= u64::MAX,
            decreases self.shape.len() - i,
        {
            proof {
                lemma_shape_product_step(self.shape@, i as int);
            }
            match acc.checked_mul(self.shape[i]) {
                Some(next) => {
                    acc = next;
                },
                None => {
                    assert(!product_fits(self.shape@)) by {
                        assert(shape_product(self.shape@.take(i + 1)) > u64::MAX);
                    }
                    return None;
                },
            }
            i = i + 1;
        }
        assert(self.shape@.take(self.shape.len() as int) =~= self.shape@);
        Some(acc)
    }

    /// The number of dimensions, as a `u32` (truncated as `as` does).
    pub fn ndims(&self) -> (r: u32)
        ensures
            r == self.shape@.len() as u32,
    {
        self.shape.len() as u32
    }

    /// Compute the actual stored byte size on disk with overflow checking.
    ///
    /// Mirrors ggml's `ggml_row_size`: `type_size * ne / blck_size`, which
    /// requires the element count to be a multiple of the block size; a
    /// non-aligned count is reported as an invalid tensor rather than guessed.
    /// An element count or a size that overflows `u64` is an invalid tensor
    /// too.
    pub fn stored_size(&self) -> (r: Result<u64, GgufError>)
        ensures
            r is Ok <==> (product_fits(self.shape@) && (self@.stored_bytes() matches Some(b) && b
                <= u64::MAX)),
            r matches Ok(s) ==> self@.stored_bytes() == Some(s as int),
            r matches Err(e) ==> e matches GgufError::InvalidTensor(m) && m@
                == self@.stored_size_error(),
    {
        let n = match self.element_count_checked() {
            Some(n) => n,
            None => {
                return Err(GgufError::InvalidTensor(msg_size_overflow(self.name.as_str())));
            },
        };
        proof {
            assert(self.shape@.take(self.shape@.len() as int) =~= self.shape@);
            assert(shape_product(self.shape@.take(self.shape@.len() as int)) <= u64::MAX);
            lemma_shape_product_nonneg(self.shape@);
        }
        assert(n == self@.elements());
        let dtype = GgufDtype::from_u32(self.dtype);
        let (block_elems, block_bytes) = match (dtype.block_size(), dtype.bytes_per_block()) {
            (Some(be), Some(bb)) => (be, bb),
            _ => {
                return Err(GgufError::InvalidTensor(msg_no_block_size(self.dtype, dtype.name())));
            },
        };
        if n % (block_elems as u64) != 0 {
            return Err(
                GgufError::InvalidTensor(
                    msg_partial_block(self.name.as_str(), n, block_elems, self.dtype, dtype.name()),
                ),
            );
        }
        let blocks = n / (block_elems as u64);
        match blocks.checked_mul(block_bytes as u64) {
            Some(s) => Ok(s),
            None => Err(GgufError::InvalidTensor(msg_size_overflow(self.name.as_str()))),
        }
    }

    /// Compute serialized byte size using the wire format to determine name length width.
    pub fn raw_byte_size_for_format(&self, format: &GgufWireFormat) -> (r: usize)
        requires
            self@.wire_size(*format) <= usize::MAX,
        ensures
            r == self@.wire_size(*format),
    {
        let name_len_bytes: usize = match format.tensor_name_width {
            IntWidth::U32 => 4,
            IntWidth::U64 => 8,
        };
        name_len_bytes + self.name.as_str().len() + 4 + (self.shape.len() * 8) + 4 + 8
    }
}


/// Parsed GGUF header.
#[derive(Debug)]
pub struct GgufHeader {
    pub version: u32,
    pub kv_pairs: Vec<GgufKvPair>,
    pub tensors: Vec<GgufTensorInfo>,
    pub data_alignment: Option<u64>,
    pub data_section_start: u64,
}

/// The data alignment of a header that names none: 32 bytes, as in llama.cpp.
pub fn default_data_alignment() -> (r: Option<u64>)
    ensures
        r == Some(32u64),
{
    Some(32)
}

/// The view of a [`GgufHeader`].
pub struct HeaderView {
    pub version: u32,
    pub kv_pairs: Seq<KvPairView>,
    pub tensors: Seq<TensorView>,
    pub data_alignment: Option<u64>,
    pub data_section_start: u64,
}

/// The views of a sequence of key-value pairs.
pub open spec fn kv_pairs_view(v: Seq<GgufKvPair>) -> Seq<KvPairView> {
    v.map_values(|p: GgufKvPair| p@)
}

/// The views of a sequence of tensor descriptors.
pub open spec fn tensors_view(v: Seq<GgufTensorInfo>) -> Seq<TensorView> {
    v.map_values(|t: GgufTensorInfo| t@)
}

impl View for GgufHeader {
    type V = HeaderView;

    open spec fn view(&self) -> HeaderView {
        HeaderView {
            version: self.version,
            kv_pairs: kv_pairs_view(self.kv_pairs@),
            tensors: tensors_view(self.tensors@),
            data_alignment: self.data_alignment,
            data_section_start: self.data_section_start,
        }
    }
}

/// The first pair with key `key`.
pub open spec fn find_kv(kvs: Seq<KvPairView>, key: Seq<char>) -> Option<KvPairView>
    decreases kvs.len(),
{
    if kvs.len() == 0 {
        None
    } else if kvs[0].key == key {
        Some(kvs[0])
    } else {
        find_kv(kvs.drop_first(), key)
    }
}

/// The text of the first pair with key `key`, if that pair holds a string.
pub open spec fn lookup_text(kvs: Seq<KvPairView>, key: Seq<char>) -> Option<Seq<char>> {
    match find_kv(kvs, key) {
        Some(p) => p.value.text(),
        None => None,
    }
}

/// The first pair with key `key`, as a `u32`.
pub open spec fn lookup_u32(kvs: Seq<KvPairView>, key: Seq<char>) -> Option<u32> {
    match find_kv(kvs, key) {
        Some(p) => p.value.to_u32(),
        None => None,
    }
}

/// The first of two lookups that finds something.
pub open spec fn first_of<T>(a: Option<T>, b: Option<T>) -> Option<T> {
    match a {
        Some(x) => Some(x),
        None => b,
    }
}

/// The sum over the tensors of their element counts times four.
pub open spec fn f32_bytes(ts: Seq<TensorView>) -> int
    decreases ts.len(),
{
    if ts.len() == 0 {
        0
    } else {
        f32_bytes(ts.drop_last()) + ts.last().elements() * 4
    }
}

/// The partial sums of [`f32_bytes`] grow with the prefix.
pub proof fn lemma_f32_bytes_prefix(ts: Seq<TensorView>, i: int)
    requires
        0 <= i <= ts.len(),
    ensures
        0 <= f32_bytes(ts.take(i)) <= f32_bytes(ts),
    decreases ts.len(),
{
    if i == ts.len() {
        assert(ts.take(i) =~= ts);
        if ts.len() > 0 {
            lemma_f32_bytes_prefix(ts.drop_last(), i - 1);
            lemma_shape_product_nonneg(ts.last().shape);
        }
    } else {
        lemma_f32_bytes_prefix(ts.drop_last(), i);
        assert(ts.drop_last().take(i) =~= ts.take(i));
        lemma_shape_product_nonneg(ts.last().shape);
    }
}

impl HeaderView {
    /// The architecture name: `general.architecture`, else `arch`.
    pub open spec fn architecture(self) -> Option<Seq<char>> {
        first_of(
            lookup_text(self.kv_pairs, "general.architecture"@),
            lookup_text(self.kv_pairs, "arch"@),
        )
    }

    /// A dimension looked up under a llama key, then a short key, then the
    /// architecture's own key `{arch}.{suffix}`.
    pub open spec fn dimension(self, llama_key: Seq<char>, short_key: Seq<char>, suffix: Seq<char>) -> Option<u32> {
        first_of(
            lookup_u32(self.kv_pairs, llama_key),
            first_of(
                lookup_u32(self.kv_pairs, short_key),
                match self.architecture() {
                    Some(a) => lookup_u32(self.kv_pairs, a + suffix),
                    None => None,
                },
            ),
        )
    }
}

/// Dropping the pairs before `i` keeps the first match when none of them matches.
proof fn lemma_find_kv_skip(kvs: Seq<KvPairView>, key: Seq<char>, i: int)
    requires
        0 <= i < kvs.len(),
        kvs[i].key != key,
    ensures
        find_kv(kvs.skip(i), key) == find_kv(kvs.skip(i + 1), key),
{
    assert(kvs.skip(i).drop_first() =~= kvs.skip(i + 1));
}

/// The index of the first pair with key `key`.
pub(crate) fn kv_index(kvs: &[GgufKvPair], key: &str) -> (r: Option<usize>)
    ensures
        match r {
            Some(i) => i < kvs@.len() && find_kv(kv_pairs_view(kvs@), key@) == Some(
                kvs@[i as int]@,
            ),
            None => find_kv(kv_pairs_view(kvs@), key@) is None,
        },
{
    let ghost all = kv_pairs_view(kvs@);
    let mut i: usize = 0;
    assert(all.skip(0) =~= all);
    while i < kvs.len()
        invariant
            i <= kvs.len(),
            all == kv_pairs_view(kvs@),
            all.len() == kvs@.len(),
            find_kv(all, key@) == find_kv(all.skip(i as int), key@),
        decreases kvs.len() - i,
    {
        assert(all[i as int] == kvs@[i as int]@);
        if str_eq(kvs[i].key.as_str(), key) {
            assert(all.skip(i as int)[0] == all[i as int]);
            return Some(i);
        }
        proof {
            lemma_find_kv_skip(all, key@, i as int);
        }
        i = i + 1;
    }
    None
}

impl Clone for GgufHeader {
    fn clone(&self) -> (r: Self)
        ensures
            r@ == self@,
    {
        let mut kv_pairs: Vec<GgufKvPair> = Vec::new();
        let mut i: usize = 0;
        while i < self.kv_pairs.len()
            invariant
                i <= self.kv_pairs.len(),
                kv_pairs@.len() == i,
                forall|k: int| 0 <= k < i ==> (#[trigger] kv_pairs@[k])@ == self.kv_pairs@[k]@,
            decreases self.kv_pairs.len() - i,
        {
            kv_pairs.push(self.kv_pairs[i].clone());
            i = i + 1;
        }
        let mut tensors: Vec<GgufTensorInfo> = Vec::new();
        let mut j: usize = 0;
        while j < self.tensors.len()
            invariant
                j <= self.tensors.len(),
                tensors@.len() == j,
                forall|k: int| 0 <= k < j ==> (#[trigger] tensors@[k])@ == self.tensors@[k]@,
            decreases self.tensors.len() - j,
        {
            tensors.push(self.tensors[j].clone());
            j = j + 1;
        }
        let r = GgufHeader {
            version: self.version,
            kv_pairs,
            tensors,
            data_alignment: self.data_alignment,
            data_section_start: self.data_section_start,
        };
        assert(r@.kv_pairs =~= self@.kv_pairs);
        assert(r@.tensors =~= self@.tensors);
        r
    }
}

impl GgufHeader {
    /// The value of the first pair with key `key`, converted by `T::from`.
    pub fn get_kv<T: From<GgufKvValue>>(&self, key: &str) -> (r: Option<T>)
        ensures
            r is Some <==> find_kv(self@.kv_pairs, key@) is Some,
            r matches Some(t) ==> T::obeys_from_spec() ==> exists|v: GgufKvValue|
                v@ == find_kv(self@.kv_pairs, key@)->Some_0.value && t == T::from_spec(v),
    {
        match kv_index(self.kv_pairs.as_slice(), key) {
            Some(i) => {
                let v = self.kv_pairs[i].value.clone();
                Some(T::from(v))
            },
            None => None,
        }
    }

    /// The text of the first pair with key `key`, if that pair holds a string.
    pub fn get_kv_str(&self, key: &str) -> (r: Option<&str>)
        ensures
            r is Some <==> lookup_text(self@.kv_pairs, key@) is Some,
            r matches Some(s) ==> lookup_text(self@.kv_pairs, key@) == Some(s@),
    {
        match kv_index(self.kv_pairs.as_slice(), key) {
            Some(i) => self.kv_pairs[i].value.as_str(),
            None => None,
        }
    }

    /// The first pair with key `key`, as a `u32`.
    pub fn get_kv_u32(&self, key: &str) -> (r: Option<u32>)
        ensures
            r == lookup_u32(self@.kv_pairs, key@),
    {
        match kv_index(self.kv_pairs.as_slice(), key) {
            Some(i) => self.kv_pairs[i].value.as_u32(),
            None => None,
        }
    }

    /// The architecture name: `general.architecture`, else `arch`.
    pub fn architecture(&self) -> (r: Option<&str>)
        ensures
            r is Some <==> self@.architecture() is Some,
            r matches Some(s) ==> self@.architecture() == Some(s@),
    {
        match self.get_kv_str("general.architecture") {
            Some(s) => Some(s),
            None => self.get_kv_str("arch"),
        }
    }

    /// A dimension looked up under `llama_key`, then `short_key`, then
    /// `{arch}{suffix}`.
    fn dimension(&self, llama_key: &str, short_key: &str, suffix: &str) -> (r: Option<u32>)
        ensures
            r == self@.dimension(llama_key@, short_key@, suffix@),
    {
        if let Some(v) = self.get_kv_u32(llama_key) {
            return Some(v);
        }
        if let Some(v) = self.get_kv_u32(short_key) {
            return Some(v);
        }
        match self.architecture() {
            Some(arch) => {
                let mut arch_key = String::from_str(arch);
                arch_key.append(suffix);
                self.get_kv_u32(arch_key.as_str())
            },
            None => None,
        }
    }

    /// The context length: `llama.context_length`, then `n_ctx`, then
    /// `{arch}.context_length`.
    pub fn context_length(&self) -> (r: Option<u32>)
        ensures
            r == self@.dimension(
                "llama.context_length"@,
                "n_ctx"@,
                ".context_length"@,
            ),
    {
        self.dimension("llama.context_length", "n_ctx", ".context_length")
    }

    /// The embedding length: `llama.embedding_length`, then `n_embd`, then
    /// `{arch}.embedding_length`.
    pub fn embedding_length(&self) -> (r: Option<u32>)
        ensures
            r == self@.dimension(
                "llama.embedding_length"@,
                "n_embd"@,
                ".embedding_length"@,
            ),
    {
        self.dimension("llama.embedding_length", "n_embd", ".embedding_length")
    }

    /// The block (layer) count: `llama.block_count`, then `n_layer`, then
    /// `{arch}.block_count`.
    pub fn block_count(&self) -> (r: Option<u32>)
        ensures
            r == self@.dimension("llama.block_count"@, "n_layer"@, ".block_count"@),
    {
        self.dimension("llama.block_count", "n_layer", ".block_count")
    }

    /// Whether some tensor is named `name`.
    pub fn has_tensor(&self, name: &str) -> (r: bool)
        ensures
            r == exists|i: int| 0 <= i < self@.tensors.len() && #[trigger] self@.tensors[i].name == name@,
    {
        let mut i: usize = 0;
        while i < self.tensors.len()
            invariant
                i <= self.tensors.len(),
                forall|k: int| 0 <= k < i ==> #[trigger] self@.tensors[k].name != name@,
            decreases self.tensors.len() - i,
        {
            assert(self@.tensors[i as int] == self.tensors@[i as int]@);
            if str_eq(self.tensors[i].name.as_str(), name) {
                assert(self@.tensors[i as int].name == name@);
                return true;
            }
            i = i + 1;
        }
        false
    }

    /// The bytes the tensors would take as F32: element counts times four.
    pub fn total_tensor_bytes_f32(&self) -> (r: u64)
        requires
            forall|i: int| 0 <= i < self.tensors@.len() ==> product_fits(#[trigger] self.tensors@[i].shape@),
            f32_bytes(self@.tensors) <= u64::MAX,
        ensures
            r == f32_bytes(self@.tensors),
    {
        let ghost ts = self@.tensors;
        let mut total: u64 = 0;
        let mut i: usize = 0;
        assert(ts.take(0) =~= Seq::<TensorView>::empty());
        while i < self.tensors.len()
            invariant
                i <= self.tensors.len(),
                ts == self@.tensors,
                ts.len() == self.tensors@.len(),
                forall|k: int| 0 <= k < self.tensors@.len() ==> product_fits(#[trigger] self.tensors@[k].shape@),
                f32_bytes(ts) <= u64::MAX,
                total == f32_bytes(ts.take(i as int)),
            decreases self.tensors.len() - i,
        {
            proof {
                lemma_f32_bytes_prefix(ts, i + 1);
                assert(ts.take(i + 1).drop_last() =~= ts.take(i as int));
                assert(ts.take(i + 1).last() == self.tensors@[i as int]@);
            }
            let n = self.tensors[i].element_count();
            total = total + n * 4;
            i = i + 1;
        }
        assert(ts.take(self.tensors.len() as int) =~= ts);
        total
    }
}

} // verus!
