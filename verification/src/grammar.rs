//! The GGUF header grammar, as spec functions over bytes.
//!
//! Each `take_*` function reads one field at position `p` of the input and
//! gives the field's value and the position after it, or the fault that a
//! reader meets there. The executable parser is proved to agree with these
//! functions, and the writer's output is proved to parse back under them.
use crate::error::GgufError;
use crate::le::{le_bytes_u16, le_bytes_u32, le_bytes_u64, le_u16, le_u32, le_u64};
use crate::text::{count_limit_text, utf8_lossy};
use crate::types::{
    lemma_wire_size_nonneg, lemma_string_elems_size_prefix, string_elems_size, utf8_len, find_kv, value_type_of_id, wire_v1, wire_v2, wire_v3, GgufValueType, GgufWireFormat, HeaderView,
    IntWidth, KvPairView, KvValueView, TensorView,
};
use vstd::prelude::*;
use vstd::utf8::*;

verus! {

/// Longest key a KV pair may have (1 MiB).
pub const GGUF_MAX_KEY_LENGTH: u64 = 1048576;

/// Longest name a tensor may have (1 MiB).
pub const GGUF_MAX_TENSOR_NAME_LENGTH: u64 = 1048576;

/// Largest KV pair count, tensor count and array element count a header may
/// declare.
pub const GGUF_MAX_COUNT: u64 = 10000000;

/// Alignment of the data section when `general.alignment` is absent.
pub const GGUF_DEFAULT_ALIGNMENT: u64 = 32;

/// Largest accepted data alignment (64 KiB).
pub const GGUF_MAX_ALIGNMENT: u64 = 65536;

/// Why a header does not parse.
pub enum ParseFault {
    /// The input ends inside a fixed-size field.
    Truncated,
    /// The input ends inside a length-prefixed byte run of this length.
    ShortRead(u64),
    /// The first four bytes are these, not `GGUF`.
    BadMagic(Seq<u8>),
    /// The version number is not 1, 2 or 3.
    UnsupportedVersion(u32),
    /// The KV pair count or the tensor count (these two, in that order)
    /// exceeds [`GGUF_MAX_COUNT`].
    CountLimit(u64, u64),
    /// A key length is 0 or exceeds [`GGUF_MAX_KEY_LENGTH`].
    KeyLength(u64),
    /// A tensor name length is 0 or exceeds [`GGUF_MAX_TENSOR_NAME_LENGTH`].
    TensorNameLength(u64),
    /// A key, name or string is not well-formed UTF-8.
    BadUtf8,
    /// A value type number names no value type, or names a type that has no
    /// reader (reported as this number).
    InvalidValueType(u32),
    /// An array holds elements of a type that arrays may not hold.
    UnsupportedElement(u32),
    /// An array declares more than [`GGUF_MAX_COUNT`] elements (this many).
    ArrayLength(u64),
    /// The alignment is 0, not a power of two, or above [`GGUF_MAX_ALIGNMENT`]
    /// (reported truncated to `u32`).
    Alignment(u32),
}

/// The error that the library reports for `f`.
pub open spec fn reports(e: GgufError, f: ParseFault) -> bool {
    match f {
        ParseFault::Truncated => e is Binary,
        ParseFault::ShortRead(n) => e matches GgufError::UnexpectedEof { expected, actual } && expected
            == n as usize && actual == 0,
        ParseFault::BadMagic(m) => e matches GgufError::InvalidMagic(s) && s@ == utf8_lossy(m),
        ParseFault::UnsupportedVersion(v) => e matches GgufError::UnsupportedVersion(x) && x == v,
        ParseFault::CountLimit(kc, tc) => e matches GgufError::InvalidMetadata(m) && m@
            == count_limit_text(kc as nat, tc as nat),
        ParseFault::KeyLength(n) => e matches GgufError::KeyLengthOutOfRange(x) && x == n,
        ParseFault::TensorNameLength(n) => e matches GgufError::TensorNameLengthOutOfRange(x) && x
            == n,
        ParseFault::BadUtf8 => e is Utf8,
        ParseFault::InvalidValueType(v) => e matches GgufError::InvalidValueType(x) && x == v,
        ParseFault::UnsupportedElement(v) => e matches GgufError::UnsupportedArrayElementType(x)
            && x == v,
        ParseFault::ArrayLength(n) => e matches GgufError::ArrayLengthOutOfRange(x) && x == n,
        ParseFault::Alignment(v) => e matches GgufError::AlignmentOutOfRange(x) && x == v,
    }
}

/// A field's value and the position after it, or the fault met reading it.
pub type Parsed<T> = Result<(T, int), ParseFault>;

/// Whether an executable reader's result agrees with the grammar.
pub open spec fn agrees<T: View>(r: Result<(T, usize), GgufError>, s: Parsed<T::V>) -> bool {
    match r {
        Ok((v, q)) => s == Ok::<(T::V, int), ParseFault>((v@, q as int)),
        Err(e) => s matches Err(f) && reports(e, f),
    }
}

/// One byte.
pub open spec fn take_u8(b: Seq<u8>, p: int) -> Parsed<u8> {
    if 0 <= p && p + 1 <= b.len() {
        Ok((b[p], p + 1))
    } else {
        Err(ParseFault::Truncated)
    }
}

/// A little-endian `u16`.
pub open spec fn take_u16(b: Seq<u8>, p: int) -> Parsed<u16> {
    if 0 <= p && p + 2 <= b.len() {
        Ok((le_u16(b.subrange(p, p + 2)), p + 2))
    } else {
        Err(ParseFault::Truncated)
    }
}

/// A little-endian `u32`.
pub open spec fn take_u32(b: Seq<u8>, p: int) -> Parsed<u32> {
    if 0 <= p && p + 4 <= b.len() {
        Ok((le_u32(b.subrange(p, p + 4)), p + 4))
    } else {
        Err(ParseFault::Truncated)
    }
}

/// A little-endian `u64`.
pub open spec fn take_u64(b: Seq<u8>, p: int) -> Parsed<u64> {
    if 0 <= p && p + 8 <= b.len() {
        Ok((le_u64(b.subrange(p, p + 8)), p + 8))
    } else {
        Err(ParseFault::Truncated)
    }
}

/// An integer of width `w`, widened to `u64`.
pub open spec fn take_int(b: Seq<u8>, p: int, w: IntWidth) -> Parsed<u64> {
    match w {
        IntWidth::U32 => match take_u32(b, p) {
            Ok((v, q)) => Ok((v as u64, q)),
            Err(f) => Err(f),
        },
        IntWidth::U64 => take_u64(b, p),
    }
}

/// A run of `n` bytes.
pub open spec fn take_bytes(b: Seq<u8>, p: int, n: u64) -> Parsed<Seq<u8>> {
    if 0 <= p && p + n <= b.len() {
        Ok((b.subrange(p, p + n), p + n))
    } else {
        Err(ParseFault::ShortRead(n))
    }
}

/// A run of `n` bytes decoded as UTF-8.
pub open spec fn take_text(b: Seq<u8>, p: int, n: u64) -> Parsed<Seq<char>> {
    match take_bytes(b, p, n) {
        Ok((bs, q)) => if valid_utf8(bs) {
            Ok((decode_utf8(bs), q))
        } else {
            Err(ParseFault::BadUtf8)
        },
        Err(f) => Err(f),
    }
}

/// A string: a length of width `sw`, then that many bytes of UTF-8.
pub open spec fn take_string(b: Seq<u8>, p: int, sw: IntWidth) -> Parsed<Seq<char>> {
    match take_int(b, p, sw) {
        Ok((n, q)) => take_text(b, q, n),
        Err(f) => Err(f),
    }
}

/// A fixed-size value of type `vt`; `Bfloat16` is widened to the bits of the
/// `f32` with the same value. A type without a fixed-size reader is reported
/// by its declaration index.
pub open spec fn take_scalar(b: Seq<u8>, p: int, vt: GgufValueType) -> Parsed<KvValueView> {
    match vt {
        GgufValueType::Int8 => match take_u8(b, p) {
            Ok((x, q)) => Ok((KvValueView::Int8(x as i8), q)),
            Err(f) => Err(f),
        },
        GgufValueType::Uint16 => match take_u16(b, p) {
            Ok((x, q)) => Ok((KvValueView::Uint16(x), q)),
            Err(f) => Err(f),
        },
        GgufValueType::Int16 => match take_u16(b, p) {
            Ok((x, q)) => Ok((KvValueView::Int16(x as i16), q)),
            Err(f) => Err(f),
        },
        GgufValueType::Uint32 => match take_u32(b, p) {
            Ok((x, q)) => Ok((KvValueView::Uint32(x), q)),
            Err(f) => Err(f),
        },
        GgufValueType::Int32 => match take_u32(b, p) {
            Ok((x, q)) => Ok((KvValueView::Int32(x as i32), q)),
            Err(f) => Err(f),
        },
        GgufValueType::Uint64 => match take_u64(b, p) {
            Ok((x, q)) => Ok((KvValueView::Uint64(x), q)),
            Err(f) => Err(f),
        },
        GgufValueType::Int64 => match take_u64(b, p) {
            Ok((x, q)) => Ok((KvValueView::Int64(x as i64), q)),
            Err(f) => Err(f),
        },
        GgufValueType::Float32 => match take_u32(b, p) {
            Ok((x, q)) => Ok((KvValueView::Float32(x), q)),
            Err(f) => Err(f),
        },
        GgufValueType::Float64 => match take_u64(b, p) {
            Ok((x, q)) => Ok((KvValueView::Float64(x), q)),
            Err(f) => Err(f),
        },
        GgufValueType::Bool => match take_u8(b, p) {
            Ok((x, q)) => Ok((KvValueView::Bool(x != 0), q)),
            Err(f) => Err(f),
        },
        GgufValueType::Bfloat16 => match take_u16(b, p) {
            Ok((x, q)) => Ok((KvValueView::Bfloat16(((x as u32) << 16u32) as u32), q)),
            Err(f) => Err(f),
        },
        GgufValueType::Float16 => match take_u16(b, p) {
            Ok((x, q)) => Ok((KvValueView::Float16(x), q)),
            Err(f) => Err(f),
        },
        GgufValueType::Uint8 => match take_u8(b, p) {
            Ok((x, q)) => Ok((KvValueView::Uint8(x), q)),
            Err(f) => Err(f),
        },
        _ => Err(ParseFault::InvalidValueType(vt.ordinal())),
    }
}

/// One array element of type `et` (numbered `raw` in the file). Arrays may
/// not hold arrays, byte arrays or `Float64` values.
pub open spec fn take_array_elem(
    b: Seq<u8>,
    p: int,
    et: GgufValueType,
    raw: u32,
    sw: IntWidth,
) -> Parsed<KvValueView> {
    match et {
        GgufValueType::String => match take_string(b, p, sw) {
            Ok((s, q)) => Ok((KvValueView::String(s), q)),
            Err(f) => Err(f),
        },
        GgufValueType::Array | GgufValueType::Int8Array | GgufValueType::Uint8Array
        | GgufValueType::Float64 => Err(ParseFault::UnsupportedElement(raw)),
        _ => take_scalar(b, p, et),
    }
}

/// `n` array elements in a row.
pub open spec fn take_array_elems(
    b: Seq<u8>,
    p: int,
    et: GgufValueType,
    raw: u32,
    sw: IntWidth,
    n: nat,
) -> Parsed<Seq<KvValueView>>
    decreases n,
{
    if n == 0 {
        Ok((Seq::empty(), p))
    } else {
        match take_array_elems(b, p, et, raw, sw, (n - 1) as nat) {
            Ok((s, q)) => match take_array_elem(b, q, et, raw, sw) {
                Ok((e, r)) => Ok((s.push(e), r)),
                Err(f) => Err(f),
            },
            Err(f) => Err(f),
        }
    }
}

/// A metadata value of type `vt`: strings and arrays use the widths `sw`
/// and `aw` for their length prefixes; an array starts with its element type
/// (u32) and count, which may not exceed [`GGUF_MAX_COUNT`].
pub open spec fn take_kv_value(
    b: Seq<u8>,
    p: int,
    vt: GgufValueType,
    sw: IntWidth,
    aw: IntWidth,
) -> Parsed<KvValueView> {
    match vt {
        GgufValueType::String => match take_string(b, p, sw) {
            Ok((s, q)) => Ok((KvValueView::String(s), q)),
            Err(f) => Err(f),
        },
        GgufValueType::Array => match take_u32(b, p) {
            Ok((raw, q)) => match value_type_of_id(raw) {
                Some(et) => match take_int(b, q, aw) {
                    Ok((n, r)) => if n > GGUF_MAX_COUNT {
                        Err(ParseFault::ArrayLength(n))
                    } else {
                        match take_array_elems(b, r, et, raw, sw, n as nat) {
                            Ok((es, t)) => Ok((KvValueView::Array(es), t)),
                            Err(f) => Err(f),
                        }
                    },
                    Err(f) => Err(f),
                },
                None => Err(ParseFault::InvalidValueType(raw)),
            },
            Err(f) => Err(f),
        },
        _ => take_scalar(b, p, vt),
    }
}

/// A KV pair: key length and key, value type number, value.
pub open spec fn take_kv_pair(b: Seq<u8>, p: int, f: GgufWireFormat) -> Parsed<KvPairView> {
    match take_int(b, p, f.key_width) {
        Ok((n, q)) => if n == 0 || n > GGUF_MAX_KEY_LENGTH {
            Err(ParseFault::KeyLength(n))
        } else {
            match take_text(b, q, n) {
                Ok((key, r)) => match take_u32(b, r) {
                    Ok((raw, s)) => match value_type_of_id(raw) {
                        Some(vt) => match take_kv_value(
                            b,
                            s,
                            vt,
                            f.string_width,
                            f.array_count_width,
                        ) {
                            Ok((v, t)) => Ok((KvPairView { key, value_type: vt, value: v }, t)),
                            Err(e) => Err(e),
                        },
                        None => Err(ParseFault::InvalidValueType(raw)),
                    },
                    Err(e) => Err(e),
                },
                Err(e) => Err(e),
            }
        },
        Err(e) => Err(e),
    }
}

/// `n` KV pairs in a row.
pub open spec fn take_kv_pairs(b: Seq<u8>, p: int, f: GgufWireFormat, n: nat) -> Parsed<
    Seq<KvPairView>,
>
    decreases n,
{
    if n == 0 {
        Ok((Seq::empty(), p))
    } else {
        match take_kv_pairs(b, p, f, (n - 1) as nat) {
            Ok((s, q)) => match take_kv_pair(b, q, f) {
                Ok((e, r)) => Ok((s.push(e), r)),
                Err(e) => Err(e),
            },
            Err(e) => Err(e),
        }
    }
}

/// `n` little-endian `u64`s in a row.
pub open spec fn take_u64s(b: Seq<u8>, p: int, n: nat) -> Parsed<Seq<u64>>
    decreases n,
{
    if n == 0 {
        Ok((Seq::empty(), p))
    } else {
        match take_u64s(b, p, (n - 1) as nat) {
            Ok((s, q)) => match take_u64(b, q) {
                Ok((e, r)) => Ok((s.push(e), r)),
                Err(e) => Err(e),
            },
            Err(e) => Err(e),
        }
    }
}

/// A tensor descriptor: name length and name, dimension count (u32), the
/// dimensions (u64 each), dtype (u32), offset (u64).
pub open spec fn take_tensor(b: Seq<u8>, p: int, f: GgufWireFormat) -> Parsed<TensorView> {
    match take_int(b, p, f.tensor_name_width) {
        Ok((n, q)) => if n == 0 || n > GGUF_MAX_TENSOR_NAME_LENGTH {
            Err(ParseFault::TensorNameLength(n))
        } else {
            match take_text(b, q, n) {
                Ok((name, r)) => match take_u32(b, r) {
                    Ok((nd, s)) => match take_u64s(b, s, nd as nat) {
                        Ok((shape, t)) => match take_u32(b, t) {
                            Ok((dtype, u)) => match take_u64(b, u) {
                                Ok((offset, w)) => Ok(
                                    (TensorView { name, shape, offset, dtype }, w),
                                ),
                                Err(e) => Err(e),
                            },
                            Err(e) => Err(e),
                        },
                        Err(e) => Err(e),
                    },
                    Err(e) => Err(e),
                },
                Err(e) => Err(e),
            }
        },
        Err(e) => Err(e),
    }
}

/// `n` tensor descriptors in a row.
pub open spec fn take_tensors(b: Seq<u8>, p: int, f: GgufWireFormat, n: nat) -> Parsed<
    Seq<TensorView>,
>
    decreases n,
{
    if n == 0 {
        Ok((Seq::empty(), p))
    } else {
        match take_tensors(b, p, f, (n - 1) as nat) {
            Ok((s, q)) => match take_tensor(b, q, f) {
                Ok((e, r)) => Ok((s.push(e), r)),
                Err(e) => Err(e),
            },
            Err(e) => Err(e),
        }
    }
}

/// The alignment that the pairs ask for: the first `general.alignment`
/// pair read as an integer, else 32.
pub open spec fn requested_alignment(kvs: Seq<KvPairView>) -> u64 {
    match find_kv(kvs, "general.alignment"@) {
        Some(p) => match p.value.to_u64() {
            Some(a) => a,
            None => GGUF_DEFAULT_ALIGNMENT,
        },
        None => GGUF_DEFAULT_ALIGNMENT,
    }
}

/// The validated alignment: a nonzero power of two of at most 64 KiB.
pub open spec fn alignment_of(kvs: Seq<KvPairView>) -> Result<u64, ParseFault> {
    let a = requested_alignment(kvs);
    if a == 0 {
        Err(ParseFault::Alignment(0))
    } else if a & ((a - 1) as u64) != 0 {
        Err(ParseFault::Alignment(a as u32))
    } else if a > GGUF_MAX_ALIGNMENT {
        Err(ParseFault::Alignment(a as u32))
    } else {
        Ok(a)
    }
}

/// The sum of the serialized sizes of the pairs.
pub open spec fn kv_section_size(kvs: Seq<KvPairView>, f: GgufWireFormat) -> int
    decreases kvs.len(),
{
    if kvs.len() == 0 {
        0
    } else {
        kv_section_size(kvs.drop_last(), f) + kvs.last().wire_size(f)
    }
}

/// The sum of the serialized sizes of the tensor descriptors.
pub open spec fn tensor_section_size(ts: Seq<TensorView>, f: GgufWireFormat) -> int
    decreases ts.len(),
{
    if ts.len() == 0 {
        0
    } else {
        tensor_section_size(ts.drop_last(), f) + ts.last().wire_size(f)
    }
}

/// `pos` rounded up to a multiple of `alignment` (unchanged for alignment 0).
pub open spec fn align_up(pos: int, alignment: int) -> int {
    if alignment <= 0 || pos % alignment == 0 {
        pos
    } else {
        pos + alignment - pos % alignment
    }
}

/// The size of the fixed header fields in the layout `f`: magic (4), version
/// (4), tensor count and pair count.
pub open spec fn header_base(f: GgufWireFormat) -> int {
    8 + 2 * f.header_count_width.bytes()
}

/// The header size by the size formula: the fixed header fields, then the
/// pairs and the tensor descriptors, capped at `u64::MAX`.
pub open spec fn formula_header_size(
    f: GgufWireFormat,
    kvs: Seq<KvPairView>,
    ts: Seq<TensorView>,
) -> int {
    let raw = header_base(f) + kv_section_size(kvs, f) + tensor_section_size(ts, f);
    if raw > u64::MAX {
        u64::MAX as int
    } else {
        raw
    }
}

/// Where the data section starts by the size formula: the formula's header
/// size rounded up to the alignment.
pub open spec fn data_section_start_of(
    f: GgufWireFormat,
    kvs: Seq<KvPairView>,
    ts: Seq<TensorView>,
    alignment: Option<u64>,
) -> int {
    let capped = formula_header_size(f, kvs, ts);
    match alignment {
        Some(a) => align_up(capped, a as int),
        None => capped,
    }
}

/// The four magic bytes `GGUF`.
pub open spec fn gguf_magic() -> Seq<u8> {
    seq![0x47u8, 0x47u8, 0x55u8, 0x46u8]
}

/// `end` rounded up to a multiple of `alignment`, saturating at `u64::MAX`.
pub open spec fn data_start_after(end: int, alignment: u64) -> u64 {
    let s = align_up(end, alignment as int);
    if s > u64::MAX {
        u64::MAX
    } else {
        s as u64
    }
}

/// The header that `kvs` and `ts` make when the header's bytes end at `end`:
/// the alignment from the pairs, and the data section at the first multiple
/// of it from `end` on.
pub open spec fn finish_header(
    version: u32,
    kvs: Seq<KvPairView>,
    ts: Seq<TensorView>,
    end: int,
) -> Result<HeaderView, ParseFault> {
    match alignment_of(kvs) {
        Err(e) => Err(e),
        Ok(a) => Ok(
            HeaderView {
                version,
                kv_pairs: kvs,
                tensors: ts,
                data_alignment: Some(a),
                data_section_start: data_start_after(end, a),
            },
        ),
    }
}

/// The rest of a header from position `q`, in the layout `f`: the tensor
/// count and the pair count, then the pairs, then the tensor descriptors.
pub open spec fn parse_rest(b: Seq<u8>, q: int, version: u32, f: GgufWireFormat) -> Result<
    HeaderView,
    ParseFault,
> {
    match take_int(b, q, f.header_count_width) {
        Err(e) => Err(e),
        Ok((tc, r)) => match take_int(b, r, f.header_count_width) {
            Err(e) => Err(e),
            Ok((kc, s)) => if kc > GGUF_MAX_COUNT || tc > GGUF_MAX_COUNT {
                Err(ParseFault::CountLimit(kc, tc))
            } else {
                match take_kv_pairs(b, s, f, kc as nat) {
                    Err(e) => Err(e),
                    Ok((kvs, t)) => match take_tensors(b, t, f, tc as nat) {
                        Err(e) => Err(e),
                        Ok((ts, end)) => finish_header(version, kvs, ts, end),
                    },
                }
            },
        },
    }
}

/// The header of a GGUF file: the magic `GGUF`, a u32 version 1, 2 or 3,
/// then the rest in that version's layout.
pub open spec fn parse_header(b: Seq<u8>) -> Result<HeaderView, ParseFault> {
    match take_bytes(b, 0, 4) {
        Err(_) => Err(ParseFault::Truncated),
        Ok((magic, p)) => if magic != gguf_magic() {
            Err(ParseFault::BadMagic(magic))
        } else {
            match take_u32(b, p) {
                Err(e) => Err(e),
                Ok((version, q)) => if version == 1 {
                    parse_rest(b, q, 1, wire_v1())
                } else if version == 2 {
                    parse_rest(b, q, 2, wire_v2())
                } else if version == 3 {
                    parse_rest(b, q, 3, wire_v3())
                } else {
                    Err(ParseFault::UnsupportedVersion(version))
                },
            }
        }
    }
}

/// The position after the last tensor descriptor of a header whose rest
/// starts at `q` in the layout `f` (meaningful when that rest parses).
pub open spec fn rest_end(b: Seq<u8>, q: int, f: GgufWireFormat) -> int {
    let (tc, r) = take_int(b, q, f.header_count_width)->Ok_0;
    let (kc, s) = take_int(b, r, f.header_count_width)->Ok_0;
    let t = take_kv_pairs(b, s, f, kc as nat)->Ok_0.1;
    take_tensors(b, t, f, tc as nat)->Ok_0.1
}

/// Where a header ends: the position after its last field (meaningful when
/// the header parses).
pub open spec fn header_end(b: Seq<u8>) -> int {
    rest_end(b, 8, layout_of(take_u32(b, 4)->Ok_0.0))
}

/// The layout of a header of version `version` (v3's for a version above 3).
pub open spec fn layout_of(version: u32) -> GgufWireFormat {
    if version == 1 {
        wire_v1()
    } else if version == 2 {
        wire_v2()
    } else {
        wire_v3()
    }
}

/// The bytes a fixed-size value of type `vt` takes on the wire.
pub open spec fn scalar_width(vt: GgufValueType) -> int {
    match vt {
        GgufValueType::Uint8 | GgufValueType::Int8 | GgufValueType::Bool => 1,
        GgufValueType::Uint16 | GgufValueType::Int16 | GgufValueType::Bfloat16
        | GgufValueType::Float16 => 2,
        GgufValueType::Uint32 | GgufValueType::Int32 | GgufValueType::Float32 => 4,
        _ => 8,
    }
}

/// A decoded run of `n` bytes has `n` bytes of UTF-8.
pub proof fn lemma_take_text(b: Seq<u8>, p: int, n: u64)
    requires
        take_text(b, p, n) is Ok,
    ensures
        take_text(b, p, n) matches Ok((s, q)) && utf8_len(s) == n && q == p + n && 0 <= p && q
            <= b.len(),
{
    let bs = b.subrange(p, p + n);
    decode_utf8_encode_utf8(bs);
}

/// An integer field takes its width.
pub proof fn lemma_take_int(b: Seq<u8>, p: int, w: IntWidth)
    requires
        take_int(b, p, w) is Ok,
    ensures
        take_int(b, p, w) matches Ok((_, q)) && q == p + w.bytes() && 0 <= p && q <= b.len(),
{
}

/// A string field takes its length prefix and its bytes.
pub proof fn lemma_take_string(b: Seq<u8>, p: int, w: IntWidth)
    requires
        take_string(b, p, w) is Ok,
    ensures
        take_string(b, p, w) matches Ok((s, q)) && q == p + w.bytes() + utf8_len(s) && 0 <= p
            && q <= b.len(),
{
    lemma_take_int(b, p, w);
    let (n, q) = take_int(b, p, w)->Ok_0;
    lemma_take_text(b, q, n);
}

/// A fixed-size value has the type asked for and takes its width, which
/// is also its size under the size formula.
pub proof fn lemma_take_scalar(b: Seq<u8>, p: int, vt: GgufValueType, sw: int, aw: int)
    requires
        take_scalar(b, p, vt) is Ok,
    ensures
        take_scalar(b, p, vt) matches Ok((v, q)) && v.kind() == vt && q == p + scalar_width(vt)
            && v.wire_size_in(sw, aw) == scalar_width(vt) && 0 <= p && q <= b.len()
            && vt.fixed_size() == Some(scalar_width(vt) as usize),
{
}

/// An array element has the element type and takes its own size.
pub proof fn lemma_take_array_elem(b: Seq<u8>, p: int, et: GgufValueType, raw: u32, sw: IntWidth)
    requires
        take_array_elem(b, p, et, raw, sw) is Ok,
    ensures
        take_array_elem(b, p, et, raw, sw) matches Ok((e, q)) && e.kind() == et && 0 <= p && q
            <= b.len() && if et == GgufValueType::String {
            e matches KvValueView::String(s) && q == p + sw.bytes() + utf8_len(s)
        } else {
            q == p + scalar_width(et) && et.fixed_size() == Some(scalar_width(et) as usize)
        },
{
    if et == GgufValueType::String {
        lemma_take_string(b, p, sw);
    } else {
        lemma_take_scalar(b, p, et, sw.bytes(), 8);
    }
}

/// A run of array elements all have the element type; strings take their
/// own sizes, fixed-size elements their width each.
pub proof fn lemma_take_array_elems(
    b: Seq<u8>,
    p: int,
    et: GgufValueType,
    raw: u32,
    sw: IntWidth,
    n: nat,
)
    requires
        0 <= p <= b.len(),
        take_array_elems(b, p, et, raw, sw, n) is Ok,
    ensures
        take_array_elems(b, p, et, raw, sw, n) matches Ok((es, q)) && es.len() == n && p <= q
            <= b.len() && (forall|i: int| 0 <= i < es.len() ==> (#[trigger] es[i]).kind() == et)
            && if et == GgufValueType::String {
            q == p + string_elems_size(es, sw.bytes())
        } else {
            q == p + n * scalar_width(et) && (n > 0 ==> et.fixed_size() == Some(
                scalar_width(et) as usize,
            ))
        },
    decreases n,
{
    if n > 0 {
        lemma_take_array_elems(b, p, et, raw, sw, (n - 1) as nat);
        let (s, q) = take_array_elems(b, p, et, raw, sw, (n - 1) as nat)->Ok_0;
        lemma_take_array_elem(b, q, et, raw, sw);
        let (e, r) = take_array_elem(b, q, et, raw, sw)->Ok_0;
        let es = s.push(e);
        assert(es.drop_last() =~= s);
        assert forall|i: int| 0 <= i < es.len() implies (#[trigger] es[i]).kind() == et by {
            if i < s.len() {
                assert(es[i] == s[i]);
            }
        }
        if et != GgufValueType::String {
            assert(p + n * scalar_width(et) == p + (n - 1) * scalar_width(et) + scalar_width(et))
                by (nonlinear_arith);
        }
    }
}

/// A metadata value takes exactly its size under the size formula.
pub proof fn lemma_take_kv_value(
    b: Seq<u8>,
    p: int,
    vt: GgufValueType,
    sw: IntWidth,
    aw: IntWidth,
)
    requires
        0 <= p <= b.len(),
        take_kv_value(b, p, vt, sw, aw) is Ok,
    ensures
        take_kv_value(b, p, vt, sw, aw) matches Ok((v, q)) && p <= q <= b.len() && v.wire_size_in(
            sw.bytes(),
            aw.bytes(),
        ) == q - p,
{
    match vt {
        GgufValueType::String => {
            lemma_take_string(b, p, sw);
        },
        GgufValueType::Array => {
            let (raw, q) = take_u32(b, p)->Ok_0;
            let et = value_type_of_id(raw)->Some_0;
            lemma_take_int(b, q, aw);
            let (n, r) = take_int(b, q, aw)->Ok_0;
            lemma_take_array_elems(b, r, et, raw, sw, n as nat);
            let (es, t) = take_array_elems(b, r, et, raw, sw, n as nat)->Ok_0;
            if es.len() > 0 {
                assert(es[0].kind() == et);
                if et != GgufValueType::String {
                    assert(KvValueView::array_elem_size(es) == scalar_width(et));
                }
            }
        },
        _ => {
            lemma_take_scalar(b, p, vt, sw.bytes(), aw.bytes());
        },
    }
}

/// The size formula counts a pair as the bytes it takes: always, but for
/// an array in a layout whose array counts are u32 (the formula counts 8).
pub open spec fn count_width_agrees(kv: KvPairView, f: GgufWireFormat) -> bool {
    f.array_count_width == IntWidth::U64 || !(kv.value is Array)
}

/// A KV pair takes exactly its read size, which is its size under the size
/// formula when the array count widths agree.
pub proof fn lemma_take_kv_pair(b: Seq<u8>, p: int, f: GgufWireFormat)
    requires
        0 <= p <= b.len(),
        take_kv_pair(b, p, f) is Ok,
    ensures
        take_kv_pair(b, p, f) matches Ok((kv, q)) && p <= q <= b.len() && kv.read_size(f) == q - p
            && (count_width_agrees(kv, f) ==> kv.wire_size(f) == q - p),
{
    lemma_take_int(b, p, f.key_width);
    let (n, q) = take_int(b, p, f.key_width)->Ok_0;
    lemma_take_text(b, q, n);
    let (key, r) = take_text(b, q, n)->Ok_0;
    let (raw, s) = take_u32(b, r)->Ok_0;
    let vt = value_type_of_id(raw)->Some_0;
    lemma_take_kv_value(b, s, vt, f.string_width, f.array_count_width);
}

/// A run of KV pairs takes exactly its size under the size formula when the
/// array count widths agree for each of them.
pub proof fn lemma_take_kv_pairs(b: Seq<u8>, p: int, f: GgufWireFormat, n: nat)
    requires
        0 <= p <= b.len(),
        take_kv_pairs(b, p, f, n) is Ok,
    ensures
        take_kv_pairs(b, p, f, n) matches Ok((kvs, q)) && kvs.len() == n && p <= q <= b.len() && (
        (forall|i: int| 0 <= i < kvs.len() ==> count_width_agrees(#[trigger] kvs[i], f))
            ==> kv_section_size(kvs, f) == q - p),
    decreases n,
{
    if n > 0 {
        lemma_take_kv_pairs(b, p, f, (n - 1) as nat);
        let (s, q) = take_kv_pairs(b, p, f, (n - 1) as nat)->Ok_0;
        lemma_take_kv_pair(b, q, f);
        let (e, r) = take_kv_pair(b, q, f)->Ok_0;
        let kvs = s.push(e);
        assert(kvs.drop_last() =~= s);
        if forall|i: int| 0 <= i < kvs.len() ==> count_width_agrees(#[trigger] kvs[i], f) {
            assert forall|i: int| 0 <= i < s.len() implies count_width_agrees(#[trigger] s[i], f) by {
                assert(kvs[i] == s[i]);
            }
            assert(count_width_agrees(kvs[kvs.len() - 1], f));
        }
    }
}

/// A run of dimensions takes eight bytes each.
pub proof fn lemma_take_u64s(b: Seq<u8>, p: int, n: nat)
    requires
        0 <= p <= b.len(),
        take_u64s(b, p, n) is Ok,
    ensures
        take_u64s(b, p, n) matches Ok((s, q)) && s.len() == n && q == p + 8 * n && q <= b.len(),
    decreases n,
{
    if n > 0 {
        lemma_take_u64s(b, p, (n - 1) as nat);
    }
}

/// A tensor descriptor takes exactly its size under the size formula.
pub proof fn lemma_take_tensor(b: Seq<u8>, p: int, f: GgufWireFormat)
    requires
        0 <= p <= b.len(),
        take_tensor(b, p, f) is Ok,
    ensures
        take_tensor(b, p, f) matches Ok((t, q)) && p <= q <= b.len() && t.wire_size(f) == q - p,
{
    lemma_take_int(b, p, f.tensor_name_width);
    let (n, q) = take_int(b, p, f.tensor_name_width)->Ok_0;
    lemma_take_text(b, q, n);
    let (name, r) = take_text(b, q, n)->Ok_0;
    let (nd, s) = take_u32(b, r)->Ok_0;
    lemma_take_u64s(b, s, nd as nat);
}

/// A run of tensor descriptors takes exactly its size under the size formula.
pub proof fn lemma_take_tensors(b: Seq<u8>, p: int, f: GgufWireFormat, n: nat)
    requires
        0 <= p <= b.len(),
        take_tensors(b, p, f, n) is Ok,
    ensures
        take_tensors(b, p, f, n) matches Ok((ts, q)) && ts.len() == n && p <= q <= b.len()
            && tensor_section_size(ts, f) == q - p && (forall|i: int|
            0 <= i < ts.len() ==> 0 <= (#[trigger] ts[i]).wire_size(f) <= q - p),
    decreases n,
{
    if n > 0 {
        lemma_take_tensors(b, p, f, (n - 1) as nat);
        let (s, q) = take_tensors(b, p, f, (n - 1) as nat)->Ok_0;
        lemma_take_tensor(b, q, f);
        let (e, r) = take_tensor(b, q, f)->Ok_0;
        let ts = s.push(e);
        assert(ts.drop_last() =~= s);
        assert forall|i: int| 0 <= i < ts.len() implies 0 <= (#[trigger] ts[i]).wire_size(f) <= r
            - p by {
            if i < s.len() {
                assert(ts[i] == s[i]);
            }
        }
    }
}

/// Serialized pair sizes are never negative.
pub proof fn lemma_kv_wire_size_nonneg(kv: KvPairView, f: GgufWireFormat)
    ensures
        kv.wire_size(f) >= 0,
{
    lemma_wire_size_nonneg(kv.value, f.string_width.bytes(), f.array_count_width.bytes());
}

/// The sizes of the first `i` pairs sum to at most the sizes of all of them.
pub proof fn lemma_kv_section_prefix(kvs: Seq<KvPairView>, f: GgufWireFormat, i: int)
    requires
        0 <= i <= kvs.len(),
    ensures
        0 <= kv_section_size(kvs.take(i), f) <= kv_section_size(kvs, f),
    decreases kvs.len(),
{
    if i == kvs.len() {
        assert(kvs.take(i) =~= kvs);
        if kvs.len() > 0 {
            lemma_kv_section_prefix(kvs.drop_last(), f, i - 1);
            lemma_kv_wire_size_nonneg(kvs.last(), f);
        }
    } else {
        lemma_kv_section_prefix(kvs.drop_last(), f, i);
        assert(kvs.drop_last().take(i) =~= kvs.take(i));
        lemma_kv_wire_size_nonneg(kvs.last(), f);
    }
}

/// The sizes of the first `i` descriptors sum to at most the sizes of all of them.
pub proof fn lemma_tensor_section_prefix(ts: Seq<TensorView>, f: GgufWireFormat, i: int)
    requires
        0 <= i <= ts.len(),
    ensures
        0 <= tensor_section_size(ts.take(i), f) <= tensor_section_size(ts, f),
    decreases ts.len(),
{
    if i == ts.len() {
        assert(ts.take(i) =~= ts);
        if ts.len() > 0 {
            lemma_tensor_section_prefix(ts.drop_last(), f, i - 1);
        }
    } else {
        lemma_tensor_section_prefix(ts.drop_last(), f, i);
        assert(ts.drop_last().take(i) =~= ts.take(i));
    }
}

/// `n` in `w`'s width, little-endian (truncated to `u32` for a u32 field).
pub open spec fn le_bytes_int(w: IntWidth, n: u64) -> Seq<u8> {
    match w {
        IntWidth::U32 => le_bytes_u32(n as u32),
        IntWidth::U64 => le_bytes_u64(n),
    }
}

/// The UTF-8 bytes of `s` with their length in front, in the width `w`.
pub open spec fn emit_string(s: Seq<char>, w: IntWidth) -> Seq<u8> {
    le_bytes_int(w, encode_utf8(s).len() as u64) + encode_utf8(s)
}

/// The type an array is written with: its first element's, `Uint32` when empty.
pub open spec fn array_elem_type(a: Seq<KvValueView>) -> GgufValueType {
    if a.len() > 0 {
        a[0].kind()
    } else {
        GgufValueType::Uint32
    }
}

/// How a value is written in the layout `f` when its pair says it has type
/// `vt`: nothing is written for a value of another type. Scalars take their
/// little-endian bytes (a `Bfloat16` the high 16 bits of its `f32` bits, as
/// the reader widens them); a string its length and bytes; a byte array its
/// u64 count and its bytes. An array is written as its element type, its count
/// and each element written as that type.
pub open spec fn emit_kv_value(vt: GgufValueType, v: KvValueView, f: GgufWireFormat) -> Seq<u8>
    decreases v, 1int,
{
    match (vt, v) {
        (GgufValueType::String, KvValueView::String(s)) => emit_string(s, f.string_width),
        (GgufValueType::Array, KvValueView::Array(a)) => le_bytes_u32(array_elem_type(a).id())
            + le_bytes_int(f.array_count_width, a.len() as u64) + emit_elems(
            array_elem_type(a),
            a,
            f,
        ),
        (GgufValueType::Int8, KvValueView::Int8(x)) => seq![x as u8],
        (GgufValueType::Uint16, KvValueView::Uint16(x)) => le_bytes_u16(x),
        (GgufValueType::Int16, KvValueView::Int16(x)) => le_bytes_u16(x as u16),
        (GgufValueType::Uint32, KvValueView::Uint32(x)) => le_bytes_u32(x),
        (GgufValueType::Int32, KvValueView::Int32(x)) => le_bytes_u32(x as u32),
        (GgufValueType::Uint64, KvValueView::Uint64(x)) => le_bytes_u64(x),
        (GgufValueType::Int64, KvValueView::Int64(x)) => le_bytes_u64(x as u64),
        (GgufValueType::Float32, KvValueView::Float32(x)) => le_bytes_u32(x),
        (GgufValueType::Float64, KvValueView::Float64(x)) => le_bytes_u64(x),
        (GgufValueType::Bool, KvValueView::Bool(x)) => seq![
            if x {
                1u8
            } else {
                0u8
            },
        ],
        (GgufValueType::Uint8, KvValueView::Uint8(x)) => seq![x],
        (GgufValueType::Float16, KvValueView::Float16(x)) => le_bytes_u16(x),
        (GgufValueType::Bfloat16, KvValueView::Bfloat16(x)) => le_bytes_u16((x >> 16u32) as u16),
        (GgufValueType::Int8Array, KvValueView::Int8Array(a)) => le_bytes_u64(a.len() as u64)
            + a.map_values(|x: i8| x as u8),
        (GgufValueType::Uint8Array, KvValueView::Uint8Array(a)) => le_bytes_u64(a.len() as u64) + a,
        _ => Seq::empty(),
    }
}

/// The elements of an array, each written as type `et`.
pub open spec fn emit_elems(et: GgufValueType, a: Seq<KvValueView>, f: GgufWireFormat) -> Seq<u8>
    decreases a, 0int,
{
    if a.len() == 0 {
        Seq::empty()
    } else {
        emit_elems(et, a.drop_last(), f) + emit_kv_value(et, a.last(), f)
    }
}

/// A KV pair in the layout `f`: key length and key, u32 value type, value.
pub open spec fn emit_kv_pair(kv: KvPairView, f: GgufWireFormat) -> Seq<u8> {
    emit_string(kv.key, f.key_width) + le_bytes_u32(kv.value_type.id()) + emit_kv_value(
        kv.value_type,
        kv.value,
        f,
    )
}

/// The dimensions, each as a u64.
pub open spec fn emit_u64s(s: Seq<u64>) -> Seq<u8>
    decreases s.len(),
{
    if s.len() == 0 {
        Seq::empty()
    } else {
        emit_u64s(s.drop_last()) + le_bytes_u64(s.last())
    }
}

/// A tensor descriptor in the layout `f`: name length and name, u32
/// dimension count, dimensions, u32 dtype, u64 offset.
pub open spec fn emit_tensor(t: TensorView, f: GgufWireFormat) -> Seq<u8> {
    emit_string(t.name, f.tensor_name_width) + le_bytes_u32(t.shape.len() as u32) + emit_u64s(
        t.shape,
    ) + le_bytes_u32(t.dtype) + le_bytes_u64(t.offset)
}

/// The pairs, one after another.
pub open spec fn emit_kv_pairs(kvs: Seq<KvPairView>, f: GgufWireFormat) -> Seq<u8>
    decreases kvs.len(),
{
    if kvs.len() == 0 {
        Seq::empty()
    } else {
        emit_kv_pairs(kvs.drop_last(), f) + emit_kv_pair(kvs.last(), f)
    }
}

/// The tensor descriptors, one after another.
pub open spec fn emit_tensors(ts: Seq<TensorView>, f: GgufWireFormat) -> Seq<u8>
    decreases ts.len(),
{
    if ts.len() == 0 {
        Seq::empty()
    } else {
        emit_tensors(ts.drop_last(), f) + emit_tensor(ts.last(), f)
    }
}

/// A header in the layout of its version (v3's for a version other than 1
/// or 2): magic, u32 version, tensor count, pair count, the pairs, the tensor
/// descriptors.
pub open spec fn emit_header(version: u32, kvs: Seq<KvPairView>, ts: Seq<TensorView>) -> Seq<u8> {
    let f = layout_of(version);
    gguf_magic() + le_bytes_u32(version) + le_bytes_int(f.header_count_width, ts.len() as u64)
        + le_bytes_int(f.header_count_width, kvs.len() as u64) + emit_kv_pairs(kvs, f)
        + emit_tensors(ts, f)
}

} // verus!
