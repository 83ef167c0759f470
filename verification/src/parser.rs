//! Reading a GGUF header from bytes, sizing the header, and slicing out
//! tensor data.
use crate::error::{unexpected_eof, GgufError};
use crate::grammar::{
    header_end, header_base, parse_rest, gguf_magic, rest_end, align_up, data_start_after, lemma_kv_section_prefix, lemma_tensor_section_prefix, agrees, alignment_of, data_section_start_of, formula_header_size, kv_section_size, parse_header, reports,
    requested_alignment, take_array_elem, take_array_elems, take_bytes, take_int, take_kv_pair,
    take_kv_pairs, take_kv_value, take_scalar, take_string, take_tensor, take_tensors, take_text,
    take_u16, take_u32, take_u64, take_u64s, take_u8, tensor_section_size, ParseFault, GGUF_DEFAULT_ALIGNMENT, GGUF_MAX_ALIGNMENT, GGUF_MAX_COUNT, GGUF_MAX_KEY_LENGTH,
    GGUF_MAX_TENSOR_NAME_LENGTH,
};
use crate::le::{read_le_u16, read_le_u32, read_le_u64};
use crate::text::{lossy_string, msg_count_limit, string_from_utf8};
use crate::types::{
    product_fits, shape_product, wire_v1, value_type_of_id, kv_index, kv_pairs_view, tensors_view, GgufHeader, GgufKvPair, GgufKvValue, GgufTensorInfo,
    GgufValueType, GgufVersion, GgufWireFormat, IntWidth, KvPairView, KvValueView, TensorView,
};
use vstd::prelude::*;
use vstd::slice::{slice_subrange, slice_to_vec};

verus! {

/// The views of a sequence of metadata values.
pub open spec fn values_view(v: Seq<GgufKvValue>) -> Seq<KvValueView> {
    v.map_values(|x: GgufKvValue| x@)
}

fn read_u8_at(b: &[u8], p: usize) -> (r: Result<(u8, usize), GgufError>)
    requires
        p <= b@.len(),
    ensures
        agrees(r, take_u8(b@, p as int)),
{
    if p < b.len() {
        Ok((b[p], p + 1))
    } else {
        Err(GgufError::Binary(unexpected_eof()))
    }
}

fn read_u16_at(b: &[u8], p: usize) -> (r: Result<(u16, usize), GgufError>)
    requires
        p <= b@.len(),
    ensures
        agrees(r, take_u16(b@, p as int)),
{
    if b.len() - p >= 2 {
        Ok((read_le_u16(b, p), p + 2))
    } else {
        Err(GgufError::Binary(unexpected_eof()))
    }
}

fn read_u32_at(b: &[u8], p: usize) -> (r: Result<(u32, usize), GgufError>)
    requires
        p <= b@.len(),
    ensures
        agrees(r, take_u32(b@, p as int)),
{
    if b.len() - p >= 4 {
        Ok((read_le_u32(b, p), p + 4))
    } else {
        Err(GgufError::Binary(unexpected_eof()))
    }
}

fn read_u64_at(b: &[u8], p: usize) -> (r: Result<(u64, usize), GgufError>)
    requires
        p <= b@.len(),
    ensures
        agrees(r, take_u64(b@, p as int)),
{
    if b.len() - p >= 8 {
        Ok((read_le_u64(b, p), p + 8))
    } else {
        Err(GgufError::Binary(unexpected_eof()))
    }
}

/// Read a u32 or u64 based on the wire format's integer width.
fn read_int(b: &[u8], p: usize, width: IntWidth) -> (r: Result<(u64, usize), GgufError>)
    requires
        p <= b@.len(),
    ensures
        agrees(r, take_int(b@, p as int, width)),
        r matches Ok((_, q)) ==> q <= b@.len(),
{
    match width {
        IntWidth::U32 => {
            let (v, q) = read_u32_at(b, p)?;
            Ok((v as u64, q))
        },
        IntWidth::U64 => read_u64_at(b, p),
    }
}

/// Read `len` bytes; an input that ends first is an unexpected end of file.
fn read_bytes(b: &[u8], p: usize, len: u64) -> (r: Result<(Vec<u8>, usize), GgufError>)
    requires
        p <= b@.len(),
    ensures
        agrees(r, take_bytes(b@, p as int, len)),
        r matches Ok((_, q)) ==> q <= b@.len(),
{
    let remaining = b.len() - p;
    if len > remaining as u64 {
        return Err(GgufError::UnexpectedEof { expected: len as usize, actual: 0 });
    }
    let n = len as usize;
    let bytes = slice_to_vec(slice_subrange(b, p, p + n));
    Ok((bytes, p + n))
}

/// Read `len` bytes of UTF-8 text.
fn read_text(b: &[u8], p: usize, len: u64) -> (r: Result<(String, usize), GgufError>)
    requires
        p <= b@.len(),
    ensures
        agrees(r, take_text(b@, p as int, len)),
        r matches Ok((_, q)) ==> q <= b@.len(),
{
    let (bytes, q) = read_bytes(b, p, len)?;
    match string_from_utf8(bytes) {
        Ok(s) => Ok((s, q)),
        Err(e) => Err(GgufError::Utf8(e)),
    }
}

/// Read a length-prefixed string.
fn read_string(b: &[u8], p: usize, width: IntWidth) -> (r: Result<(String, usize), GgufError>)
    requires
        p <= b@.len(),
    ensures
        agrees(r, take_string(b@, p as int, width)),
        r matches Ok((_, q)) ==> q <= b@.len(),
{
    let (len, q) = read_int(b, p, width)?;
    read_text(b, q, len)
}

/// Read a single scalar KV value (shared across all GGUF versions).
fn read_kv_scalar(b: &[u8], p: usize, value_type: GgufValueType) -> (r: Result<
    (GgufKvValue, usize),
    GgufError,
>)
    requires
        p <= b@.len(),
    ensures
        agrees(r, take_scalar(b@, p as int, value_type)),
        r matches Ok((_, q)) ==> q <= b@.len(),
{
    match value_type {
        GgufValueType::Int8 => {
            let (x, q) = read_u8_at(b, p)?;
            Ok((GgufKvValue::Int8(x as i8), q))
        },
        GgufValueType::Uint16 => {
            let (x, q) = read_u16_at(b, p)?;
            Ok((GgufKvValue::Uint16(x), q))
        },
        GgufValueType::Int16 => {
            let (x, q) = read_u16_at(b, p)?;
            Ok((GgufKvValue::Int16(x as i16), q))
        },
        GgufValueType::Uint32 => {
            let (x, q) = read_u32_at(b, p)?;
            Ok((GgufKvValue::Uint32(x), q))
        },
        GgufValueType::Int32 => {
            let (x, q) = read_u32_at(b, p)?;
            Ok((GgufKvValue::Int32(x as i32), q))
        },
        GgufValueType::Uint64 => {
            let (x, q) = read_u64_at(b, p)?;
            Ok((GgufKvValue::Uint64(x), q))
        },
        GgufValueType::Int64 => {
            let (x, q) = read_u64_at(b, p)?;
            Ok((GgufKvValue::Int64(x as i64), q))
        },
        GgufValueType::Float32 => {
            let (x, q) = read_u32_at(b, p)?;
            Ok((GgufKvValue::Float32(x), q))
        },
        GgufValueType::Float64 => {
            let (x, q) = read_u64_at(b, p)?;
            Ok((GgufKvValue::Float64(x), q))
        },
        GgufValueType::Bool => {
            let (x, q) = read_u8_at(b, p)?;
            Ok((GgufKvValue::Bool(x != 0), q))
        },
        GgufValueType::Bfloat16 => {
            let (x, q) = read_u16_at(b, p)?;
            Ok((GgufKvValue::Bfloat16((x as u32) << 16u32), q))
        },
        GgufValueType::Float16 => {
            let (x, q) = read_u16_at(b, p)?;
            Ok((GgufKvValue::Float16(x), q))
        },
        GgufValueType::Uint8 => {
            let (x, q) = read_u8_at(b, p)?;
            Ok((GgufKvValue::Uint8(x), q))
        },
        _ => Err(GgufError::InvalidValueType(value_type.declaration_index())),
    }
}

/// Read a single array element (shared across all GGUF versions).
fn read_kv_array_element(
    b: &[u8],
    p: usize,
    elem_type: GgufValueType,
    elem_type_raw: u32,
    string_width: IntWidth,
) -> (r: Result<(GgufKvValue, usize), GgufError>)
    requires
        p <= b@.len(),
    ensures
        agrees(r, take_array_elem(b@, p as int, elem_type, elem_type_raw, string_width)),
        r matches Ok((_, q)) ==> q <= b@.len(),
{
    match elem_type {
        GgufValueType::String => {
            let (s, q) = read_string(b, p, string_width)?;
            Ok((GgufKvValue::String(s), q))
        },
        GgufValueType::Array | GgufValueType::Int8Array | GgufValueType::Uint8Array
        | GgufValueType::Float64 => Err(GgufError::UnsupportedArrayElementType(elem_type_raw)),
        _ => read_kv_scalar(b, p, elem_type),
    }
}

/// Once a run of elements fails, every longer run fails the same way.
proof fn lemma_elems_fail(
    b: Seq<u8>,
    p: int,
    et: GgufValueType,
    raw: u32,
    sw: IntWidth,
    i: nat,
    n: nat,
)
    requires
        i <= n,
        take_array_elems(b, p, et, raw, sw, i) is Err,
    ensures
        take_array_elems(b, p, et, raw, sw, n) == take_array_elems(b, p, et, raw, sw, i),
    decreases n,
{
    if n > i {
        lemma_elems_fail(b, p, et, raw, sw, i, (n - 1) as nat);
    }
}

/// Generic KV value reader, parameterized by wire format integer widths.
fn read_kv_value_generic(
    b: &[u8],
    p: usize,
    value_type: GgufValueType,
    string_width: IntWidth,
    array_count_width: IntWidth,
) -> (r: Result<(GgufKvValue, usize), GgufError>)
    requires
        p <= b@.len(),
    ensures
        agrees(r, take_kv_value(b@, p as int, value_type, string_width, array_count_width)),
        r matches Ok((_, q)) ==> q <= b@.len(),
{
    match value_type {
        GgufValueType::String => {
            let (s, q) = read_string(b, p, string_width)?;
            Ok((GgufKvValue::String(s), q))
        },
        GgufValueType::Array => {
            let (elem_type_raw, q) = read_u32_at(b, p)?;
            let elem_type = match GgufValueType::from_u32(elem_type_raw) {
                Some(t) => t,
                None => {
                    return Err(GgufError::InvalidValueType(elem_type_raw));
                },
            };
            let (elem_count, start) = read_int(b, q, array_count_width)?;
            if elem_count > GGUF_MAX_COUNT {
                return Err(GgufError::ArrayLengthOutOfRange(elem_count));
            }
            let mut elements: Vec<GgufKvValue> = Vec::new();
            let mut pos = start;
            let mut i: u64 = 0;
            assert(values_view(elements@) =~= Seq::<KvValueView>::empty());
            while i < elem_count
                invariant
                    i <= elem_count,
                    value_type == GgufValueType::Array,
                    take_u32(b@, p as int) == Ok::<(u32, int), ParseFault>((elem_type_raw, q as int)),
                    value_type_of_id(elem_type_raw) == Some(elem_type),
                    take_int(b@, q as int, array_count_width) == Ok::<(u64, int), ParseFault>(
                        (elem_count, start as int),
                    ),
                    elem_count <= GGUF_MAX_COUNT,
                    pos <= b@.len(),
                    take_array_elems(b@, start as int, elem_type, elem_type_raw, string_width, i as nat)
                        == Ok::<(Seq<KvValueView>, int), ParseFault>((values_view(elements@), pos as int)),
                decreases elem_count - i,
            {
                match read_kv_array_element(b, pos, elem_type, elem_type_raw, string_width) {
                    Ok((e, next)) => {
                        proof {
                            assert(values_view(elements@.push(e)) =~= values_view(elements@).push(e@));
                        }
                        elements.push(e);
                        pos = next;
                    },
                    Err(err) => {
                        proof {
                            lemma_elems_fail(
                                b@,
                                start as int,
                                elem_type,
                                elem_type_raw,
                                string_width,
                                (i + 1) as nat,
                                elem_count as nat,
                            );
                        }
                        return Err(err);
                    },
                }
                i = i + 1;
            }
            let v = GgufKvValue::Array(elements);
            assert(v@->Array_0 =~= values_view(elements@));
            Ok((v, pos))
        },
        _ => read_kv_scalar(b, p, value_type),
    }
}

/// Read a KV pair using the wire format to determine field widths.
fn read_kv_pair(b: &[u8], p: usize, format: &GgufWireFormat) -> (r: Result<
    (GgufKvPair, usize),
    GgufError,
>)
    requires
        p <= b@.len(),
    ensures
        agrees(r, take_kv_pair(b@, p as int, *format)),
        r matches Ok((_, q)) ==> q <= b@.len(),
{
    let (key_len, q) = read_int(b, p, format.key_width)?;
    if key_len == 0 || key_len > GGUF_MAX_KEY_LENGTH {
        return Err(GgufError::KeyLengthOutOfRange(key_len));
    }
    let (key, q) = read_text(b, q, key_len)?;
    let (value_type_raw, q) = read_u32_at(b, q)?;
    let value_type = match GgufValueType::from_u32(value_type_raw) {
        Some(t) => t,
        None => {
            return Err(GgufError::InvalidValueType(value_type_raw));
        },
    };
    let (value, q) = read_kv_value_generic(
        b,
        q,
        value_type,
        format.string_width,
        format.array_count_width,
    )?;
    Ok((GgufKvPair { key, value_type, value }, q))
}

/// Once a run of dimensions fails, every longer run fails the same way.
proof fn lemma_u64s_fail(b: Seq<u8>, p: int, i: nat, n: nat)
    requires
        i <= n,
        take_u64s(b, p, i) is Err,
    ensures
        take_u64s(b, p, n) == take_u64s(b, p, i),
    decreases n,
{
    if n > i {
        lemma_u64s_fail(b, p, i, (n - 1) as nat);
    }
}

/// Read tensor info using the wire format to determine name length width.
fn read_tensor_info(b: &[u8], p: usize, format: &GgufWireFormat) -> (r: Result<
    (GgufTensorInfo, usize),
    GgufError,
>)
    requires
        p <= b@.len(),
    ensures
        agrees(r, take_tensor(b@, p as int, *format)),
        r matches Ok((_, q)) ==> q <= b@.len(),
{
    let (name_len, q) = read_int(b, p, format.tensor_name_width)?;
    if name_len == 0 || name_len > GGUF_MAX_TENSOR_NAME_LENGTH {
        return Err(GgufError::TensorNameLengthOutOfRange(name_len));
    }
    let ghost q1 = q;
    let (name, q) = read_text(b, q, name_len)?;
    // n_dims, shape, dtype, offset are always u32/u64 across all versions
    let (n_dims, start) = read_u32_at(b, q)?;
    let mut shape: Vec<u64> = Vec::new();
    let mut pos = start;
    let mut i: u32 = 0;
    let ghost q0 = q;
    assert(shape@ =~= Seq::<u64>::empty());
    while i < n_dims
        invariant
            i <= n_dims,
            take_u32(b@, q0 as int) == Ok::<(u32, int), ParseFault>((n_dims, start as int)),
            take_int(b@, p as int, format.tensor_name_width) == Ok::<(u64, int), ParseFault>(
                (name_len, q1 as int),
            ),
            !(name_len == 0 || name_len > GGUF_MAX_TENSOR_NAME_LENGTH),
            take_text(b@, q1 as int, name_len) == Ok::<(Seq<char>, int), ParseFault>(
                (name@, q0 as int),
            ),
            pos <= b@.len(),
            take_u64s(b@, start as int, i as nat) == Ok::<(Seq<u64>, int), ParseFault>(
                (shape@, pos as int),
            ),
        decreases n_dims - i,
    {
        match read_u64_at(b, pos) {
            Ok((d, next)) => {
                shape.push(d);
                pos = next;
            },
            Err(err) => {
                proof {
                    lemma_u64s_fail(b@, start as int, (i + 1) as nat, n_dims as nat);
                }
                return Err(err);
            },
        }
        i = i + 1;
    }
    let (dtype, q) = read_u32_at(b, pos)?;
    let (offset, q) = read_u64_at(b, q)?;
    Ok((GgufTensorInfo { name, shape, offset, dtype }, q))
}

/// The data alignment named by `general.alignment` (32 when the key is absent
/// or not an integer), checked to be a nonzero power of two of at most 64 KiB.
fn read_alignment_from_kv(kv_pairs: &[GgufKvPair]) -> (r: Result<u64, GgufError>)
    ensures
        match alignment_of(kv_pairs_view(kv_pairs@)) {
            Ok(a) => r matches Ok(x) && x == a,
            Err(f) => r matches Err(e) && reports(e, f),
        },
{
    let alignment = match kv_index(kv_pairs, "general.alignment") {
        Some(i) => match kv_pairs[i].value.as_u64() {
            Some(a) => a,
            None => GGUF_DEFAULT_ALIGNMENT,
        },
        None => GGUF_DEFAULT_ALIGNMENT,
    };
    assert(alignment == requested_alignment(kv_pairs_view(kv_pairs@)));
    // Validate alignment is a non-zero power of two (per llama.cpp spec)
    if alignment == 0 {
        return Err(GgufError::AlignmentOutOfRange(0));
    }
    if (alignment & (alignment - 1)) != 0 {
        return Err(GgufError::AlignmentOutOfRange(alignment as u32));
    }
    // Real GGUF files use 32, 256, or rarely 4096 bytes
    if alignment > GGUF_MAX_ALIGNMENT {
        return Err(GgufError::AlignmentOutOfRange(alignment as u32));
    }
    Ok(alignment)
}

/// Where the data section starts: the magic, version and counts (16 bytes
/// with u32 counts, 24 with u64 counts), plus the serialized pairs and tensor descriptors in the widths of `format`
/// (capped at `u64::MAX`), rounded up to `data_alignment` when that is given
/// and nonzero.
pub fn compute_data_section_start(
    format: &GgufWireFormat,
    kv_pairs: &[GgufKvPair],
    tensors: &[GgufTensorInfo],
    data_alignment: Option<u64>,
) -> (r: u64)
    requires
        forall|i: int|
            0 <= i < kv_pairs@.len() ==> (#[trigger] kv_pairs_view(kv_pairs@)[i]).wire_size(*format)
                <= usize::MAX,
        forall|i: int|
            0 <= i < tensors@.len() ==> (#[trigger] tensors_view(tensors@)[i]).wire_size(*format)
                <= usize::MAX,
        kv_section_size(kv_pairs_view(kv_pairs@), *format) <= u64::MAX,
        tensor_section_size(tensors_view(tensors@), *format) <= u64::MAX,
        data_section_start_of(
            *format,
            kv_pairs_view(kv_pairs@),
            tensors_view(tensors@),
            data_alignment,
        ) <= u64::MAX,
    ensures
        r == data_section_start_of(
            *format,
            kv_pairs_view(kv_pairs@),
            tensors_view(tensors@),
            data_alignment,
        ),
        ({
            let end = formula_header_size(*format, kv_pairs_view(kv_pairs@), tensors_view(tensors@));
            match data_alignment {
                Some(a) => a > 0 ==> r % a == 0 && end <= r < end + a,
                None => r == end,
            }
        }),
        data_alignment == Some(0u64) ==> r == formula_header_size(
            *format,
            kv_pairs_view(kv_pairs@),
            tensors_view(tensors@),
        ),
{
    proof {
        if let Some(a) = data_alignment {
            if a > 0 {
                crate::laws::lemma_data_section_start_aligned(
                    *format,
                    kv_pairs_view(kv_pairs@),
                    tensors_view(tensors@),
                    a,
                );
            }
        }
    }
    // Header base: magic (4) + version (4) + tensor_count + kv_count
    let count_bytes: u64 = match format.header_count_width {
        IntWidth::U32 => 4,
        IntWidth::U64 => 8,
    };
    let base: u64 = 4 + 4 + 2 * count_bytes;
    assert(base == header_base(*format));
    let ghost kvs = kv_pairs_view(kv_pairs@);
    let ghost ts = tensors_view(tensors@);
    let mut kv_size: u64 = 0;
    let mut i: usize = 0;
    assert(kvs.take(0) =~= Seq::<KvPairView>::empty());
    while i < kv_pairs.len()
        invariant
            i <= kv_pairs.len(),
            kvs == kv_pairs_view(kv_pairs@),
            forall|k: int| 0 <= k < kv_pairs@.len() ==> (#[trigger] kvs[k]).wire_size(*format) <= usize::MAX,
            kv_section_size(kvs, *format) <= u64::MAX,
            kv_size == kv_section_size(kvs.take(i as int), *format),
        decreases kv_pairs.len() - i,
    {
        proof {
            lemma_kv_section_prefix(kvs, *format, i + 1);
            assert(kvs[i as int] == kv_pairs@[i as int]@);
            assert(kvs.take(i + 1).drop_last() =~= kvs.take(i as int));
        }
        kv_size = kv_size + kv_pairs[i].raw_byte_size_for_format(format) as u64;
        i = i + 1;
    }
    assert(kvs.take(kv_pairs.len() as int) =~= kvs);
    let mut tensor_size: u64 = 0;
    let mut j: usize = 0;
    assert(ts.take(0) =~= Seq::<TensorView>::empty());
    while j < tensors.len()
        invariant
            j <= tensors.len(),
            ts == tensors_view(tensors@),
            forall|k: int| 0 <= k < tensors@.len() ==> (#[trigger] ts[k]).wire_size(*format) <= usize::MAX,
            tensor_section_size(ts, *format) <= u64::MAX,
            tensor_size == tensor_section_size(ts.take(j as int), *format),
        decreases tensors.len() - j,
    {
        proof {
            lemma_tensor_section_prefix(ts, *format, j + 1);
            assert(ts[j as int] == tensors@[j as int]@);
            assert(ts.take(j + 1).drop_last() =~= ts.take(j as int));
        }
        tensor_size = tensor_size + tensors[j].raw_byte_size_for_format(format) as u64;
        j = j + 1;
    }
    assert(ts.take(tensors.len() as int) =~= ts);
    let mut data_section = match base.checked_add(kv_size) {
        Some(v) => match v.checked_add(tensor_size) {
            Some(w) => w,
            None => u64::MAX,
        },
        None => u64::MAX,
    };
    // Apply alignment padding (all versions)
    if let Some(alignment) = data_alignment {
        if alignment > 0 {
            let remainder = data_section % alignment;
            if remainder != 0 {
                data_section = data_section + (alignment - remainder);
            }
        }
    }
    data_section
}

/// Once a run of pairs fails, every longer run fails the same way.
proof fn lemma_kv_pairs_fail(b: Seq<u8>, p: int, f: GgufWireFormat, i: nat, n: nat)
    requires
        i <= n,
        take_kv_pairs(b, p, f, i) is Err,
    ensures
        take_kv_pairs(b, p, f, n) == take_kv_pairs(b, p, f, i),
    decreases n,
{
    if n > i {
        lemma_kv_pairs_fail(b, p, f, i, (n - 1) as nat);
    }
}

/// Once a run of tensor descriptors fails, every longer run fails the same way.
proof fn lemma_tensors_fail(b: Seq<u8>, p: int, f: GgufWireFormat, i: nat, n: nat)
    requires
        i <= n,
        take_tensors(b, p, f, i) is Err,
    ensures
        take_tensors(b, p, f, n) == take_tensors(b, p, f, i),
    decreases n,
{
    if n > i {
        lemma_tensors_fail(b, p, f, i, (n - 1) as nat);
    }
}

/// Read `count` KV pairs in a row.
fn read_kv_pairs(b: &[u8], p: usize, format: &GgufWireFormat, count: u64) -> (r: Result<
    (Vec<GgufKvPair>, usize),
    GgufError,
>)
    requires
        p <= b@.len(),
    ensures
        match take_kv_pairs(b@, p as int, *format, count as nat) {
            Ok((kvs, q)) => r matches Ok((v, x)) && kv_pairs_view(v@) == kvs && x == q,
            Err(f) => r matches Err(e) && reports(e, f),
        },
        r matches Ok((_, q)) ==> q <= b@.len(),
{
    let mut kv_pairs: Vec<GgufKvPair> = Vec::new();
    let mut pos = p;
    let mut i: u64 = 0;
    assert(kv_pairs_view(kv_pairs@) =~= Seq::<KvPairView>::empty());
    while i < count
        invariant
            i <= count,
            pos <= b@.len(),
            take_kv_pairs(b@, p as int, *format, i as nat) == Ok::<(Seq<KvPairView>, int), ParseFault>(
                (kv_pairs_view(kv_pairs@), pos as int),
            ),
        decreases count - i,
    {
        match read_kv_pair(b, pos, format) {
            Ok((kv, next)) => {
                proof {
                    assert(kv_pairs_view(kv_pairs@.push(kv)) =~= kv_pairs_view(kv_pairs@).push(kv@));
                }
                kv_pairs.push(kv);
                pos = next;
            },
            Err(err) => {
                proof {
                    lemma_kv_pairs_fail(b@, p as int, *format, (i + 1) as nat, count as nat);
                }
                return Err(err);
            },
        }
        i = i + 1;
    }
    Ok((kv_pairs, pos))
}

/// Read `count` tensor descriptors in a row.
fn read_tensor_infos(b: &[u8], p: usize, format: &GgufWireFormat, count: u64) -> (r: Result<
    (Vec<GgufTensorInfo>, usize),
    GgufError,
>)
    requires
        p <= b@.len(),
    ensures
        match take_tensors(b@, p as int, *format, count as nat) {
            Ok((ts, q)) => r matches Ok((v, x)) && tensors_view(v@) == ts && x == q,
            Err(f) => r matches Err(e) && reports(e, f),
        },
        r matches Ok((_, q)) ==> q <= b@.len(),
{
    let mut tensors: Vec<GgufTensorInfo> = Vec::new();
    let mut pos = p;
    let mut i: u64 = 0;
    assert(tensors_view(tensors@) =~= Seq::<TensorView>::empty());
    while i < count
        invariant
            i <= count,
            pos <= b@.len(),
            take_tensors(b@, p as int, *format, i as nat) == Ok::<(Seq<TensorView>, int), ParseFault>(
                (tensors_view(tensors@), pos as int),
            ),
        decreases count - i,
    {
        match read_tensor_info(b, pos, format) {
            Ok((t, next)) => {
                proof {
                    assert(tensors_view(tensors@.push(t)) =~= tensors_view(tensors@).push(t@));
                }
                tensors.push(t);
                pos = next;
            },
            Err(err) => {
                proof {
                    lemma_tensors_fail(b@, p as int, *format, (i + 1) as nat, count as nat);
                }
                return Err(err);
            },
        }
        i = i + 1;
    }
    Ok((tensors, pos))
}

/// `end` rounded up to a multiple of `alignment`, saturating at `u64::MAX`.
fn data_start_at(end: usize, alignment: u64) -> (r: u64)
    requires
        alignment > 0,
    ensures
        r == data_start_after(end as int, alignment),
{
    let e = end as u64;
    let remainder = e % alignment;
    if remainder == 0 {
        e
    } else {
        match e.checked_add(alignment - remainder) {
            Some(v) => v,
            None => u64::MAX,
        }
    }
}

/// The rest of a header: tensor count, pair count, pairs, tensor
/// descriptors.
fn parse_rest_at(b: &[u8], q: usize, version: u32, format: &GgufWireFormat) -> (r: Result<
    (GgufHeader, usize),
    GgufError,
>)
    requires
        q <= b@.len(),
    ensures
        match parse_rest(b@, q as int, version, *format) {
            Ok(h) => r matches Ok((x, e)) && x@ == h && e == rest_end(b@, q as int, *format)
                && e <= b@.len(),
            Err(f) => r matches Err(e) && reports(e, f),
        },
{
    let (tensor_count, r) = read_int(b, q, format.header_count_width)?;
    let (kv_count, s) = read_int(b, r, format.header_count_width)?;
    if kv_count > GGUF_MAX_COUNT || tensor_count > GGUF_MAX_COUNT {
        return Err(GgufError::InvalidMetadata(msg_count_limit(kv_count, tensor_count)));
    }
    let (kv_pairs, t) = read_kv_pairs(b, s, format, kv_count)?;
    let (tensors, end) = read_tensor_infos(b, t, format, tensor_count)?;
    let alignment = read_alignment_from_kv(kv_pairs.as_slice())?;
    let data_section_start = data_start_at(end, alignment);
    Ok(
        (
            GgufHeader {
                version,
                kv_pairs,
                tensors,
                data_alignment: Some(alignment),
                data_section_start,
            },
            end,
        ),
    )
}

/// Parse a GGUF header from the start of `bytes`, and give the position where
/// it ends: the bytes before that position are the whole header.
///
/// See [`parse_gguf_bytes`] for what a header holds and when it is refused.
pub fn parse_gguf_prefix(bytes: &[u8]) -> (r: Result<(GgufHeader, usize), GgufError>)
    ensures
        match parse_header(bytes@) {
            Ok(h) => r matches Ok((x, end)) && x@ == h && end == header_end(bytes@) && end <= bytes@.len(),
            Err(f) => r matches Err(e) && reports(e, f),
        },
        r matches Ok((x, end)) ==> x.data_alignment matches Some(a) && x.data_section_start
            == data_start_after(end as int, a),
{
    let b = bytes;
    // Check magic number - GGUF files are always little-endian
    if b.len() < 4 {
        return Err(GgufError::Binary(unexpected_eof()));
    }
    let magic = slice_subrange(b, 0, 4);
    assert(take_bytes(b@, 0, 4) == Ok::<(Seq<u8>, int), ParseFault>((magic@, 4)));
    // "GGUF"
    if !(magic[0] == 0x47 && magic[1] == 0x47 && magic[2] == 0x55 && magic[3] == 0x46) {
        assert(magic@ != gguf_magic()) by {
            if magic@ == gguf_magic() {
                assert(magic@[0] == gguf_magic()[0]);
                assert(magic@[1] == gguf_magic()[1]);
                assert(magic@[2] == gguf_magic()[2]);
                assert(magic@[3] == gguf_magic()[3]);
            }
        }
        return Err(GgufError::InvalidMagic(lossy_string(magic)));
    }
    assert(magic@ =~= gguf_magic());
    let (version, q) = read_u32_at(b, 4)?;
    let format = match GgufVersion::from_u32(version) {
        Some(v) => v.wire_format(),
        None => {
            return Err(GgufError::UnsupportedVersion(version));
        },
    };
    // Every version: tensor count, then pair count, in the version's width
    parse_rest_at(b, q, version, &format)
}

/// Parse a GGUF header from the bytes of a file (the header is read from the
/// start; bytes after it are not looked at).
///
/// The magic must be `GGUF` and the version 1, 2 or 3. The header then
/// holds the tensor count and the pair count (u32 in v1, u64 after), then
/// the pairs and the tensor descriptors, with the field widths of its
/// version. Neither count, nor any array's element count, may exceed
/// 10,000,000. Keys and tensor names hold 1 to 1 MiB of UTF-8. The alignment
/// comes from `general.alignment` (default 32) and must be a power of two of
/// at most 64 KiB. The data section starts at the first multiple of the
/// alignment at or after the end of the header.
pub fn parse_gguf_bytes(bytes: &[u8]) -> (r: Result<GgufHeader, GgufError>)
    ensures
        match parse_header(bytes@) {
            Ok(h) => r matches Ok(x) && x@ == h,
            Err(f) => r matches Err(e) && reports(e, f),
        },
        r matches Ok(x) ==> x.data_alignment matches Some(a) && x.data_section_start
            == data_start_after(header_end(bytes@), a),
{
    match parse_gguf_prefix(bytes) {
        Ok((header, _)) => Ok(header),
        Err(e) => Err(e),
    }
}

/// The data size of a one-dimensional tensor of `element_count` elements of
/// dtype `dtype`, as [`GgufTensorInfo::stored_size`] gives it; 0 where that
/// fails.
pub open spec fn tensor_bytes(dtype: u32, element_count: u64) -> u64 {
    let t = TensorView { name: Seq::empty(), shape: seq![element_count], offset: 0, dtype };
    match t.stored_bytes() {
        Some(n) => if n <= u64::MAX {
            n as u64
        } else {
            0
        },
        None => 0,
    }
}

/// The number of bytes that `element_count` elements of `dtype` take on
/// disk, or 0 where the dtype has no block layout, the count is not a whole
/// number of blocks, or the size exceeds `u64`.
pub fn tensor_bytes_for_dtype(dtype: u32, element_count: u64) -> (r: usize)
    ensures
        r == tensor_bytes(dtype, element_count) as usize,
{
    // Delegate to stored_size which has correct per-type calculations
    let info = GgufTensorInfo {
        name: String::new(),
        shape: vec![element_count],
        offset: 0,
        dtype,
    };
    proof {
        let s = info.shape@;
        assert(s =~= seq![element_count]);
        assert(s.take(0) =~= Seq::<u64>::empty());
        assert(s.take(1) =~= s);
        assert(s.drop_last() =~= Seq::<u64>::empty());
        assert(shape_product(s.drop_last()) == 1);
        assert(s.last() == element_count);
        assert(shape_product(s) == shape_product(s.drop_last()) * s.last());
        assert(shape_product(s) == element_count);
        assert(product_fits(s)) by {
            assert forall|i: int| 0 <= i <= s.len() implies #[trigger] shape_product(s.take(i))
                <= u64::MAX by {
                if i == 0 {
                } else {
                    assert(s.take(i) =~= s);
                }
            }
        }
        assert(info@.shape =~= seq![element_count]);
        assert(info@.name =~= Seq::<char>::empty());
    }
    let size = match info.stored_size() {
        Ok(n) => n,
        Err(_) => 0,
    };
    size as usize
}

/// Where a tensor's data starts in its file: the data section start plus the
/// tensor's offset.
pub open spec fn tensor_data_at(offset: u64, data_section_start: u64) -> int {
    data_section_start + offset
}

/// Read one tensor's data out of `file`, the bytes of a GGUF file: the
/// [`tensor_bytes_for_dtype`] bytes from the data section start plus the
/// tensor's offset. A file that ends before them is an unexpected end of
/// file.
pub fn extract_tensor_bytes(
    file: &[u8],
    dtype: u32,
    element_count: u64,
    offset: u64,
    data_section_start: u64,
) -> (r: Result<Vec<u8>, GgufError>)
    ensures
        ({
            let start = tensor_data_at(offset, data_section_start);
            let n = tensor_bytes(dtype, element_count) as usize as int;
            &&& r is Ok <==> start + n <= file@.len()
            &&& r matches Ok(v) ==> v@ == file@.subrange(start, start + n)
            &&& r matches Err(e) ==> e is Binary
        }),
{
    let size = tensor_bytes_for_dtype(dtype, element_count);
    let start = match data_section_start.checked_add(offset) {
        Some(x) => x,
        None => {
            let flen = file.len();
            assert(flen as int == file@.len());
            assert(size as int == tensor_bytes(dtype, element_count) as usize as int);
            return Err(GgufError::Binary(unexpected_eof()));
        },
    };
    if start > file.len() as u64 || size > file.len() - start as usize {
        return Err(GgufError::Binary(unexpected_eof()));
    }
    let begin = start as usize;
    Ok(slice_to_vec(slice_subrange(file, begin, begin + size)))
}

/// The same as [`extract_tensor_bytes`].
pub fn extract_tensor_bytes_from(
    file: &[u8],
    dtype: u32,
    element_count: u64,
    offset: u64,
    data_section_start: u64,
) -> (r: Result<Vec<u8>, GgufError>)
    ensures
        ({
            let start = tensor_data_at(offset, data_section_start);
            let n = tensor_bytes(dtype, element_count) as usize as int;
            &&& r is Ok <==> start + n <= file@.len()
            &&& r matches Ok(v) ==> v@ == file@.subrange(start, start + n)
            &&& r matches Err(e) ==> e is Binary
        }),
{
    extract_tensor_bytes(file, dtype, element_count, offset, data_section_start)
}

} // verus!
