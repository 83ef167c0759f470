//! What the writer writes reads back.
//!
//! A header that [`crate::writer::GgufWriter::to_bytes`] lays out in the
//! layout of its version (1, 2 or 3) parses, under the header grammar, to
//! the same version, metadata and tensor descriptors, as long as every value
//! is one that the writer writes and the reader reads; and when the writer
//! aligns as the pairs ask, the data reads back from where the parsed header
//! says it starts.
use crate::grammar::{
    align_up, alignment_of, array_elem_type, emit_elems, emit_header, emit_kv_pair,
    emit_kv_pairs, emit_kv_value, emit_string, emit_tensor, emit_tensors, emit_u64s,
    finish_header, gguf_magic, layout_of, le_bytes_int, parse_header, parse_rest,
    take_array_elem, take_array_elems, take_bytes, take_int, take_kv_pair, take_kv_pairs,
    take_kv_value, take_scalar, take_string, take_tensor, take_tensors, take_text, take_u16,
    take_u32, take_u64, take_u64s, take_u8, GGUF_MAX_COUNT, GGUF_MAX_KEY_LENGTH,
    GGUF_MAX_TENSOR_NAME_LENGTH,
};
use crate::le::{
    le_bytes_u16, le_bytes_u32, le_bytes_u64, lemma_le_u16_round_trip, lemma_le_u32_round_trip,
    lemma_le_u64_round_trip,
};
use crate::types::{
    value_type_of_id, GgufValueType, GgufWireFormat, IntWidth, KvPairView, KvValueView,
    TensorView,
};
use crate::writer::{planned_data_start, writer_image, WriterView};
use vstd::prelude::*;
use vstd::utf8::*;

verus! {

/// The bytes `e` stand in `b` from position `p` on.
pub open spec fn stands_at(b: Seq<u8>, p: int, e: Seq<u8>) -> bool {
    0 <= p && p + e.len() <= b.len() && b.subrange(p, p + e.len()) == e
}

/// Bytes that stand somewhere in a run of bytes as one piece stand there in
/// their two parts.
proof fn lemma_stands_at_split(b: Seq<u8>, p: int, e1: Seq<u8>, e2: Seq<u8>)
    requires
        stands_at(b, p, e1 + e2),
    ensures
        stands_at(b, p, e1),
        stands_at(b, p + e1.len(), e2),
{
    let whole = b.subrange(p, p + e1.len() + e2.len());
    assert forall|i: int| 0 <= i < e1.len() implies b.subrange(p, p + e1.len())[i] == e1[i] by {
        assert(whole[i] == (e1 + e2)[i]);
    }
    assert(b.subrange(p, p + e1.len()) =~= e1);
    assert forall|i: int| 0 <= i < e2.len() implies b.subrange(
        p + e1.len(),
        p + e1.len() + e2.len(),
    )[i] == e2[i] by {
        assert(whole[e1.len() + i] == (e1 + e2)[e1.len() + i]);
    }
    assert(b.subrange(p + e1.len(), p + e1.len() + e2.len()) =~= e2);
}

/// The value types whose values the writer writes as fixed-size scalars.
pub open spec fn scalar_written(vt: GgufValueType) -> bool {
    match vt {
        GgufValueType::Uint8 | GgufValueType::Int8 | GgufValueType::Uint16 | GgufValueType::Int16
        | GgufValueType::Uint32 | GgufValueType::Int32 | GgufValueType::Uint64
        | GgufValueType::Int64 | GgufValueType::Float32 | GgufValueType::Float64
        | GgufValueType::Bool | GgufValueType::Bfloat16 | GgufValueType::Float16 => true,
        _ => false,
    }
}

/// A scalar that reads back as written: anything but a `Bfloat16` whose
/// low 16 bits are set (only the high half is written).
pub open spec fn scalar_exact(v: KvValueView) -> bool {
    v matches KvValueView::Bfloat16(x) ==> x & 0xffffu32 == 0
}

/// The largest number a field of width `w` holds.
pub open spec fn width_max(w: IntWidth) -> int {
    match w {
        IntWidth::U32 => u32::MAX as int,
        IntWidth::U64 => u64::MAX as int,
    }
}

/// A string whose byte length fits a length prefix of width `w`.
pub open spec fn string_fits(s: Seq<char>, w: IntWidth) -> bool {
    encode_utf8(s).len() <= width_max(w)
}

/// An array element that is written as type `et` in the layout `f` and read
/// back as itself.
pub open spec fn element_round_trips(et: GgufValueType, e: KvValueView, f: GgufWireFormat) -> bool {
    &&& e.kind() == et
    &&& (et == GgufValueType::String || (scalar_written(et) && et != GgufValueType::Float64))
    &&& (e matches KvValueView::String(s) ==> string_fits(s, f.string_width))
    &&& scalar_exact(e)
}

/// A value that a pair of type `vt` writes in the layout `f` and reads back
/// as itself: it has that type, the type has a writer and a reader, a string
/// fits its length prefix, and an array holds at most the longest count of
/// elements that all have the first element's type, which is a string or
/// scalar type that arrays may hold (not `Float64`).
pub open spec fn value_round_trips(vt: GgufValueType, v: KvValueView, f: GgufWireFormat) -> bool {
    &&& v.kind() == vt
    &&& match v {
        KvValueView::String(s) => string_fits(s, f.string_width),
        KvValueView::Array(a) => a.len() <= GGUF_MAX_COUNT && forall|i: int|
            0 <= i < a.len() ==> element_round_trips(array_elem_type(a), #[trigger] a[i], f),
        _ => scalar_written(vt) && scalar_exact(v),
    }
}

/// A pair that is written in the layout `f` and read back as itself: its key
/// has between 1 byte and the longest key length, and its value round-trips.
pub open spec fn pair_round_trips(kv: KvPairView, f: GgufWireFormat) -> bool {
    &&& 0 < encode_utf8(kv.key).len() <= GGUF_MAX_KEY_LENGTH
    &&& value_round_trips(kv.value_type, kv.value, f)
}

/// A tensor descriptor that is written and read back as itself: its name
/// has between 1 byte and the longest name length, and its dimension count
/// fits the u32 field.
pub open spec fn tensor_round_trips(t: TensorView) -> bool {
    &&& 0 < encode_utf8(t.name).len() <= GGUF_MAX_TENSOR_NAME_LENGTH
    &&& t.shape.len() <= u32::MAX
}

/// A writer whose header reads back as it was given: version 1, 2 or 3,
/// counts within the reader's limits, every pair (in the version's layout)
/// and descriptor round-trips, and the alignment that the pairs ask for is
/// one that the reader accepts.
pub open spec fn writer_round_trips(w: WriterView) -> bool {
    &&& 1 <= w.version <= 3
    &&& w.kv_pairs.len() <= GGUF_MAX_COUNT
    &&& w.tensors.len() <= GGUF_MAX_COUNT
    &&& forall|i: int|
        0 <= i < w.kv_pairs.len() ==> pair_round_trips(#[trigger] w.kv_pairs[i], layout_of(w.version))
    &&& forall|i: int| 0 <= i < w.tensors.len() ==> tensor_round_trips(#[trigger] w.tensors[i])
    &&& alignment_of(w.kv_pairs) is Ok
}

/// A byte reads back.
proof fn lemma_take_u8_at(b: Seq<u8>, p: int, x: u8)
    requires
        stands_at(b, p, seq![x]),
    ensures
        take_u8(b, p) == Ok::<(u8, int), crate::grammar::ParseFault>((x, p + 1)),
{
    assert(b.subrange(p, p + 1)[0] == b[p]);
}

/// A little-endian `u16` reads back.
proof fn lemma_take_u16_at(b: Seq<u8>, p: int, x: u16)
    requires
        stands_at(b, p, le_bytes_u16(x)),
    ensures
        take_u16(b, p) == Ok::<(u16, int), crate::grammar::ParseFault>((x, p + 2)),
{
    lemma_le_u16_round_trip(x);
}

/// A little-endian `u32` reads back.
proof fn lemma_take_u32_at(b: Seq<u8>, p: int, x: u32)
    requires
        stands_at(b, p, le_bytes_u32(x)),
    ensures
        take_u32(b, p) == Ok::<(u32, int), crate::grammar::ParseFault>((x, p + 4)),
{
    lemma_le_u32_round_trip(x);
}

/// A little-endian `u64` reads back.
proof fn lemma_take_u64_at(b: Seq<u8>, p: int, x: u64)
    requires
        stands_at(b, p, le_bytes_u64(x)),
    ensures
        take_u64(b, p) == Ok::<(u64, int), crate::grammar::ParseFault>((x, p + 8)),
{
    lemma_le_u64_round_trip(x);
}

/// An integer field takes its width.
proof fn lemma_le_int_len(w: IntWidth, n: u64)
    ensures
        le_bytes_int(w, n).len() == w.bytes(),
{
    lemma_le_u32_round_trip(n as u32);
    lemma_le_u64_round_trip(n);
}

/// An integer that fits its field reads back.
proof fn lemma_take_int_at(b: Seq<u8>, p: int, w: IntWidth, n: u64)
    requires
        stands_at(b, p, le_bytes_int(w, n)),
        n <= width_max(w),
    ensures
        take_int(b, p, w) == Ok::<(u64, int), crate::grammar::ParseFault>((n, p + w.bytes())),
{
    match w {
        IntWidth::U32 => {
            lemma_take_u32_at(b, p, n as u32);
        },
        IntWidth::U64 => {
            lemma_take_u64_at(b, p, n);
        },
    }
}

/// A string with its length prefix of width `w` reads back.
proof fn lemma_take_string_at(b: Seq<u8>, p: int, s: Seq<char>, w: IntWidth)
    requires
        stands_at(b, p, emit_string(s, w)),
        string_fits(s, w),
    ensures
        take_string(b, p, w) == Ok::<(Seq<char>, int), crate::grammar::ParseFault>(
            (s, p + emit_string(s, w).len()),
        ),
        emit_string(s, w).len() == w.bytes() + encode_utf8(s).len(),
{
    let bytes = encode_utf8(s);
    lemma_le_int_len(w, bytes.len() as u64);
    lemma_stands_at_split(b, p, le_bytes_int(w, bytes.len() as u64), bytes);
    lemma_take_int_at(b, p, w, bytes.len() as u64);
    encode_utf8_valid_utf8(s);
    encode_utf8_decode_utf8(s);
    assert(take_bytes(b, p + w.bytes(), bytes.len() as u64) == Ok::<
        (Seq<u8>, int),
        crate::grammar::ParseFault,
    >((bytes, p + w.bytes() + bytes.len())));
}

/// A text field with its length prefix of width `w` reads back as text.
proof fn lemma_take_named_at(b: Seq<u8>, p: int, s: Seq<char>, w: IntWidth)
    requires
        stands_at(b, p, emit_string(s, w)),
        encode_utf8(s).len() <= GGUF_MAX_KEY_LENGTH,
    ensures
        take_int(b, p, w) == Ok::<(u64, int), crate::grammar::ParseFault>(
            (encode_utf8(s).len() as u64, p + w.bytes()),
        ),
        take_text(b, p + w.bytes(), encode_utf8(s).len() as u64) == Ok::<
            (Seq<char>, int),
            crate::grammar::ParseFault,
        >((s, p + emit_string(s, w).len())),
        emit_string(s, w).len() == w.bytes() + encode_utf8(s).len(),
{
    let bytes = encode_utf8(s);
    lemma_le_int_len(w, bytes.len() as u64);
    lemma_stands_at_split(b, p, le_bytes_int(w, bytes.len() as u64), bytes);
    lemma_take_int_at(b, p, w, bytes.len() as u64);
    encode_utf8_valid_utf8(s);
    encode_utf8_decode_utf8(s);
    assert(take_bytes(b, p + w.bytes(), bytes.len() as u64) == Ok::<
        (Seq<u8>, int),
        crate::grammar::ParseFault,
    >((bytes, p + w.bytes() + bytes.len())));
}

/// A fixed-size value written as its own type reads back.
proof fn lemma_take_scalar_at(b: Seq<u8>, p: int, vt: GgufValueType, v: KvValueView, f: GgufWireFormat)
    requires
        v.kind() == vt,
        scalar_written(vt),
        scalar_exact(v),
        stands_at(b, p, emit_kv_value(vt, v, f)),
    ensures
        take_scalar(b, p, vt) == Ok::<(KvValueView, int), crate::grammar::ParseFault>(
            (v, p + emit_kv_value(vt, v, f).len()),
        ),
{
    match v {
        KvValueView::Int8(x) => {
            lemma_take_u8_at(b, p, x as u8);
            assert((x as u8) as i8 == x) by (bit_vector);
        },
        KvValueView::Uint16(x) => {
            lemma_take_u16_at(b, p, x);
        },
        KvValueView::Int16(x) => {
            lemma_take_u16_at(b, p, x as u16);
            assert((x as u16) as i16 == x) by (bit_vector);
        },
        KvValueView::Uint32(x) => {
            lemma_take_u32_at(b, p, x);
        },
        KvValueView::Int32(x) => {
            lemma_take_u32_at(b, p, x as u32);
            assert((x as u32) as i32 == x) by (bit_vector);
        },
        KvValueView::Uint64(x) => {
            lemma_take_u64_at(b, p, x);
        },
        KvValueView::Int64(x) => {
            lemma_take_u64_at(b, p, x as u64);
            assert((x as u64) as i64 == x) by (bit_vector);
        },
        KvValueView::Float32(x) => {
            lemma_take_u32_at(b, p, x);
        },
        KvValueView::Float64(x) => {
            lemma_take_u64_at(b, p, x);
        },
        KvValueView::Bool(x) => {
            lemma_take_u8_at(b, p, if x { 1u8 } else { 0u8 });
        },
        KvValueView::Uint8(x) => {
            lemma_take_u8_at(b, p, x);
        },
        KvValueView::Float16(x) => {
            lemma_take_u16_at(b, p, x);
        },
        KvValueView::Bfloat16(x) => {
            let y = (x >> 16u32) as u16;
            lemma_take_u16_at(b, p, y);
            assert(x & 0xffffu32 == 0 ==> (((((x >> 16u32) as u16) as u32) << 16u32) as u32) == x)
                by (bit_vector);
        },
        _ => {},
    }
}

/// An array element written as the array's element type reads back.
proof fn lemma_take_array_elem_at(
    b: Seq<u8>,
    p: int,
    et: GgufValueType,
    raw: u32,
    e: KvValueView,
    f: GgufWireFormat,
)
    requires
        element_round_trips(et, e, f),
        stands_at(b, p, emit_kv_value(et, e, f)),
    ensures
        take_array_elem(b, p, et, raw, f.string_width) == Ok::<
            (KvValueView, int),
            crate::grammar::ParseFault,
        >((e, p + emit_kv_value(et, e, f).len())),
{
    if et == GgufValueType::String {
        let s = e->String_0;
        lemma_take_string_at(b, p, s, f.string_width);
    } else {
        lemma_take_scalar_at(b, p, et, e, f);
    }
}

/// The elements of an array, each written as the element type, read back.
proof fn lemma_take_array_elems_at(
    b: Seq<u8>,
    p: int,
    et: GgufValueType,
    raw: u32,
    a: Seq<KvValueView>,
    f: GgufWireFormat,
)
    requires
        forall|i: int| 0 <= i < a.len() ==> element_round_trips(et, #[trigger] a[i], f),
        stands_at(b, p, emit_elems(et, a, f)),
    ensures
        take_array_elems(b, p, et, raw, f.string_width, a.len()) == Ok::<
            (Seq<KvValueView>, int),
            crate::grammar::ParseFault,
        >((a, p + emit_elems(et, a, f).len())),
    decreases a.len(),
{
    if a.len() > 0 {
        let init = a.drop_last();
        lemma_stands_at_split(b, p, emit_elems(et, init, f), emit_kv_value(et, a.last(), f));
        assert forall|i: int| 0 <= i < init.len() implies element_round_trips(
            et,
            #[trigger] init[i],
            f,
        ) by {
            assert(init[i] == a[i]);
        }
        lemma_take_array_elems_at(b, p, et, raw, init, f);
        assert(element_round_trips(et, a[a.len() - 1], f));
        lemma_take_array_elem_at(b, p + emit_elems(et, init, f).len(), et, raw, a.last(), f);
        assert(init.push(a.last()) =~= a);
    } else {
        assert(a =~= Seq::<KvValueView>::empty());
    }
}

/// A value that round-trips reads back.
proof fn lemma_take_kv_value_at(b: Seq<u8>, p: int, vt: GgufValueType, v: KvValueView, f: GgufWireFormat)
    requires
        value_round_trips(vt, v, f),
        stands_at(b, p, emit_kv_value(vt, v, f)),
    ensures
        take_kv_value(b, p, vt, f.string_width, f.array_count_width) == Ok::<
            (KvValueView, int),
            crate::grammar::ParseFault,
        >((v, p + emit_kv_value(vt, v, f).len())),
{
    match v {
        KvValueView::String(s) => {
            lemma_take_string_at(b, p, s, f.string_width);
        },
        KvValueView::Array(a) => {
            let et = array_elem_type(a);
            let aw = f.array_count_width;
            let head = le_bytes_u32(et.id());
            let count = le_bytes_int(aw, a.len() as u64);
            lemma_le_u32_round_trip(et.id());
            lemma_le_int_len(aw, a.len() as u64);
            lemma_stands_at_split(b, p, head + count, emit_elems(et, a, f));
            lemma_stands_at_split(b, p, head, count);
            lemma_take_u32_at(b, p, et.id());
            lemma_take_int_at(b, p + 4, aw, a.len() as u64);
            assert(value_type_of_id(et.id()) == Some(et));
            lemma_take_array_elems_at(b, p + 4 + aw.bytes(), et, et.id(), a, f);
        },
        _ => {
            lemma_take_scalar_at(b, p, vt, v, f);
        },
    }
}

/// A pair that round-trips reads back.
proof fn lemma_take_kv_pair_at(b: Seq<u8>, p: int, kv: KvPairView, f: GgufWireFormat)
    requires
        pair_round_trips(kv, f),
        stands_at(b, p, emit_kv_pair(kv, f)),
    ensures
        take_kv_pair(b, p, f) == Ok::<(KvPairView, int), crate::grammar::ParseFault>(
            (kv, p + emit_kv_pair(kv, f).len()),
        ),
{
    let key = emit_string(kv.key, f.key_width);
    let tag = le_bytes_u32(kv.value_type.id());
    let val = emit_kv_value(kv.value_type, kv.value, f);
    lemma_le_u32_round_trip(kv.value_type.id());
    lemma_stands_at_split(b, p, key + tag, val);
    lemma_stands_at_split(b, p, key, tag);
    lemma_take_named_at(b, p, kv.key, f.key_width);
    lemma_take_u32_at(b, p + key.len(), kv.value_type.id());
    assert(value_type_of_id(kv.value_type.id()) == Some(kv.value_type));
    lemma_take_kv_value_at(b, p + key.len() + 4, kv.value_type, kv.value, f);
}

/// A run of pairs that round-trip reads back.
#[verifier::rlimit(30)]
proof fn lemma_take_kv_pairs_at(b: Seq<u8>, p: int, kvs: Seq<KvPairView>, f: GgufWireFormat)
    requires
        forall|i: int| 0 <= i < kvs.len() ==> pair_round_trips(#[trigger] kvs[i], f),
        stands_at(b, p, emit_kv_pairs(kvs, f)),
    ensures
        take_kv_pairs(b, p, f, kvs.len()) == Ok::<
            (Seq<KvPairView>, int),
            crate::grammar::ParseFault,
        >((kvs, p + emit_kv_pairs(kvs, f).len())),
    decreases kvs.len(),
{
    if kvs.len() > 0 {
        let init = kvs.drop_last();
        lemma_stands_at_split(b, p, emit_kv_pairs(init, f), emit_kv_pair(kvs.last(), f));
        assert forall|i: int| 0 <= i < init.len() implies pair_round_trips(#[trigger] init[i], f) by {
            assert(init[i] == kvs[i]);
        }
        lemma_take_kv_pairs_at(b, p, init, f);
        assert(pair_round_trips(kvs[kvs.len() - 1], f));
        lemma_take_kv_pair_at(b, p + emit_kv_pairs(init, f).len(), kvs.last(), f);
        assert(init.push(kvs.last()) =~= kvs);
    } else {
        assert(kvs =~= Seq::<KvPairView>::empty());
    }
}

/// A run of dimensions reads back.
proof fn lemma_take_u64s_at(b: Seq<u8>, p: int, s: Seq<u64>)
    requires
        stands_at(b, p, emit_u64s(s)),
    ensures
        take_u64s(b, p, s.len()) == Ok::<(Seq<u64>, int), crate::grammar::ParseFault>(
            (s, p + emit_u64s(s).len()),
        ),
    decreases s.len(),
{
    if s.len() > 0 {
        let init = s.drop_last();
        lemma_stands_at_split(b, p, emit_u64s(init), le_bytes_u64(s.last()));
        lemma_take_u64s_at(b, p, init);
        lemma_le_u64_round_trip(s.last());
        lemma_take_u64_at(b, p + emit_u64s(init).len(), s.last());
        assert(init.push(s.last()) =~= s);
    } else {
        assert(s =~= Seq::<u64>::empty());
    }
}

/// A tensor descriptor that round-trips reads back.
proof fn lemma_take_tensor_at(b: Seq<u8>, p: int, t: TensorView, f: GgufWireFormat)
    requires
        tensor_round_trips(t),
        stands_at(b, p, emit_tensor(t, f)),
    ensures
        take_tensor(b, p, f) == Ok::<(TensorView, int), crate::grammar::ParseFault>(
            (t, p + emit_tensor(t, f).len()),
        ),
{
    let name = emit_string(t.name, f.tensor_name_width);
    let nd = le_bytes_u32(t.shape.len() as u32);
    let dims = emit_u64s(t.shape);
    let dt = le_bytes_u32(t.dtype);
    let off = le_bytes_u64(t.offset);
    lemma_le_u32_round_trip(t.shape.len() as u32);
    lemma_le_u32_round_trip(t.dtype);
    lemma_le_u64_round_trip(t.offset);
    lemma_stands_at_split(b, p, name + nd + dims + dt, off);
    lemma_stands_at_split(b, p, name + nd + dims, dt);
    lemma_stands_at_split(b, p, name + nd, dims);
    lemma_stands_at_split(b, p, name, nd);
    lemma_take_named_at(b, p, t.name, f.tensor_name_width);
    let q = p + name.len();
    lemma_take_u32_at(b, q, t.shape.len() as u32);
    assert((t.shape.len() as u32) as nat == t.shape.len());
    lemma_take_u64s_at(b, q + 4, t.shape);
    lemma_take_u32_at(b, q + 4 + dims.len(), t.dtype);
    lemma_take_u64_at(b, q + 4 + dims.len() + 4, t.offset);
}

/// A run of tensor descriptors that round-trip reads back.
proof fn lemma_take_tensors_at(b: Seq<u8>, p: int, ts: Seq<TensorView>, f: GgufWireFormat)
    requires
        forall|i: int| 0 <= i < ts.len() ==> tensor_round_trips(#[trigger] ts[i]),
        stands_at(b, p, emit_tensors(ts, f)),
    ensures
        take_tensors(b, p, f, ts.len()) == Ok::<
            (Seq<TensorView>, int),
            crate::grammar::ParseFault,
        >((ts, p + emit_tensors(ts, f).len())),
    decreases ts.len(),
{
    if ts.len() > 0 {
        let init = ts.drop_last();
        lemma_stands_at_split(b, p, emit_tensors(init, f), emit_tensor(ts.last(), f));
        assert forall|i: int| 0 <= i < init.len() implies tensor_round_trips(#[trigger] init[i]) by {
            assert(init[i] == ts[i]);
        }
        lemma_take_tensors_at(b, p, init, f);
        assert(tensor_round_trips(ts[ts.len() - 1]));
        lemma_take_tensor_at(b, p + emit_tensors(init, f).len(), ts.last(), f);
        assert(init.push(ts.last()) =~= ts);
    } else {
        assert(ts =~= Seq::<TensorView>::empty());
    }
}

/// The rest of a header, after the magic and the version, reads back.
proof fn lemma_rest_at(b: Seq<u8>, version: u32, kvs: Seq<KvPairView>, ts: Seq<TensorView>)
    requires
        kvs.len() <= GGUF_MAX_COUNT,
        ts.len() <= GGUF_MAX_COUNT,
        forall|i: int| 0 <= i < kvs.len() ==> pair_round_trips(#[trigger] kvs[i], layout_of(version)),
        forall|i: int| 0 <= i < ts.len() ==> tensor_round_trips(#[trigger] ts[i]),
        ({
            let f = layout_of(version);
            let c = f.header_count_width.bytes();
            &&& stands_at(b, 8, le_bytes_int(f.header_count_width, ts.len() as u64))
            &&& stands_at(b, 8 + c, le_bytes_int(f.header_count_width, kvs.len() as u64))
            &&& stands_at(b, 8 + 2 * c, emit_kv_pairs(kvs, f))
            &&& stands_at(b, 8 + 2 * c + emit_kv_pairs(kvs, f).len(), emit_tensors(ts, f))
        }),
    ensures
        ({
            let f = layout_of(version);
            let c = f.header_count_width.bytes();
            parse_rest(b, 8, version, f) == finish_header(
                version,
                kvs,
                ts,
                8 + 2 * c + emit_kv_pairs(kvs, f).len() + emit_tensors(ts, f).len(),
            )
        }),
{
    let f = layout_of(version);
    let c = f.header_count_width.bytes();
    lemma_take_int_at(b, 8, f.header_count_width, ts.len() as u64);
    lemma_take_int_at(b, 8 + c, f.header_count_width, kvs.len() as u64);
    lemma_take_kv_pairs_at(b, 8 + 2 * c, kvs, f);
    lemma_take_tensors_at(b, 8 + 2 * c + emit_kv_pairs(kvs, f).len(), ts, f);
}

/// A header is its fixed fields, then the pairs and the tensor descriptors.
proof fn lemma_header_len(version: u32, kvs: Seq<KvPairView>, ts: Seq<TensorView>)
    ensures
        ({
            let f = layout_of(version);
            emit_header(version, kvs, ts).len() == 8 + 2 * f.header_count_width.bytes()
                + emit_kv_pairs(kvs, f).len() + emit_tensors(ts, f).len()
        }),
{
    let f = layout_of(version);
    lemma_le_u32_round_trip(version);
    lemma_le_int_len(f.header_count_width, ts.len() as u64);
    lemma_le_int_len(f.header_count_width, kvs.len() as u64);
}

/// Where the fields of a written header stand in it.
proof fn lemma_header_fields(version: u32, kvs: Seq<KvPairView>, ts: Seq<TensorView>, rest: Seq<u8>)
    ensures
        ({
            let b = emit_header(version, kvs, ts) + rest;
            let f = layout_of(version);
            let c = f.header_count_width.bytes();
            &&& stands_at(b, 0, gguf_magic())
            &&& stands_at(b, 4, le_bytes_u32(version))
            &&& stands_at(b, 8, le_bytes_int(f.header_count_width, ts.len() as u64))
            &&& stands_at(b, 8 + c, le_bytes_int(f.header_count_width, kvs.len() as u64))
            &&& stands_at(b, 8 + 2 * c, emit_kv_pairs(kvs, f))
            &&& stands_at(b, 8 + 2 * c + emit_kv_pairs(kvs, f).len(), emit_tensors(ts, f))
        }),
{
    let b = emit_header(version, kvs, ts) + rest;
    let f = layout_of(version);
    let m = gguf_magic();
    let v = le_bytes_u32(version);
    let tc = le_bytes_int(f.header_count_width, ts.len() as u64);
    let kc = le_bytes_int(f.header_count_width, kvs.len() as u64);
    let kp = emit_kv_pairs(kvs, f);
    let tp = emit_tensors(ts, f);
    lemma_le_u32_round_trip(version);
    lemma_le_int_len(f.header_count_width, ts.len() as u64);
    lemma_le_int_len(f.header_count_width, kvs.len() as u64);
    assert(b.subrange(0, b.len() as int) =~= b);
    assert(emit_header(version, kvs, ts) == m + v + tc + kc + kp + tp);
    lemma_stands_at_split(b, 0, emit_header(version, kvs, ts), rest);
    lemma_stands_at_split(b, 0, m + v + tc + kc + kp, tp);
    lemma_stands_at_split(b, 0, m + v + tc + kc, kp);
    lemma_stands_at_split(b, 0, m + v + tc, kc);
    lemma_stands_at_split(b, 0, m + v, tc);
    lemma_stands_at_split(b, 0, m, v);
}

/// Bytes that start with the magic and version 1, 2 or 3 parse as a header
/// of that version.
proof fn lemma_parse_header_version(b: Seq<u8>, version: u32)
    requires
        1 <= version <= 3,
        stands_at(b, 0, gguf_magic()),
        stands_at(b, 4, le_bytes_u32(version)),
    ensures
        parse_header(b) == parse_rest(b, 8, version, layout_of(version)),
{
    lemma_take_u32_at(b, 4, version);
    assert(take_bytes(b, 0, 4) == Ok::<(Seq<u8>, int), crate::grammar::ParseFault>(
        (gguf_magic(), 4),
    ));
}

/// A header of version 1, 2 or 3 reads back as the pairs and descriptors it
/// was written from, whatever follows it.
pub proof fn lemma_header_parses_back(
    version: u32,
    kvs: Seq<KvPairView>,
    ts: Seq<TensorView>,
    rest: Seq<u8>,
)
    requires
        1 <= version <= 3,
        kvs.len() <= GGUF_MAX_COUNT,
        ts.len() <= GGUF_MAX_COUNT,
        forall|i: int| 0 <= i < kvs.len() ==> pair_round_trips(#[trigger] kvs[i], layout_of(version)),
        forall|i: int| 0 <= i < ts.len() ==> tensor_round_trips(#[trigger] ts[i]),
    ensures
        parse_header(emit_header(version, kvs, ts) + rest) == finish_header(
            version,
            kvs,
            ts,
            emit_header(version, kvs, ts).len() as int,
        ),
{
    let b = emit_header(version, kvs, ts) + rest;
    lemma_header_fields(version, kvs, ts, rest);
    lemma_header_len(version, kvs, ts);
    lemma_parse_header_version(b, version);
    lemma_rest_at(b, version, kvs, ts);
}

/// A writer's file is its header followed by the padding and the data.
proof fn lemma_image_after_header(w: WriterView) -> (rest: Seq<u8>)
    requires
        writer_image(w) is Ok,
    ensures
        writer_image(w) == Ok::<Seq<u8>, crate::writer::WriteFault>(
            emit_header(w.version, w.kv_pairs, w.tensors) + rest,
        ),
{
    let h = emit_header(w.version, w.kv_pairs, w.tensors);
    let padded = crate::writer::padded_header(w);
    let pad = padded.subrange(h.len() as int, padded.len() as int);
    assert(padded =~= h + pad);
    let body = crate::writer::data_section(w.tensors, w.tensor_data)->Ok_0;
    assert(padded + body =~= h + (pad + body));
    pad + body
}

/// The header that a writer's pairs and descriptors make: when the writer
/// aligns to the alignment the pairs ask for, its data section start is the
/// one the writer planned.
proof fn lemma_finish_written_header(w: WriterView)
    requires
        alignment_of(w.kv_pairs) is Ok,
    ensures
        finish_header(
            w.version,
            w.kv_pairs,
            w.tensors,
            emit_header(w.version, w.kv_pairs, w.tensors).len() as int,
        ) matches Ok(h) && h.version == w.version && h.kv_pairs == w.kv_pairs && h.tensors == w.tensors
            && h.data_alignment == Some(alignment_of(w.kv_pairs)->Ok_0) && (w.alignment
            == alignment_of(w.kv_pairs)->Ok_0 && planned_data_start(w) <= u64::MAX
            ==> h.data_section_start == planned_data_start(w)),
{
}

/// A file that a writer of version 1, 2 or 3 lays out reads back: its header parses to the
/// writer's version, pairs and tensor descriptors, with the alignment that
/// the pairs ask for; and when the writer aligns to that same alignment, the
/// data section starts where the writer planned it.
pub proof fn lemma_written_file_parses_back(w: WriterView)
    requires
        writer_round_trips(w),
        writer_image(w) is Ok,
    ensures
        writer_image(w) matches Ok(b) && parse_header(b) matches Ok(h) && h.version == w.version
            && h.kv_pairs == w.kv_pairs && h.tensors == w.tensors && h.data_alignment == Some(
            alignment_of(w.kv_pairs)->Ok_0,
        ) && (w.alignment == alignment_of(w.kv_pairs)->Ok_0 && planned_data_start(w) <= u64::MAX
            ==> h.data_section_start == planned_data_start(w)),
{
    let rest = lemma_image_after_header(w);
    lemma_header_parses_back(w.version, w.kv_pairs, w.tensors, rest);
    lemma_finish_written_header(w);
}

/// The data a writer lays out reads back from where the parsed header
/// says the data section starts, when the writer aligns to the alignment the
/// pairs ask for.
pub proof fn lemma_written_data_found(w: WriterView)
    requires
        writer_round_trips(w),
        writer_image(w) is Ok,
        w.alignment == alignment_of(w.kv_pairs)->Ok_0,
        planned_data_start(w) <= u64::MAX,
    ensures
        writer_image(w) matches Ok(b) && parse_header(b) matches Ok(h)
            && h.data_section_start <= b.len() && b.subrange(
            h.data_section_start as int,
            b.len() as int,
        ) == crate::writer::data_section(w.tensors, w.tensor_data)->Ok_0,
{
    lemma_written_file_parses_back(w);
    let b = writer_image(w)->Ok_0;
    let h = emit_header(w.version, w.kv_pairs, w.tensors);
    let a = w.alignment as int;
    assert(align_up(h.len() as int, a) >= h.len()) by {
        if a > 0 && (h.len() as int) % a != 0 {
            assert((h.len() as int) % a < a);
        }
    }
    let padded = crate::writer::padded_header(w);
    assert(padded.len() == planned_data_start(w));
    let body = crate::writer::data_section(w.tensors, w.tensor_data)->Ok_0;
    assert(b == padded + body);
    assert(b.subrange(padded.len() as int, b.len() as int) =~= body);
}

} // verus!
