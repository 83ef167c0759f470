//! What follows a header does not change how it parses: every field is read
//! from the bytes before its end, so a header that parses from a run of bytes
//! parses the same from any longer run that starts with it.
use crate::grammar::{
    header_end, layout_of, rest_end, parse_header, parse_rest, take_array_elem, take_array_elems, take_bytes,
    take_int, take_kv_pair, take_kv_pairs, take_kv_value, take_scalar, take_string, take_tensor,
    take_tensors, take_text, take_u16, take_u32, take_u64, take_u64s, take_u8, };
use crate::types::{value_type_of_id, GgufValueType, GgufWireFormat, IntWidth};
use vstd::prelude::*;

verus! {

/// `b` is the start of `b2`.
pub open spec fn starts(b: Seq<u8>, b2: Seq<u8>) -> bool {
    b.len() <= b2.len() && forall|i: int| 0 <= i < b.len() ==> #[trigger] b2[i] == b[i]
}

/// The bytes of a prefix are the same in the longer run.
proof fn lemma_same_bytes(b: Seq<u8>, b2: Seq<u8>, p: int, q: int)
    requires
        starts(b, b2),
        0 <= p <= q <= b.len(),
    ensures
        b2.subrange(p, q) == b.subrange(p, q),
{
    assert forall|i: int| 0 <= i < q - p implies b2.subrange(p, q)[i] == b.subrange(p, q)[i] by {
        assert(b2[p + i] == b[p + i]);
    }
    assert(b2.subrange(p, q) =~= b.subrange(p, q));
}

/// Fixed-size fields read the same from a longer run.
proof fn lemma_fixed_fields(b: Seq<u8>, b2: Seq<u8>, p: int)
    requires
        starts(b, b2),
    ensures
        take_u8(b, p) is Ok ==> take_u8(b2, p) == take_u8(b, p),
        take_u16(b, p) is Ok ==> take_u16(b2, p) == take_u16(b, p),
        take_u32(b, p) is Ok ==> take_u32(b2, p) == take_u32(b, p),
        take_u64(b, p) is Ok ==> take_u64(b2, p) == take_u64(b, p),
        forall|w: IntWidth| take_int(b, p, w) is Ok ==> #[trigger] take_int(b2, p, w) == take_int(b, p, w),
{
    if 0 <= p && p + 1 <= b.len() {
        assert(b2[p] == b[p]);
    }
    if 0 <= p && p + 2 <= b.len() {
        lemma_same_bytes(b, b2, p, p + 2);
    }
    if 0 <= p && p + 4 <= b.len() {
        lemma_same_bytes(b, b2, p, p + 4);
    }
    if 0 <= p && p + 8 <= b.len() {
        lemma_same_bytes(b, b2, p, p + 8);
    }
}

/// Byte runs, text and strings read the same from a longer run.
proof fn lemma_text_fields(b: Seq<u8>, b2: Seq<u8>, p: int, n: u64, w: IntWidth)
    requires
        starts(b, b2),
    ensures
        take_bytes(b, p, n) is Ok ==> take_bytes(b2, p, n) == take_bytes(b, p, n),
        take_text(b, p, n) is Ok ==> take_text(b2, p, n) == take_text(b, p, n),
        take_string(b, p, w) is Ok ==> take_string(b2, p, w) == take_string(b, p, w),
{
    if 0 <= p && p + n <= b.len() {
        lemma_same_bytes(b, b2, p, p + n);
    }
    lemma_fixed_fields(b, b2, p);
    if take_string(b, p, w) is Ok {
        let (m, q) = take_int(b, p, w)->Ok_0;
        assert(take_int(b2, p, w) == take_int(b, p, w));
        if 0 <= q && q + m <= b.len() {
            lemma_same_bytes(b, b2, q, q + m);
        }
    }
}

/// A fixed-size value reads the same from a longer run.
proof fn lemma_scalar(b: Seq<u8>, b2: Seq<u8>, p: int, vt: GgufValueType)
    requires
        starts(b, b2),
        take_scalar(b, p, vt) is Ok,
    ensures
        take_scalar(b2, p, vt) == take_scalar(b, p, vt),
{
    lemma_fixed_fields(b, b2, p);
}

/// An array element reads the same from a longer run.
proof fn lemma_array_elem(b: Seq<u8>, b2: Seq<u8>, p: int, et: GgufValueType, raw: u32, sw: IntWidth)
    requires
        starts(b, b2),
        take_array_elem(b, p, et, raw, sw) is Ok,
    ensures
        take_array_elem(b2, p, et, raw, sw) == take_array_elem(b, p, et, raw, sw),
{
    if et == GgufValueType::String {
        lemma_text_fields(b, b2, p, 0, sw);
    } else {
        lemma_scalar(b, b2, p, et);
    }
}

/// A run of array elements reads the same from a longer run.
proof fn lemma_array_elems(
    b: Seq<u8>,
    b2: Seq<u8>,
    p: int,
    et: GgufValueType,
    raw: u32,
    sw: IntWidth,
    n: nat,
)
    requires
        starts(b, b2),
        take_array_elems(b, p, et, raw, sw, n) is Ok,
    ensures
        take_array_elems(b2, p, et, raw, sw, n) == take_array_elems(b, p, et, raw, sw, n),
    decreases n,
{
    if n > 0 {
        lemma_array_elems(b, b2, p, et, raw, sw, (n - 1) as nat);
        let q = take_array_elems(b, p, et, raw, sw, (n - 1) as nat)->Ok_0.1;
        lemma_array_elem(b, b2, q, et, raw, sw);
    }
}

/// A metadata value reads the same from a longer run.
proof fn lemma_kv_value(b: Seq<u8>, b2: Seq<u8>, p: int, vt: GgufValueType, sw: IntWidth, aw: IntWidth)
    requires
        starts(b, b2),
        take_kv_value(b, p, vt, sw, aw) is Ok,
    ensures
        take_kv_value(b2, p, vt, sw, aw) == take_kv_value(b, p, vt, sw, aw),
{
    match vt {
        GgufValueType::String => {
            lemma_text_fields(b, b2, p, 0, sw);
        },
        GgufValueType::Array => {
            lemma_fixed_fields(b, b2, p);
            let (raw, q) = take_u32(b, p)->Ok_0;
            let et = value_type_of_id(raw)->Some_0;
            lemma_fixed_fields(b, b2, q);
            assert(take_int(b2, q, aw) == take_int(b, q, aw));
            let (n, r) = take_int(b, q, aw)->Ok_0;
            lemma_array_elems(b, b2, r, et, raw, sw, n as nat);
        },
        _ => {
            lemma_scalar(b, b2, p, vt);
        },
    }
}

/// A KV pair reads the same from a longer run.
proof fn lemma_kv_pair(b: Seq<u8>, b2: Seq<u8>, p: int, f: GgufWireFormat)
    requires
        starts(b, b2),
        take_kv_pair(b, p, f) is Ok,
    ensures
        take_kv_pair(b2, p, f) == take_kv_pair(b, p, f),
{
    lemma_fixed_fields(b, b2, p);
    assert(take_int(b2, p, f.key_width) == take_int(b, p, f.key_width));
    let (n, q) = take_int(b, p, f.key_width)->Ok_0;
    lemma_text_fields(b, b2, q, n, f.string_width);
    let r = take_text(b, q, n)->Ok_0.1;
    lemma_fixed_fields(b, b2, r);
    let (raw, s) = take_u32(b, r)->Ok_0;
    let vt = value_type_of_id(raw)->Some_0;
    lemma_kv_value(b, b2, s, vt, f.string_width, f.array_count_width);
}

/// A run of KV pairs reads the same from a longer run.
proof fn lemma_kv_pairs(b: Seq<u8>, b2: Seq<u8>, p: int, f: GgufWireFormat, n: nat)
    requires
        starts(b, b2),
        take_kv_pairs(b, p, f, n) is Ok,
    ensures
        take_kv_pairs(b2, p, f, n) == take_kv_pairs(b, p, f, n),
    decreases n,
{
    if n > 0 {
        lemma_kv_pairs(b, b2, p, f, (n - 1) as nat);
        let q = take_kv_pairs(b, p, f, (n - 1) as nat)->Ok_0.1;
        lemma_kv_pair(b, b2, q, f);
    }
}

/// A run of dimensions reads the same from a longer run.
proof fn lemma_u64s(b: Seq<u8>, b2: Seq<u8>, p: int, n: nat)
    requires
        starts(b, b2),
        take_u64s(b, p, n) is Ok,
    ensures
        take_u64s(b2, p, n) == take_u64s(b, p, n),
    decreases n,
{
    if n > 0 {
        lemma_u64s(b, b2, p, (n - 1) as nat);
        let q = take_u64s(b, p, (n - 1) as nat)->Ok_0.1;
        lemma_fixed_fields(b, b2, q);
    }
}

/// A tensor descriptor reads the same from a longer run.
proof fn lemma_tensor(b: Seq<u8>, b2: Seq<u8>, p: int, f: GgufWireFormat)
    requires
        starts(b, b2),
        take_tensor(b, p, f) is Ok,
    ensures
        take_tensor(b2, p, f) == take_tensor(b, p, f),
{
    lemma_fixed_fields(b, b2, p);
    assert(take_int(b2, p, f.tensor_name_width) == take_int(b, p, f.tensor_name_width));
    let (n, q) = take_int(b, p, f.tensor_name_width)->Ok_0;
    lemma_text_fields(b, b2, q, n, f.string_width);
    let r = take_text(b, q, n)->Ok_0.1;
    lemma_fixed_fields(b, b2, r);
    let (nd, s) = take_u32(b, r)->Ok_0;
    lemma_u64s(b, b2, s, nd as nat);
    let t = take_u64s(b, s, nd as nat)->Ok_0.1;
    lemma_fixed_fields(b, b2, t);
    let u = take_u32(b, t)->Ok_0.1;
    lemma_fixed_fields(b, b2, u);
}

/// A run of tensor descriptors reads the same from a longer run.
proof fn lemma_tensors(b: Seq<u8>, b2: Seq<u8>, p: int, f: GgufWireFormat, n: nat)
    requires
        starts(b, b2),
        take_tensors(b, p, f, n) is Ok,
    ensures
        take_tensors(b2, p, f, n) == take_tensors(b, p, f, n),
    decreases n,
{
    if n > 0 {
        lemma_tensors(b, b2, p, f, (n - 1) as nat);
        let q = take_tensors(b, p, f, (n - 1) as nat)->Ok_0.1;
        lemma_tensor(b, b2, q, f);
    }
}

/// The rest of a header reads the same from a longer run.
proof fn lemma_rest(b: Seq<u8>, b2: Seq<u8>, q: int, version: u32, f: GgufWireFormat)
    requires
        starts(b, b2),
        parse_rest(b, q, version, f) is Ok,
    ensures
        parse_rest(b2, q, version, f) == parse_rest(b, q, version, f),
        rest_end(b2, q, f) == rest_end(b, q, f),
{
    lemma_fixed_fields(b, b2, q);
    assert(take_int(b2, q, f.header_count_width) == take_int(b, q, f.header_count_width));
    let (tc, r) = take_int(b, q, f.header_count_width)->Ok_0;
    lemma_fixed_fields(b, b2, r);
    assert(take_int(b2, r, f.header_count_width) == take_int(b, r, f.header_count_width));
    let (kc, s) = take_int(b, r, f.header_count_width)->Ok_0;
    lemma_kv_pairs(b, b2, s, f, kc as nat);
    let t = take_kv_pairs(b, s, f, kc as nat)->Ok_0.1;
    lemma_tensors(b, b2, t, f, tc as nat);
}

/// A header that parses from `b` parses the same, and ends at the same
/// place, from any longer run of bytes that starts with `b`: what follows
/// the header is never read.
pub proof fn lemma_trailing_bytes_ignored(b: Seq<u8>, rest: Seq<u8>)
    requires
        parse_header(b) is Ok,
    ensures
        parse_header(b + rest) == parse_header(b),
        header_end(b + rest) == header_end(b),
{
    let b2 = b + rest;
    assert(starts(b, b2)) by {
        assert forall|i: int| 0 <= i < b.len() implies #[trigger] b2[i] == b[i] by {}
    }
    lemma_text_fields(b, b2, 0, 4, IntWidth::U32);
    lemma_fixed_fields(b, b2, 4);
    let version = take_u32(b, 4)->Ok_0.0;
    lemma_rest(b, b2, 8, version, layout_of(version));
}

} // verus!
