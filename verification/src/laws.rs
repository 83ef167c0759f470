//! Properties that relate several functions of the library: what reading an
//! id and writing it back gives, and where a parsed header puts its data.
use crate::format_inference::{format_table, layer_suggestions, suspicious_name};
use crate::text::{occurs_in, unicode_lowercase};
use crate::round_trip::{
    lemma_written_file_parses_back, pair_round_trips, tensor_round_trips, value_round_trips,
    writer_round_trips,
};
use crate::writer::{writer_image, WriterView};
use crate::grammar::{
    align_up, alignment_of, data_section_start_of, gguf_magic, formula_header_size, header_base, header_end, kv_section_size,
    count_width_agrees, layout_of, lemma_take_int, lemma_take_kv_pairs, lemma_take_tensors, lemma_take_text,
    lemma_take_u64s, parse_header, parse_rest, take_bytes, take_int, take_kv_pair, take_text,
    take_kv_pairs, take_tensor, take_tensors, take_u32, tensor_section_size, GGUF_MAX_ALIGNMENT,
    GGUF_MAX_COUNT, GGUF_MAX_KEY_LENGTH, GGUF_MAX_TENSOR_NAME_LENGTH,
};
use crate::types::{
    dtype_of_id, is_assigned_dtype_id, utf8_len, value_type_of_id, GgufDtype, KvValueView,
    GgufValueType, GgufVersion, GgufWireFormat, IntWidth, KvPairView, TensorView,
};
use vstd::prelude::*;

verus! {

/// Reading any dtype id and writing the dtype back gives the same id
/// (`from_u32` then `to_u32`).
pub proof fn lemma_dtype_id_round_trip(v: u32)
    ensures
        dtype_of_id(v).id() == v,
{
}

/// Writing a dtype's id and reading it back gives the same dtype
/// (`to_u32` then `from_u32`), except for an `Unknown` that carries an id
/// that names a dtype.
pub proof fn lemma_dtype_round_trip(d: GgufDtype)
    requires
        d is Unknown ==> !is_assigned_dtype_id(d->Unknown_0),
    ensures
        dtype_of_id(d.id()) == d,
{
}

/// In the wider catalogue, reading any dtype id and writing the dtype back
/// gives the same id.
pub proof fn lemma_catalogue_id_round_trip(v: u32)
    ensures
        crate::src::types::dtype_of_id(v).id() == v,
{
}

/// In the wider catalogue, writing a dtype's id and reading it back gives the
/// same dtype, except for the mix labels (whose ids other dtypes use) and an
/// `Unknown` that carries an id that names a dtype.
pub proof fn lemma_catalogue_round_trip(d: crate::src::types::GgufDtype)
    requires
        !d.is_mix(),
        d is Unknown ==> !crate::src::types::is_named_dtype_id(d->Unknown_0),
    ensures
        crate::src::types::dtype_of_id(d.id()) == d,
{
}

/// Writing a value type's number and reading it back gives the same type.
pub proof fn lemma_value_type_round_trip(t: GgufValueType)
    ensures
        value_type_of_id(t.id()) == Some(t),
        t.id() <= 16,
        t.id() as u8 as u32 == t.id(),
{
}

/// Reading a value type number gives a type exactly for 0 to 16, and that
/// type's number is the one read.
pub proof fn lemma_value_type_ids(v: u32)
    ensures
        value_type_of_id(v) is Some <==> v <= 16,
        value_type_of_id(v) matches Some(t) ==> t.id() == v,
{
}

/// The versions are numbered 1 to 3, each with its own number, so reading a
/// version's number gives the version back.
pub proof fn lemma_version_numbers(x: GgufVersion, y: GgufVersion)
    ensures
        1 <= x.number() <= 3,
        x.number() == y.number() <==> x == y,
{
}

/// Rounding up to a positive alignment gives a multiple of it, at the
/// position itself or less than one alignment after it.
pub proof fn lemma_align_up(pos: int, a: int)
    requires
        pos >= 0,
        a > 0,
    ensures
        align_up(pos, a) % a == 0,
        pos <= align_up(pos, a) < pos + a,
{
    let r = pos % a;
    assert(pos == (pos / a) * a + r) by (nonlinear_arith)
        requires
            a > 0,
            r == pos % a,
    ;
    if r != 0 {
        assert((pos + a - r) % a == 0) by (nonlinear_arith)
            requires
                a > 0,
                pos == (pos / a) * a + r,
        ;
    }
}

/// By the size formula, a data section aligned to `a` starts at a multiple
/// of `a`, at the end of the header (its size capped at `u64::MAX`) or less
/// than `a` bytes after.
pub proof fn lemma_data_section_start_aligned(
    f: GgufWireFormat,
    kvs: Seq<KvPairView>,
    ts: Seq<TensorView>,
    a: u64,
)
    requires
        a > 0,
    ensures
        ({
            let end = formula_header_size(f, kvs, ts);
            let start = data_section_start_of(f, kvs, ts, Some(a));
            &&& start % (a as int) == 0
            &&& end <= start < end + a
        }),
{
    crate::grammar::lemma_kv_section_prefix(kvs, f, 0);
    crate::grammar::lemma_tensor_section_prefix(ts, f, 0);
    lemma_align_up(formula_header_size(f, kvs, ts), a as int);
}

/// An array whose elements all have one type with a fixed size `s` is
/// counted as its 4-byte element type, its 8-byte count and `s` bytes an
/// element, whatever the string width.
pub proof fn lemma_array_size(a: Seq<KvValueView>, sw: int)
    requires
        a.len() > 0,
        forall|i: int| 0 <= i < a.len() ==> (#[trigger] a[i]).kind() == a[0].kind(),
        a[0].kind().fixed_size() is Some,
    ensures
        KvValueView::Array(a).wire_size(sw) == 4 + 8 + a.len() * (a[0].kind().fixed_size()->Some_0
            as int),
{
}

/// Where a parsed header puts its data: the header's bytes end at
/// [`header_end`], and the data section starts at the first multiple of the
/// alignment from there on. The alignment is a power of two of at most
/// 64 KiB. Unless the header is a v1 header holding an array (the size
/// formula counts an array's count as 8 bytes, v1 writes 4), the header's
/// end is also the size formula's header size, and the data start is what
/// [`data_section_start_of`] computes from the parsed pairs and descriptors.
pub proof fn lemma_parsed_data_section_start(b: Seq<u8>)
    requires
        parse_header(b) is Ok,
        b.len() + GGUF_MAX_ALIGNMENT <= u64::MAX,
    ensures
        ({
            let h = parse_header(b)->Ok_0;
            let f = layout_of(h.version);
            let e = header_end(b);
            &&& h.data_alignment matches Some(a) && 0 < a <= GGUF_MAX_ALIGNMENT && a & ((a - 1) as u64)
                == 0
            &&& e <= b.len()
            &&& h.data_section_start == align_up(e, h.data_alignment->Some_0 as int)
            &&& h.data_section_start % h.data_alignment->Some_0 == 0
            &&& e <= h.data_section_start < e + h.data_alignment->Some_0
            &&& (forall|i: int| 0 <= i < h.kv_pairs.len() ==> count_width_agrees(#[trigger] h.kv_pairs[i], f))
                ==> {
                &&& e == header_base(f) + kv_section_size(h.kv_pairs, f) + tensor_section_size(
                    h.tensors,
                    f,
                )
                &&& h.data_section_start == data_section_start_of(
                    f,
                    h.kv_pairs,
                    h.tensors,
                    h.data_alignment,
                )
            }
        }),
{
    let version = take_u32(b, 4)->Ok_0.0;
    assert(take_bytes(b, 0, 4) is Ok);
    let f = layout_of(version);
    assert(parse_header(b) == parse_rest(b, 8, version, f));
    lemma_take_int(b, 8, f.header_count_width);
    let (tc, r) = take_int(b, 8, f.header_count_width)->Ok_0;
    lemma_take_int(b, r, f.header_count_width);
    let (kc, s) = take_int(b, r, f.header_count_width)->Ok_0;
    lemma_take_kv_pairs(b, s, f, kc as nat);
    let (kvs, t) = take_kv_pairs(b, s, f, kc as nat)->Ok_0;
    lemma_take_tensors(b, t, f, tc as nat);
    let (ts, e) = take_tensors(b, t, f, tc as nat)->Ok_0;
    let a = alignment_of(kvs)->Ok_0;
    assert(e == header_end(b));
    lemma_align_up(e, a as int);
    let h = parse_header(b)->Ok_0;
    assert(h.version == version);
    assert(h.data_section_start == align_up(e, a as int));
    lemma_data_section_start_aligned(f, kvs, ts, a);
}

/// Every layout that format inference checks against is its dtype's own
/// block layout.
pub proof fn lemma_format_table_matches_dtypes(i: int)
    requires
        0 <= i < format_table().len(),
    ensures
        ({
            let (d, elements_per_block, bytes_per_block) = format_table()[i];
            &&& d.quantized()
            &&& d.block_elems() == Some(elements_per_block)
            &&& d.block_bytes() == Some(bytes_per_block)
        }),
{
}

/// A parsed key has between 1 byte and the longest key length.
proof fn lemma_parsed_key(b: Seq<u8>, p: int, f: GgufWireFormat)
    requires
        take_kv_pair(b, p, f) is Ok,
    ensures
        take_kv_pair(b, p, f) matches Ok((kv, _)) && 0 < utf8_len(kv.key) <= GGUF_MAX_KEY_LENGTH,
{
    let (n, q) = take_int(b, p, f.key_width)->Ok_0;
    lemma_take_text(b, q, n);
}

/// Parsed keys have between 1 byte and the longest key length.
proof fn lemma_parsed_keys(b: Seq<u8>, p: int, f: GgufWireFormat, n: nat)
    requires
        take_kv_pairs(b, p, f, n) is Ok,
    ensures
        take_kv_pairs(b, p, f, n) matches Ok((kvs, _)) && forall|i: int|
            0 <= i < kvs.len() ==> 0 < utf8_len(#[trigger] kvs[i].key) <= GGUF_MAX_KEY_LENGTH,
    decreases n,
{
    if n > 0 {
        lemma_parsed_keys(b, p, f, (n - 1) as nat);
        let (s, q) = take_kv_pairs(b, p, f, (n - 1) as nat)->Ok_0;
        lemma_parsed_key(b, q, f);
        let kvs = take_kv_pairs(b, p, f, n)->Ok_0.0;
        assert forall|i: int| 0 <= i < kvs.len() implies 0 < utf8_len(#[trigger] kvs[i].key)
            <= GGUF_MAX_KEY_LENGTH by {
            if i < s.len() {
                assert(kvs[i] == s[i]);
            }
        }
    }
}

/// A parsed tensor name has between 1 byte and the longest name length.
proof fn lemma_parsed_name(b: Seq<u8>, p: int, f: GgufWireFormat)
    requires
        take_tensor(b, p, f) is Ok,
    ensures
        take_tensor(b, p, f) matches Ok((t, _)) && 0 < utf8_len(t.name)
            <= GGUF_MAX_TENSOR_NAME_LENGTH && t.shape.len() <= u32::MAX,
{
    let (n, q) = take_int(b, p, f.tensor_name_width)->Ok_0;
    lemma_take_text(b, q, n);
    let r = take_text(b, q, n)->Ok_0.1;
    let (nd, s) = take_u32(b, r)->Ok_0;
    lemma_take_u64s(b, s, nd as nat);
}

/// Parsed tensor names have between 1 byte and the longest name length.
proof fn lemma_parsed_names(b: Seq<u8>, p: int, f: GgufWireFormat, n: nat)
    requires
        take_tensors(b, p, f, n) is Ok,
    ensures
        take_tensors(b, p, f, n) matches Ok((ts, _)) && forall|i: int|
            0 <= i < ts.len() ==> 0 < utf8_len(#[trigger] ts[i].name)
                <= GGUF_MAX_TENSOR_NAME_LENGTH && ts[i].shape.len() <= u32::MAX,
    decreases n,
{
    if n > 0 {
        lemma_parsed_names(b, p, f, (n - 1) as nat);
        let (s, q) = take_tensors(b, p, f, (n - 1) as nat)->Ok_0;
        lemma_parsed_name(b, q, f);
        let ts = take_tensors(b, p, f, n)->Ok_0.0;
        assert forall|i: int| 0 <= i < ts.len() implies 0 < utf8_len(#[trigger] ts[i].name)
            <= GGUF_MAX_TENSOR_NAME_LENGTH && ts[i].shape.len() <= u32::MAX by {
            if i < s.len() {
                assert(ts[i] == s[i]);
            }
        }
    }
}

/// Every key and tensor name of a parsed header has between 1 byte and
/// 1 MiB of UTF-8, every tensor has at most `u32::MAX` dimensions, neither
/// count exceeds the limit, and the alignment is the one its pairs ask for.
pub proof fn lemma_parsed_header_within_limits(b: Seq<u8>)
    requires
        parse_header(b) is Ok,
    ensures
        parse_header(b) matches Ok(h) && 1 <= h.version <= 3 && h.kv_pairs.len() <= GGUF_MAX_COUNT && h.tensors.len()
            <= GGUF_MAX_COUNT && (forall|i: int|
            0 <= i < h.kv_pairs.len() ==> 0 < utf8_len(#[trigger] h.kv_pairs[i].key)
                <= GGUF_MAX_KEY_LENGTH) && (forall|i: int|
            0 <= i < h.tensors.len() ==> 0 < utf8_len(#[trigger] h.tensors[i].name)
                <= GGUF_MAX_TENSOR_NAME_LENGTH && h.tensors[i].shape.len() <= u32::MAX)
            && alignment_of(h.kv_pairs) is Ok && h.data_alignment == Some(
            alignment_of(h.kv_pairs)->Ok_0,
        ),
{
    let version = take_u32(b, 4)->Ok_0.0;
    assert(take_bytes(b, 0, 4) is Ok);
    let f = layout_of(version);
    assert(parse_header(b) == parse_rest(b, 8, version, f));
    let (tc, r) = take_int(b, 8, f.header_count_width)->Ok_0;
    let (kc, s) = take_int(b, r, f.header_count_width)->Ok_0;
    lemma_parsed_keys(b, s, f, kc as nat);
    lemma_take_kv_pairs_len(b, s, f, kc as nat);
    let t = take_kv_pairs(b, s, f, kc as nat)->Ok_0.1;
    lemma_parsed_names(b, t, f, tc as nat);
    lemma_take_tensors_len(b, t, f, tc as nat);
}

/// A run of `n` pairs holds `n` pairs.
proof fn lemma_take_kv_pairs_len(b: Seq<u8>, p: int, f: GgufWireFormat, n: nat)
    requires
        take_kv_pairs(b, p, f, n) is Ok,
    ensures
        take_kv_pairs(b, p, f, n) matches Ok((kvs, _)) && kvs.len() == n,
    decreases n,
{
    if n > 0 {
        lemma_take_kv_pairs_len(b, p, f, (n - 1) as nat);
    }
}

/// A run of `n` descriptors holds `n` descriptors.
proof fn lemma_take_tensors_len(b: Seq<u8>, p: int, f: GgufWireFormat, n: nat)
    requires
        take_tensors(b, p, f, n) is Ok,
    ensures
        take_tensors(b, p, f, n) matches Ok((ts, _)) && ts.len() == n,
    decreases n,
{
    if n > 0 {
        lemma_take_tensors_len(b, p, f, (n - 1) as nat);
    }
}

/// A header read from a file and given, with its version, pairs and tensor
/// descriptors, to a writer reads back from the writer's file as the same
/// version, pairs, descriptors and alignment, as long as every value is of a
/// type that the writer writes and the reader reads (see
/// [`value_round_trips`]).
pub proof fn lemma_read_write_read(b: Seq<u8>, w: WriterView)
    requires
        parse_header(b) is Ok,
        w.version == parse_header(b)->Ok_0.version,
        w.kv_pairs == parse_header(b)->Ok_0.kv_pairs,
        w.tensors == parse_header(b)->Ok_0.tensors,
        forall|i: int|
            0 <= i < w.kv_pairs.len() ==> value_round_trips(
                #[trigger] w.kv_pairs[i].value_type,
                w.kv_pairs[i].value,
                layout_of(w.version),
            ),
        writer_image(w) is Ok,
    ensures
        writer_image(w) matches Ok(b2) && parse_header(b2) matches Ok(h2) && h2.version
            == parse_header(b)->Ok_0.version && h2.kv_pairs == parse_header(b)->Ok_0.kv_pairs
            && h2.tensors == parse_header(b)->Ok_0.tensors && h2.data_alignment == parse_header(
            b,
        )->Ok_0.data_alignment,
{
    lemma_parsed_header_within_limits(b);
    assert forall|i: int| 0 <= i < w.kv_pairs.len() implies pair_round_trips(
        #[trigger] w.kv_pairs[i],
        layout_of(w.version),
    ) by {
        assert(value_round_trips(w.kv_pairs[i].value_type, w.kv_pairs[i].value, layout_of(w.version)));
        assert(0 < utf8_len(w.kv_pairs[i].key) <= GGUF_MAX_KEY_LENGTH);
    }
    assert forall|i: int| 0 <= i < w.tensors.len() implies tensor_round_trips(
        #[trigger] w.tensors[i],
    ) by {
        assert(0 < utf8_len(w.tensors[i].name) <= GGUF_MAX_TENSOR_NAME_LENGTH);
    }
    assert(writer_round_trips(w));
    lemma_written_file_parses_back(w);
}

/// The number of weights in one of ggml's K-quant super-blocks (`QK_K`).
pub open spec fn qk_k() -> int {
    256
}

/// ggml's block for the type numbered `id`: how many weights a block holds
/// and how many bytes it takes, the bytes written as the sum of the fields of
/// the type's C struct (`d` and `dmin` are f16 scales, `qs` the packed
/// quants, `qh`/`hmask` their high bits, `scales` the sub-block scales);
/// none for a number ggml does not assign.
pub open spec fn ggml_block(id: u32) -> Option<(int, int)> {
    let k = qk_k();
    match id {
        0 => Some((1int, 4int)),  // f32
        1 => Some((1int, 2int)),  // f16
        2 => Some((32int, 2int + 32int / 2int)),  // q4_0: d, qs
        3 => Some((32int, 2int + 2int + 32int / 2int)),  // q4_1: d, m, qs
        6 => Some((32int, 2int + 4int + 32int / 2int)),  // q5_0: d, qh, qs
        7 => Some((32int, 2int + 2int + 4int + 32int / 2int)),  // q5_1: d, m, qh, qs
        8 => Some((32int, 2int + 32int)),  // q8_0: d, qs
        9 => Some((32int, 2int + 2int + 32int)),  // q8_1: d, s, qs
        10 => Some((k, k / 16int + k / 4int + 2int + 2int)),  // q2_K: scales, qs, d, dmin
        11 => Some((k, k / 8int + k / 4int + 12int + 2int)),  // q3_K: hmask, qs, scales, d
        12 => Some((k, 2int + 2int + 12int + k / 2int)),  // q4_K: d, dmin, scales, qs
        13 => Some((k, 2int + 2int + 12int + k / 8int + k / 2int)),  // q5_K: d, dmin, scales, qh, qs
        14 => Some((k, k / 2int + k / 4int + k / 16int + 2int)),  // q6_K: ql, qh, scales, d
        15 => Some((k, 4int + k + 2int * (k / 16int))),  // q8_K: d (f32), qs, bsums (i16)
        16 => Some((k, 2int + 2int * (k / 8int))),  // iq2_xxs: d, qs (u16)
        17 => Some((k, 2int + 2int * (k / 8int) + k / 32int)),  // iq2_xs: d, qs (u16), scales
        18 => Some((k, 2int + 3int * k / 8int)),  // iq3_xxs: d, qs
        19 => Some((k, 2int + k / 8int + 2int * (k / 32int))),  // iq1_s: d, qs, qh (u16)
        20 => Some((32int, 2int + 32int / 2int)),  // iq4_nl: d, qs
        21 => Some((k, 2int + k / 4int + k / 32int + k / 8int + k / 64int)),  // iq3_s: d, qs, qh, signs, scales
        22 => Some((k, 2int + k / 4int + k / 32int + k / 32int)),  // iq2_s: d, qs, qh, scales
        23 => Some((k, 2int + 2int + k / 64int + k / 2int)),  // iq4_xs: d, scales_h, scales_l, qs
        24 => Some((1int, 1int)),  // i8
        25 => Some((1int, 2int)),  // i16
        26 => Some((1int, 4int)),  // i32
        27 => Some((1int, 8int)),  // i64
        28 => Some((1int, 8int)),  // f64
        29 => Some((k, k / 8int + k / 16int + k / 32int)),  // iq1_m: qs, qh, scales
        30 => Some((1int, 2int)),  // bf16
        34 => Some((k, (k - 4int * (k / 64int)) / 5int + k / 64int + 2int)),  // tq1_0: qs, qh, d
        35 => Some((k, k / 4int + 2int)),  // tq2_0: qs, d
        39 => Some((32int, 1int + 32int / 2int)),  // mxfp4: e, qs
        40 => Some((64int, 64int / 16int + 64int / 2int)),  // nvfp4: d (fp8, per 16), qs
        41 => Some((32int, 2int + 16int)),  // q1_0: d, qs
        42 => Some((64int, 2int + 64int / 4int)),  // q2_0: d, qs
        _ => None,
    }
}

/// Every dtype's block layout is ggml's for its type number: a block holds
/// as many elements and takes as many bytes as ggml's block struct for that
/// number; an `Unknown` dtype has no layout.
pub proof fn lemma_block_layouts_are_ggml(d: GgufDtype)
    ensures
        d is Unknown ==> d.block_elems() is None && d.block_bytes() is None,
        !(d is Unknown) ==> (ggml_block(d.id()) matches Some((e, bytes)) && d.block_elems() == Some(
            e as usize,
        ) && d.block_bytes() == Some(bytes as usize)),
{
}

/// ggml assigns a block layout to exactly the type numbers that name a dtype.
pub proof fn lemma_ggml_numbers_are_assigned(v: u32)
    ensures
        ggml_block(v) is Some <==> is_assigned_dtype_id(v),
{
}

/// A dtype is quantized exactly when its blocks hold more than one element.
pub proof fn lemma_quantized_means_blocks(d: GgufDtype)
    ensures
        d.quantized() <==> (d.block_elems() matches Some(e) && e > 1),
{
}

/// A tensor's stored bytes are whole ggml blocks of its type number: with a
/// layout of `e` elements in `s` bytes, a tensor whose element count is a
/// multiple of `e` takes `elements / e * s` bytes, and any other count has no
/// stored size; a type number without a layout has none either. (So a
/// 4096 x 4096 `Q3_K` tensor takes 65536 blocks of 110 bytes.)
pub proof fn lemma_stored_bytes_are_ggml_blocks(t: TensorView)
    ensures
        ggml_block(t.dtype) is None ==> t.stored_bytes() is None,
        ggml_block(t.dtype) matches Some((e, s)) ==> ((t.elements() % e == 0 <==> t.stored_bytes()
            is Some) && (t.elements() % e == 0 ==> t.stored_bytes() == Some(t.elements() / e * s))),
{
    let d = dtype_of_id(t.dtype);
    lemma_dtype_id_round_trip(t.dtype);
    lemma_ggml_numbers_are_assigned(t.dtype);
    lemma_block_layouts_are_ggml(d);
}

/// The field widths each version reads a header with: v1 reads every count
/// and length (tensor and pair counts, key, string and name lengths, array
/// counts) as a 4-byte u32; v2 reads the tensor and pair counts and array
/// counts as u64 and key, string and name lengths as u32; v3 reads them all
/// as u64.
pub proof fn lemma_version_layouts(b: Seq<u8>)
    requires
        b.len() >= 8,
        b.subrange(0, 4) == gguf_magic(),
    ensures
        take_u32(b, 4)->Ok_0.0 == 1 ==> parse_header(b) == parse_rest(
            b,
            8,
            1,
            GgufWireFormat {
                header_count_width: IntWidth::U32,
                key_width: IntWidth::U32,
                string_width: IntWidth::U32,
                array_count_width: IntWidth::U32,
                tensor_name_width: IntWidth::U32,
            },
        ),
        take_u32(b, 4)->Ok_0.0 == 2 ==> parse_header(b) == parse_rest(
            b,
            8,
            2,
            GgufWireFormat {
                header_count_width: IntWidth::U64,
                key_width: IntWidth::U32,
                string_width: IntWidth::U32,
                array_count_width: IntWidth::U64,
                tensor_name_width: IntWidth::U32,
            },
        ),
        take_u32(b, 4)->Ok_0.0 == 3 ==> parse_header(b) == parse_rest(
            b,
            8,
            3,
            GgufWireFormat {
                header_count_width: IntWidth::U64,
                key_width: IntWidth::U64,
                string_width: IntWidth::U64,
                array_count_width: IntWidth::U64,
                tensor_name_width: IntWidth::U64,
            },
        ),
{
    assert(take_bytes(b, 0, 4) == Ok::<(Seq<u8>, int), crate::grammar::ParseFault>(
        (b.subrange(0, 4), 4),
    ));
}

/// The formats suggested for a layer: none unless its name marks it as an
/// embedding or output layer; for such a layer, F16 exactly when its dtype is
/// quantized other than `Q4_0`, and F32 exactly when its dtype is quantized
/// and its name holds `output`, F16 first; nothing else.
pub proof fn lemma_layer_suggestions(name: Seq<char>, d: GgufDtype)
    ensures
        !suspicious_name(unicode_lowercase(name)) ==> layer_suggestions(name, d).len() == 0,
        suspicious_name(unicode_lowercase(name)) ==> {
            let r = layer_suggestions(name, d);
            &&& r.contains(GgufDtype::F16) <==> (d.quantized() && d != GgufDtype::Q4_0)
            &&& r.contains(GgufDtype::F32) <==> (d.quantized() && occurs_in(name, "output"@))
            &&& r.contains(GgufDtype::F16) ==> r[0] == GgufDtype::F16
            &&& forall|i: int| 0 <= i < r.len() ==> #[trigger] r[i] == GgufDtype::F16 || r[i]
                == GgufDtype::F32
            &&& r.no_duplicates()
        },
{
    let r = layer_suggestions(name, d);
    if suspicious_name(unicode_lowercase(name)) {
        if d.quantized() && d != GgufDtype::Q4_0 {
            assert(r[0] == GgufDtype::F16);
        }
        if d.quantized() && occurs_in(name, "output"@) {
            assert(r[r.len() - 1] == GgufDtype::F32);
        }
    }
}

} // verus!
