//! Building GGUF files: a writer that collects metadata, tensor descriptors
//! and tensor data, and lays them out as the bytes of a file in the layout
//! of its version.
use crate::error::GgufError;
use crate::grammar::{
    align_up, array_elem_type, emit_elems, emit_header, emit_kv_pair, emit_kv_pairs, emit_kv_value,
    emit_string, emit_tensor, emit_tensors, emit_u64s, gguf_magic, layout_of, le_bytes_int,
};
use crate::le::{le_bytes_u16, le_bytes_u32, le_bytes_u64, le_u16_bytes, le_u32_bytes, le_u64_bytes};
use crate::text::str_eq;
use crate::text::{decimal, push_decimal};
use crate::types::{
    kv_pairs_view, product_fits, tensors_view, GgufKvPair, GgufKvValue, GgufTensorInfo,
    GgufValueType, GgufVersion, GgufWireFormat, IntWidth, KvPairView, KvValueView, TensorView,
};
use vstd::prelude::*;
use vstd::string::*;
use vstd::utf8::*;

verus! {

/// A tensor's name and raw data, as handed to the writer.
pub type TensorDataView = (Seq<char>, Seq<u8>);

/// GGUF file writer for serializing parsed models back to disk.
///
/// Writes the layout of its version (v3 unless set: u64 counts and length
/// prefixes) with the data section aligned to the writer's alignment (256
/// unless set). The writer
/// writes no `general.alignment` of its own: a reader finds the data where
/// the writer put it when the pairs given to the writer ask for the same
/// alignment (a reader's default is 32).
pub struct GgufWriter {
    version: u32,
    kv_pairs: Vec<GgufKvPair>,
    tensors: Vec<GgufTensorInfo>,
    tensor_data: Vec<(String, Vec<u8>)>,
    alignment: u64,
}

/// The view of a [`GgufWriter`].
pub struct WriterView {
    pub version: u32,
    pub kv_pairs: Seq<KvPairView>,
    pub tensors: Seq<TensorView>,
    pub tensor_data: Seq<TensorDataView>,
    pub alignment: u64,
}

/// The views of the tensor data entries.
pub open spec fn tensor_data_view(v: Seq<(String, Vec<u8>)>) -> Seq<TensorDataView> {
    v.map_values(|e: (String, Vec<u8>)| (e.0@, e.1@))
}

impl View for GgufWriter {
    type V = WriterView;

    closed spec fn view(&self) -> WriterView {
        WriterView {
            version: self.version,
            kv_pairs: kv_pairs_view(self.kv_pairs@),
            tensors: tensors_view(self.tensors@),
            tensor_data: tensor_data_view(self.tensor_data@),
            alignment: self.alignment,
        }
    }
}

/// The first tensor descriptor named `name`.
pub open spec fn find_tensor(ts: Seq<TensorView>, name: Seq<char>) -> Option<TensorView>
    decreases ts.len(),
{
    if ts.len() == 0 {
        None
    } else if ts[0].name == name {
        Some(ts[0])
    } else {
        find_tensor(ts.drop_first(), name)
    }
}

/// Why tensor data is refused.
pub enum WriteFault {
    /// The named tensor's size cannot be computed (see `stored_size`).
    UnsizedTensor(TensorView),
    /// The data for the named tensor is not as long as its size (the name,
    /// the size, the data's length).
    SizeMismatch(Seq<char>, nat, nat),
}

/// The error that the writer reports for `f`.
pub open spec fn write_reports(e: GgufError, f: WriteFault) -> bool {
    match f {
        WriteFault::UnsizedTensor(t) => e matches GgufError::InvalidTensor(m) && m@
            == t.stored_size_error(),
        WriteFault::SizeMismatch(name, expected, actual) => e matches GgufError::Io(m) && m@
            == size_mismatch_text(name, expected, actual),
    }
}

/// The message for data of the wrong size: the tensor's name, its size and
/// the data's length.
pub open spec fn size_mismatch_text(name: Seq<char>, expected: nat, actual: nat) -> Seq<char> {
    "tensor '"@ + name + "' data size mismatch: expected "@ + decimal(expected) + ", got "@
        + decimal(actual)
}

/// The message for data of the wrong size (see [`size_mismatch_text`]).
fn size_mismatch_message(name: &str, expected: usize, actual: usize) -> (r: String)
    ensures
        r@ == size_mismatch_text(name@, expected as nat, actual as nat),
{
    let mut m = String::new();
    m.append("tensor '");
    m.append(name);
    m.append("' data size mismatch: expected ");
    push_decimal(&mut m, expected as u64);
    m.append(", got ");
    push_decimal(&mut m, actual as u64);
    assert(m@ =~= size_mismatch_text(name@, expected as nat, actual as nat));
    m
}

/// The check on one data entry: data for a described tensor must be as long
/// as that tensor's size; data for an undescribed name is taken as it is.
pub open spec fn entry_check(ts: Seq<TensorView>, entry: TensorDataView) -> Result<(), WriteFault> {
    match find_tensor(ts, entry.0) {
        None => Ok(()),
        Some(t) => match t.stored_bytes() {
            Some(n) => if !product_fits(t.shape) || n > u64::MAX {
                Err(WriteFault::UnsizedTensor(t))
            } else if entry.1.len() == (n as u64) as usize {
                Ok(())
            } else {
                Err(
                    WriteFault::SizeMismatch(
                        entry.0,
                        ((n as u64) as usize) as nat,
                        entry.1.len(),
                    ),
                )
            },
            None => Err(WriteFault::UnsizedTensor(t)),
        },
    }
}

/// The data section: the entries' data in order, or the first entry's fault.
pub open spec fn data_section(ts: Seq<TensorView>, data: Seq<TensorDataView>) -> Result<
    Seq<u8>,
    WriteFault,
>
    decreases data.len(),
{
    if data.len() == 0 {
        Ok(Seq::empty())
    } else {
        match data_section(ts, data.drop_last()) {
            Err(f) => Err(f),
            Ok(bytes) => match entry_check(ts, data.last()) {
                Err(f) => Err(f),
                Ok(_) => Ok(bytes + data.last().1),
            },
        }
    }
}

/// Where the writer puts the data section: the length of the header it
/// writes, rounded up to the alignment.
pub open spec fn planned_data_start(w: WriterView) -> int {
    align_up(emit_header(w.version, w.kv_pairs, w.tensors).len() as int, w.alignment as int)
}

/// The header bytes followed by zeros up to the planned data start (none
/// when the header is already past it).
pub open spec fn padded_header(w: WriterView) -> Seq<u8> {
    let h = emit_header(w.version, w.kv_pairs, w.tensors);
    let pad = if h.len() < planned_data_start(w) {
        planned_data_start(w) - h.len()
    } else {
        0
    };
    h + Seq::new(pad as nat, |i: int| 0u8)
}

/// The bytes of the file the writer writes, or the fault that stops it.
pub open spec fn writer_image(w: WriterView) -> Result<Seq<u8>, WriteFault> {
    match data_section(w.tensors, w.tensor_data) {
        Ok(d) => Ok(padded_header(w) + d),
        Err(f) => Err(f),
    }
}

/// The data section start fits in `u64`.
pub open spec fn writer_sizes_fit(w: WriterView) -> bool {
    planned_data_start(w) <= u64::MAX
}

/// Appends bytes.
fn push_bytes(out: &mut Vec<u8>, bytes: &[u8])
    ensures
        final(out)@ == old(out)@ + bytes@,
{
    let ghost start = out@;
    let mut i: usize = 0;
    while i < bytes.len()
        invariant
            i <= bytes.len(),
            out@ == start + bytes@.take(i as int),
        decreases bytes.len() - i,
    {
        out.push(bytes[i]);
        i = i + 1;
        assert(out@ =~= start + bytes@.take(i as int));
    }
    assert(bytes@.take(bytes.len() as int) =~= bytes@);
}

/// Appends a little-endian `u16`.
fn push_u16(out: &mut Vec<u8>, v: u16)
    ensures
        final(out)@ == old(out)@ + le_bytes_u16(v),
{
    let b = le_u16_bytes(v);
    out.push(b[0]);
    out.push(b[1]);
    assert(out@ =~= old(out)@ + le_bytes_u16(v));
}

/// Appends a little-endian `u32`.
fn push_u32(out: &mut Vec<u8>, v: u32)
    ensures
        final(out)@ == old(out)@ + le_bytes_u32(v),
{
    let b = le_u32_bytes(v);
    out.push(b[0]);
    out.push(b[1]);
    out.push(b[2]);
    out.push(b[3]);
    assert(out@ =~= old(out)@ + le_bytes_u32(v));
}

/// Appends a little-endian `u64`.
fn push_u64(out: &mut Vec<u8>, v: u64)
    ensures
        final(out)@ == old(out)@ + le_bytes_u64(v),
{
    let b = le_u64_bytes(v);
    out.push(b[0]);
    out.push(b[1]);
    out.push(b[2]);
    out.push(b[3]);
    out.push(b[4]);
    out.push(b[5]);
    out.push(b[6]);
    out.push(b[7]);
    assert(out@ =~= old(out)@ + le_bytes_u64(v));
}

/// Appends `n` in the width `w` (truncated to `u32` for a u32 field).
fn push_int(out: &mut Vec<u8>, w: IntWidth, n: u64)
    ensures
        final(out)@ == old(out)@ + le_bytes_int(w, n),
{
    match w {
        IntWidth::U32 => push_u32(out, n as u32),
        IntWidth::U64 => push_u64(out, n),
    }
}

/// Appends a string with its byte length in front, in the width `w`.
fn push_string(out: &mut Vec<u8>, s: &str, w: IntWidth)
    ensures
        final(out)@ == old(out)@ + emit_string(s@, w),
{
    let bytes = s.as_bytes();
    push_int(out, w, bytes.len() as u64);
    push_bytes(out, bytes);
    assert(out@ =~= old(out)@ + emit_string(s@, w));
}

/// Dropping the descriptors before `i` keeps the first match when none of them matches.
proof fn lemma_find_tensor_skip(ts: Seq<TensorView>, name: Seq<char>, i: int)
    requires
        0 <= i < ts.len(),
        ts[i].name != name,
    ensures
        find_tensor(ts.skip(i), name) == find_tensor(ts.skip(i + 1), name),
{
    assert(ts.skip(i).drop_first() =~= ts.skip(i + 1));
}

/// The index of the first tensor descriptor named `name`.
fn tensor_index(ts: &[GgufTensorInfo], name: &str) -> (r: Option<usize>)
    ensures
        match r {
            Some(i) => i < ts@.len() && find_tensor(tensors_view(ts@), name@) == Some(ts@[i as int]@),
            None => find_tensor(tensors_view(ts@), name@) is None,
        },
{
    let ghost all = tensors_view(ts@);
    let mut i: usize = 0;
    assert(all.skip(0) =~= all);
    while i < ts.len()
        invariant
            i <= ts.len(),
            all == tensors_view(ts@),
            all.len() == ts@.len(),
            find_tensor(all, name@) == find_tensor(all.skip(i as int), name@),
        decreases ts.len() - i,
    {
        assert(all[i as int] == ts@[i as int]@);
        if str_eq(ts[i].name.as_str(), name) {
            assert(all.skip(i as int)[0] == all[i as int]);
            return Some(i);
        }
        proof {
            lemma_find_tensor_skip(all, name@, i as int);
        }
        i = i + 1;
    }
    None
}

/// Once a prefix of the data entries is refused, all of them are, for the same fault.
proof fn lemma_data_section_fail(ts: Seq<TensorView>, data: Seq<TensorDataView>, i: int)
    requires
        0 <= i <= data.len(),
        data_section(ts, data.take(i)) is Err,
    ensures
        data_section(ts, data) == data_section(ts, data.take(i)),
    decreases data.len(),
{
    if i == data.len() {
        assert(data.take(i) =~= data);
    } else {
        assert(data.drop_last().take(i) =~= data.take(i));
        lemma_data_section_fail(ts, data.drop_last(), i);
    }
}

impl GgufWriter {
    /// Create a new GGUF writer with v3 format and 256-byte alignment.
    pub fn new() -> (r: Self)
        ensures
            r@ == (WriterView {
                version: 3,
                kv_pairs: Seq::empty(),
                tensors: Seq::empty(),
                tensor_data: Seq::empty(),
                alignment: 256,
            }),
    {
        let r = GgufWriter {
            version: 3,
            kv_pairs: Vec::new(),
            tensors: Vec::new(),
            tensor_data: Vec::new(),
            alignment: 256,  // Default to 256-byte alignment as per llama.cpp
        };
        assert(r@.kv_pairs =~= Seq::<KvPairView>::empty());
        assert(r@.tensors =~= Seq::<TensorView>::empty());
        assert(r@.tensor_data =~= Seq::<TensorDataView>::empty());
        r
    }

    /// Set the GGUF version (1, 2, or 3): the number written in the header,
    /// and the layout the header is written in.
    pub fn with_version(self, version: u32) -> (r: Self)
        ensures
            r@ == (WriterView { version, ..self@ }),
    {
        let mut w = self;
        w.version = version;
        w
    }

    /// Set the alignment of the data section (default: 256 bytes). The
    /// writer does not record it: a reader aligns as `general.alignment`
    /// says (32 without it), so add that pair with the same value for the
    /// data to be found where it is written.
    pub fn with_alignment(self, alignment: u64) -> (r: Self)
        ensures
            r@ == (WriterView { alignment, ..self@ }),
    {
        let mut w = self;
        w.alignment = alignment;
        w
    }

    /// Add a key-value pair to the header.
    pub fn add_kv(&mut self, kv: GgufKvPair)
        ensures
            final(self)@ == (WriterView { kv_pairs: old(self)@.kv_pairs.push(kv@), ..old(self)@ }),
    {
        let ghost kv_view = kv@;
        self.kv_pairs.push(kv);
        assert(self@.kv_pairs =~= old(self)@.kv_pairs.push(kv_view));
    }

    /// Add tensor metadata.
    pub fn add_tensor(&mut self, tensor: GgufTensorInfo)
        ensures
            final(self)@ == (WriterView { tensors: old(self)@.tensors.push(tensor@), ..old(self)@ }),
    {
        let ghost t_view = tensor@;
        self.tensors.push(tensor);
        assert(self@.tensors =~= old(self)@.tensors.push(t_view));
    }

    /// Add raw tensor data (should match tensor names in order).
    pub fn add_tensor_data(&mut self, name: &str, data: Vec<u8>)
        ensures
            final(self)@ == (WriterView {
                tensor_data: old(self)@.tensor_data.push((name@, data@)),
                ..old(self)@
            }),
    {
        let ghost entry = (name@, data@);
        self.tensor_data.push((String::from_str(name), data));
        assert(self@.tensor_data =~= old(self)@.tensor_data.push(entry));
    }

    /// Align a position up to the next alignment boundary.
    fn align_up(&self, pos: u64, alignment: u64) -> (r: u64)
        requires
            align_up(pos as int, alignment as int) <= u64::MAX,
        ensures
            r == align_up(pos as int, alignment as int),
    {
        if alignment == 0 {
            return pos;
        }
        let remainder = pos % alignment;
        if remainder == 0 {
            pos
        } else {
            pos + (alignment - remainder)
        }
    }

    /// The layout the writer writes: its version's (v3's for a version
    /// other than 1, 2 or 3).
    fn layout(&self) -> (r: GgufWireFormat)
        ensures
            r == layout_of(self@.version),
    {
        match GgufVersion::from_u32(self.version) {
            Some(v) => v.wire_format(),
            None => GgufWireFormat::v3(),
        }
    }

    /// Write a KV value in the layout `format`.
    fn write_kv_value_v3(
        &self,
        out: &mut Vec<u8>,
        value_type: &GgufValueType,
        value: &GgufKvValue,
        format: &GgufWireFormat,
    )
        ensures
            final(out)@ == old(out)@ + emit_kv_value(*value_type, value@, *format),
        decreases value@,
    {
        let ghost start = out@;
        match value_type {
            GgufValueType::String => {
                if let GgufKvValue::String(s) = value {
                    push_string(out, s.as_str(), format.string_width);
                }
            },
            GgufValueType::Array => {
                if let GgufKvValue::Array(arr) = value {
                    let ghost a = value@->Array_0;
                    // Write element type
                    let elem_type = if arr.len() > 0 {
                        arr[0].value_type()
                    } else {
                        GgufValueType::Uint32
                    };
                    assert(elem_type == array_elem_type(a));
                    push_u32(out, elem_type.to_u32());
                    // Write element count
                    push_int(out, format.array_count_width, arr.len() as u64);
                    let ghost head = out@;
                    assert(a.take(0) =~= Seq::<KvValueView>::empty());
                    // Write elements
                    let mut i: usize = 0;
                    while i < arr.len()
                        invariant
                            i <= arr.len(),
                            value@ is Array,
                            a == value@->Array_0,
                            a.len() == arr@.len(),
                            forall|j: int| 0 <= j < arr@.len() ==> a[j] == #[trigger] arr@[j]@,
                            out@ == head + emit_elems(elem_type, a.take(i as int), *format),
                        decreases arr.len() - i,
                    {
                        proof {
                            let ghost sv = value@;
                            assert(sv->Array_0[i as int] == arr@[i as int]@);
                            assert(decreases_to!(sv => sv->Array_0));
                            assert(a.take(i + 1).drop_last() =~= a.take(i as int));
                            assert(a.take(i + 1).last() == arr@[i as int]@);
                        }
                        self.write_kv_value_v3(out, &elem_type, &arr[i], format);
                        i = i + 1;
                    }
                    assert(a.take(arr.len() as int) =~= a);
                    assert(out@ =~= start + emit_kv_value(*value_type, value@, *format));
                }
            },
            GgufValueType::Int8 => {
                if let GgufKvValue::Int8(v) = value {
                    out.push(*v as u8);
                    assert(out@ =~= start + emit_kv_value(*value_type, value@, *format));
                }
            },
            GgufValueType::Uint16 => {
                if let GgufKvValue::Uint16(v) = value {
                    push_u16(out, *v);
                }
            },
            GgufValueType::Int16 => {
                if let GgufKvValue::Int16(v) = value {
                    push_u16(out, *v as u16);
                }
            },
            GgufValueType::Uint32 => {
                if let GgufKvValue::Uint32(v) = value {
                    push_u32(out, *v);
                }
            },
            GgufValueType::Int32 => {
                if let GgufKvValue::Int32(v) = value {
                    push_u32(out, *v as u32);
                }
            },
            GgufValueType::Uint64 => {
                if let GgufKvValue::Uint64(v) = value {
                    push_u64(out, *v);
                }
            },
            GgufValueType::Int64 => {
                if let GgufKvValue::Int64(v) = value {
                    push_u64(out, *v as u64);
                }
            },
            GgufValueType::Float32 => {
                if let GgufKvValue::Float32(v) = value {
                    push_u32(out, *v);
                }
            },
            GgufValueType::Float64 => {
                if let GgufKvValue::Float64(v) = value {
                    push_u64(out, *v);
                }
            },
            GgufValueType::Bool => {
                if let GgufKvValue::Bool(v) = value {
                    out.push(if *v { 1u8 } else { 0u8 });
                    assert(out@ =~= start + emit_kv_value(*value_type, value@, *format));
                }
            },
            GgufValueType::Uint8 => {
                if let GgufKvValue::Uint8(v) = value {
                    out.push(*v);
                    assert(out@ =~= start + emit_kv_value(*value_type, value@, *format));
                }
            },
            GgufValueType::Float16 => {
                if let GgufKvValue::Float16(v) = value {
                    push_u16(out, *v);
                }
            },
            GgufValueType::Bfloat16 => {
                if let GgufKvValue::Bfloat16(v) = value {
                    // The high half of the f32 bits, as the reader widens it
                    push_u16(out, (*v >> 16u32) as u16);
                }
            },
            GgufValueType::Int8Array => {
                if let GgufKvValue::Int8Array(arr) = value {
                    push_u64(out, arr.len() as u64);
                    let ghost head = out@;
                    let ghost a = value@->Int8Array_0;
                    let mut i: usize = 0;
                    while i < arr.len()
                        invariant
                            i <= arr.len(),
                            a == arr@,
                            out@ == head + a.take(i as int).map_values(|x: i8| x as u8),
                        decreases arr.len() - i,
                    {
                        out.push(arr[i] as u8);
                        i = i + 1;
                        assert(out@ =~= head + a.take(i as int).map_values(|x: i8| x as u8));
                    }
                    assert(a.take(arr.len() as int) =~= a);
                    assert(out@ =~= start + emit_kv_value(*value_type, value@, *format));
                }
            },
            GgufValueType::Uint8Array => {
                if let GgufKvValue::Uint8Array(arr) = value {
                    push_u64(out, arr.len() as u64);
                    push_bytes(out, arr.as_slice());
                    assert(out@ =~= start + emit_kv_value(*value_type, value@, *format));
                }
            },
        }
        assert(out@ =~= start + emit_kv_value(*value_type, value@, *format));
    }

    /// Write a KV pair in the layout `format`.
    fn write_kv_pair_v3(&self, out: &mut Vec<u8>, kv: &GgufKvPair, format: &GgufWireFormat)
        ensures
            final(out)@ == old(out)@ + emit_kv_pair(kv@, *format),
    {
        // Key length, then the key
        push_string(out, kv.key.as_str(), format.key_width);
        // Value type (u32 LE)
        push_u32(out, kv.value_type.to_u32());
        // Value based on type
        self.write_kv_value_v3(out, &kv.value_type, &kv.value, format);
        assert(out@ =~= old(out)@ + emit_kv_pair(kv@, *format));
    }

    /// Write tensor info in the layout `format`.
    fn write_tensor_info_v3(&self, out: &mut Vec<u8>, tensor: &GgufTensorInfo, format: &GgufWireFormat)
        ensures
            final(out)@ == old(out)@ + emit_tensor(tensor@, *format),
    {
        // Name length, then the name
        push_string(out, tensor.name.as_str(), format.tensor_name_width);
        // Number of dimensions (u32 LE)
        push_u32(out, tensor.ndims());
        // Shape (n_dims * u64 LE)
        let ghost head = out@;
        let mut i: usize = 0;
        assert(tensor.shape@.take(0) =~= Seq::<u64>::empty());
        while i < tensor.shape.len()
            invariant
                i <= tensor.shape.len(),
                out@ == head + emit_u64s(tensor.shape@.take(i as int)),
            decreases tensor.shape.len() - i,
        {
            proof {
                assert(tensor.shape@.take(i + 1).drop_last() =~= tensor.shape@.take(i as int));
            }
            push_u64(out, tensor.shape[i]);
            i = i + 1;
        }
        assert(tensor.shape@.take(tensor.shape.len() as int) =~= tensor.shape@);
        // Data type (u32 LE)
        push_u32(out, tensor.dtype);
        // Offset (u64 LE)
        push_u64(out, tensor.offset);
        assert(out@ =~= old(out)@ + emit_tensor(tensor@, *format));
    }
}


impl Default for GgufWriter {
    fn default() -> (r: Self)
        ensures
            r@ == (WriterView {
                version: 3,
                kv_pairs: Seq::empty(),
                tensors: Seq::empty(),
                tensor_data: Seq::empty(),
                alignment: 256,
            }),
    {
        Self::new()
    }
}

impl GgufWriter {
    /// The header: magic, version, tensor count, KV count, the KV pairs and
    /// the tensor descriptors, in the layout of the writer's version.
    fn header_bytes(&self) -> (r: Vec<u8>)
        ensures
            r@ == emit_header(self@.version, self@.kv_pairs, self@.tensors),
    {
        let ghost w = self@;
        let format = self.layout();
        let mut out: Vec<u8> = Vec::new();
        // 1. Magic, version, tensor count and KV count
        out.push(0x47u8);
        out.push(0x47u8);
        out.push(0x55u8);
        out.push(0x46u8);
        push_u32(&mut out, self.version);
        push_int(&mut out, format.header_count_width, self.tensors.len() as u64);
        push_int(&mut out, format.header_count_width, self.kv_pairs.len() as u64);
        assert(out@ =~= gguf_magic() + le_bytes_u32(w.version) + le_bytes_int(
            format.header_count_width,
            w.tensors.len() as u64,
        ) + le_bytes_int(format.header_count_width, w.kv_pairs.len() as u64));
        // 2. KV pairs section
        let ghost head = out@;
        let mut i: usize = 0;
        assert(w.kv_pairs.take(0) =~= Seq::<KvPairView>::empty());
        while i < self.kv_pairs.len()
            invariant
                i <= self.kv_pairs.len(),
                w == self@,
                w.kv_pairs.len() == self.kv_pairs@.len(),
                format == layout_of(w.version),
                out@ == head + emit_kv_pairs(w.kv_pairs.take(i as int), format),
            decreases self.kv_pairs.len() - i,
        {
            proof {
                assert(w.kv_pairs.take(i + 1).drop_last() =~= w.kv_pairs.take(i as int));
                assert(w.kv_pairs[i as int] == self.kv_pairs@[i as int]@);
            }
            self.write_kv_pair_v3(&mut out, &self.kv_pairs[i], &format);
            i = i + 1;
        }
        assert(w.kv_pairs.take(self.kv_pairs.len() as int) =~= w.kv_pairs);
        // 3. Tensor metadata section
        let ghost mid = out@;
        let mut j: usize = 0;
        assert(w.tensors.take(0) =~= Seq::<TensorView>::empty());
        while j < self.tensors.len()
            invariant
                j <= self.tensors.len(),
                w == self@,
                w.tensors.len() == self.tensors@.len(),
                format == layout_of(w.version),
                out@ == mid + emit_tensors(w.tensors.take(j as int), format),
            decreases self.tensors.len() - j,
        {
            proof {
                assert(w.tensors.take(j + 1).drop_last() =~= w.tensors.take(j as int));
                assert(w.tensors[j as int] == self.tensors@[j as int]@);
            }
            self.write_tensor_info_v3(&mut out, &self.tensors[j], &format);
            j = j + 1;
        }
        assert(w.tensors.take(self.tensors.len() as int) =~= w.tensors);
        assert(out@ =~= emit_header(w.version, w.kv_pairs, w.tensors));
        out
    }

    /// Serialize the file in memory.
    ///
    /// This lays out:
    /// 1. Header (magic + version + counts)
    /// 2. KV pairs section
    /// 3. Tensor metadata section
    /// 4. Data section (with alignment padding)
    ///
    /// Data for a described tensor must be exactly that tensor's stored
    /// size; data under a name no descriptor has is written as it is.
    pub fn to_bytes(&self) -> (r: Result<Vec<u8>, GgufError>)
        requires
            writer_sizes_fit(self@),
        ensures
            match writer_image(self@) {
                Ok(b) => r matches Ok(v) && v@ == b,
                Err(f) => r matches Err(e) && write_reports(e, f),
            },
    {
        let ghost w = self@;
        // 1-3. Header, pairs and tensor descriptors
        let mut out = self.header_bytes();
        // Data section start: the header's length rounded up to the alignment
        let header_size = out.len() as u64;
        let data_start = self.align_up(header_size, self.alignment);
        // 4. Padding up to the data section start
        let current_pos = out.len() as u64;
        let ghost hdr = out@;
        if current_pos < data_start {
            let padding = data_start - current_pos;
            let mut k: u64 = 0;
            while k < padding
                invariant
                    k <= padding,
                    out@ == hdr + Seq::new(k as nat, |x: int| 0u8),
                decreases padding - k,
            {
                out.push(0u8);
                k = k + 1;
                assert(out@ =~= hdr + Seq::new(k as nat, |x: int| 0u8));
            }
        } else {
            assert(out@ =~= hdr + Seq::new(0, |x: int| 0u8));
        }
        assert(out@ == padded_header(w));
        // 5. Tensor data
        let ghost ph = out@;
        let ghost mut d: Seq<u8> = Seq::empty();
        let mut e: usize = 0;
        assert(w.tensor_data.take(0) =~= Seq::<TensorDataView>::empty());
        while e < self.tensor_data.len()
            invariant
                e <= self.tensor_data.len(),
                w == self@,
                writer_sizes_fit(w),
                w.tensor_data.len() == self.tensor_data@.len(),
                data_section(w.tensors, w.tensor_data.take(e as int)) == Ok::<Seq<u8>, WriteFault>(d),
                out@ == ph + d,
            decreases self.tensor_data.len() - e,
        {
            let entry = &self.tensor_data[e];
            let ghost ev = w.tensor_data[e as int];
            assert(ev == (entry.0@, entry.1@));
            assert(w.tensor_data.take(e + 1).drop_last() =~= w.tensor_data.take(e as int));
            assert(w.tensor_data.take(e + 1).last() == ev);
            match tensor_index(self.tensors.as_slice(), entry.0.as_str()) {
                Some(t) => {
                    let tensor = &self.tensors[t];
                    assert(find_tensor(w.tensors, ev.0) == Some(tensor@));
                    let expected = match tensor.stored_size() {
                        Ok(s) => s as usize,
                        Err(err) => {
                            proof {
                                lemma_data_section_fail(w.tensors, w.tensor_data, e + 1);
                            }
                            return Err(err);
                        },
                    };
                    if entry.1.len() != expected {
                        proof {
                            lemma_data_section_fail(w.tensors, w.tensor_data, e + 1);
                        }
                        return Err(
                            GgufError::Io(
                                size_mismatch_message(entry.0.as_str(), expected, entry.1.len()),
                            ),
                        );
                    }
                    push_bytes(&mut out, entry.1.as_slice());
                },
                None => {
                    // No tensor info found, write as-is
                    push_bytes(&mut out, entry.1.as_slice());
                },
            }
            proof {
                d = d + ev.1;
            }
            e = e + 1;
        }
        assert(w.tensor_data.take(self.tensor_data.len() as int) =~= w.tensor_data);
        Ok(out)
    }
}

impl GgufWriter {
    /// Whether the data section start that [`GgufWriter::to_bytes`] computes
    /// fits in `u64` (see [`writer_sizes_fit`]).
    pub fn sizes_fit(&self) -> (r: bool)
        ensures
            r == writer_sizes_fit(self@),
    {
        let header = self.header_bytes();
        let pos = header.len() as u64;
        if self.alignment == 0 {
            return true;
        }
        let remainder = pos % self.alignment;
        remainder == 0 || pos.checked_add(self.alignment - remainder).is_some()
    }
}

} // verus!
