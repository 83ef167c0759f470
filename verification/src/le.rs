//! Little-endian integer encodings used by the GGUF wire format.
//!
//! Decoding and encoding go through `byteorder::LittleEndian`; the spec
//! functions here state what a little-endian field is, and the lemmas prove
//! that decoding an encoded field gives the value back.
use byteorder::{ByteOrder, LittleEndian};
use vstd::prelude::*;

verus! {

/// The value of two bytes read least significant first.
pub open spec fn le_u16(b: Seq<u8>) -> u16 {
    (b[0] as u16) | ((b[1] as u16) << 8u16)
}

/// The value of four bytes read least significant first.
pub open spec fn le_u32(b: Seq<u8>) -> u32 {
    (b[0] as u32) | ((b[1] as u32) << 8u32) | ((b[2] as u32) << 16u32) | ((b[3] as u32) << 24u32)
}

/// The value of eight bytes read least significant first.
pub open spec fn le_u64(b: Seq<u8>) -> u64 {
    (b[0] as u64) | ((b[1] as u64) << 8u64) | ((b[2] as u64) << 16u64) | ((b[3] as u64) << 24u64)
        | ((b[4] as u64) << 32u64) | ((b[5] as u64) << 40u64) | ((b[6] as u64) << 48u64)
        | ((b[7] as u64) << 56u64)
}

/// The two bytes of `n`, least significant first.
pub open spec fn le_bytes_u16(n: u16) -> Seq<u8> {
    seq![(n & 0xff) as u8, (n >> 8u16) as u8]
}

/// The four bytes of `n`, least significant first.
pub open spec fn le_bytes_u32(n: u32) -> Seq<u8> {
    seq![
        (n & 0xff) as u8,
        ((n >> 8u32) & 0xff) as u8,
        ((n >> 16u32) & 0xff) as u8,
        (n >> 24u32) as u8,
    ]
}

/// The eight bytes of `n`, least significant first.
pub open spec fn le_bytes_u64(n: u64) -> Seq<u8> {
    seq![
        (n & 0xff) as u8,
        ((n >> 8u64) & 0xff) as u8,
        ((n >> 16u64) & 0xff) as u8,
        ((n >> 24u64) & 0xff) as u8,
        ((n >> 32u64) & 0xff) as u8,
        ((n >> 40u64) & 0xff) as u8,
        ((n >> 48u64) & 0xff) as u8,
        (n >> 56u64) as u8,
    ]
}

/// Decoding the little-endian bytes of a `u16` gives it back.
pub proof fn lemma_le_u16_round_trip(n: u16)
    ensures
        le_u16(le_bytes_u16(n)) == n,
        le_bytes_u16(n).len() == 2,
{
    let b0 = (n & 0xff) as u8;
    let b1 = (n >> 8u16) as u8;
    assert((b0 as u16) | ((b1 as u16) << 8u16) == n) by (bit_vector)
        requires
            b0 == (n & 0xff) as u8,
            b1 == (n >> 8u16) as u8,
    ;
}

/// Decoding the little-endian bytes of a `u32` gives it back.
pub proof fn lemma_le_u32_round_trip(n: u32)
    ensures
        le_u32(le_bytes_u32(n)) == n,
        le_bytes_u32(n).len() == 4,
{
    let b0 = (n & 0xff) as u8;
    let b1 = ((n >> 8u32) & 0xff) as u8;
    let b2 = ((n >> 16u32) & 0xff) as u8;
    let b3 = (n >> 24u32) as u8;
    assert((b0 as u32) | ((b1 as u32) << 8u32) | ((b2 as u32) << 16u32) | ((b3 as u32) << 24u32)
        == n) by (bit_vector)
        requires
            b0 == (n & 0xff) as u8,
            b1 == ((n >> 8u32) & 0xff) as u8,
            b2 == ((n >> 16u32) & 0xff) as u8,
            b3 == (n >> 24u32) as u8,
    ;
}

/// Decoding the little-endian bytes of a `u64` gives it back.
pub proof fn lemma_le_u64_round_trip(n: u64)
    ensures
        le_u64(le_bytes_u64(n)) == n,
        le_bytes_u64(n).len() == 8,
{
    let b0 = (n & 0xff) as u8;
    let b1 = ((n >> 8u64) & 0xff) as u8;
    let b2 = ((n >> 16u64) & 0xff) as u8;
    let b3 = ((n >> 24u64) & 0xff) as u8;
    let b4 = ((n >> 32u64) & 0xff) as u8;
    let b5 = ((n >> 40u64) & 0xff) as u8;
    let b6 = ((n >> 48u64) & 0xff) as u8;
    let b7 = (n >> 56u64) as u8;
    assert((b0 as u64) | ((b1 as u64) << 8u64) | ((b2 as u64) << 16u64) | ((b3 as u64) << 24u64)
        | ((b4 as u64) << 32u64) | ((b5 as u64) << 40u64) | ((b6 as u64) << 48u64) | ((b7 as u64)
        << 56u64) == n) by (bit_vector)
        requires
            b0 == (n & 0xff) as u8,
            b1 == ((n >> 8u64) & 0xff) as u8,
            b2 == ((n >> 16u64) & 0xff) as u8,
            b3 == ((n >> 24u64) & 0xff) as u8,
            b4 == ((n >> 32u64) & 0xff) as u8,
            b5 == ((n >> 40u64) & 0xff) as u8,
            b6 == ((n >> 48u64) & 0xff) as u8,
            b7 == (n >> 56u64) as u8,
    ;
}

/// `byteorder::LittleEndian::read_u16` on the bytes from `pos`: it reads the
/// first two bytes of the slice it is given, least significant first.
#[verifier::external_body]
pub(crate) fn read_le_u16(bytes: &[u8], pos: usize) -> (v: u16)
    requires
        pos + 2 <= bytes@.len(),
    ensures
        v == le_u16(bytes@.subrange(pos as int, pos + 2)),
{
    LittleEndian::read_u16(&bytes[pos..])
}

/// `byteorder::LittleEndian::read_u32` on the bytes from `pos`: it reads the
/// first four bytes of the slice it is given, least significant first.
#[verifier::external_body]
pub(crate) fn read_le_u32(bytes: &[u8], pos: usize) -> (v: u32)
    requires
        pos + 4 <= bytes@.len(),
    ensures
        v == le_u32(bytes@.subrange(pos as int, pos + 4)),
{
    LittleEndian::read_u32(&bytes[pos..])
}

/// `byteorder::LittleEndian::read_u64` on the bytes from `pos`: it reads the
/// first eight bytes of the slice it is given, least significant first.
#[verifier::external_body]
pub(crate) fn read_le_u64(bytes: &[u8], pos: usize) -> (v: u64)
    requires
        pos + 8 <= bytes@.len(),
    ensures
        v == le_u64(bytes@.subrange(pos as int, pos + 8)),
{
    LittleEndian::read_u64(&bytes[pos..])
}

/// `byteorder::LittleEndian::write_u16` into a fresh two-byte buffer: the
/// buffer then holds `n` least significant byte first.
#[verifier::external_body]
pub(crate) fn le_u16_bytes(n: u16) -> (b: [u8; 2])
    ensures
        b@ == le_bytes_u16(n),
{
    let mut b = [0u8; 2];
    LittleEndian::write_u16(&mut b, n);
    b
}

/// `byteorder::LittleEndian::write_u32` into a fresh four-byte buffer: the
/// buffer then holds `n` least significant byte first.
#[verifier::external_body]
pub(crate) fn le_u32_bytes(n: u32) -> (b: [u8; 4])
    ensures
        b@ == le_bytes_u32(n),
{
    let mut b = [0u8; 4];
    LittleEndian::write_u32(&mut b, n);
    b
}

/// `byteorder::LittleEndian::write_u64` into a fresh eight-byte buffer: the
/// buffer then holds `n` least significant byte first.
#[verifier::external_body]
pub(crate) fn le_u64_bytes(n: u64) -> (b: [u8; 8])
    ensures
        b@ == le_bytes_u64(n),
{
    let mut b = [0u8; 8];
    LittleEndian::write_u64(&mut b, n);
    b
}

} // verus!
