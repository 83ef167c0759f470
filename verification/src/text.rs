//! Text helpers: UTF-8 decoding, byte-wise string comparison and the
//! messages that go into errors.
use std::string::FromUtf8Error;
use vstd::prelude::*;
use vstd::string::*;
use vstd::utf8::*;

verus! {

broadcast use {encode_utf8_decode_utf8, encode_utf8_valid_utf8};

/// What `String::from_utf8_lossy` makes of `bytes`: the decoded text, with
/// U+FFFD in place of each ill-formed sequence.
pub uninterp spec fn utf8_lossy(bytes: Seq<u8>) -> Seq<char>;

/// `String::from_utf8`: succeeds exactly on well-formed UTF-8 and then holds
/// the decoded characters.
#[verifier::external_body]
pub(crate) fn string_from_utf8(bytes: Vec<u8>) -> (r: Result<String, FromUtf8Error>)
    ensures
        r is Ok <==> valid_utf8(bytes@),
        r matches Ok(s) ==> s@ == decode_utf8(bytes@),
{
    String::from_utf8(bytes)
}

/// `String::from_utf8_lossy(bytes).to_string()`: well-formed input decodes
/// as usual; what it makes of other input is only named.
#[verifier::external_body]
pub(crate) fn lossy_string(bytes: &[u8]) -> (s: String)
    ensures
        s@ == utf8_lossy(bytes@),
        valid_utf8(bytes@) ==> s@ == decode_utf8(bytes@),
{
    String::from_utf8_lossy(bytes).to_string()
}

/// Two strings are equal exactly when their UTF-8 encodings are.
pub proof fn lemma_encoding_injective(a: Seq<char>, b: Seq<char>)
    ensures
        (encode_utf8(a) == encode_utf8(b)) <==> (a == b),
{
    if encode_utf8(a) == encode_utf8(b) {
        assert(decode_utf8(encode_utf8(a)) == a);
        assert(decode_utf8(encode_utf8(b)) == b);
    }
}

/// Compares two strings byte by byte.
pub fn str_eq(a: &str, b: &str) -> (r: bool)
    ensures
        r == (a@ == b@),
{
    let x = a.as_bytes();
    let y = b.as_bytes();
    proof {
        lemma_encoding_injective(a@, b@);
    }
    if x.len() != y.len() {
        return false;
    }
    let mut i: usize = 0;
    while i < x.len()
        invariant
            x.len() == y.len(),
            i <= x.len(),
            x@ == encode_utf8(a@),
            y@ == encode_utf8(b@),
            forall|j: int| 0 <= j < i ==> x@[j] == y@[j],
        decreases x.len() - i,
    {
        if x[i] != y[i] {
            proof {
                lemma_encoding_injective(a@, b@);
            }
            return false;
        }
        i = i + 1;
    }
    assert(x@ =~= y@);
    true
}

/// The decimal digit `d` (taken modulo 10).
pub open spec fn digit_char(d: nat) -> char {
    let m = d % 10;
    if m == 0 {
        '0'
    } else if m == 1 {
        '1'
    } else if m == 2 {
        '2'
    } else if m == 3 {
        '3'
    } else if m == 4 {
        '4'
    } else if m == 5 {
        '5'
    } else if m == 6 {
        '6'
    } else if m == 7 {
        '7'
    } else if m == 8 {
        '8'
    } else {
        '9'
    }
}

/// `n` written in decimal, without leading zeros.
pub open spec fn decimal(n: nat) -> Seq<char>
    decreases n,
{
    if n < 10 {
        seq![digit_char(n)]
    } else {
        decimal(n / 10) + seq![digit_char(n % 10)]
    }
}

/// The one-character string of the decimal digit `d`.
pub(crate) fn digit_str(d: u32) -> (r: &'static str)
    requires
        d < 10,
    ensures
        r@ == seq![digit_char(d as nat)],
{
    match d {
        0 => {
            proof {
                reveal_strlit("0");
            }
            "0"
        },
        1 => {
            proof {
                reveal_strlit("1");
            }
            "1"
        },
        2 => {
            proof {
                reveal_strlit("2");
            }
            "2"
        },
        3 => {
            proof {
                reveal_strlit("3");
            }
            "3"
        },
        4 => {
            proof {
                reveal_strlit("4");
            }
            "4"
        },
        5 => {
            proof {
                reveal_strlit("5");
            }
            "5"
        },
        6 => {
            proof {
                reveal_strlit("6");
            }
            "6"
        },
        7 => {
            proof {
                reveal_strlit("7");
            }
            "7"
        },
        8 => {
            proof {
                reveal_strlit("8");
            }
            "8"
        },
        _ => {
            proof {
                reveal_strlit("9");
            }
            "9"
        },
    }
}

/// Appends `v` in decimal.
pub(crate) fn push_decimal(out: &mut String, v: u64)
    ensures
        final(out)@ == old(out)@ + decimal(v as nat),
    decreases v,
{
    if v >= 10 {
        push_decimal(out, v / 10);
    }
    out.append(digit_str((v % 10) as u32));
}

/// The message for a dtype without a block layout.
pub open spec fn no_block_size_text(dtype: u32, dtype_name: Seq<char>) -> Seq<char> {
    "dtype "@ + decimal(dtype as nat) + " ("@ + dtype_name + ") has no known block size"@
}

/// The message for a dtype without a block layout (see
/// [`no_block_size_text`]).
pub(crate) fn msg_no_block_size(dtype: u32, dtype_name: &str) -> (r: String)
    ensures
        r@ == no_block_size_text(dtype, dtype_name@),
{
    let mut m = String::new();
    m.append("dtype ");
    push_decimal(&mut m, dtype as u64);
    m.append(" (");
    m.append(dtype_name);
    m.append(") has no known block size");
    assert(m@ =~= no_block_size_text(dtype, dtype_name@));
    m
}

/// The message for an element count that is not a whole number of blocks.
pub open spec fn partial_block_text(
    name: Seq<char>,
    elements: nat,
    block: nat,
    dtype: u32,
    dtype_name: Seq<char>,
) -> Seq<char> {
    "tensor '"@ + name + "' has "@ + decimal(elements) + " elements, not a multiple of the "@
        + decimal(block) + "-element block for dtype "@ + decimal(dtype as nat) + " ("@
        + dtype_name + ")"@
}

/// The message for an element count that is not a whole number of blocks
/// (see [`partial_block_text`]).
pub(crate) fn msg_partial_block(
    name: &str,
    elements: u64,
    block: usize,
    dtype: u32,
    dtype_name: &str,
) -> (r: String)
    ensures
        r@ == partial_block_text(name@, elements as nat, block as nat, dtype, dtype_name@),
{
    let mut m = String::new();
    m.append("tensor '");
    m.append(name);
    m.append("' has ");
    push_decimal(&mut m, elements);
    m.append(" elements, not a multiple of the ");
    push_decimal(&mut m, block as u64);
    m.append("-element block for dtype ");
    push_decimal(&mut m, dtype as u64);
    m.append(" (");
    m.append(dtype_name);
    m.append(")");
    assert(m@ =~= partial_block_text(name@, elements as nat, block as nat, dtype, dtype_name@));
    m
}

/// The message for an element count or a stored size beyond `u64`.
pub open spec fn size_overflow_text(name: Seq<char>) -> Seq<char> {
    "tensor '"@ + name + "' stored size overflow"@
}

/// The message for an element count or a stored size beyond `u64` (see
/// [`size_overflow_text`]).
pub(crate) fn msg_size_overflow(name: &str) -> (r: String)
    ensures
        r@ == size_overflow_text(name@),
{
    let mut m = String::new();
    m.append("tensor '");
    m.append(name);
    m.append("' stored size overflow");
    assert(m@ =~= size_overflow_text(name@));
    m
}

/// The message for counts above the limit.
pub open spec fn count_limit_text(kv_count: nat, tensor_count: nat) -> Seq<char> {
    "Counts exceed maximum: kv="@ + decimal(kv_count) + ", tensors="@ + decimal(tensor_count)
}

/// The message for counts above the limit (see [`count_limit_text`]).
pub(crate) fn msg_count_limit(kv_count: u64, tensor_count: u64) -> (r: String)
    ensures
        r@ == count_limit_text(kv_count as nat, tensor_count as nat),
{
    let mut m = String::new();
    m.append("Counts exceed maximum: kv=");
    push_decimal(&mut m, kv_count);
    m.append(", tensors=");
    push_decimal(&mut m, tensor_count);
    assert(m@ =~= count_limit_text(kv_count as nat, tensor_count as nat));
    m
}

/// What `str::to_lowercase` makes of `s`: each character replaced by its
/// lowercase mapping under the Unicode tables.
pub uninterp spec fn unicode_lowercase(s: Seq<char>) -> Seq<char>;

/// `str::to_lowercase`. What it returns is only named.
#[verifier::external_body]
pub(crate) fn to_lowercase(s: &str) -> (r: String)
    ensures
        r@ == unicode_lowercase(s@),
{
    s.to_lowercase()
}

/// Whether `needle` occurs in `hay` as a run of consecutive characters.
pub open spec fn occurs_in(hay: Seq<char>, needle: Seq<char>) -> bool {
    exists|i: int|
        0 <= i && i + needle.len() <= hay.len() && #[trigger] hay.subrange(i, i + needle.len())
            == needle
}

/// `str::contains` with a string pattern: true exactly when `needle` occurs
/// in `hay` (an empty needle occurs everywhere).
#[verifier::external_body]
pub(crate) fn str_contains(hay: &str, needle: &str) -> (r: bool)
    ensures
        r == occurs_in(hay@, needle@),
{
    hay.contains(needle)
}

} // verus!
