//! The error type of the library.
use std::io;
use std::string::FromUtf8Error;
use vstd::prelude::*;

verus! {

/// `std::io::Error`, carried through unchanged in [`GgufError::Binary`].
#[verifier::external_type_specification]
#[verifier::external_body]
pub struct ExIoError(io::Error);

/// `std::string::FromUtf8Error`, carried through unchanged in [`GgufError::Utf8`].
#[verifier::external_type_specification]
#[verifier::external_body]
pub struct ExFromUtf8Error(FromUtf8Error);

/// Everything that can go wrong while reading, sizing or writing a GGUF file.
#[derive(Debug)]
pub enum GgufError {
    Io(String),
    InvalidMagic(String),
    UnsupportedVersion(u32),
    InvalidValueType(u32),
    Utf8(FromUtf8Error),
    Binary(io::Error),
    UnexpectedEof { expected: usize, actual: usize },
    KeyLengthOutOfRange(u64),
    TensorNameLengthOutOfRange(u64),
    InvalidTensor(String),
    QuantizationNotSupported(String),
    AlignmentOutOfRange(u32),
    ArrayLengthOutOfRange(u64),
    ArrayTooLarge(usize),
    InvalidMetadata(String),
    UnsupportedArrayElementType(u32),
}

/// `std::io::Error::new` with kind `UnexpectedEof` and the message that
/// `Read::read_exact` gives when the input ends early. Nothing is stated of
/// the value: `io::Error` is opaque here.
#[verifier::external_body]
pub(crate) fn unexpected_eof() -> io::Error {
    io::Error::new(io::ErrorKind::UnexpectedEof, "failed to fill whole buffer")
}

} // verus!
