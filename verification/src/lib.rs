//! Reading and writing GGUF model files (the format of llama.cpp and
//! Ollama): the header grammar over bytes, a parser proved to follow it, a
//! writer whose output is proved to parse back, and the data model of
//! metadata values, tensor dtypes and tensor descriptors.
pub mod error;
pub mod format_inference;
pub mod grammar;
pub mod laws;
pub mod le;
pub mod parser;
pub mod round_trip;
pub mod src;
pub mod text;
pub mod trailing;
pub mod types;
pub mod writer;

pub use error::GgufError;
pub use parser::{
    compute_data_section_start, extract_tensor_bytes, extract_tensor_bytes_from, parse_gguf_bytes,
    tensor_bytes_for_dtype,
};
pub use types::{
    GgufDtype, GgufHeader, GgufKvPair, GgufKvValue, GgufTensorInfo, GgufValueType, GgufVersion,
    GgufWireFormat, IntWidth,
};
pub use writer::GgufWriter;
