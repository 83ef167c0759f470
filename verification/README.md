# pesti-gguf

A reader and writer for GGUF model weight files (the file type of llama.cpp,
Ollama and others), written in Verus: the header grammar is stated as spec
functions over bytes, the parser is proved to follow it, and the writer's
output is proved to parse back.

## Layout

- `src/grammar.rs` — the GGUF header grammar: each field as a spec function
  from bytes and a position to a value and the next position, or a fault.
  Also the layout that the writer emits, as spec functions.
- `src/parser.rs` — `parse_gguf_bytes`, proved to agree with the grammar for
  v1, v2 and v3 headers; `compute_data_section_start`; tensor data slicing.
- `src/writer.rs` — `GgufWriter`, whose `to_bytes` is proved to lay out the
  header (in the layout of the writer's version), the padding and the tensor
  data as stated.
- `src/round_trip.rs` — what the writer writes parses back to the same
  version, pairs and tensor descriptors, and the data sits where the parsed
  header says.
- `src/trailing.rs` — bytes after a header never change how it parses.
- `src/laws.rs` — id round trips for dtypes, value types and versions;
  alignment and size limits of every parsed header, and where its data
  section starts: at the first aligned position after the header's bytes,
  which is also what the size formula computes from the parsed header.
- `src/types.rs` — the data model: versions and wire widths, metadata values,
  dtypes with ggml's block layouts, tensor descriptors, the parsed header and
  its lookups.
- `src/src/types.rs` — a second data model with a wider dtype catalogue
  (K-quant mix labels), size estimates for partial blocks and hyperparameter
  lookups with fallback keys.
- `src/format_inference.rs` — the quantization layouts that stored sizes are
  checked against, expected sizes, and the layer checks.
- `src/le.rs`, `src/text.rs`, `src/error.rs` — little-endian integers through
  `byteorder`, UTF-8 and string helpers, and the error type.
- `app/` — ordinary Rust around the library: file and stream I/O, serde
  copies of the data model, the error type with `thiserror` messages, float
  readings of values, and the floating-point confidence scores of format
  inference.
- `tests/` — tests of the library.

Floating-point metadata values are held as their IEEE-754 bit patterns in the
library; `app/` turns them into `f32` and `f64`.
