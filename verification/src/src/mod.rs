//! A second GGUF data model, with its own dtype catalogue and size estimates.
pub mod types;
