//! Decision logic of the xberg document extraction toolkit: the repeat guard of the OCR decode
//! loops, the DeepSeek-OCR backend, the command-line overrides of an extraction, and the
//! extraction of objects embedded in OOXML archives.

pub mod config;
pub mod deepseek;
pub mod embedded;
pub mod error;
pub mod generation;
pub mod mime;
pub mod ole;
pub mod outcome;
pub mod overrides;
pub mod package;
pub mod recognition;
pub mod text;
pub mod types;
