//! Conversion of CSL-JSON bibliographic records into BibLaTeX stanzas.
//!
//! The pipeline has three parts: a Unicode-to-TeX escaper, a typed
//! bibliographic entry model with a textual renderer, and a converter that
//! builds typed entries from loosely typed JSON records.

pub mod convert;
pub mod entry;
pub mod escape;
pub mod json;
pub mod text;
pub mod types;
