//! A typed view over the crates.io registry's per-crate JSON document.
//!
//! The library owns the data-mapping layer: a registry document is held as a
//! [`json::JsonValue`] tree, its `versions` (and optional `keywords`) arrays
//! stay opaque, and each accessor decodes one element on demand into a typed
//! record. Version entries are addressed by a zero-based index throughout: the
//! registry's conventional ordering places the most recent version at index 0.
//! The HTTP transport and the JSON tokenizer live outside the library;
//! callers hand a finished `JsonValue` tree to [`client::Crateio::from_document`].

pub mod client;
pub mod json;
pub mod record;

pub use client::Crateio;
pub use client::DecodeError;
pub use client::Decoded;
pub use json::Json;
pub use json::JsonValue;
pub use record::Author;
pub use record::CrateData;
pub use record::Version;
