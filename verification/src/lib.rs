//! Resolution of a named or positional material inside a loaded 3D-asset
//! document, extraction of the raw bytes of that material's base-color
//! texture image, and a summary of the document's named entities.
//!
//! The document loader, command-line handling and all output rendering are
//! collaborators outside this crate; the crate works on an already-loaded
//! [`doc::Document`] value and returns plain values.

pub mod doc;
pub mod error;
pub mod resolve;
pub mod summary;
