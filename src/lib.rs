//! Adapters between a deserializer's token callbacks and typed parsing.
//!
//! A [`HexVisitor`] turns a textual token, or a binary token that is valid
//! UTF-8, into a value through a string parser. A [`BytesVisitor`] turns a
//! binary token into a value through a parsing function that it owns. Both
//! report failures as a [`VisitError`], which the deserializer then renders
//! in its own error type.

mod bytes;
mod error;
mod hex;
mod text;

pub use bytes::{BytesVisitor, lemma_bytes_expecting_stable};
pub use error::VisitError;
pub use hex::{
    HexVisitor, depends_on_text_only, lemma_bytes_agree_with_text, lemma_hex_expecting_stable,
    parsed_outcome,
};
