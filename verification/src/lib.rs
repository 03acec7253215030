//! Owned data model and marshalling layer for an HTML-with-embedded-script
//! parser that lives behind a C-style native boundary.
//!
//! The native parser hands back manually managed buffers: null-terminated
//! strings, length-tagged token arrays and tagged-union AST nodes. This crate
//! owns the conversion of those buffers into safe, immutable values, and the
//! discipline that every native buffer obtained is freed exactly once on
//! every control-flow path. The grammar itself is the native library's job
//! and is not reimplemented here.

pub mod convert;
pub mod errors;
pub mod herb;
pub mod lex_result;
pub mod location;
pub mod native;
pub mod nodes;
pub mod parse_result;
pub mod position;
pub mod range;
pub mod text;
pub mod token;

pub use errors::{AnyError, ErrorType};
pub use herb::{
    extract_html, extract_ruby, herb_version, lex, parse, prism_version, version, Completion,
    EncodedSource, HerbError,
};
pub use lex_result::LexResult;
pub use location::Location;
pub use native::ParserOptions;
pub use nodes::{AnyNode, DocumentNode};
pub use parse_result::ParseResult;
pub use position::Position;
pub use range::Range;
pub use token::Token;
