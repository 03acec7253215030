//! Plain-value mirrors of the native parser's C-side records.
//!
//! The native library hands back buffers of C structs: length-tagged token
//! arrays, tagged-union AST nodes, and diagnostic records, all holding
//! possibly-null, null-terminated strings. The boundary code that performs
//! the native calls reads those buffers field by field into the records
//! below; everything this layer does afterwards — marshalling, error
//! aggregation, the free bookkeeping — is then ordinary verified code over
//! plain values. `None` stands wherever the C side may hold a null pointer.

use vstd::prelude::*;

use crate::location::Location;
use crate::position::Position;

verus! {

// The native node catalogue's discriminants.
pub const NODE_DOCUMENT: u32 = 1;

pub const NODE_HTML_ELEMENT: u32 = 2;

pub const NODE_HTML_OPEN_TAG: u32 = 3;

pub const NODE_HTML_CLOSE_TAG: u32 = 4;

pub const NODE_HTML_ATTRIBUTE: u32 = 5;

pub const NODE_HTML_ATTRIBUTE_NAME: u32 = 6;

pub const NODE_HTML_ATTRIBUTE_VALUE: u32 = 7;

pub const NODE_HTML_TEXT: u32 = 8;

pub const NODE_ERB_CONTENT: u32 = 9;

// The native diagnostic catalogue's discriminants.
pub const ERROR_PARSE: u32 = 1;

pub const ERROR_UNEXPECTED_TOKEN: u32 = 2;

pub const ERROR_UNCLOSED_ELEMENT: u32 = 3;

pub const ERROR_MISSING_OPENING_TAG: u32 = 4;

pub const ERROR_MISSING_CLOSING_TAG: u32 = 5;

pub const ERROR_TAG_NAMES_MISMATCH: u32 = 6;

pub const ERROR_QUOTES_MISMATCH: u32 = 7;

pub const ERROR_VOID_ELEMENT_CLOSING_TAG: u32 = 8;

pub const ERROR_RUBY_PARSE: u32 = 9;

/// The options record the native parse entry point accepts. The parse
/// operation here always runs the parser with its defaults — the native call
/// is handed no options — so the record carries nothing; it exists so callers
/// can name the type the native signature mentions.
#[derive(Debug, Clone, Copy, PartialEq, Eq, Structural)]
pub struct ParserOptions {}

/// The text of a possibly-null native string field: null decodes to the
/// empty string, a defined case and never an error.
pub open spec fn spec_opt_text(o: Option<String>) -> Seq<char> {
    match o {
        Option::Some(s) => s@,
        Option::None => Seq::empty(),
    }
}

/// A native location record: start and end line/column pairs.
#[derive(Debug, Clone, Copy, PartialEq, Eq, Structural)]
pub struct RawLocation {
    pub start_line: u32,
    pub start_column: u32,
    pub end_line: u32,
    pub end_column: u32,
}

impl RawLocation {
    /// The owned location this record decodes to.
    pub open spec fn spec_location(self) -> Location {
        Location {
            start: Position { line: self.start_line, column: self.start_column },
            end: Position { line: self.end_line, column: self.end_column },
        }
    }

    /// The validity the native parser grants: the end position never
    /// precedes the start position.
    pub open spec fn wf(self) -> bool {
        self.spec_location().wf()
    }
}

/// One record of the native lexer's token array. The type label is the text
/// the native discriminant-to-label lookup returns for the record's
/// discriminant; the value is null for tokens with no textual payload.
#[derive(Debug)]
pub struct RawToken {
    pub token_type: String,
    pub value: Option<String>,
    pub location: RawLocation,
    pub from: usize,
    pub to: usize,
}

impl RawToken {
    /// The validity the native lexer grants each record: an ordered span and
    /// an ordered location.
    pub open spec fn wf(self) -> bool {
        self.location.wf() && self.from <= self.to
    }
}

/// The record shape of the end-of-file sentinel the native lexer closes
/// every token array with: the EOF label, no textual payload, a zero-length
/// span.
pub open spec fn raw_token_is_eof(raw: RawToken) -> bool {
    &&& raw.token_type@ == "TOKEN_EOF"@
    &&& spec_opt_text(raw.value).len() == 0
    &&& raw.from == raw.to
}

/// One native diagnostic record attached to a node.
#[derive(Debug)]
pub struct RawError {
    pub error_type: u32,
    pub location: RawLocation,
    pub message: Option<String>,
}

impl RawError {
    pub open spec fn wf(self) -> bool {
        self.location.wf()
    }
}

/// One native AST node: a tagged union flattened into its discriminant, its
/// location, its attached diagnostics, and its fields.
///
/// `strings` holds the variant's scalar string fields in the variant's fixed
/// field order; `fixed` its single-node fields in that order, `None` where
/// the C side holds a null pointer; `list` its node-list field, in the native
/// child order.
#[derive(Debug)]
pub struct RawNode {
    pub node_type: u32,
    pub location: RawLocation,
    pub errors: Vec<RawError>,
    pub strings: Vec<Option<String>>,
    pub fixed: Vec<Option<RawNode>>,
    pub list: Vec<RawNode>,
}

impl RawNode {
    /// The validity the native parser grants every node it hands back:
    /// ordered locations, on the node, its diagnostics, and every reachable
    /// child.
    pub open spec fn wf(self) -> bool
        decreases self,
    {
        &&& self.location.wf()
        &&& forall|i: int| 0 <= i < self.errors@.len() ==> (#[trigger] self.errors@[i]).wf()
        &&& forall|i: int|
            0 <= i < self.fixed@.len() ==> match #[trigger] self.fixed@[i] {
                Option::Some(n) => n.wf(),
                Option::None => true,
            }
        &&& forall|i: int| 0 <= i < self.list@.len() ==> (#[trigger] self.list@[i]).wf()
    }
}

} // verus!
