//! The marshallers: pure copies from the native records into owned values.
//!
//! Token records always convert. A node subtree converts only when every
//! discriminant in it is in the catalogue below and every variant carries the
//! field shape the catalogue fixes; anything else is a conversion failure —
//! an internal mismatch between this layer and the native library, kept apart
//! from the grammar diagnostics the tree itself carries.

use vstd::prelude::*;
use vstd::string::StringExecFns;

use crate::errors::{AnyError, ErrorType};
use crate::location::Location;
use crate::native::{
    spec_opt_text, RawError, RawLocation, RawNode, RawToken, ERROR_MISSING_CLOSING_TAG,
    ERROR_MISSING_OPENING_TAG, ERROR_PARSE, ERROR_QUOTES_MISMATCH, ERROR_RUBY_PARSE,
    ERROR_TAG_NAMES_MISMATCH, ERROR_UNCLOSED_ELEMENT, ERROR_UNEXPECTED_TOKEN,
    ERROR_VOID_ELEMENT_CLOSING_TAG, NODE_DOCUMENT, NODE_ERB_CONTENT, NODE_HTML_ATTRIBUTE,
    NODE_HTML_ATTRIBUTE_NAME, NODE_HTML_ATTRIBUTE_VALUE, NODE_HTML_CLOSE_TAG, NODE_HTML_ELEMENT,
    NODE_HTML_OPEN_TAG, NODE_HTML_TEXT,
};
use crate::nodes::{
    AnyNode, DocumentNode, ERBContentNode, HTMLAttributeNameNode, HTMLAttributeNode,
    HTMLAttributeValueNode, HTMLCloseTagNode, HTMLElementNode, HTMLOpenTagNode, HTMLTextNode,
};
use crate::position::Position;
use crate::range::Range;
use crate::token::Token;

verus! {

broadcast use vstd::std_specs::vec::group_vec_axioms;

/// The text of a possibly-null native string field: null is the empty string.
fn opt_text(o: &Option<String>) -> (s: String)
    ensures
        s@ == spec_opt_text(*o),
{
    match o {
        Option::Some(t) => t.clone(),
        Option::None => String::new(),
    }
}

fn location_from_raw(raw: &RawLocation) -> (l: Location)
    requires
        raw.wf(),
    ensures
        l == raw.spec_location(),
{
    Location::new(
        Position::new(raw.start_line, raw.start_column),
        Position::new(raw.end_line, raw.end_column),
    )
}

/// The owned token `t` is the faithful copy of the native record `raw`: the
/// type label and the value copied (a null value as the empty string), the
/// location and span decoded.
pub open spec fn token_matches(raw: RawToken, t: Token) -> bool {
    &&& t.token_type@ == raw.token_type@
    &&& t.value@ == spec_opt_text(raw.value)
    &&& t.location == raw.location.spec_location()
    &&& t.range == (Range { from: raw.from, to: raw.to })
}

/// Converts one native token record into an owned token: a pure copy, with a
/// null value field decoding to the empty string. Freeing the record's array
/// stays the lex operation's job; nothing is freed here.
pub fn token_from_c(raw: &RawToken) -> (t: Token)
    requires
        raw.wf(),
    ensures
        token_matches(*raw, t),
{
    Token::new(
        raw.token_type.clone(),
        opt_text(&raw.value),
        location_from_raw(&raw.location),
        Range::new(raw.from, raw.to),
    )
}

/// Whether the native diagnostic discriminant is in this layer's catalogue.
pub open spec fn known_error_kind(kind: u32) -> bool {
    ||| kind == ERROR_PARSE
    ||| kind == ERROR_UNEXPECTED_TOKEN
    ||| kind == ERROR_UNCLOSED_ELEMENT
    ||| kind == ERROR_MISSING_OPENING_TAG
    ||| kind == ERROR_MISSING_CLOSING_TAG
    ||| kind == ERROR_TAG_NAMES_MISMATCH
    ||| kind == ERROR_QUOTES_MISMATCH
    ||| kind == ERROR_VOID_ELEMENT_CLOSING_TAG
    ||| kind == ERROR_RUBY_PARSE
}

/// The owned kind a known native diagnostic discriminant decodes to.
pub open spec fn spec_error_type_of(kind: u32) -> ErrorType {
    if kind == ERROR_PARSE {
        ErrorType::ParseError
    } else if kind == ERROR_UNEXPECTED_TOKEN {
        ErrorType::UnexpectedToken
    } else if kind == ERROR_UNCLOSED_ELEMENT {
        ErrorType::UnclosedElement
    } else if kind == ERROR_MISSING_OPENING_TAG {
        ErrorType::MissingOpeningTag
    } else if kind == ERROR_MISSING_CLOSING_TAG {
        ErrorType::MissingClosingTag
    } else if kind == ERROR_TAG_NAMES_MISMATCH {
        ErrorType::TagNamesMismatch
    } else if kind == ERROR_QUOTES_MISMATCH {
        ErrorType::QuotesMismatch
    } else if kind == ERROR_VOID_ELEMENT_CLOSING_TAG {
        ErrorType::VoidElementClosingTag
    } else {
        ErrorType::RubyParse
    }
}

/// The owned diagnostic `e` is the faithful copy of the native record `raw`.
pub open spec fn error_matches(raw: RawError, e: AnyError) -> bool {
    &&& known_error_kind(raw.error_type)
    &&& e.error_type == spec_error_type_of(raw.error_type)
    &&& e.location == raw.location.spec_location()
    &&& e.message@ == spec_opt_text(raw.message)
}

/// Element-wise faithful copy of a native diagnostic list, order kept.
pub open spec fn errors_match(raws: Seq<RawError>, es: Seq<AnyError>) -> bool {
    &&& raws.len() == es.len()
    &&& forall|i: int| 0 <= i < raws.len() ==> error_matches(#[trigger] raws[i], es[i])
}

/// Whether every diagnostic in the list is in the catalogue.
pub open spec fn errors_convertible(raws: Seq<RawError>) -> bool {
    forall|i: int| 0 <= i < raws.len() ==> known_error_kind((#[trigger] raws[i]).error_type)
}

fn convert_error(raw: &RawError) -> (r: Option<AnyError>)
    requires
        raw.wf(),
    ensures
        r is Some <==> known_error_kind(raw.error_type),
        r matches Some(e) ==> error_matches(*raw, e),
{
    let t: ErrorType = if raw.error_type == ERROR_PARSE {
        ErrorType::ParseError
    } else if raw.error_type == ERROR_UNEXPECTED_TOKEN {
        ErrorType::UnexpectedToken
    } else if raw.error_type == ERROR_UNCLOSED_ELEMENT {
        ErrorType::UnclosedElement
    } else if raw.error_type == ERROR_MISSING_OPENING_TAG {
        ErrorType::MissingOpeningTag
    } else if raw.error_type == ERROR_MISSING_CLOSING_TAG {
        ErrorType::MissingClosingTag
    } else if raw.error_type == ERROR_TAG_NAMES_MISMATCH {
        ErrorType::TagNamesMismatch
    } else if raw.error_type == ERROR_QUOTES_MISMATCH {
        ErrorType::QuotesMismatch
    } else if raw.error_type == ERROR_VOID_ELEMENT_CLOSING_TAG {
        ErrorType::VoidElementClosingTag
    } else if raw.error_type == ERROR_RUBY_PARSE {
        ErrorType::RubyParse
    } else {
        return Option::None;
    };
    Option::Some(AnyError::new(t, location_from_raw(&raw.location), opt_text(&raw.message)))
}

fn convert_errors(raws: &Vec<RawError>) -> (r: Option<Vec<AnyError>>)
    requires
        forall|i: int| 0 <= i < raws@.len() ==> (#[trigger] raws@[i]).wf(),
    ensures
        r is Some <==> errors_convertible(raws@),
        r matches Some(es) ==> errors_match(raws@, es@),
{
    let mut out: Vec<AnyError> = Vec::new();
    let mut i: usize = 0;
    while i < raws.len()
        invariant
            i <= raws@.len(),
            out@.len() == i,
            forall|j: int| 0 <= j < raws@.len() ==> (#[trigger] raws@[j]).wf(),
            forall|j: int| 0 <= j < i ==> error_matches(#[trigger] raws@[j], out@[j]),
            forall|j: int| 0 <= j < i ==> known_error_kind((#[trigger] raws@[j]).error_type),
        decreases raws@.len() - i,
    {
        match convert_error(&raws[i]) {
            Option::Some(e) => {
                out.push(e);
            },
            Option::None => {
                proof {
                    assert(!known_error_kind(raws@[i as int].error_type));
                }
                return Option::None;
            },
        }
        i = i + 1;
    }
    Option::Some(out)
}

/// Whether one native node, with its whole subtree, fits the catalogue: a
/// known discriminant, the field shape that discriminant fixes, and every
/// attached diagnostic and child convertible in turn.
pub open spec fn convertible_node(raw: RawNode) -> bool
    decreases raw,
{
    if raw.node_type == NODE_DOCUMENT {
        &&& raw.strings@.len() == 0
        &&& raw.fixed@.len() == 0
        &&& errors_convertible(raw.errors@)
        &&& nodes_convertible(raw.list@)
    } else if raw.node_type == NODE_HTML_ELEMENT {
        &&& raw.strings@.len() == 0
        &&& raw.fixed@.len() == 2
        &&& match raw.fixed@[0] {
            Option::Some(r0) => convertible_node(r0),
            Option::None => false,
        }
        &&& match raw.fixed@[1] {
            Option::Some(r1) => convertible_node(r1),
            Option::None => true,
        }
        &&& errors_convertible(raw.errors@)
        &&& nodes_convertible(raw.list@)
    } else if raw.node_type == NODE_HTML_OPEN_TAG {
        &&& raw.strings@.len() == 3
        &&& raw.fixed@.len() == 0
        &&& errors_convertible(raw.errors@)
        &&& nodes_convertible(raw.list@)
    } else if raw.node_type == NODE_HTML_CLOSE_TAG {
        &&& raw.strings@.len() == 3
        &&& raw.fixed@.len() == 0
        &&& raw.list@.len() == 0
        &&& errors_convertible(raw.errors@)
    } else if raw.node_type == NODE_HTML_ATTRIBUTE {
        &&& raw.strings@.len() == 0
        &&& raw.fixed@.len() == 2
        &&& match raw.fixed@[0] {
            Option::Some(r0) => convertible_node(r0),
            Option::None => false,
        }
        &&& match raw.fixed@[1] {
            Option::Some(r1) => convertible_node(r1),
            Option::None => true,
        }
        &&& raw.list@.len() == 0
        &&& errors_convertible(raw.errors@)
    } else if raw.node_type == NODE_HTML_ATTRIBUTE_NAME {
        &&& raw.strings@.len() == 1
        &&& raw.fixed@.len() == 0
        &&& raw.list@.len() == 0
        &&& errors_convertible(raw.errors@)
    } else if raw.node_type == NODE_HTML_ATTRIBUTE_VALUE {
        &&& raw.strings@.len() == 3
        &&& raw.fixed@.len() == 0
        &&& raw.list@.len() == 0
        &&& errors_convertible(raw.errors@)
    } else if raw.node_type == NODE_HTML_TEXT {
        &&& raw.strings@.len() == 1
        &&& raw.fixed@.len() == 0
        &&& raw.list@.len() == 0
        &&& errors_convertible(raw.errors@)
    } else if raw.node_type == NODE_ERB_CONTENT {
        &&& raw.strings@.len() == 3
        &&& raw.fixed@.len() == 0
        &&& raw.list@.len() == 0
        &&& errors_convertible(raw.errors@)
    } else {
        false
    }
}

/// Whether every node in the list is convertible.
pub open spec fn nodes_convertible(s: Seq<RawNode>) -> bool
    decreases s,
{
    forall|i: int| 0 <= i < s.len() ==> convertible_node(#[trigger] s[i])
}

/// The owned node `n` is the faithful copy of the native node `raw`: same
/// variant, same location, diagnostics copied in order, scalar fields copied
/// with null as empty, and every child matching recursively in the fixed
/// field order.
pub open spec fn node_matches(raw: RawNode, n: AnyNode) -> bool
    decreases raw,
{
    if raw.node_type == NODE_DOCUMENT {
        &&& n matches AnyNode::DocumentNode(d)
        &&& d.node_type@ == "DocumentNode"@
        &&& d.location == raw.location.spec_location()
        &&& errors_match(raw.errors@, d.errors@)
        &&& nodes_match(raw.list@, d.children@)
    } else if raw.node_type == NODE_HTML_ELEMENT {
        &&& n matches AnyNode::HTMLElementNode(e)
        &&& e.node_type@ == "HTMLElementNode"@
        &&& e.location == raw.location.spec_location()
        &&& errors_match(raw.errors@, e.errors@)
        &&& raw.fixed@.len() == 2
        &&& match raw.fixed@[0] {
            Option::Some(r0) => node_matches(r0, *e.open_tag),
            Option::None => false,
        }
        &&& nodes_match(raw.list@, e.body@)
        &&& match (raw.fixed@[1], e.close_tag) {
            (Option::Some(r1), Option::Some(c)) => node_matches(r1, *c),
            (Option::None, Option::None) => true,
            _ => false,
        }
    } else if raw.node_type == NODE_HTML_OPEN_TAG {
        &&& n matches AnyNode::HTMLOpenTagNode(o)
        &&& o.node_type@ == "HTMLOpenTagNode"@
        &&& o.location == raw.location.spec_location()
        &&& errors_match(raw.errors@, o.errors@)
        &&& raw.strings@.len() == 3
        &&& o.tag_opening@ == spec_opt_text(raw.strings@[0])
        &&& o.tag_name@ == spec_opt_text(raw.strings@[1])
        &&& nodes_match(raw.list@, o.attributes@)
        &&& o.tag_closing@ == spec_opt_text(raw.strings@[2])
    } else if raw.node_type == NODE_HTML_CLOSE_TAG {
        &&& n matches AnyNode::HTMLCloseTagNode(c)
        &&& c.node_type@ == "HTMLCloseTagNode"@
        &&& c.location == raw.location.spec_location()
        &&& errors_match(raw.errors@, c.errors@)
        &&& raw.strings@.len() == 3
        &&& c.tag_opening@ == spec_opt_text(raw.strings@[0])
        &&& c.tag_name@ == spec_opt_text(raw.strings@[1])
        &&& c.tag_closing@ == spec_opt_text(raw.strings@[2])
    } else if raw.node_type == NODE_HTML_ATTRIBUTE {
        &&& n matches AnyNode::HTMLAttributeNode(a)
        &&& a.node_type@ == "HTMLAttributeNode"@
        &&& a.location == raw.location.spec_location()
        &&& errors_match(raw.errors@, a.errors@)
        &&& raw.fixed@.len() == 2
        &&& match raw.fixed@[0] {
            Option::Some(r0) => node_matches(r0, *a.name),
            Option::None => false,
        }
        &&& match (raw.fixed@[1], a.value) {
            (Option::Some(r1), Option::Some(v)) => node_matches(r1, *v),
            (Option::None, Option::None) => true,
            _ => false,
        }
    } else if raw.node_type == NODE_HTML_ATTRIBUTE_NAME {
        &&& n matches AnyNode::HTMLAttributeNameNode(a)
        &&& a.node_type@ == "HTMLAttributeNameNode"@
        &&& a.location == raw.location.spec_location()
        &&& errors_match(raw.errors@, a.errors@)
        &&& raw.strings@.len() == 1
        &&& a.name@ == spec_opt_text(raw.strings@[0])
    } else if raw.node_type == NODE_HTML_ATTRIBUTE_VALUE {
        &&& n matches AnyNode::HTMLAttributeValueNode(a)
        &&& a.node_type@ == "HTMLAttributeValueNode"@
        &&& a.location == raw.location.spec_location()
        &&& errors_match(raw.errors@, a.errors@)
        &&& raw.strings@.len() == 3
        &&& a.open_quote@ == spec_opt_text(raw.strings@[0])
        &&& a.value@ == spec_opt_text(raw.strings@[1])
        &&& a.close_quote@ == spec_opt_text(raw.strings@[2])
    } else if raw.node_type == NODE_HTML_TEXT {
        &&& n matches AnyNode::HTMLTextNode(t)
        &&& t.node_type@ == "HTMLTextNode"@
        &&& t.location == raw.location.spec_location()
        &&& errors_match(raw.errors@, t.errors@)
        &&& raw.strings@.len() == 1
        &&& t.content@ == spec_opt_text(raw.strings@[0])
    } else if raw.node_type == NODE_ERB_CONTENT {
        &&& n matches AnyNode::ERBContentNode(t)
        &&& t.node_type@ == "ERBContentNode"@
        &&& t.location == raw.location.spec_location()
        &&& errors_match(raw.errors@, t.errors@)
        &&& raw.strings@.len() == 3
        &&& t.tag_opening@ == spec_opt_text(raw.strings@[0])
        &&& t.content@ == spec_opt_text(raw.strings@[1])
        &&& t.tag_closing@ == spec_opt_text(raw.strings@[2])
    } else {
        false
    }
}

/// Element-wise faithful copy of a native node list, order kept.
pub open spec fn nodes_match(raws: Seq<RawNode>, ns: Seq<AnyNode>) -> bool
    decreases raws,
{
    &&& raws.len() == ns.len()
    &&& forall|i: int| 0 <= i < raws.len() ==> node_matches(#[trigger] raws[i], ns[i])
}

/// Converts one native node and its whole subtree into an owned node,
/// depth-first, keeping each child list's order. `None` reports a conversion
/// failure: a discriminant or field shape outside the catalogue, somewhere in
/// the subtree.
pub fn convert_node(raw: &RawNode) -> (r: Option<AnyNode>)
    requires
        raw.wf(),
    ensures
        r is Some <==> convertible_node(*raw),
        r matches Some(n) ==> node_matches(*raw, n),
    decreases raw,
{
    if raw.node_type == NODE_DOCUMENT {
        if raw.strings.len() != 0 || raw.fixed.len() != 0 {
            return Option::None;
        }
        let errors = match convert_errors(&raw.errors) {
            Option::Some(es) => es,
            Option::None => {
                return Option::None;
            },
        };
        let children = match convert_nodes(&raw.list) {
            Option::Some(ns) => ns,
            Option::None => {
                return Option::None;
            },
        };
        Option::Some(
            AnyNode::DocumentNode(
                DocumentNode {
                    node_type: "DocumentNode".to_owned(),
                    location: location_from_raw(&raw.location),
                    errors,
                    children,
                },
            ),
        )
    } else if raw.node_type == NODE_HTML_ELEMENT {
        if raw.strings.len() != 0 || raw.fixed.len() != 2 {
            return Option::None;
        }
        let errors = match convert_errors(&raw.errors) {
            Option::Some(es) => es,
            Option::None => {
                return Option::None;
            },
        };
        let open_tag = match &raw.fixed[0] {
            Option::Some(r0) => match convert_node(r0) {
                Option::Some(n) => n,
                Option::None => {
                    return Option::None;
                },
            },
            Option::None => {
                return Option::None;
            },
        };
        let body = match convert_nodes(&raw.list) {
            Option::Some(ns) => ns,
            Option::None => {
                return Option::None;
            },
        };
        let close_tag = match &raw.fixed[1] {
            Option::Some(r1) => match convert_node(r1) {
                Option::Some(n) => Option::Some(Box::new(n)),
                Option::None => {
                    return Option::None;
                },
            },
            Option::None => Option::None,
        };
        Option::Some(
            AnyNode::HTMLElementNode(
                HTMLElementNode {
                    node_type: "HTMLElementNode".to_owned(),
                    location: location_from_raw(&raw.location),
                    errors,
                    open_tag: Box::new(open_tag),
                    body,
                    close_tag,
                },
            ),
        )
    } else if raw.node_type == NODE_HTML_OPEN_TAG {
        if raw.strings.len() != 3 || raw.fixed.len() != 0 {
            return Option::None;
        }
        let errors = match convert_errors(&raw.errors) {
            Option::Some(es) => es,
            Option::None => {
                return Option::None;
            },
        };
        let attributes = match convert_nodes(&raw.list) {
            Option::Some(ns) => ns,
            Option::None => {
                return Option::None;
            },
        };
        Option::Some(
            AnyNode::HTMLOpenTagNode(
                HTMLOpenTagNode {
                    node_type: "HTMLOpenTagNode".to_owned(),
                    location: location_from_raw(&raw.location),
                    errors,
                    tag_opening: opt_text(&raw.strings[0]),
                    tag_name: opt_text(&raw.strings[1]),
                    attributes,
                    tag_closing: opt_text(&raw.strings[2]),
                },
            ),
        )
    } else if raw.node_type == NODE_HTML_CLOSE_TAG {
        if raw.strings.len() != 3 || raw.fixed.len() != 0 || raw.list.len() != 0 {
            return Option::None;
        }
        let errors = match convert_errors(&raw.errors) {
            Option::Some(es) => es,
            Option::None => {
                return Option::None;
            },
        };
        Option::Some(
            AnyNode::HTMLCloseTagNode(
                HTMLCloseTagNode {
                    node_type: "HTMLCloseTagNode".to_owned(),
                    location: location_from_raw(&raw.location),
                    errors,
                    tag_opening: opt_text(&raw.strings[0]),
                    tag_name: opt_text(&raw.strings[1]),
                    tag_closing: opt_text(&raw.strings[2]),
                },
            ),
        )
    } else if raw.node_type == NODE_HTML_ATTRIBUTE {
        if raw.strings.len() != 0 || raw.fixed.len() != 2 || raw.list.len() != 0 {
            return Option::None;
        }
        let errors = match convert_errors(&raw.errors) {
            Option::Some(es) => es,
            Option::None => {
                return Option::None;
            },
        };
        let name = match &raw.fixed[0] {
            Option::Some(r0) => match convert_node(r0) {
                Option::Some(n) => n,
                Option::None => {
                    return Option::None;
                },
            },
            Option::None => {
                return Option::None;
            },
        };
        let value = match &raw.fixed[1] {
            Option::Some(r1) => match convert_node(r1) {
                Option::Some(n) => Option::Some(Box::new(n)),
                Option::None => {
                    return Option::None;
                },
            },
            Option::None => Option::None,
        };
        Option::Some(
            AnyNode::HTMLAttributeNode(
                HTMLAttributeNode {
                    node_type: "HTMLAttributeNode".to_owned(),
                    location: location_from_raw(&raw.location),
                    errors,
                    name: Box::new(name),
                    value,
                },
            ),
        )
    } else if raw.node_type == NODE_HTML_ATTRIBUTE_NAME {
        if raw.strings.len() != 1 || raw.fixed.len() != 0 || raw.list.len() != 0 {
            return Option::None;
        }
        let errors = match convert_errors(&raw.errors) {
            Option::Some(es) => es,
            Option::None => {
                return Option::None;
            },
        };
        Option::Some(
            AnyNode::HTMLAttributeNameNode(
                HTMLAttributeNameNode {
                    node_type: "HTMLAttributeNameNode".to_owned(),
                    location: location_from_raw(&raw.location),
                    errors,
                    name: opt_text(&raw.strings[0]),
                },
            ),
        )
    } else if raw.node_type == NODE_HTML_ATTRIBUTE_VALUE {
        if raw.strings.len() != 3 || raw.fixed.len() != 0 || raw.list.len() != 0 {
            return Option::None;
        }
        let errors = match convert_errors(&raw.errors) {
            Option::Some(es) => es,
            Option::None => {
                return Option::None;
            },
        };
        Option::Some(
            AnyNode::HTMLAttributeValueNode(
                HTMLAttributeValueNode {
                    node_type: "HTMLAttributeValueNode".to_owned(),
                    location: location_from_raw(&raw.location),
                    errors,
                    open_quote: opt_text(&raw.strings[0]),
                    value: opt_text(&raw.strings[1]),
                    close_quote: opt_text(&raw.strings[2]),
                },
            ),
        )
    } else if raw.node_type == NODE_HTML_TEXT {
        if raw.strings.len() != 1 || raw.fixed.len() != 0 || raw.list.len() != 0 {
            return Option::None;
        }
        let errors = match convert_errors(&raw.errors) {
            Option::Some(es) => es,
            Option::None => {
                return Option::None;
            },
        };
        Option::Some(
            AnyNode::HTMLTextNode(
                HTMLTextNode {
                    node_type: "HTMLTextNode".to_owned(),
                    location: location_from_raw(&raw.location),
                    errors,
                    content: opt_text(&raw.strings[0]),
                },
            ),
        )
    } else if raw.node_type == NODE_ERB_CONTENT {
        if raw.strings.len() != 3 || raw.fixed.len() != 0 || raw.list.len() != 0 {
            return Option::None;
        }
        let errors = match convert_errors(&raw.errors) {
            Option::Some(es) => es,
            Option::None => {
                return Option::None;
            },
        };
        Option::Some(
            AnyNode::ERBContentNode(
                ERBContentNode {
                    node_type: "ERBContentNode".to_owned(),
                    location: location_from_raw(&raw.location),
                    errors,
                    tag_opening: opt_text(&raw.strings[0]),
                    content: opt_text(&raw.strings[1]),
                    tag_closing: opt_text(&raw.strings[2]),
                },
            ),
        )
    } else {
        Option::None
    }
}

/// Converts every node in a native child list, in order; fails if any child
/// subtree fails.
fn convert_nodes(raws: &Vec<RawNode>) -> (r: Option<Vec<AnyNode>>)
    requires
        forall|i: int| 0 <= i < raws@.len() ==> (#[trigger] raws@[i]).wf(),
    ensures
        r is Some <==> nodes_convertible(raws@),
        r matches Some(ns) ==> nodes_match(raws@, ns@),
    decreases raws,
{
    let mut out: Vec<AnyNode> = Vec::new();
    let mut i: usize = 0;
    while i < raws.len()
        invariant
            i <= raws@.len(),
            out@.len() == i,
            forall|j: int| 0 <= j < raws@.len() ==> (#[trigger] raws@[j]).wf(),
            forall|j: int| 0 <= j < i ==> node_matches(#[trigger] raws@[j], out@[j]),
            forall|j: int| 0 <= j < i ==> convertible_node(#[trigger] raws@[j]),
        decreases raws@.len() - i,
    {
        match convert_node(&raws[i]) {
            Option::Some(n) => {
                out.push(n);
            },
            Option::None => {
                proof {
                    assert(!convertible_node(raws@[i as int]));
                }
                return Option::None;
            },
        }
        i = i + 1;
    }
    Option::Some(out)
}

/// Converts the native AST root, which must be a document node; anything
/// else, or any failure below it, is a conversion failure.
pub fn convert_document_node(raw: &RawNode) -> (r: Option<DocumentNode>)
    requires
        raw.wf(),
    ensures
        r is Some <==> raw.node_type == NODE_DOCUMENT && convertible_node(*raw),
        r matches Some(d) ==> node_matches(*raw, AnyNode::DocumentNode(d)),
{
    if raw.node_type != NODE_DOCUMENT {
        return Option::None;
    }
    match convert_node(raw) {
        Option::Some(n) => match n {
            AnyNode::DocumentNode(d) => Option::Some(d),
            _ => {
                proof {
                    assert(false);
                }
                Option::None
            },
        },
        Option::None => Option::None,
    }
}

} // verus!
