use herb::errors::{AnyError, ErrorType};
use herb::nodes::{AnyNode, DocumentNode, HTMLElementNode, HTMLOpenTagNode, HTMLTextNode};
use herb::{EncodedSource, HerbError, Location, ParseResult, Position};

fn l(sl: u32, sc: u32, el: u32, ec: u32) -> Location {
    Location::new(Position::new(sl, sc), Position::new(el, ec))
}

fn err(t: ErrorType, message: &str) -> AnyError {
    AnyError::new(t, l(1, 0, 1, 1), message.to_string())
}

#[test]
fn test_error_type_labels() {
    assert_eq!(err(ErrorType::ParseError, "").error_type(), "PARSE_ERROR");
    assert_eq!(
        err(ErrorType::UnexpectedToken, "").error_type(),
        "UNEXPECTED_TOKEN_ERROR"
    );
    assert_eq!(
        err(ErrorType::UnclosedElement, "").error_type(),
        "UNCLOSED_ELEMENT_ERROR"
    );
    assert_eq!(
        err(ErrorType::MissingOpeningTag, "").error_type(),
        "MISSING_OPENING_TAG_ERROR"
    );
    assert_eq!(
        err(ErrorType::MissingClosingTag, "").error_type(),
        "MISSING_CLOSING_TAG_ERROR"
    );
    assert_eq!(
        err(ErrorType::TagNamesMismatch, "").error_type(),
        "TAG_NAMES_MISMATCH_ERROR"
    );
    assert_eq!(
        err(ErrorType::QuotesMismatch, "").error_type(),
        "QUOTES_MISMATCH_ERROR"
    );
    assert_eq!(
        err(ErrorType::VoidElementClosingTag, "").error_type(),
        "VOID_ELEMENT_CLOSING_TAG_ERROR"
    );
    assert_eq!(err(ErrorType::RubyParse, "").error_type(), "RUBY_PARSE_ERROR");
}

#[test]
fn test_error_inspect_line() {
    let e = AnyError::new(
        ErrorType::MissingClosingTag,
        l(1, 0, 1, 5),
        "Opening tag `<div>` at (1:1) doesn't have a matching closing tag `</div>` in the same scope.".to_string(),
    );
    assert_eq!(
        e.inspect(),
        "MissingClosingTagError (location: (1:0)-(1:5))"
    );
}

// The pre-order aggregation contract, on concrete values: top-level errors
// first, then each node's own errors before its children's, children left to
// right — and the same sequence on every call.
#[test]
fn test_recursive_errors_are_preorder_and_deterministic() {
    let open = HTMLOpenTagNode {
        node_type: "HTMLOpenTagNode".to_string(),
        location: l(1, 0, 1, 5),
        errors: vec![err(ErrorType::UnexpectedToken, "open tag error")],
        tag_opening: "<".to_string(),
        tag_name: "div".to_string(),
        attributes: vec![],
        tag_closing: ">".to_string(),
    };
    let body_text = HTMLTextNode {
        node_type: "HTMLTextNode".to_string(),
        location: l(1, 5, 1, 10),
        errors: vec![err(ErrorType::ParseError, "text error")],
        content: "Hello".to_string(),
    };
    let element = HTMLElementNode {
        node_type: "HTMLElementNode".to_string(),
        location: l(1, 0, 1, 10),
        errors: vec![err(ErrorType::UnclosedElement, "element error")],
        open_tag: Box::new(AnyNode::HTMLOpenTagNode(open)),
        body: vec![AnyNode::HTMLTextNode(body_text)],
        close_tag: None,
    };
    let document = DocumentNode {
        node_type: "DocumentNode".to_string(),
        location: l(1, 0, 1, 10),
        errors: vec![err(ErrorType::QuotesMismatch, "document error")],
        children: vec![AnyNode::HTMLElementNode(element)],
    };
    let result = ParseResult::new(
        document,
        "<div>Hello".to_string(),
        vec![err(ErrorType::RubyParse, "top-level error")],
    );

    let expected = vec![
        "RUBY_PARSE_ERROR",
        "QUOTES_MISMATCH_ERROR",
        "UNCLOSED_ELEMENT_ERROR",
        "UNEXPECTED_TOKEN_ERROR",
        "PARSE_ERROR",
    ];

    let first: Vec<String> = result
        .recursive_errors()
        .iter()
        .map(|e| e.error_type())
        .collect();
    assert_eq!(first, expected);

    let second: Vec<String> = result
        .recursive_errors()
        .iter()
        .map(|e| e.error_type())
        .collect();
    assert_eq!(first, second);

    assert!(result.failed());
    assert!(!result.success());
}

// Success and failure are exact complements of the aggregation's emptiness.
#[test]
fn test_success_failure_duality_on_concrete_results() {
    let clean = ParseResult::new(
        DocumentNode {
            node_type: "DocumentNode".to_string(),
            location: l(1, 0, 1, 1),
            errors: vec![],
            children: vec![],
        },
        "x".to_string(),
        vec![],
    );
    assert!(clean.success());
    assert!(!clean.failed());
    assert!(clean.recursive_errors().is_empty());

    let broken = ParseResult::new(
        DocumentNode {
            node_type: "DocumentNode".to_string(),
            location: l(1, 0, 1, 1),
            errors: vec![err(ErrorType::ParseError, "boom")],
            children: vec![],
        },
        "x".to_string(),
        vec![],
    );
    assert!(!broken.success());
    assert!(broken.failed());
    assert_eq!(broken.recursive_errors().len(), 1);
}

#[test]
fn test_encoding_error_reports_first_nul() {
    let r = EncodedSource::new("abc\0def");
    match r {
        Err(HerbError::Encoding { position }) => assert_eq!(position, 3),
        _ => panic!("expected an encoding error"),
    }
    let e = HerbError::Encoding { position: 3 };
    assert_eq!(e.message(), "nul byte found in provided data at position: 3");
}

#[test]
fn test_encoding_accepts_clean_source() {
    let enc = EncodedSource::new("<div>Hello</div>").unwrap();
    assert_eq!(enc.as_str(), "<div>Hello</div>");
    assert_eq!(enc.to_text(), "<div>Hello</div>");
}

#[test]
fn test_error_messages() {
    assert_eq!(
        HerbError::NativeCallFailed.message(),
        "the native entry point returned null"
    );
    assert_eq!(HerbError::Conversion.message(), "Failed to convert AST");
}
