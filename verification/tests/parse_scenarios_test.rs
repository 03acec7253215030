use herb::native::{
    RawError, RawLocation, RawNode, ERROR_MISSING_CLOSING_TAG, ERROR_MISSING_OPENING_TAG,
    ERROR_UNCLOSED_ELEMENT, NODE_DOCUMENT, NODE_ERB_CONTENT, NODE_HTML_ATTRIBUTE,
    NODE_HTML_ATTRIBUTE_NAME, NODE_HTML_ATTRIBUTE_VALUE, NODE_HTML_CLOSE_TAG, NODE_HTML_ELEMENT,
    NODE_HTML_OPEN_TAG, NODE_HTML_TEXT,
};
use herb::{parse, EncodedSource, HerbError, Location, Position};

fn loc(sl: u32, sc: u32, el: u32, ec: u32) -> RawLocation {
    RawLocation {
        start_line: sl,
        start_column: sc,
        end_line: el,
        end_column: ec,
    }
}

fn node(
    kind: u32,
    location: RawLocation,
    errors: Vec<RawError>,
    strings: Vec<Option<String>>,
    fixed: Vec<Option<RawNode>>,
    list: Vec<RawNode>,
) -> RawNode {
    RawNode {
        node_type: kind,
        location,
        errors,
        strings,
        fixed,
        list,
    }
}

fn open_tag(name: &str, l: RawLocation, attributes: Vec<RawNode>) -> RawNode {
    node(
        NODE_HTML_OPEN_TAG,
        l,
        vec![],
        vec![
            Some("<".to_string()),
            Some(name.to_string()),
            Some(">".to_string()),
        ],
        vec![],
        attributes,
    )
}

fn close_tag(name: &str, l: RawLocation) -> RawNode {
    node(
        NODE_HTML_CLOSE_TAG,
        l,
        vec![],
        vec![
            Some("</".to_string()),
            Some(name.to_string()),
            Some(">".to_string()),
        ],
        vec![],
        vec![],
    )
}

fn text(content: &str, l: RawLocation) -> RawNode {
    node(
        NODE_HTML_TEXT,
        l,
        vec![],
        vec![Some(content.to_string())],
        vec![],
        vec![],
    )
}

// The tree the native parser produces for `<div>Hello</div>`: one element,
// opened and closed, with a text body and no diagnostics anywhere.
#[test]
fn test_parse_valid_div_succeeds_with_no_errors() {
    let element = node(
        NODE_HTML_ELEMENT,
        loc(1, 0, 1, 16),
        vec![],
        vec![],
        vec![
            Some(open_tag("div", loc(1, 0, 1, 5), vec![])),
            Some(close_tag("div", loc(1, 10, 1, 16))),
        ],
        vec![text("Hello", loc(1, 5, 1, 10))],
    );
    let document = node(
        NODE_DOCUMENT,
        loc(1, 0, 1, 16),
        vec![],
        vec![],
        vec![],
        vec![element],
    );

    let source = EncodedSource::new("<div>Hello</div>").unwrap();
    let completion = parse(&source, Some(document));
    assert!(completion.free_native_buffer);
    let result = completion.result.unwrap();

    assert!(result.success());
    assert!(!result.failed());
    assert!(result.errors().is_empty());
    assert_eq!(result.recursive_errors().len(), 0);
}

// The tree the native parser produces for `<div class="test">`: the element
// is never closed, so it carries an "unclosed element" diagnostic and a
// "missing closing tag" diagnostic located at the opening tag's span.
#[test]
fn test_parse_unclosed_element_fails_with_both_kinds() {
    let attribute = node(
        NODE_HTML_ATTRIBUTE,
        loc(1, 5, 1, 17),
        vec![],
        vec![],
        vec![
            Some(node(
                NODE_HTML_ATTRIBUTE_NAME,
                loc(1, 5, 1, 10),
                vec![],
                vec![Some("class".to_string())],
                vec![],
                vec![],
            )),
            Some(node(
                NODE_HTML_ATTRIBUTE_VALUE,
                loc(1, 11, 1, 17),
                vec![],
                vec![
                    Some("\"".to_string()),
                    Some("test".to_string()),
                    Some("\"".to_string()),
                ],
                vec![],
                vec![],
            )),
        ],
        vec![],
    );
    let open_location = loc(1, 0, 1, 18);
    let element = node(
        NODE_HTML_ELEMENT,
        loc(1, 0, 1, 18),
        vec![
            RawError {
                error_type: ERROR_UNCLOSED_ELEMENT,
                location: loc(1, 0, 1, 18),
                message: Some("Opening tag `<div>` at (1:1) doesn't have a matching closing tag `</div>`.".to_string()),
            },
            RawError {
                error_type: ERROR_MISSING_CLOSING_TAG,
                location: open_location,
                message: Some("Opening tag `<div>` at (1:1) doesn't have a matching closing tag `</div>` in the same scope.".to_string()),
            },
        ],
        vec![],
        vec![Some(open_tag("div", open_location, vec![attribute])), None],
        vec![],
    );
    let document = node(
        NODE_DOCUMENT,
        loc(1, 0, 1, 18),
        vec![],
        vec![],
        vec![],
        vec![element],
    );

    let source = EncodedSource::new("<div class=\"test\">").unwrap();
    let result = parse(&source, Some(document)).result.unwrap();

    assert!(result.failed());
    assert!(!result.success());
    let errors = result.recursive_errors();
    assert!(!errors.is_empty());
    assert!(errors
        .iter()
        .any(|e| e.error_type() == "UNCLOSED_ELEMENT_ERROR"));
    assert!(errors.iter().any(|e| e.error_type() == "MISSING_CLOSING_TAG_ERROR"
        && e.location == Location::new(Position::new(1, 0), Position::new(1, 18))));

    let tree_inspect = result.inspect();
    assert!(tree_inspect.contains("MissingClosingTagError (location: (1:0)-(1:18))"));
    assert!(tree_inspect.contains(
        "Opening tag `<div>` at (1:1) doesn't have a matching closing tag `</div>` in the same scope."
    ));
    assert!(tree_inspect.contains("UnclosedElementError (location: (1:0)-(1:18))"));
}

// The tree the native parser produces for `<div></span>`: the two diagnostics
// reference the opening `<div>` and the closing `</span>` respectively.
#[test]
fn test_parse_tag_mismatch_references_both_tags() {
    let element = node(
        NODE_HTML_ELEMENT,
        loc(1, 0, 1, 5),
        vec![RawError {
            error_type: ERROR_MISSING_CLOSING_TAG,
            location: loc(1, 0, 1, 5),
            message: Some("Opening tag `<div>` at (1:1) doesn't have a matching closing tag `</div>` in the same scope.".to_string()),
        }],
        vec![],
        vec![Some(open_tag("div", loc(1, 0, 1, 5), vec![])), None],
        vec![],
    );
    let dangling_close = node(
        NODE_HTML_CLOSE_TAG,
        loc(1, 5, 1, 12),
        vec![RawError {
            error_type: ERROR_MISSING_OPENING_TAG,
            location: loc(1, 5, 1, 12),
            message: Some("Found closing tag `</span>` at (1:7) without a matching opening tag in the same scope.".to_string()),
        }],
        vec![
            Some("</".to_string()),
            Some("span".to_string()),
            Some(">".to_string()),
        ],
        vec![],
        vec![],
    );
    let document = node(
        NODE_DOCUMENT,
        loc(1, 0, 1, 12),
        vec![],
        vec![],
        vec![],
        vec![element, dangling_close],
    );

    let source = EncodedSource::new("<div></span>").unwrap();
    let result = parse(&source, Some(document)).result.unwrap();

    assert!(result.failed());
    let errors = result.recursive_errors();
    assert!(errors.iter().any(|e| e.error_type() == "MISSING_CLOSING_TAG_ERROR"
        && e.location == Location::new(Position::new(1, 0), Position::new(1, 5))));
    assert!(errors.iter().any(|e| e.error_type() == "MISSING_OPENING_TAG_ERROR"
        && e.location == Location::new(Position::new(1, 5), Position::new(1, 12))));
}

// A discriminant outside the catalogue is a conversion failure, not a
// grammar diagnostic — and the native tree is still freed.
#[test]
fn test_parse_unknown_discriminant_is_conversion_failure() {
    let stray = node(999, loc(1, 0, 1, 1), vec![], vec![], vec![], vec![]);
    let document = node(
        NODE_DOCUMENT,
        loc(1, 0, 1, 1),
        vec![],
        vec![],
        vec![],
        vec![stray],
    );
    let source = EncodedSource::new("x").unwrap();
    let completion = parse(&source, Some(document));
    assert!(completion.free_native_buffer);
    assert_eq!(completion.result.unwrap_err(), HerbError::Conversion);
}

// A root that is not a document node is a conversion failure too.
#[test]
fn test_parse_non_document_root_is_conversion_failure() {
    let root = text("Hello", loc(1, 0, 1, 5));
    let source = EncodedSource::new("Hello").unwrap();
    let completion = parse(&source, Some(root));
    assert!(completion.free_native_buffer);
    assert_eq!(completion.result.unwrap_err(), HerbError::Conversion);
}

// A null AST root is a native-call failure with nothing to free.
#[test]
fn test_parse_null_reply_is_native_failure() {
    let source = EncodedSource::new("<div>").unwrap();
    let completion = parse(&source, None);
    assert!(!completion.free_native_buffer);
    assert_eq!(completion.result.unwrap_err(), HerbError::NativeCallFailed);
}

// An embedded-script region marshals into an ERB content node.
#[test]
fn test_parse_erb_content_node() {
    let erb = node(
        NODE_ERB_CONTENT,
        loc(1, 5, 1, 17),
        vec![],
        vec![
            Some("<%=".to_string()),
            Some(" name ".to_string()),
            Some("%>".to_string()),
        ],
        vec![],
        vec![],
    );
    let document = node(
        NODE_DOCUMENT,
        loc(1, 0, 1, 23),
        vec![],
        vec![],
        vec![],
        vec![erb],
    );
    let source = EncodedSource::new("<div><%= name %></div>").unwrap();
    let result = parse(&source, Some(document)).result.unwrap();
    assert!(result.success());
    let rendered = result.inspect();
    assert!(rendered.contains("@ ERBContentNode"));
    assert!(rendered.contains("content: \" name \""));
}
