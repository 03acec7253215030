// The exactly-once-free discipline, observed from the boundary's side: a
// counting stand-in for the native layer tallies the buffers it hands out and
// the frees the completions demand, across success, native-failure and
// conversion-failure paths alike. At the end the two tallies must agree.

use herb::native::{RawLocation, RawNode, RawToken, NODE_DOCUMENT};
use herb::{extract_html, extract_ruby, lex, parse, EncodedSource, HerbError};

fn loc0() -> RawLocation {
    RawLocation {
        start_line: 1,
        start_column: 0,
        end_line: 1,
        end_column: 0,
    }
}

fn eof_token() -> RawToken {
    RawToken {
        token_type: "TOKEN_EOF".to_string(),
        value: None,
        location: loc0(),
        from: 0,
        to: 0,
    }
}

fn empty_document() -> RawNode {
    RawNode {
        node_type: NODE_DOCUMENT,
        location: loc0(),
        errors: vec![],
        strings: vec![],
        fixed: vec![],
        list: vec![],
    }
}

fn bad_node() -> RawNode {
    RawNode {
        node_type: 424242,
        location: loc0(),
        errors: vec![],
        strings: vec![],
        fixed: vec![],
        list: vec![],
    }
}

#[test]
fn test_every_obtained_buffer_is_freed_exactly_once() {
    let mut buffers_obtained: usize = 0;
    let mut frees_demanded: usize = 0;
    let source = EncodedSource::new("<div>").unwrap();

    // lex, native success
    buffers_obtained += 1;
    let c = lex(Some(vec![eof_token()]));
    if c.free_native_buffer {
        frees_demanded += 1;
    }
    assert!(c.result.is_ok());

    // lex, native failure: nothing obtained, nothing freed
    let c = lex(None);
    if c.free_native_buffer {
        frees_demanded += 1;
    }
    assert!(c.result.is_err());

    // parse, native success
    buffers_obtained += 1;
    let c = parse(&source, Some(empty_document()));
    if c.free_native_buffer {
        frees_demanded += 1;
    }
    assert!(c.result.is_ok());

    // parse, conversion failure: the buffer was obtained, so it is freed
    // before the error propagates
    buffers_obtained += 1;
    let c = parse(&source, Some(bad_node()));
    if c.free_native_buffer {
        frees_demanded += 1;
    }
    assert_eq!(c.result.unwrap_err(), HerbError::Conversion);

    // parse, native failure
    let c = parse(&source, None);
    if c.free_native_buffer {
        frees_demanded += 1;
    }
    assert!(c.result.is_err());

    // extractions: a returned string is a fresh native allocation; null is
    // "no applicable content" and allocates nothing
    buffers_obtained += 1;
    let c = extract_ruby(Some("  name  ".to_string()));
    if c.free_native_buffer {
        frees_demanded += 1;
    }
    assert_eq!(c.result.unwrap(), "  name  ");

    let c = extract_ruby(None);
    if c.free_native_buffer {
        frees_demanded += 1;
    }
    assert_eq!(c.result.unwrap(), "");

    buffers_obtained += 1;
    let c = extract_html(Some("<div>  </div>".to_string()));
    if c.free_native_buffer {
        frees_demanded += 1;
    }
    assert_eq!(c.result.unwrap(), "<div>  </div>");

    let c = extract_html(None);
    if c.free_native_buffer {
        frees_demanded += 1;
    }
    assert_eq!(c.result.unwrap(), "");

    assert_eq!(frees_demanded, buffers_obtained);
}
