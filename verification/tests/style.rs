use resters::style::{
    build_style_buffer, marker_of, style_overlay, Token, TokenKind, MARK_ATOM, MARK_NUMBER,
    MARK_STRING, MARK_STRUCT,
};

#[test]
fn markers_are_distinct_letters() {
    assert_eq!(marker_of(TokenKind::Structure), b'A');
    assert_eq!(marker_of(TokenKind::StringLit), b'B');
    assert_eq!(marker_of(TokenKind::Atom), b'C');
    assert_eq!(marker_of(TokenKind::Number), b'D');
    assert_eq!(MARK_STRUCT, b'A');
    assert_eq!(MARK_STRING, b'B');
    assert_eq!(MARK_ATOM, b'C');
    assert_eq!(MARK_NUMBER, b'D');
}

#[test]
fn scenario_object_with_one_number() {
    // {"a":1} — the string span includes both quotes.
    let text = b"{\"a\":1}".to_vec();
    let overlay = style_overlay(&text);
    assert_eq!(overlay, b"ABBBADA".to_vec());
}

#[test]
fn overlay_length_equals_text_length() {
    let texts: Vec<Vec<u8>> = vec![
        b"".to_vec(),
        b"{\"a\":1}".to_vec(),
        b"[1, true, null]".to_vec(),
        b"not json at all %%%".to_vec(),
        b"  {\n  \"k\": [false]\n}  ".to_vec(),
    ];
    for text in texts {
        let overlay = style_overlay(&text);
        assert_eq!(overlay.len(), text.len());
    }
}

#[test]
fn building_twice_gives_identical_buffers() {
    let text = b"[1, {\"k\": null}]".to_vec();
    let first = style_overlay(&text);
    let second = style_overlay(&text);
    assert_eq!(first, second);

    let toks = vec![
        Token { kind: TokenKind::Number, first: 0, end: 2 },
        Token { kind: TokenKind::StringLit, first: 3, end: 6 },
    ];
    let a = build_style_buffer(8, &toks);
    let b = build_style_buffer(8, &toks);
    assert_eq!(a, b);
}

#[test]
fn atoms_and_numbers_get_their_markers() {
    let text = b"[1, true, null]".to_vec();
    let overlay = style_overlay(&text);
    // [ 1 ,   t r u e ,   n u l l ]
    assert_eq!(overlay, b"ADAACCCCAACCCCA".to_vec());
}

#[test]
fn uncovered_positions_keep_default_marker() {
    let toks = vec![Token { kind: TokenKind::StringLit, first: 2, end: 4 }];
    let buf = build_style_buffer(6, &toks);
    assert_eq!(buf, b"AABBAA".to_vec());
}

#[test]
fn out_of_range_span_is_rejected() {
    // span entirely past the end
    let toks = vec![Token { kind: TokenKind::Number, first: 5, end: 9 }];
    let buf = build_style_buffer(3, &toks);
    assert_eq!(buf, b"AAA".to_vec());
    // span reaching past the end
    let toks = vec![Token { kind: TokenKind::Number, first: 1, end: 4 }];
    let buf = build_style_buffer(3, &toks);
    assert_eq!(buf, b"AAA".to_vec());
    // inverted span
    let toks = vec![Token { kind: TokenKind::Number, first: 2, end: 1 }];
    let buf = build_style_buffer(3, &toks);
    assert_eq!(buf, b"AAA".to_vec());
}

#[test]
fn malformed_overlapping_spans_still_give_a_defined_buffer() {
    // Overlapping spans break the lexer's contract; the builder still
    // returns the in-order paint, the later token winning the overlap.
    let toks = vec![
        Token { kind: TokenKind::Number, first: 0, end: 3 },
        Token { kind: TokenKind::StringLit, first: 2, end: 4 },
    ];
    let buf = build_style_buffer(4, &toks);
    assert_eq!(buf, b"DDBB".to_vec());
}

#[test]
fn empty_text_gives_empty_overlay() {
    let text: Vec<u8> = Vec::new();
    let overlay = style_overlay(&text);
    assert!(overlay.is_empty());
}
