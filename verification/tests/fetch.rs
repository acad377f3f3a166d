use resters::fetch::{
    classify, handle_outcome, join_failure_outcome, method_of_index, normalize_url, status_line,
    u16_decimal, DisplayState, FetchOutcome, FetchRequest, Method, ParsedBody, StatusColor,
};
use resters::progress::ProgressCounter;

fn ticked_counter() -> ProgressCounter {
    let mut pc = ProgressCounter::new(0, 120);
    pc.tick();
    pc.tick();
    pc.tick();
    assert_eq!(pc.value, 3);
    pc
}

#[test]
fn scenario_http_error_shows_status_line() {
    let mut pc = ticked_counter();
    let outcome = FetchOutcome::HttpError { code: 404, reason: b"Not Found".to_vec() };
    let d = handle_outcome(outcome, &mut pc);
    assert_eq!(d.status_text, b"404 Not Found".to_vec());
    assert_eq!(d.status_color, StatusColor::Error);
    assert!(d.body_text.is_empty());
    assert!(d.styles.is_empty());
    assert!(d.notice.is_none());
    assert_eq!(pc.value, pc.lo);
}

#[test]
fn scenario_transport_failure_raises_one_notice() {
    let mut pc = ticked_counter();
    let outcome = FetchOutcome::TransportError { message: b"unreachable host".to_vec() };
    let d = handle_outcome(outcome, &mut pc);
    assert!(d.status_text.is_empty());
    assert_eq!(d.status_color, StatusColor::Default);
    assert!(d.body_text.is_empty());
    assert!(d.styles.is_empty());
    let msg = d.notice.expect("transport failure must raise a notice");
    assert!(!msg.is_empty());
    assert_eq!(msg, b"unreachable host".to_vec());
    assert_eq!(pc.value, pc.lo);
}

#[test]
fn scenario_successful_json_builds_overlay() {
    let mut pc = ticked_counter();
    let outcome = FetchOutcome::Success { status: 200, body: b"{\"x\":1}".to_vec() };
    let d = handle_outcome(outcome, &mut pc);
    assert_eq!(d.status_text, b"200 OK".to_vec());
    assert_eq!(d.status_color, StatusColor::Emphasis);
    // serde_json's pretty printer uses two-space indentation.
    assert_eq!(d.body_text, b"{\n  \"x\": 1\n}".to_vec());
    assert!(!d.styles.is_empty());
    assert_eq!(d.styles.len(), d.body_text.len());
    assert!(d.styles.contains(&b'B'));
    assert!(d.styles.contains(&b'D'));
    assert!(d.notice.is_none());
    assert_eq!(pc.value, pc.lo);
}

#[test]
fn successful_body_that_is_not_json_raises_parse_notice() {
    let mut pc = ticked_counter();
    let outcome = FetchOutcome::Success { status: 200, body: b"plainly not json".to_vec() };
    let d = handle_outcome(outcome, &mut pc);
    assert!(d.status_text.is_empty());
    assert_eq!(d.status_color, StatusColor::Default);
    assert!(d.body_text.is_empty());
    assert!(d.styles.is_empty());
    assert_eq!(d.notice, Some(b"Error parsing json".to_vec()));
    assert_eq!(pc.value, pc.lo);
}

#[test]
fn classify_passes_parsed_text_through() {
    let mut pc = ticked_counter();
    let outcome = FetchOutcome::Success { status: 204, body: Vec::new() };
    let d = classify(outcome, ParsedBody::Json(b"{}".to_vec()), &mut pc);
    assert_eq!(d.status_text, b"200 OK".to_vec());
    assert_eq!(d.body_text, b"{}".to_vec());
    assert_eq!(d.styles, b"AA".to_vec());
    assert!(d.notice.is_none());
    assert_eq!(pc.value, pc.lo);
}

#[test]
fn progress_counter_resets_after_every_outcome() {
    let outcomes = vec![
        FetchOutcome::Success { status: 200, body: b"[1]".to_vec() },
        FetchOutcome::Success { status: 200, body: b"%%".to_vec() },
        FetchOutcome::HttpError { code: 500, reason: b"Internal Server Error".to_vec() },
        FetchOutcome::TransportError { message: b"tls handshake".to_vec() },
    ];
    for outcome in outcomes {
        let mut pc = ticked_counter();
        let _ = handle_outcome(outcome, &mut pc);
        assert_eq!(pc.value, pc.lo);
    }
}

#[test]
fn join_failure_is_a_transport_error_with_a_message() {
    match join_failure_outcome() {
        FetchOutcome::TransportError { message } => assert!(!message.is_empty()),
        _ => panic!("a join failure must map to a transport error"),
    }
}

#[test]
fn status_line_renders_code_and_reason() {
    assert_eq!(status_line(404, &b"Not Found".to_vec()), b"404 Not Found".to_vec());
    assert_eq!(status_line(65535, &b"X".to_vec()), b"65535 X".to_vec());
    assert_eq!(status_line(0, &b"".to_vec()), b"0 ".to_vec());
}

#[test]
fn decimal_rendering_is_exact() {
    assert_eq!(u16_decimal(0), b"0".to_vec());
    assert_eq!(u16_decimal(7), b"7".to_vec());
    assert_eq!(u16_decimal(10), b"10".to_vec());
    assert_eq!(u16_decimal(404), b"404".to_vec());
    assert_eq!(u16_decimal(65535), b"65535".to_vec());
}

#[test]
fn url_gets_scheme_prefix_when_absent() {
    assert_eq!(normalize_url(&b"example.com".to_vec()), b"https://example.com".to_vec());
    assert_eq!(normalize_url(&b"".to_vec()), b"https://".to_vec());
    // a different scheme is not recognized and gets the prefix too
    assert_eq!(normalize_url(&b"http://x".to_vec()), b"https://http://x".to_vec());
}

#[test]
fn url_with_scheme_prefix_is_kept() {
    assert_eq!(normalize_url(&b"https://example.com".to_vec()), b"https://example.com".to_vec());
    assert_eq!(normalize_url(&b"https://".to_vec()), b"https://".to_vec());
}

#[test]
fn request_carries_method_and_normalized_url() {
    let r = FetchRequest::new(Method::Post, &b"example.com/api".to_vec());
    assert_eq!(r.method, Method::Post);
    assert_eq!(r.url, b"https://example.com/api".to_vec());
}

#[test]
fn method_choice_indices() {
    assert_eq!(method_of_index(0), Some(Method::Get));
    assert_eq!(method_of_index(1), Some(Method::Post));
    assert_eq!(method_of_index(2), None);
    assert_eq!(method_of_index(-1), None);
}

#[test]
fn cleared_display_is_empty() {
    let d = DisplayState::cleared();
    assert!(d.status_text.is_empty());
    assert_eq!(d.status_color, StatusColor::Default);
    assert!(d.body_text.is_empty());
    assert!(d.styles.is_empty());
    assert!(d.notice.is_none());
}
