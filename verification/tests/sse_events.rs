use rust_coding_agent::json::JsonValue;
use rust_coding_agent::sse::parse_sse_events;

fn num(s: &str) -> JsonValue {
    JsonValue::Number(s.to_string())
}

#[test]
fn parse_sse_events_single_and_multiline_data() {
    let fixture = "event: message\n\
id: 1\n\
data: {\"jsonrpc\":\"2.0\",\"id\":1,\n\
data: \"result\":{\"ok\":true}}\n\
\n\
data: {\"jsonrpc\":\"2.0\",\"id\":2,\"result\":{\"tools\":[]}}\n\
\n";

    let parsed = parse_sse_events(fixture);
    assert_eq!(parsed.len(), 2);
    assert_eq!(parsed[0].get("id"), Some(&num("1")));
    assert_eq!(parsed[1].get("id"), Some(&num("2")));
}

#[test]
fn parse_sse_events_ignores_non_json_payloads() {
    let fixture = "data: not-json\n\n\
data: {\"jsonrpc\":\"2.0\",\"id\":3,\"result\":{\"x\":1}}\n\n";
    let parsed = parse_sse_events(fixture);
    assert_eq!(parsed.len(), 1);
    assert_eq!(parsed[0].get("id"), Some(&num("3")));
}

#[test]
fn sse_last_event_without_blank_line_is_read() {
    let parsed = parse_sse_events("data: {\"id\":7}");
    assert_eq!(parsed.len(), 1);
    assert_eq!(parsed[0].get("id"), Some(&num("7")));
}

#[test]
fn sse_comments_and_crlf_lines_are_skipped() {
    let parsed = parse_sse_events(": keep-alive\r\ndata: {\"a\":\"b\"}\r\n\r\n");
    assert_eq!(parsed.len(), 1);
    assert_eq!(parsed[0].get("a"), Some(&JsonValue::Str("b".to_string())));
}

#[test]
fn sse_blank_stream_gives_nothing() {
    assert!(parse_sse_events("").is_empty());
    assert!(parse_sse_events("\n\n\n").is_empty());
}
