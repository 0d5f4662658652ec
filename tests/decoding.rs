use speculos_http::{decode_event, decode_events, parse_events, parse_json, DecodeError, Event, Json, JsonNumber};

fn event(text: &str, x: u32, y: u32) -> Event {
    Event { text: text.to_string(), x, y }
}

#[test]
fn decodes_single_event() {
    let r = parse_events("{\"events\":[{\"text\":\"Hello\",\"x\":10,\"y\":20}]}".as_bytes()).unwrap();
    assert_eq!(r.events, vec![event("Hello", 10, 20)]);
}

#[test]
fn decodes_empty_event_list() {
    let r = parse_events("{\"events\":[]}".as_bytes()).unwrap();
    assert!(r.events.is_empty());
}

#[test]
fn keeps_event_order_and_ignores_extra_members() {
    let body = "{\"events\":[{\"text\":\"b\",\"x\":1,\"y\":2,\"w\":3},{\"y\":0,\"x\":4294967295,\"text\":\"a\"}],\"more\":null}";
    let r = parse_events(body.as_bytes()).unwrap();
    assert_eq!(r.events, vec![event("b", 1, 2), event("a", 4294967295, 0)]);
}

#[test]
fn missing_events_key_is_a_decode_error() {
    assert!(matches!(parse_events("{\"evts\":[]}".as_bytes()), Err(DecodeError::Schema)));
}

#[test]
fn non_numeric_x_is_a_decode_error() {
    let body = "{\"events\":[{\"text\":\"Hello\",\"x\":\"10\",\"y\":20}]}";
    assert!(matches!(parse_events(body.as_bytes()), Err(DecodeError::Schema)));
}

#[test]
fn non_numeric_y_is_a_decode_error() {
    let body = "{\"events\":[{\"text\":\"Hello\",\"x\":10,\"y\":true}]}";
    assert!(matches!(parse_events(body.as_bytes()), Err(DecodeError::Schema)));
}

#[test]
fn out_of_range_coordinates_are_decode_errors() {
    for body in [
        "{\"events\":[{\"text\":\"t\",\"x\":-1,\"y\":0}]}",
        "{\"events\":[{\"text\":\"t\",\"x\":4294967296,\"y\":0}]}",
        "{\"events\":[{\"text\":\"t\",\"x\":1.5,\"y\":0}]}",
    ] {
        assert!(matches!(parse_events(body.as_bytes()), Err(DecodeError::Schema)), "{body}");
    }
}

#[test]
fn wrong_shapes_are_decode_errors() {
    for body in [
        "{\"events\":{}}",
        "{\"events\":null}",
        "[]",
        "{\"events\":[{\"x\":1,\"y\":2}]}",
        "{\"events\":[{\"text\":7,\"x\":1,\"y\":2}]}",
        "{\"events\":[[\"t\",1,2]]}",
    ] {
        assert!(matches!(parse_events(body.as_bytes()), Err(DecodeError::Schema)), "{body}");
    }
}

#[test]
fn text_that_is_not_json_is_a_syntax_error() {
    assert!(matches!(parse_events("{\"events\":[".as_bytes()), Err(DecodeError::Syntax(_))));
    assert!(matches!(parse_events("".as_bytes()), Err(DecodeError::Syntax(_))));
}

#[test]
fn deep_nesting_is_refused_without_panic() {
    let body = format!("{}{}", "[".repeat(300), "]".repeat(300));
    assert!(matches!(parse_events(body.as_bytes()), Err(DecodeError::Syntax(_))));
    let inner = format!("{}{}", "[".repeat(100), "]".repeat(100));
    let body = format!("{{\"events\":[],\"deep\":{inner}}}");
    assert!(parse_events(body.as_bytes()).unwrap().events.is_empty());
}

#[test]
fn parse_json_builds_the_model() {
    let j = parse_json(b"{\"a\":[null,true,\"s\",3,-4,0.5],\"b\":{}}").unwrap();
    match j.get("a") {
        Some(Json::Array(items)) => {
            assert_eq!(items.len(), 6);
            assert!(matches!(items[0], Json::Null));
            assert!(matches!(items[1], Json::Bool(true)));
            assert!(matches!(&items[2], Json::Str(s) if s == "s"));
            assert!(matches!(items[3], Json::Number(JsonNumber::PosInt(3))));
            assert!(matches!(items[4], Json::Number(JsonNumber::NegInt(-4))));
            assert!(matches!(items[5], Json::Number(JsonNumber::Float)));
        }
        _ => panic!("expected an array"),
    }
    assert!(matches!(j.get("b"), Some(Json::Object(m)) if m.is_empty()));
    assert!(j.get("c").is_none());
}

#[test]
fn decode_events_on_model() {
    let record = Json::Object(vec![
        ("text".to_string(), Json::Str("Hi".to_string())),
        ("x".to_string(), Json::Number(JsonNumber::PosInt(3))),
        ("y".to_string(), Json::Number(JsonNumber::PosInt(4))),
    ]);
    assert_eq!(decode_event(&record), Some(event("Hi", 3, 4)));
    let body = Json::Object(vec![("events".to_string(), Json::Array(vec![record]))]);
    assert_eq!(decode_events(&body).unwrap().events, vec![event("Hi", 3, 4)]);
    assert!(matches!(decode_events(&Json::Null), Err(DecodeError::Schema)));
}

#[test]
fn first_member_with_a_name_counts() {
    let body = Json::Object(vec![
        ("events".to_string(), Json::Array(vec![])),
        ("events".to_string(), Json::Null),
    ]);
    assert!(decode_events(&body).unwrap().events.is_empty());
}

#[test]
fn event_equality_is_structural() {
    assert_eq!(event("a", 1, 2), event("a", 1, 2));
    assert_ne!(event("a", 1, 2), event("b", 1, 2));
    assert_ne!(event("a", 1, 2), event("a", 2, 2));
    assert_ne!(event("a", 1, 2), event("a", 1, 3));
}

#[test]
fn invalid_utf8_is_a_syntax_error() {
    assert!(matches!(parse_events(b"{\"events\":[{\"text\":\"\xff\",\"x\":1,\"y\":2}]}"), Err(DecodeError::Syntax(_))));
}

#[test]
fn escaped_text_is_unescaped() {
    let r = parse_events(b"{\"events\":[{\"text\":\"a\\u00e9\\\"b\",\"x\":0,\"y\":7}]}").unwrap();
    assert_eq!(r.events, vec![event("a\u{e9}\"b", 0, 7)]);
}
