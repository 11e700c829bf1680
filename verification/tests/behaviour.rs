use p2p_node::behaviour::decode_payload;
use p2p_node::behaviour::decoded_from_parse;
use p2p_node::behaviour::inject_pubsub_event;
use p2p_node::behaviour::Decoded;
use p2p_node::behaviour::PubSubEvent;
use p2p_node::identity::generate_identity;
use serde_json::Number;
use serde_json::Value;

fn document_of(decoded: Decoded) -> Option<Value> {
    match decoded {
        Decoded::Json(value) => Some(value),
        Decoded::Malformed => None,
    }
}

#[test]
fn decode_reads_a_json_object() {
    let mut expected = serde_json::Map::new();
    expected.insert("data".to_string(), Value::String("hello".to_string()));
    expected.insert("n".to_string(), Value::Number(Number::from(3)));
    let decoded = decode_payload("{\"data\": \"hello\", \"n\": 3}");
    assert_eq!(document_of(decoded), Some(Value::Object(expected)));
}

#[test]
fn decode_reads_json_scalars() {
    assert_eq!(document_of(decode_payload("null")), Some(Value::Null));
    assert_eq!(document_of(decode_payload("true")), Some(Value::Bool(true)));
    assert_eq!(document_of(decode_payload(" 42 ")), Some(Value::Number(Number::from(42))));
    assert_eq!(
        document_of(decode_payload("\"hello\"")),
        Some(Value::String("hello".to_string()))
    );
    assert_eq!(document_of(decode_payload("[]")), Some(Value::Array(Vec::new())));
}

#[test]
fn decode_reports_what_is_not_json() {
    assert_eq!(document_of(decode_payload("hello")), None);
    assert_eq!(document_of(decode_payload("")), None);
    assert_eq!(document_of(decode_payload("{\"data\": ")), None);
    assert_eq!(document_of(decode_payload("{} trailing")), None);
    assert_eq!(document_of(decode_payload("{'data': 1}")), None);
}

#[test]
fn decode_reports_nesting_beyond_the_parsers_limit() {
    let deep = "[".repeat(200) + &"]".repeat(200);
    assert_eq!(document_of(decode_payload(&deep)), None);
    let shallow = "[".repeat(100) + &"]".repeat(100);
    assert!(document_of(decode_payload(&shallow)).is_some());
}

#[test]
fn message_with_json_payload_is_decoded() {
    let (_, source) = generate_identity();
    let event = PubSubEvent::Message { source, data: b"{\"data\":\"hello\"}".to_vec() };
    let received = inject_pubsub_event(event).unwrap();
    assert_eq!(received.source, source);
    assert_eq!(received.text, "{\"data\":\"hello\"}");
    let mut expected = serde_json::Map::new();
    expected.insert("data".to_string(), Value::String("hello".to_string()));
    assert_eq!(document_of(received.decoded), Some(Value::Object(expected)));
}

#[test]
fn message_that_is_not_json_is_reported_as_malformed() {
    let (_, source) = generate_identity();
    let event = PubSubEvent::Message { source, data: b"hello there".to_vec() };
    let received = inject_pubsub_event(event).unwrap();
    assert_eq!(received.text, "hello there");
    assert!(matches!(received.decoded, Decoded::Malformed));
}

#[test]
fn message_that_is_not_utf8_is_read_lossily() {
    let (_, source) = generate_identity();
    let event = PubSubEvent::Message { source, data: vec![0x68, 0x69, 0xff, 0xfe, 0x21] };
    let received = inject_pubsub_event(event).unwrap();
    assert_eq!(received.text, "hi\u{fffd}\u{fffd}!");
    assert!(matches!(received.decoded, Decoded::Malformed));
}

#[test]
fn ill_formed_bytes_inside_a_json_string_are_replaced() {
    let (_, source) = generate_identity();
    let event = PubSubEvent::Message { source, data: vec![0x22, 0xc3, 0x28, 0x22] };
    let received = inject_pubsub_event(event).unwrap();
    assert_eq!(received.text, "\"\u{fffd}(\"");
    assert_eq!(document_of(received.decoded), Some(Value::String("\u{fffd}(".to_string())));
}

#[test]
fn empty_message_is_malformed() {
    let (_, source) = generate_identity();
    let received = inject_pubsub_event(PubSubEvent::Message { source, data: Vec::new() }).unwrap();
    assert_eq!(received.text, "");
    assert!(matches!(received.decoded, Decoded::Malformed));
}

#[test]
fn valid_message_after_a_malformed_one_is_decoded() {
    let (_, source) = generate_identity();
    let broken = PubSubEvent::Message { source, data: vec![0xff, 0x7b, 0x00] };
    assert!(matches!(inject_pubsub_event(broken).unwrap().decoded, Decoded::Malformed));
    let sound = PubSubEvent::Message { source, data: b"[1, 2]".to_vec() };
    let received = inject_pubsub_event(sound).unwrap();
    let expected =
        Value::Array(vec![Value::Number(Number::from(1)), Value::Number(Number::from(2))]);
    assert_eq!(document_of(received.decoded), Some(expected));
}

#[test]
fn subscription_changes_are_ignored() {
    assert!(inject_pubsub_event(PubSubEvent::SubscriptionChanged).is_none());
}

#[test]
fn parser_error_becomes_malformed_payload() {
    let failed = serde_json::from_str::<Value>("{");
    assert!(failed.is_err());
    assert_eq!(document_of(decoded_from_parse(failed)), None);
    assert_eq!(document_of(decoded_from_parse(Ok(Value::Bool(false)))), Some(Value::Bool(false)));
}
