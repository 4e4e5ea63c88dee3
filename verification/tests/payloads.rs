use pulsar_consumer::payload::DataContainer;
use serde_json::{Number, Value};

fn sample() -> Value {
    let mut inner = serde_json::Map::new();
    inner.insert("a".to_string(), Value::Number(Number::from(1)));
    inner.insert("b".to_string(), Value::Array(vec![Value::Bool(true), Value::Null]));
    Value::Object(inner)
}

#[test]
fn a_json_payload_is_read_as_its_value() {
    let c = DataContainer::deserialize_message(b"{\"a\": 1, \"b\": [true, null]}").unwrap();
    assert_eq!(c.data, sample());
}

#[test]
fn reading_does_not_hand_the_bytes_back() {
    let c = DataContainer::deserialize_message(b"\"text\"").unwrap();
    assert_eq!(c.data, Value::String("text".to_string()));
    assert_ne!(c.data, Value::String("\"text\"".to_string()));
}

#[test]
fn a_payload_that_is_no_json_is_an_error() {
    assert!(DataContainer::deserialize_message(b"{\"a\": ").is_err());
    assert!(DataContainer::deserialize_message(b"").is_err());
    assert!(DataContainer::deserialize_message(b"hello").is_err());
    assert!(DataContainer::deserialize_message(&[0xff, 0xfe]).is_err());
}

#[test]
fn what_was_read_is_passed_through() {
    let ok = DataContainer::from_parsed(Ok(sample())).unwrap();
    assert_eq!(ok.data, sample());
    let failed = serde_json::from_slice::<Value>(b"[").unwrap_err();
    let text = failed.to_string();
    let err = DataContainer::from_parsed(Err(failed)).unwrap_err();
    assert_eq!(err.to_string(), text);
}

#[test]
fn a_value_is_written_as_json_text() {
    let bytes = DataContainer::serialize_message(DataContainer::from(sample())).unwrap();
    assert_eq!(bytes, b"{\"a\":1,\"b\":[true,null]}".to_vec());
}

#[test]
fn written_payloads_read_back() {
    let bytes = DataContainer::serialize_message(DataContainer { data: sample() }).unwrap();
    let back = DataContainer::deserialize_message(&bytes).unwrap();
    assert_eq!(back.data, sample());
}

#[test]
fn a_container_is_made_from_a_value() {
    let c = DataContainer::from(Value::Bool(false));
    assert_eq!(c.data, Value::Bool(false));
    let c: DataContainer = Value::Null.into();
    assert_eq!(c.data, Value::Null);
}
