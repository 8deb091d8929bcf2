use gluxe::invoke::{
    chunk_envelope, encode_invoke_result, encode_stream_message, err_envelope, error_envelope,
    ok_envelope, CommandResult, StreamMessage,
};
use serde_json::Value;
use gluxe::invoke::StreamTable;

#[test]
fn streams_register_cancel_and_retire_on_terminal() {
    let mut t = StreamTable::new();
    assert_eq!(t.register(7, "flag7"), 0);
    assert_eq!(t.cancel_flag(7), Some(&"flag7"));
    // Chunks are delivered and keep the stream live.
    assert!(t.accept_message(0, 7, false));
    assert_eq!(t.cancel_flag(7), Some(&"flag7"));
    // The terminal retires it.
    assert!(t.accept_message(0, 7, true));
    assert_eq!(t.cancel_flag(7), None);
}

#[test]
fn error_stream_forgets_the_stream() {
    let mut t = StreamTable::new();
    t.register(1, ());
    assert_eq!(t.error_stream(1), 0);
    assert!(t.cancel_flag(1).is_none());
}

#[test]
fn reload_hands_back_flags_and_drops_old_epoch_messages() {
    let mut t = StreamTable::new();
    t.register(1, 'a');
    t.register(2, 'b');
    let flags = t.reset_for_reload();
    assert_eq!(flags.len(), 2);
    assert_eq!(flags.get(&1), Some(&'a'));
    assert_eq!(t.epoch(), 1);
    assert!(t.cancel_flag(1).is_none());
    // A late End from an old-bundle handler reusing id 1 is dropped.
    t.register(1, 'c');
    assert!(!t.accept_message(0, 1, true));
    assert_eq!(t.cancel_flag(1), Some(&'c'));
    assert!(t.accept_message(1, 1, true));
}

fn parse_envelope(json: &str) -> Value {
    serde_json::from_str(json).expect("valid JSON envelope")
}

fn object(pairs: &[(&str, Value)]) -> Value {
    let mut m = serde_json::Map::new();
    for (k, v) in pairs {
        m.insert(k.to_string(), v.clone());
    }
    Value::Object(m)
}

// ---- encode_invoke_result ----

#[test]
fn state_ok_result_produces_ok_true_envelope() {
    let result: CommandResult = Ok(Value::from(42));
    let encoded = encode_invoke_result(result);
    let v = parse_envelope(&encoded);
    assert_eq!(v["ok"], Value::Bool(true));
    assert_eq!(v["value"], Value::from(42));
}

#[test]
fn state_ok_result_with_string_value() {
    let result: CommandResult = Ok(Value::from("hello"));
    let encoded = encode_invoke_result(result);
    let v = parse_envelope(&encoded);
    assert_eq!(v["ok"], Value::Bool(true));
    assert_eq!(v["value"], Value::from("hello"));
}

#[test]
fn state_ok_result_with_object_value() {
    let result: CommandResult = Ok(object(&[("a", Value::from(1))]));
    let encoded = encode_invoke_result(result);
    let v = parse_envelope(&encoded);
    assert_eq!(v["ok"], Value::Bool(true));
    assert_eq!(v["value"]["a"], Value::from(1));
}

#[test]
fn state_err_result_produces_ok_false_envelope() {
    let result: CommandResult = Err("something went wrong".to_string());
    let encoded = encode_invoke_result(result);
    let v = parse_envelope(&encoded);
    assert_eq!(v["ok"], Value::Bool(false));
    assert_eq!(v["error"], Value::from("something went wrong"));
}

#[test]
fn state_err_result_has_no_value_key() {
    let result: CommandResult = Err("oops".to_string());
    let encoded = encode_invoke_result(result);
    let v = parse_envelope(&encoded);
    assert!(v.get("value").is_none());
}

#[test]
fn state_ok_result_has_no_error_key() {
    let result: CommandResult = Ok(Value::Null);
    let encoded = encode_invoke_result(result);
    let v = parse_envelope(&encoded);
    assert!(v.get("error").is_none());
}

// ---- encode_stream_message ----

#[test]
fn state_chunk_message_envelope() {
    let v = parse_envelope(&encode_stream_message(&StreamMessage::Chunk(object(&[(
        "line",
        Value::from("hi"),
    )]))));
    assert_eq!(v["t"], Value::from("chunk"));
    assert_eq!(v["value"]["line"], Value::from("hi"));
}

#[test]
fn state_end_message_envelope() {
    let v = parse_envelope(&encode_stream_message(&StreamMessage::End));
    assert_eq!(v["t"], Value::from("end"));
    assert!(v.get("value").is_none());
    assert!(v.get("error").is_none());
}

#[test]
fn state_error_message_envelope() {
    let v = parse_envelope(&encode_stream_message(&StreamMessage::Error("boom".into())));
    assert_eq!(v["t"], Value::from("error"));
    assert_eq!(v["error"], Value::from("boom"));
}

fn parse_envelope_again(json: &str) -> Value {
    serde_json::from_str(json).expect("valid JSON envelope")
}

fn object_again(pairs: &[(&str, Value)]) -> Value {
    let mut m = serde_json::Map::new();
    for (k, v) in pairs {
        m.insert(k.to_string(), v.clone());
    }
    Value::Object(m)
}

// ---- encode_invoke_result ----

#[test]
fn invoke_ok_result_produces_ok_true_envelope() {
    let result: CommandResult = Ok(Value::from(42));
    let encoded = encode_invoke_result(result);
    let v = parse_envelope_again(&encoded);
    assert_eq!(v["ok"], Value::Bool(true));
    assert_eq!(v["value"], Value::from(42));
}

#[test]
fn invoke_ok_result_with_string_value() {
    let result: CommandResult = Ok(Value::from("hello"));
    let encoded = encode_invoke_result(result);
    let v = parse_envelope_again(&encoded);
    assert_eq!(v["ok"], Value::Bool(true));
    assert_eq!(v["value"], Value::from("hello"));
}

#[test]
fn invoke_ok_result_with_object_value() {
    let result: CommandResult = Ok(object_again(&[("a", Value::from(1))]));
    let encoded = encode_invoke_result(result);
    let v = parse_envelope_again(&encoded);
    assert_eq!(v["ok"], Value::Bool(true));
    assert_eq!(v["value"]["a"], Value::from(1));
}

#[test]
fn invoke_err_result_produces_ok_false_envelope() {
    let result: CommandResult = Err("something went wrong".to_string());
    let encoded = encode_invoke_result(result);
    let v = parse_envelope_again(&encoded);
    assert_eq!(v["ok"], Value::Bool(false));
    assert_eq!(v["error"], Value::from("something went wrong"));
}

#[test]
fn invoke_err_result_has_no_value_key() {
    let result: CommandResult = Err("oops".to_string());
    let encoded = encode_invoke_result(result);
    let v = parse_envelope_again(&encoded);
    assert!(v.get("value").is_none());
}

#[test]
fn invoke_ok_result_has_no_error_key() {
    let result: CommandResult = Ok(Value::Null);
    let encoded = encode_invoke_result(result);
    let v = parse_envelope_again(&encoded);
    assert!(v.get("error").is_none());
}

// ---- encode_stream_message ----

#[test]
fn invoke_chunk_message_envelope() {
    let v = parse_envelope_again(&encode_stream_message(&StreamMessage::Chunk(object_again(&[(
        "line",
        Value::from("hi"),
    )]))));
    assert_eq!(v["t"], Value::from("chunk"));
    assert_eq!(v["value"]["line"], Value::from("hi"));
}

#[test]
fn invoke_end_message_envelope() {
    let v = parse_envelope_again(&encode_stream_message(&StreamMessage::End));
    assert_eq!(v["t"], Value::from("end"));
    assert!(v.get("value").is_none());
    assert!(v.get("error").is_none());
}

#[test]
fn invoke_error_message_envelope() {
    let v = parse_envelope_again(&encode_stream_message(&StreamMessage::Error("boom".into())));
    assert_eq!(v["t"], Value::from("error"));
    assert_eq!(v["error"], Value::from("boom"));
}

#[test]
fn envelopes_are_compact_with_sorted_keys() {
    assert_eq!(encode_invoke_result(Ok(Value::from(7))), "{\"ok\":true,\"value\":7}");
    assert_eq!(encode_invoke_result(Err("a\"b".to_string())), "{\"error\":\"a\\\"b\",\"ok\":false}");
    assert_eq!(encode_stream_message(&StreamMessage::End), "{\"t\":\"end\"}");
    assert_eq!(ok_envelope(None), "{\"ok\":true,\"value\":null}");
    assert_eq!(err_envelope(None), "{\"ok\":false,\"error\":\"serialization error\"}");
    assert_eq!(chunk_envelope(Some("[1]")), "{\"t\":\"chunk\",\"value\":[1]}");
    assert_eq!(error_envelope(Some("\"x\"")), "{\"error\":\"x\",\"t\":\"error\"}");
}

#[test]
fn argument_errors_name_the_field() {
    assert_eq!(gluxe::invoke::missing_argument("n"), "missing argument `n`");
    assert_eq!(
        gluxe::invoke::invalid_argument("n", "invalid type: string \"nope\", expected i32"),
        "invalid argument `n`: invalid type: string \"nope\", expected i32"
    );
}

#[test]
fn error_messages_are_escaped_as_json_strings() {
    let r: CommandResult = Err("a\"b\\c\n\t\u{1}\u{7f}é".to_string());
    assert_eq!(
        encode_invoke_result(r),
        "{\"error\":\"a\\\"b\\\\c\\n\\t\\u0001\u{7f}é\",\"ok\":false}"
    );
}

#[test]
fn chunk_envelope_carries_the_compact_value() {
    let mut obj = serde_json::Map::new();
    obj.insert("b".to_string(), Value::from(1));
    obj.insert("a".to_string(), Value::from(vec![Value::Bool(true), Value::Null]));
    assert_eq!(
        encode_stream_message(&StreamMessage::Chunk(Value::Object(obj))),
        "{\"t\":\"chunk\",\"value\":{\"a\":[true,null],\"b\":1}}"
    );
}
