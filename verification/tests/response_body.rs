use serde_json::Value;
use spindle_backend::api::query_response_body;

#[test]
fn json_body_is_passed_through() {
    let body = "{\"data\":[{\"spindle_id\":\"S1\"}],\"rows\":1}";
    let expected: Value = serde_json::from_str(body).unwrap();
    assert_eq!(query_response_body(body), expected);
}

#[test]
fn non_json_body_is_wrapped_as_data() {
    let body = "Code: 60. DB::Exception: Table does not exist";
    let answer = query_response_body(body);
    let mut expected = serde_json::Map::new();
    expected.insert("data".to_string(), Value::String(body.to_string()));
    assert_eq!(answer, Value::Object(expected));
}

#[test]
fn empty_body_is_wrapped_as_data() {
    let answer = query_response_body("");
    assert_eq!(answer.get("data"), Some(&Value::String(String::new())));
    assert_eq!(answer.as_object().map(|m| m.len()), Some(1));
}

#[test]
fn trailing_text_is_not_json() {
    let answer = query_response_body("{} extra");
    assert_eq!(answer.get("data"), Some(&Value::String("{} extra".to_string())));
}
