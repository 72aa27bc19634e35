use openairs::client::{classify_error, interpret_json, interpret_response};
use openairs::completions::CompletionResponse;
use openairs::edits::EditResponse;
use openairs::error::OpenAIError;
use openairs::images::ImageResponse;
use openairs::json::Json;
use openairs::numbers::{decimal, hundredths};

#[test]
fn success_payload_gives_the_first_choice() {
    let body = r#"{"id":"cmpl-1","choices":[{"text":"Hello, world","index":0},{"text":"second","index":1}]}"#;
    let r: Result<CompletionResponse, OpenAIError> = interpret_response(body);
    let r = r.unwrap();
    assert_eq!(r.choices.len(), 2);
    assert_eq!(r.choices[0].text, "Hello, world");
    assert_eq!(r.choices[1].text, "second");
}

#[test]
fn billing_not_active_carries_the_error_object() {
    let body = r#"{"error":{"message":"Your account is not active","type":"billing_not_active"}}"#;
    let r: Result<CompletionResponse, OpenAIError> = interpret_response(body);
    assert_eq!(
        r,
        Err(OpenAIError::BillingNotActive(
            r#"{"message":"Your account is not active","type":"billing_not_active"}"#.to_string()
        ))
    );
}

#[test]
fn invalid_request_error_is_mapped() {
    let body = r#"{"error":{"code":null,"message":"bad","param":null,"type":"invalid_request_error"}}"#;
    let r: Result<EditResponse, OpenAIError> = interpret_response(body);
    assert_eq!(
        r,
        Err(OpenAIError::InvalidRequest(
            r#"{"code":null,"message":"bad","param":null,"type":"invalid_request_error"}"#.to_string()
        ))
    );
}

#[test]
fn unrecognized_error_keeps_the_payload() {
    let body = r#"{"error":{"message":"slow down","type":"rate_limit","details":[1,true,{"a":"b"}]}}"#;
    let r: Result<CompletionResponse, OpenAIError> = interpret_response(body);
    let payload = match r {
        Err(OpenAIError::UnrecognizedError(p)) => p,
        other => panic!("unexpected {:?}", other),
    };
    let sent: serde_json::Value = serde_json::from_str(body).unwrap();
    let again: serde_json::Value = serde_json::from_str(&payload).unwrap();
    assert_eq!(again, sent["error"]);
}

#[test]
fn error_without_type_is_unrecognized() {
    let body = r#"{"error":{"message":"no type here"}}"#;
    let r: Result<CompletionResponse, OpenAIError> = interpret_response(body);
    assert_eq!(
        r,
        Err(OpenAIError::UnrecognizedError(r#"{"message":"no type here"}"#.to_string()))
    );
}

#[test]
fn error_with_a_non_string_type_is_unrecognized() {
    let body = r#"{"error":{"type":7}}"#;
    let r: Result<ImageResponse, OpenAIError> = interpret_response(body);
    assert_eq!(r, Err(OpenAIError::UnrecognizedError(r#"{"type":7}"#.to_string())));
}

#[test]
fn body_that_is_not_json_is_a_transport_error() {
    let r: Result<CompletionResponse, OpenAIError> = interpret_response("<html>bad gateway</html>");
    assert!(matches!(r, Err(OpenAIError::TransportError(_))));
}

#[test]
fn success_payload_of_the_wrong_shape_is_a_decode_error() {
    let r: Result<CompletionResponse, OpenAIError> = interpret_response(r#"{"choices":[{"index":0}]}"#);
    assert!(matches!(r, Err(OpenAIError::DecodeError(_))));
    let r: Result<CompletionResponse, OpenAIError> = interpret_response("[]");
    assert!(matches!(r, Err(OpenAIError::DecodeError(_))));
}

#[test]
fn empty_choices_decode_to_an_empty_response() {
    let r: Result<EditResponse, OpenAIError> = interpret_response(r#"{"object":"edit","choices":[]}"#);
    assert_eq!(r.unwrap().choices.len(), 0);
}

#[test]
fn image_payload_gives_the_urls() {
    let body = r#"{"created":1,"data":[{"url":"https://x/1.png"},{"url":"https://x/2.png"}]}"#;
    let r: Result<ImageResponse, OpenAIError> = interpret_response(body);
    let r = r.unwrap();
    assert_eq!(r.data[0].url, "https://x/1.png");
    assert_eq!(r.data[1].url, "https://x/2.png");
}

#[test]
fn interpret_json_on_a_built_value() {
    let j = Json::Object(vec![(
        "choices".to_string(),
        Json::Array(vec![Json::Object(vec![("text".to_string(), Json::Str("x".to_string()))])]),
    )]);
    let r: Result<CompletionResponse, OpenAIError> = interpret_json(&j);
    assert_eq!(r.unwrap().choices[0].text, "x");
}

#[test]
fn classify_error_on_a_built_value() {
    let e = Json::Object(vec![
        ("type".to_string(), Json::Str("billing_not_active".to_string())),
        ("n".to_string(), Json::Number("1.5".to_string())),
    ]);
    assert_eq!(
        classify_error(&e),
        OpenAIError::BillingNotActive(r#"{"type":"billing_not_active","n":1.5}"#.to_string())
    );
}

#[test]
fn json_text_of_each_kind() {
    let j = Json::Array(vec![
        Json::Null,
        Json::Bool(true),
        Json::Bool(false),
        Json::Number("-3".to_string()),
        Json::Str("tab\there".to_string()),
        Json::Object(vec![]),
        Json::Array(vec![]),
    ]);
    assert_eq!(j.to_text(), r#"[null,true,false,-3,"tab\there",{},[]]"#);
}

#[test]
fn json_lookup() {
    let j = Json::Object(vec![
        ("a".to_string(), Json::Str("first".to_string())),
        ("a".to_string(), Json::Str("second".to_string())),
    ]);
    assert_eq!(j.get("a").and_then(|v| v.as_str()), Some("first"));
    assert!(j.get("b").is_none());
    assert!(Json::Null.get("a").is_none());
    assert_eq!(Json::Bool(true).as_str(), None);
}

#[test]
fn json_string_list() {
    let j = Json::Object(vec![(
        "data".to_string(),
        Json::Array(vec![
            Json::Object(vec![("url".to_string(), Json::Str("u1".to_string()))]),
            Json::Object(vec![("url".to_string(), Json::Null)]),
        ]),
    )]);
    assert_eq!(j.string_list("data", "url"), None);
    assert_eq!(j.string_list("missing", "url"), None);
}

#[test]
fn decimal_text() {
    assert_eq!(decimal(0), "0");
    assert_eq!(decimal(7), "7");
    assert_eq!(decimal(4095), "4095");
    assert_eq!(decimal(u64::MAX), "18446744073709551615");
}

#[test]
fn hundredths_text() {
    assert_eq!(hundredths(0), "0.00");
    assert_eq!(hundredths(30), "0.30");
    assert_eq!(hundredths(105), "1.05");
    assert_eq!(hundredths(200), "2.00");
}
