use robinhood_chain::client::{failure_message, HttpCore};
use robinhood_chain::RobinhoodChainError;

fn api_parts(e: RobinhoodChainError) -> (u16, String, serde_json::Value) {
    match e {
        RobinhoodChainError::Api { status, message, body } => (status, message, body),
        other => panic!("expected an Api error, got {:?}", other),
    }
}

#[test]
fn success_statuses_pass_the_body_on() {
    assert!(HttpCore::handle(200, "{}").is_ok());
    assert!(HttpCore::handle(204, "").is_ok());
    assert!(HttpCore::handle(299, "not json").is_ok());
}

#[test]
fn non_success_statuses_fail() {
    for status in [100u16, 199, 300, 302, 400, 404, 429, 500, 503, 999] {
        assert!(HttpCore::handle(status, "{}").is_err(), "status {}", status);
    }
}

#[test]
fn error_member_is_the_message() {
    let e = HttpCore::handle(404, r#"{"error":"token not found","message":"ignored"}"#).unwrap_err();
    assert_eq!(e.status(), Some(404));
    let (status, message, body) = api_parts(e);
    assert_eq!(status, 404);
    assert_eq!(message, "token not found");
    assert_eq!(body["error"], "token not found");
}

#[test]
fn message_member_when_no_error_member() {
    let (_, message, body) = api_parts(HttpCore::handle(400, r#"{"message":"bad limit"}"#).unwrap_err());
    assert_eq!(message, "bad limit");
    assert_eq!(body["message"], "bad limit");
}

#[test]
fn non_string_error_member_falls_back_even_with_message() {
    let (_, message, _) =
        api_parts(HttpCore::handle(500, r#"{"error":{"code":7},"message":"x"}"#).unwrap_err());
    assert_eq!(message, "Request failed with status 500 Internal Server Error");
}

#[test]
fn null_error_member_falls_back() {
    let (_, message, _) = api_parts(HttpCore::handle(403, r#"{"error":null}"#).unwrap_err());
    assert_eq!(message, "Request failed with status 403 Forbidden");
}

#[test]
fn non_json_body_is_kept_as_a_string() {
    let e = HttpCore::handle(502, "<html>Bad Gateway</html>").unwrap_err();
    assert_eq!(
        e.body(),
        Some(&serde_json::Value::String("<html>Bad Gateway</html>".to_string()))
    );
    let (_, message, _) = api_parts(e);
    assert_eq!(message, "Request failed with status 502 Bad Gateway");
}

#[test]
fn json_array_body_falls_back() {
    let (_, message, body) = api_parts(HttpCore::handle(404, r#"["error"]"#).unwrap_err());
    assert_eq!(message, "Request failed with status 404 Not Found");
    assert!(body.is_array());
}

#[test]
fn unknown_status_code_has_no_reason_phrase() {
    let (_, message, _) = api_parts(HttpCore::handle(599, "").unwrap_err());
    assert_eq!(message, "Request failed with status 599 <unknown status code>");
}

#[test]
fn status_and_body_only_for_api_errors() {
    let e = RobinhoodChainError::MissingApiKey;
    assert_eq!(e.status(), None);
    assert!(e.body().is_none());
    let json_err = serde_json::from_str::<serde_json::Value>("{").unwrap_err();
    let e = RobinhoodChainError::Json(json_err);
    assert_eq!(e.status(), None);
    assert!(e.body().is_none());
}

#[test]
fn failure_message_prefers_the_error_member() {
    let s = |x: &str| Some(Some(x.to_string()));
    assert_eq!(failure_message(404, s("e"), s("m")), "e");
    assert_eq!(failure_message(404, None, s("m")), "m");
    assert_eq!(failure_message(404, Some(None), s("m")), "Request failed with status 404 Not Found");
    assert_eq!(failure_message(429, None, Some(None)), "Request failed with status 429 Too Many Requests");
    assert_eq!(failure_message(400, None, None), "Request failed with status 400 Bad Request");
}

#[test]
fn error_member_wins_and_body_is_the_document() {
    let text = r#"{"message":"m","error":"e"}"#;
    let e = HttpCore::handle(404, text).unwrap_err();
    let (status, message, body) = api_parts(e);
    assert_eq!(status, 404);
    assert_eq!(message, "e");
    assert_eq!(body, serde_json::from_str::<serde_json::Value>(text).unwrap());
}

#[test]
fn bad_gateway_text_body() {
    let (status, message, body) = api_parts(HttpCore::handle(502, "Bad Gateway").unwrap_err());
    assert_eq!(status, 502);
    assert_eq!(message, "Request failed with status 502 Bad Gateway");
    assert_eq!(body, serde_json::Value::String("Bad Gateway".to_string()));
}
