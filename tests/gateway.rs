use assistant_core::audit::AuditLevel;
use assistant_core::gateway::{
    classify_failure, interpret_response, normalize_parsed, normalize_response, prepare_request,
    ConversationMessage, GatewayError, Role,
};
use assistant_core::json::JsonValue;
use assistant_core::normalize::extract_reply;
use assistant_core::settings::{Dialect, Settings};

fn configured() -> Settings {
    let mut s = Settings::defaults();
    s.secret = "sk-test".to_string();
    s
}

fn user(text: &str) -> ConversationMessage {
    ConversationMessage { role: Role::User, content: text.to_string() }
}

#[test]
fn normalizes_strict_shape() {
    let r = normalize_response(r#"{"choices":[{"message":{"content":"X"}}]}"#);
    assert_eq!(r, Ok("X".to_string()));
}

#[test]
fn normalizes_message_shape() {
    assert_eq!(normalize_response(r#"{"message":{"content":"X"}}"#), Ok("X".to_string()));
}

#[test]
fn normalizes_content_shape() {
    assert_eq!(normalize_response(r#"{"content":"X"}"#), Ok("X".to_string()));
}

#[test]
fn normalizes_result_shape() {
    assert_eq!(normalize_response(r#"{"result":"R"}"#), Ok("R".to_string()));
}

#[test]
fn strict_takes_first_choice() {
    let body = r#"{"choices":[{"message":{"content":"A"}},{"message":{"content":"B"}}]}"#;
    assert_eq!(normalize_response(body), Ok("A".to_string()));
}

#[test]
fn generic_used_when_choices_null() {
    let body = r#"{"choices":null,"message":{"content":"M"},"content":"C"}"#;
    assert_eq!(normalize_response(body), Ok("M".to_string()));
}

#[test]
fn probing_used_when_generic_fails() {
    let body = r#"{"message":5,"content":"C"}"#;
    assert_eq!(normalize_response(body), Ok("C".to_string()));
}

#[test]
fn unexpected_shape_is_unparseable() {
    let body = r#"{"unexpected":"shape"}"#;
    assert_eq!(
        normalize_response(body),
        Err(GatewayError::UnparseableResponse(body.to_string()))
    );
}

#[test]
fn non_json_is_unparseable() {
    let body = "<html>oops</html>";
    assert_eq!(
        normalize_response(body),
        Err(GatewayError::UnparseableResponse(body.to_string()))
    );
}

#[test]
fn reply_is_sanitized() {
    let body = r#"{"content":"<script>x()</script>safe"}"#;
    assert_eq!(normalize_response(body), Ok("safe".to_string()));
}

#[test]
fn normalize_parsed_tree() {
    let tree = JsonValue::Object(vec![(
        "content".to_string(),
        JsonValue::Str("T".to_string()),
    )]);
    assert_eq!(normalize_parsed(Some(&tree), "raw"), Ok("T".to_string()));
    assert_eq!(
        normalize_parsed(None, "raw"),
        Err(GatewayError::UnparseableResponse("raw".to_string()))
    );
    let empty = JsonValue::Array(vec![]);
    assert_eq!(
        normalize_parsed(Some(&empty), "[]"),
        Err(GatewayError::UnparseableResponse("[]".to_string()))
    );
}

#[test]
fn extract_reply_on_tree() {
    let choice = JsonValue::Object(vec![(
        "message".to_string(),
        JsonValue::Object(vec![("content".to_string(), JsonValue::Str("Z".to_string()))]),
    )]);
    let v = JsonValue::Object(vec![("choices".to_string(), JsonValue::Array(vec![choice]))]);
    assert_eq!(extract_reply(&v), Some("Z"));
    let odd = JsonValue::Object(vec![("result".to_string(), JsonValue::Number("1".to_string()))]);
    assert_eq!(extract_reply(&odd), None);
}

#[test]
fn numbers_and_literals_are_not_replies() {
    let body = r#"{"content":12,"result":true}"#;
    assert_eq!(
        normalize_response(body),
        Err(GatewayError::UnparseableResponse(body.to_string()))
    );
}

#[test]
fn status_classification() {
    assert_eq!(classify_failure(401, "b".to_string()), GatewayError::AuthFailed);
    assert_eq!(classify_failure(404, "b".to_string()), GatewayError::EndpointNotFound);
    assert_eq!(classify_failure(429, "b".to_string()), GatewayError::RateLimited);
    assert_eq!(
        classify_failure(500, "boom".to_string()),
        GatewayError::RequestFailed(500, "boom".to_string())
    );
}

#[test]
fn interpret_success_and_failure() {
    assert_eq!(
        interpret_response(200, r#"{"content":"ok"}"#.to_string()),
        Ok("ok".to_string())
    );
    assert_eq!(interpret_response(429, "slow".to_string()), Err(GatewayError::RateLimited));
    assert_eq!(
        interpret_response(302, "moved".to_string()),
        Err(GatewayError::RequestFailed(302, "moved".to_string()))
    );
}

#[test]
fn audit_levels_of_failures() {
    assert_eq!(GatewayError::RateLimited.audit_level(), AuditLevel::Warning);
    assert_eq!(GatewayError::AuthFailed.audit_level(), AuditLevel::Error);
    assert_eq!(GatewayError::AuthNotConfigured.audit_level(), AuditLevel::Warning);
    assert_eq!(
        GatewayError::Invalid(assistant_core::validate::ValidationError::UnsafeUrl).audit_level(),
        AuditLevel::Warning
    );
    assert_eq!(
        GatewayError::UnparseableResponse("x".to_string()).audit_level(),
        AuditLevel::Error
    );
    assert_eq!(GatewayError::NetworkFailure("t".to_string()).audit_level(), AuditLevel::Error);
}

#[test]
fn unset_secret_refused_before_request() {
    let s = Settings::defaults();
    let r = prepare_request(&s, &vec![user("hi")]);
    assert!(matches!(r, Err(GatewayError::AuthNotConfigured)));
    let mut empty = Settings::defaults();
    empty.secret = String::new();
    let r = prepare_request(&empty, &vec![user("hi")]);
    assert!(matches!(r, Err(GatewayError::AuthNotConfigured)));
}

#[test]
fn invalid_endpoint_refused() {
    let mut s = configured();
    s.endpoint_url = "http://localhost/v1".to_string();
    let r = prepare_request(&s, &vec![]);
    assert!(matches!(
        r,
        Err(GatewayError::Invalid(assistant_core::validate::ValidationError::UnsafeUrl))
    ));
}

#[test]
fn invalid_model_refused() {
    let mut s = configured();
    s.model_id = "bad model".to_string();
    let r = prepare_request(&s, &vec![]);
    assert!(matches!(
        r,
        Err(GatewayError::Invalid(assistant_core::validate::ValidationError::InvalidModelId))
    ));
}

#[test]
fn request_is_built() {
    let mut s = configured();
    s.dialect = Dialect::Compatible;
    let msgs = vec![
        user("<script>x</script>question"),
        ConversationMessage { role: Role::Assistant, content: "answer".to_string() },
    ];
    let req = prepare_request(&s, &msgs).expect("request");
    assert_eq!(req.url, "https://api.openai.com/v1/chat/completions");
    assert_eq!(req.model, "gpt-4o-mini");
    assert!(!req.stream);
    assert_eq!(req.timeout_secs, 30);
    assert_eq!(req.messages.len(), 3);
    assert_eq!(req.messages[0].role, Role::System);
    assert_eq!(req.messages[0].content, "You are a helpful assistant.");
    assert_eq!(req.messages[1].role, Role::User);
    assert_eq!(req.messages[1].content, "question");
    assert_eq!(req.messages[2].role, Role::Assistant);
    assert_eq!(req.messages[2].content, "answer");
    assert_eq!(
        req.headers,
        vec![
            ("Content-Type".to_string(), "application/json".to_string()),
            ("Authorization".to_string(), "Bearer sk-test".to_string()),
        ]
    );
}

#[test]
fn empty_prompt_sends_no_system_message() {
    let mut s = configured();
    s.system_prompt = String::new();
    let req = prepare_request(&s, &vec![user("hi")]).expect("request");
    assert_eq!(req.messages.len(), 1);
    assert_eq!(req.messages[0].content, "hi");
}

#[test]
fn prompt_sanitized_away_still_sent() {
    let mut s = configured();
    s.system_prompt = "<script>all of it</script>".to_string();
    let req = prepare_request(&s, &vec![user("hi")]).expect("request");
    assert_eq!(req.messages.len(), 2);
    assert_eq!(req.messages[0].role, Role::System);
    assert_eq!(req.messages[0].content, "");
    assert_eq!(req.messages[1].content, "hi");
}

#[test]
fn reply_is_trimmed() {
    let body = "{\"content\":\"  \\n padded reply\\t\\u3000 \"}";
    assert_eq!(normalize_response(body), Ok("padded reply".to_string()));
    assert_eq!(normalize_response(r#"{"content":"   "}"#), Ok(String::new()));
}

#[test]
fn role_names() {
    assert_eq!(Role::System.name(), "system");
    assert_eq!(Role::User.name(), "user");
    assert_eq!(Role::Assistant.name(), "assistant");
}
