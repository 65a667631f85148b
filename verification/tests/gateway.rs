use chat_relay::json::{Json, Member};
use chat_relay::openai::{
    extract_reply, first_choice, is_success, GatewayError, HttpOutcome, OpenAIClient, OpenAIMessage,
    FALLBACK_REPLY, OPENAI_API_URL, OPENAI_MODEL,
};

fn text(s: &str) -> Json {
    Json::Text(s.to_string())
}

fn number(s: &str) -> Json {
    Json::Number(s.to_string())
}

fn member(key: &str, value: Json) -> Member {
    Member { key: key.to_string(), value }
}

fn entry(role: &str, content: &str) -> Json {
    Json::Object(vec![member("role", text(role)), member("content", text(content))])
}

fn client() -> OpenAIClient {
    OpenAIClient::new("sk-test".to_string())
}

fn answered(status: u16, body: &str) -> HttpOutcome {
    HttpOutcome::Answered { status, body: body.as_bytes().to_vec() }
}

#[test]
fn message_keeps_role_and_content() {
    let message = OpenAIMessage::new("user", "hello there");
    assert_eq!(message.role(), "user");
    assert_eq!(message.content(), "hello there");
    let empty = OpenAIMessage::new("", "");
    assert_eq!(empty.role(), "");
    assert_eq!(empty.content(), "");
}

#[test]
fn fixed_configuration() {
    assert_eq!(OPENAI_API_URL, "https://api.openai.com/v1/chat/completions");
    assert_eq!(OPENAI_MODEL, "gpt-4o-mini");
    assert_eq!(FALLBACK_REPLY, "I'm sorry, I couldn't understand that.");
}

#[test]
fn request_body_has_the_fixed_shape() {
    let messages = vec![OpenAIMessage::new("user", "hi")];
    let body = client().create_request_body(&messages);
    let expected = Json::Object(vec![
        member("model", text("gpt-4o-mini")),
        member("messages", Json::Array(vec![entry("user", "hi")])),
        member("max_tokens", number("4096")),
        member("temperature", number("0.7")),
        member("top_p", number("1.0")),
        member("frequency_penalty", number("0.0")),
        member("presence_penalty", number("0.0")),
    ]);
    assert_eq!(body, expected);
}

#[test]
fn request_body_of_an_empty_transcript() {
    let body = client().create_request_body(&Vec::new());
    assert_eq!(body.member("messages"), Some(&Json::Array(vec![])));
    assert_eq!(body.member("max_tokens"), Some(&number("4096")));
}

#[test]
fn request_body_carries_the_transcript_as_it_is() {
    let messages = vec![
        OpenAIMessage::new("assistant", "first"),
        OpenAIMessage::new("user", "second"),
        OpenAIMessage::new("user", "third"),
    ];
    let body = client().create_request_body(&messages);
    assert_eq!(
        body.member("messages"),
        Some(&Json::Array(vec![
            entry("assistant", "first"),
            entry("user", "second"),
            entry("user", "third"),
        ]))
    );
}

#[test]
fn request_body_does_not_cut_a_long_transcript() {
    let messages: Vec<OpenAIMessage> =
        (0..250).map(|i| OpenAIMessage::new("user", &format!("message {}", i))).collect();
    let body = client().create_request_body(&messages);
    match body.member("messages") {
        Some(Json::Array(items)) => {
            assert_eq!(items.len(), 250);
            assert_eq!(items[249], entry("user", "message 249"));
        }
        other => panic!("no array: {:?}", other),
    }
}

#[test]
fn request_goes_to_the_endpoint_with_a_bearer_credential() {
    let request = client().create_request(&vec![OpenAIMessage::new("user", "hi")]);
    assert_eq!(request.url, "https://api.openai.com/v1/chat/completions");
    assert_eq!(request.content_type, "application/json");
    assert_eq!(request.authorization, "Bearer sk-test");
    assert_eq!(request.body, client().create_request_body(&vec![OpenAIMessage::new("user", "hi")]));
}

#[test]
fn success_is_two_hundred_to_two_ninety_nine() {
    assert!(!is_success(0));
    assert!(!is_success(199));
    assert!(is_success(200));
    assert!(is_success(204));
    assert!(is_success(299));
    assert!(!is_success(300));
    assert!(!is_success(429));
    assert!(!is_success(500));
    assert!(!is_success(u16::MAX));
}

#[test]
fn reply_is_the_text_of_the_first_choice() {
    let body = br#"{"choices": [{"message": {"role": "assistant", "content": "42"}}, {"message": {"content": "second"}}]}"#;
    assert_eq!(client().parse_response(body), Ok("42".to_string()));
}

#[test]
fn reply_may_be_empty_text() {
    let body = br#"{"choices": [{"message": {"content": ""}}]}"#;
    assert_eq!(client().parse_response(body), Ok(String::new()));
}

#[test]
fn odd_answers_fall_back() {
    let fallback = Ok("I'm sorry, I couldn't understand that.".to_string());
    let bodies: [&[u8]; 12] = [
        b"{}",
        b"null",
        b"[]",
        b"\"text\"",
        br#"{"choices": []}"#,
        br#"{"choices": {}}"#,
        br#"{"choices": {"0": {"message": {"content": "x"}}}}"#,
        br#"{"choices": [{}]}"#,
        br#"{"choices": [{"message": null}]}"#,
        br#"{"choices": [{"message": {"content": null}}]}"#,
        br#"{"choices": [{"message": {"content": 42}}]}"#,
        br#"{"choices": [{"message": {"content": ["x"]}}]}"#,
    ];
    for body in bodies {
        assert_eq!(client().parse_response(body), fallback);
    }
}

#[test]
fn body_that_is_no_json_falls_back() {
    let fallback = Ok("I'm sorry, I couldn't understand that.".to_string());
    assert_eq!(client().parse_response(b"ok"), fallback);
    assert_eq!(client().parse_response(b""), fallback);
    assert_eq!(client().parse_response(b"{\"choices\": ["), fallback);
    assert_eq!(client().parse_response(b"Service Unavailable"), fallback);
    assert_eq!(client().parse_response(&[0xff, 0xfe, 0x00]), fallback);
}

#[test]
fn extract_reply_reads_a_document_built_by_hand() {
    let answer = Json::Object(vec![member(
        "choices",
        Json::Array(vec![Json::Object(vec![member(
            "message",
            Json::Object(vec![member("content", text("built"))]),
        )])]),
    )]);
    assert_eq!(extract_reply(&answer), "built");
    assert_eq!(extract_reply(&Json::Null), FALLBACK_REPLY);
}

#[test]
fn fallback_and_genuine_text_can_be_told_apart() {
    let genuine = Json::parse(
        br#"{"choices": [{"message": {"content": "I'm sorry, I couldn't understand that."}}]}"#,
    )
    .unwrap();
    let odd = Json::parse(br#"{"choices": []}"#).unwrap();
    assert_eq!(first_choice(&genuine), Some(&FALLBACK_REPLY.to_string()));
    assert_eq!(first_choice(&odd), None);
    assert_eq!(extract_reply(&genuine), extract_reply(&odd));
}

#[test]
fn reply_agrees_with_serde_json_indexing() {
    let bodies: [&[u8]; 8] = [
        br#"{"choices": [{"message": {"content": "a"}}]}"#,
        br#"{"choices": [{"message": {"content": 1}}]}"#,
        br#"{"choices": {"0": {"message": {"content": "x"}}}}"#,
        br#"{"choices": [[], {"message": {"content": "late"}}]}"#,
        br#"{"choices": [{"message": {"content": "dup"}, "message": {"content": "wins"}}]}"#,
        br#"{"CHOICES": [{"message": {"content": "case"}}]}"#,
        br#"[{"message": {"content": "top array"}}]"#,
        br#"{"choices": [{"message": {"content": "caf\u00e9\n"}}]}"#,
    ];
    for body in bodies {
        let value: serde_json::Value = serde_json::from_slice(body).unwrap();
        let expected = value["choices"][0]["message"]["content"]
            .as_str()
            .unwrap_or("I'm sorry, I couldn't understand that.")
            .to_string();
        assert_eq!(client().parse_response(body), Ok(expected));
    }
}

#[test]
fn outcome_with_success_status_is_read() {
    let outcome = answered(200, r#"{"choices": [{"message": {"content": "42"}}]}"#);
    assert_eq!(client().read_outcome(&outcome), Ok("42".to_string()));
    let created = answered(201, "{}");
    assert_eq!(client().read_outcome(&created), Ok(FALLBACK_REPLY.to_string()));
}

#[test]
fn outcome_with_other_status_is_an_error_with_the_status() {
    let body = r#"{"choices": [{"message": {"content": "ignored"}}]}"#;
    assert_eq!(client().read_outcome(&answered(429, body)), Err(GatewayError::Status(429)));
    assert_eq!(client().read_outcome(&answered(401, "")), Err(GatewayError::Status(401)));
    assert_eq!(client().read_outcome(&answered(500, "")), Err(GatewayError::Status(500)));
    assert_eq!(client().read_outcome(&answered(199, body)), Err(GatewayError::Status(199)));
    assert_eq!(client().read_outcome(&answered(300, body)), Err(GatewayError::Status(300)));
}

#[test]
fn outcome_without_answer_is_a_transport_error() {
    assert_eq!(client().read_outcome(&HttpOutcome::Unreachable), Err(GatewayError::Transport));
}

#[test]
fn outcome_with_success_status_and_bad_body_falls_back() {
    assert_eq!(client().read_outcome(&answered(200, "ok")), Ok(FALLBACK_REPLY.to_string()));
    assert_eq!(client().read_outcome(&answered(200, "")), Ok(FALLBACK_REPLY.to_string()));
    assert_eq!(client().read_outcome(&answered(299, "not json")), Ok(FALLBACK_REPLY.to_string()));
}

#[test]
fn outcome_with_other_status_and_bad_body_is_still_an_error() {
    assert_eq!(client().read_outcome(&answered(503, "not json")), Err(GatewayError::Status(503)));
}
