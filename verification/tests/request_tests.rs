use ai_core::request::find_entry;
use ai_core::structured::with_default_format;
use ai_core::{
    ApiErrorKind, ChatRequest, ContentBlock, Error, Message, ResponseFormat, ResponseFormatKind,
    Role, StopReason, ToolChoice, ToolDef, Usage,
};

#[test]
fn builder_requires_messages() {
    let err = ChatRequest::builder("m").build().unwrap_err();
    assert!(matches!(err, Error::InvalidRequest(_)));
}

#[test]
fn builder_rejects_empty_model() {
    let err = ChatRequest::builder("   ").user("hi").build().unwrap_err();
    assert!(matches!(err, Error::InvalidRequest(_)));
}

#[test]
fn builder_builds_minimal_request() {
    let req = ChatRequest::builder("gpt-4o-mini")
        .system("be brief")
        .user("hello")
        .max_tokens(32)
        .build()
        .unwrap();
    assert_eq!(req.model, "gpt-4o-mini");
    assert_eq!(req.system.as_deref(), Some("be brief"));
    assert_eq!(req.messages.len(), 1);
    assert_eq!(req.messages[0].text(), "hello");
    assert_eq!(req.max_tokens, Some(32));
}

#[test]
fn stop_reason_preserves_unknown_values() {
    assert_eq!(StopReason::from_wire("tool_use"), StopReason::ToolUse);
    let other = StopReason::from_wire("pause_turn");
    assert_eq!(other, StopReason::Other("pause_turn".to_string()));
    assert_eq!(other.as_str(), "pause_turn");
    // On the wire a stop reason is the bare string of `as_str`, read back
    // through `from_wire`.
    let json = serde_json::to_string(other.as_str()).unwrap();
    assert_eq!(json, "\"pause_turn\"");
    let back = StopReason::from_wire(&serde_json::from_str::<String>(&json).unwrap());
    assert_eq!(back, other);
}

#[test]
fn content_block_text_concatenation() {
    let msg = Message::new(
        Role::Assistant,
        vec![ContentBlock::text("a"), ContentBlock::text("b")],
    );
    assert_eq!(msg.text(), "ab");
}

#[test]
fn api_error_kind_from_status() {
    assert_eq!(ApiErrorKind::from_status(429), ApiErrorKind::RateLimited);
    assert_eq!(ApiErrorKind::from_status(401), ApiErrorKind::InvalidAuth);
    assert_eq!(ApiErrorKind::from_status(503), ApiErrorKind::ServerError);
}

#[test]
fn request_builder_validates_and_builds() {
    let request = ChatRequest::builder("demo-model")
        .system("You are concise.")
        .user("Say hi.")
        .max_tokens(64)
        .build()
        .unwrap();
    assert_eq!(request.model, "demo-model");
    assert_eq!(request.messages.len(), 1);
    assert_eq!(request.system.as_deref(), Some("You are concise."));
    assert_eq!(request.max_tokens, Some(64));

    // The two real invariants are enforced.
    assert!(ChatRequest::builder("m").build().is_err());
    assert!(ChatRequest::builder("   ").user("hi").build().is_err());
}

#[test]
fn build_errors_name_the_violated_invariant() {
    let err = ChatRequest::builder("").build().unwrap_err();
    assert_eq!(err, Error::InvalidRequest("model must not be empty".to_string()));
    assert_eq!(err.to_string(), "invalid request: model must not be empty");
    let err = ChatRequest::builder("m").build().unwrap_err();
    assert_eq!(
        err,
        Error::InvalidRequest("at least one message is required".to_string())
    );
}

#[test]
fn builder_keeps_every_field() {
    let req = ChatRequest::builder("m")
        .user("u")
        .assistant("a")
        .temperature_bits(0.5f32.to_bits())
        .top_p_bits(0.9f32.to_bits())
        .stop("END")
        .stop("STOP")
        .tool(ToolDef::new("t", "does t", "{}"))
        .tool_choice(ToolChoice::Required)
        .response_format(ResponseFormat::JsonObject)
        .build()
        .unwrap();
    assert_eq!(req.messages.len(), 2);
    assert_eq!(req.messages[1].role, Role::Assistant);
    assert_eq!(req.temperature_bits.map(f32::from_bits), Some(0.5));
    assert_eq!(req.top_p_bits.map(f32::from_bits), Some(0.9));
    assert_eq!(req.stop, vec!["END".to_string(), "STOP".to_string()]);
    assert_eq!(req.tools.len(), 1);
    assert_eq!(req.tools[0].name, "t");
    assert_eq!(req.tool_choice, Some(ToolChoice::Required));
    assert_eq!(req.response_format.as_ref().map(|f| f.kind()), Some(ResponseFormatKind::JsonObject));
}

#[test]
fn extra_later_value_replaces_earlier_one() {
    let req = ChatRequest::builder("m")
        .user("hi")
        .extra("seed", "1")
        .extra("logprobs", "true")
        .extra("seed", "7")
        .build()
        .unwrap();
    assert_eq!(
        req.extra,
        vec![
            ("seed".to_string(), "7".to_string()),
            ("logprobs".to_string(), "true".to_string())
        ]
    );
    assert_eq!(find_entry(&req.extra, "logprobs"), Some(1));
    assert_eq!(find_entry(&req.extra, "absent"), None);
}

#[test]
fn usage_total_saturates() {
    let usage = Usage {
        input_tokens: 5,
        output_tokens: 2,
        ..Usage::default()
    };
    assert_eq!(usage.total(), 7);
    let big = Usage {
        input_tokens: u32::MAX,
        output_tokens: 3,
        ..Usage::default()
    };
    assert_eq!(big.total(), u32::MAX);
}

#[test]
fn stop_reason_names_round_trip() {
    for name in ["end_turn", "max_tokens", "stop_sequence", "tool_use", "refusal", "x"] {
        assert_eq!(StopReason::from_wire(name).as_str(), name);
    }
    assert_eq!(StopReason::from_wire("refusal"), StopReason::Refusal);
    assert_eq!(StopReason::EndTurn.as_str(), "end_turn");
}

#[test]
fn status_classification_covers_every_kind() {
    assert_eq!(ApiErrorKind::from_status(400), ApiErrorKind::BadRequest);
    assert_eq!(ApiErrorKind::from_status(403), ApiErrorKind::InvalidAuth);
    assert_eq!(ApiErrorKind::from_status(404), ApiErrorKind::NotFound);
    assert_eq!(ApiErrorKind::from_status(408), ApiErrorKind::Timeout);
    assert_eq!(ApiErrorKind::from_status(504), ApiErrorKind::ServerError);
    assert_eq!(ApiErrorKind::from_status(500), ApiErrorKind::ServerError);
    assert_eq!(ApiErrorKind::from_status(418), ApiErrorKind::Other);
    assert_eq!(ApiErrorKind::RateLimited.as_str(), "rate limited");
}

#[test]
fn error_messages() {
    let e = Error::provider_status("openai", 429, "slow down");
    assert_eq!(
        e.to_string(),
        "provider `openai` request failed [rate limited]: slow down"
    );
    assert_eq!(Error::stream("cut").to_string(), "stream error: cut");
    assert_eq!(Error::tool("bad").to_string(), "tool error: bad");
    assert_eq!(
        Error::Serde("expected value".to_string()).to_string(),
        "serialization error: expected value"
    );
    assert_eq!(Error::Http("refused".to_string()).to_string(), "http error: refused");
    assert_eq!(Error::Other("plain".to_string()).to_string(), "plain");
    assert_eq!(Error::invalid_request("x"), Error::InvalidRequest("x".to_string()));
    let e = Error::provider("anthropic", ApiErrorKind::ContentFilter, "no");
    assert!(matches!(e, Error::Provider { status: None, kind: ApiErrorKind::ContentFilter, .. }));
}

#[test]
fn default_format_is_set_only_when_absent() {
    let mut req = ChatRequest::builder("m").user("who?").build().unwrap();
    with_default_format(&mut req, "{\"type\":\"object\"}");
    assert_eq!(
        req.response_format,
        Some(ResponseFormat::JsonSchema {
            name: "output".to_string(),
            schema: "{\"type\":\"object\"}".to_string(),
            strict: false
        })
    );
    let mut req = ChatRequest::builder("m")
        .user("who?")
        .response_format(ResponseFormat::JsonObject)
        .build()
        .unwrap();
    with_default_format(&mut req, "{}");
    assert_eq!(req.response_format, Some(ResponseFormat::JsonObject));
}
