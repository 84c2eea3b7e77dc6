use ai_core::providers::openai::{
    build_body, chat_completions_url, chunk_to_events, image_url, is_done_marker,
    map_finish_reason, provider_error, provider_error_with_text, to_chat_response, to_wire_tool_choice, ChatCompletion,
    DeltaToolCall, RespChoice, RespToolCall, StreamChoice, StreamChunk, WireContent, WirePart,
    WireResponseFormat, WireToolChoice, WireUsage, OPENAI_BASE_URL,
};
use ai_core::stream::collect_events;
use ai_core::{
    ApiErrorKind, ChatRequest, ContentBlock, Error, ImageSource, Message, ResponseFormat, Role,
    StopReason, StreamEvent, ToolChoice, ToolDef,
};

fn req() -> ChatRequest {
    ChatRequest::builder("local-model")
        .system("be brief")
        .user("hi")
        .build()
        .unwrap()
}

fn text_choice(content: &str, finish: Option<&str>) -> StreamChoice {
    StreamChoice {
        content: Some(content.to_string()),
        tool_calls: vec![],
        finish_reason: finish.map(|s| s.to_string()),
    }
}

/// The events of a whole server-sent stream, framed as the adapter frames them.
fn stream_events(chunks: Vec<StreamChunk>) -> Vec<StreamEvent> {
    let mut events = vec![StreamEvent::MessageStart];
    for chunk in chunks {
        events.extend(chunk_to_events(chunk));
    }
    events.push(StreamEvent::MessageStop);
    events
}

#[test]
fn non_streaming_chat_parses_response_and_shapes_request() {
    let body = build_body("local-model", &req(), false);
    assert_eq!(body.model, "local-model");
    assert!(!body.stream);
    assert_eq!(body.stream_options, None);
    assert_eq!(body.messages.len(), 2);
    assert_eq!(body.messages[0].role, "system");
    assert_eq!(
        body.messages[0].content,
        Some(WireContent::Text("be brief".to_string()))
    );
    assert_eq!(body.messages[1].role, "user");
    assert_eq!(body.messages[1].content, Some(WireContent::Text("hi".to_string())));

    let raw = r#"{"model":"local-model","choices":[{"message":{"content":"Hello!"},"finish_reason":"stop"}],"usage":{"prompt_tokens":5,"completion_tokens":2}}"#;
    let parsed = ChatCompletion {
        model: Some("local-model".to_string()),
        choices: vec![RespChoice {
            content: Some("Hello!".to_string()),
            tool_calls: vec![],
            finish_reason: Some("stop".to_string()),
        }],
        usage: Some(WireUsage {
            prompt_tokens: 5,
            completion_tokens: 2,
            cached_tokens: None,
            reasoning_tokens: None,
        }),
    };
    let response = to_chat_response(parsed, raw.to_string());

    assert_eq!(response.text(), "Hello!");
    assert_eq!(response.usage.input_tokens, 5);
    assert_eq!(response.usage.output_tokens, 2);
    assert_eq!(response.stop_reason, Some(StopReason::EndTurn));
    assert_eq!(response.model.as_deref(), Some("local-model"));
    assert_eq!(response.raw, raw);
}

#[test]
fn streaming_chat_accumulates() {
    let body = build_body("m", &req(), true);
    assert!(body.stream);
    assert_eq!(body.stream_options, Some(true));

    let c1 = StreamChunk { choices: vec![text_choice("Hel", None)], usage: None };
    let c2 = StreamChunk { choices: vec![text_choice("lo", Some("stop"))], usage: None };
    let c3 = StreamChunk {
        choices: vec![],
        usage: Some(WireUsage {
            prompt_tokens: 3,
            completion_tokens: 1,
            cached_tokens: None,
            reasoning_tokens: None,
        }),
    };
    assert!(is_done_marker("[DONE]"));
    let response = collect_events(stream_events(vec![c1, c2, c3]));

    assert_eq!(response.text(), "Hello");
    assert_eq!(response.usage.input_tokens, 3);
    assert_eq!(response.stop_reason, Some(StopReason::EndTurn));
}

#[test]
fn tool_call_round_trips() {
    let request = ChatRequest::builder("m")
        .user("weather in Paris?")
        .tool(ToolDef::new(
            "get_weather",
            "Get weather",
            r#"{"type":"object","properties":{"city":{"type":"string"}}}"#,
        ))
        .build()
        .unwrap();
    let body = build_body("m", &request, false);
    assert_eq!(body.tools.len(), 1);
    assert_eq!(body.tools[0].kind, "function");
    assert_eq!(body.tools[0].name, "get_weather");

    let parsed = ChatCompletion {
        model: None,
        choices: vec![RespChoice {
            content: None,
            tool_calls: vec![RespToolCall {
                id: "call_1".to_string(),
                name: "get_weather".to_string(),
                arguments: "{\"city\":\"Paris\"}".to_string(),
            }],
            finish_reason: Some("tool_calls".to_string()),
        }],
        usage: None,
    };
    let response = to_chat_response(parsed, "{}".to_string());
    let tools = response.tool_uses();
    assert_eq!(tools.len(), 1);
    assert_eq!(tools[0].id, "call_1");
    assert_eq!(tools[0].name, "get_weather");
    let args: serde_json::Value = serde_json::from_str(tools[0].args).unwrap();
    assert_eq!(args["city"], "Paris");
    assert_eq!(response.stop_reason, Some(StopReason::ToolUse));
}

#[test]
fn streaming_tool_call_assembles_arguments() {
    let call = |id: Option<&str>, name: Option<&str>, args: &str| DeltaToolCall {
        index: 0,
        id: id.map(|s| s.to_string()),
        name: name.map(|s| s.to_string()),
        arguments: Some(args.to_string()),
    };
    let c1 = StreamChunk {
        choices: vec![StreamChoice {
            content: None,
            tool_calls: vec![call(Some("call_1"), Some("get_weather"), "")],
            finish_reason: None,
        }],
        usage: None,
    };
    let c2 = StreamChunk {
        choices: vec![StreamChoice {
            content: None,
            tool_calls: vec![call(None, None, "{\"city\":")],
            finish_reason: None,
        }],
        usage: None,
    };
    let c3 = StreamChunk {
        choices: vec![StreamChoice {
            content: None,
            tool_calls: vec![call(None, None, "\"Paris\"}")],
            finish_reason: Some("tool_calls".to_string()),
        }],
        usage: None,
    };
    let response = collect_events(stream_events(vec![c1, c2, c3]));

    let tools = response.tool_uses();
    assert_eq!(tools.len(), 1);
    assert_eq!(tools[0].id, "call_1");
    assert_eq!(tools[0].name, "get_weather");
    let args: serde_json::Value = serde_json::from_str(tools[0].args).unwrap();
    assert_eq!(args["city"], "Paris");
    assert_eq!(response.stop_reason, Some(StopReason::ToolUse));
}

#[test]
fn error_status_maps_to_normalized_provider_error() {
    let body = r#"{"error":{"message":"slow down"}}"#;
    let err = provider_error(429, Some("slow down".to_string()), body.as_bytes());
    match err {
        Error::Provider {
            status,
            kind,
            message,
            ..
        } => {
            assert_eq!(status, Some(429));
            assert_eq!(kind, ApiErrorKind::RateLimited);
            assert_eq!(message, "slow down");
        }
        other => panic!("expected a provider error, got {other:?}"),
    }
}

#[test]
fn provider_error_falls_back_to_the_body_text() {
    let err = provider_error(502, None, b"bad gateway");
    assert_eq!(
        err,
        Error::Provider {
            provider: "openai".to_string(),
            status: Some(502),
            kind: ApiErrorKind::ServerError,
            message: "bad gateway".to_string(),
        }
    );
    let err = provider_error(401, Some(String::new()), b"{\"error\":{\"message\":\"\"}}");
    assert!(matches!(err, Error::Provider { ref message, .. } if message == "{\"error\":{\"message\":\"\"}}"));
    // Bytes that are not UTF-8 are decoded lossily.
    let err = provider_error(500, None, &[b'o', b'k', 0xff]);
    assert!(matches!(err, Error::Provider { ref message, .. } if message == "ok\u{fffd}"));
    let err = provider_error_with_text(404, None, "gone");
    assert_eq!(err.to_string(), "provider `openai` request failed [not found]: gone");
}

#[test]
fn finish_reasons_map_to_stop_reasons() {
    assert_eq!(map_finish_reason("stop"), StopReason::EndTurn);
    assert_eq!(map_finish_reason("length"), StopReason::MaxTokens);
    assert_eq!(map_finish_reason("tool_calls"), StopReason::ToolUse);
    assert_eq!(map_finish_reason("function_call"), StopReason::ToolUse);
    assert_eq!(map_finish_reason("content_filter"), StopReason::Refusal);
    assert_eq!(
        map_finish_reason("weird"),
        StopReason::Other("weird".to_string())
    );
}

#[test]
fn completion_url_drops_trailing_slashes() {
    assert_eq!(
        chat_completions_url(OPENAI_BASE_URL),
        "https://api.openai.com/v1/chat/completions"
    );
    assert_eq!(
        chat_completions_url("http://localhost:11434/v1//"),
        "http://localhost:11434/v1/chat/completions"
    );
}

#[test]
fn body_carries_parameters_and_only_unmodeled_extra_fields() {
    let request = ChatRequest::builder("m")
        .user("hi")
        .max_tokens(10)
        .stop("END")
        .tool_choice(ToolChoice::Tool { name: "f".to_string() })
        .response_format(ResponseFormat::Text)
        .extra("max_tokens", "99")
        .extra("seed", "3")
        .extra("response_format", "{\"type\":\"json_object\"}")
        .build()
        .unwrap();
    let body = build_body("served-model", &request, false);
    assert_eq!(body.model, "served-model");
    assert_eq!(body.max_tokens, Some(10));
    assert_eq!(body.stop, Some(vec!["END".to_string()]));
    assert!(body.tools.is_empty());
    assert_eq!(
        body.tool_choice,
        Some(WireToolChoice::Named { kind: "function".to_string(), name: "f".to_string() })
    );
    // A plain-text format sends no response_format, so the passthrough one fills it.
    assert_eq!(body.response_format, None);
    assert_eq!(
        body.extra,
        vec![
            ("seed".to_string(), "3".to_string()),
            ("response_format".to_string(), "{\"type\":\"json_object\"}".to_string()),
        ]
    );

    let request = ChatRequest::builder("m")
        .user("hi")
        .response_format(ResponseFormat::json_schema("p", "{}", true))
        .build()
        .unwrap();
    let body = build_body("m", &request, false);
    assert_eq!(body.stop, None);
    assert_eq!(
        body.response_format,
        Some(WireResponseFormat::JsonSchema {
            name: "p".to_string(),
            schema: "{}".to_string(),
            strict: true
        })
    );
}

#[test]
fn tool_choices_on_the_wire() {
    assert_eq!(to_wire_tool_choice(&ToolChoice::Auto), WireToolChoice::Mode("auto".to_string()));
    assert_eq!(to_wire_tool_choice(&ToolChoice::NoTool), WireToolChoice::Mode("none".to_string()));
    assert_eq!(
        to_wire_tool_choice(&ToolChoice::Required),
        WireToolChoice::Mode("required".to_string())
    );
}

#[test]
fn messages_on_the_wire() {
    let user = Message::new(
        Role::User,
        vec![
            ContentBlock::text("look"),
            ContentBlock::image_base64("image/png", "AAAA"),
            ContentBlock::image_url("https://x/y.png"),
        ],
    );
    let assistant = Message::new(
        Role::Assistant,
        vec![
            ContentBlock::text("calling"),
            ContentBlock::ToolUse {
                id: "c1".to_string(),
                name: "f".to_string(),
                args: "{ \"a\" : 1 }".to_string(),
            },
        ],
    );
    let tool = Message::tool_result("c1", "done", false);
    let request = ChatRequest::builder("m")
        .message(user)
        .message(assistant)
        .message(tool)
        .build()
        .unwrap();
    let body = build_body("m", &request, false);
    assert_eq!(body.messages.len(), 3);
    assert_eq!(
        body.messages[0].content,
        Some(WireContent::Parts(vec![
            WirePart::Text { text: "look".to_string() },
            WirePart::ImageUrl { url: "data:image/png;base64,AAAA".to_string() },
            WirePart::ImageUrl { url: "https://x/y.png".to_string() },
        ]))
    );
    assert_eq!(body.messages[1].role, "assistant");
    assert_eq!(
        body.messages[1].content,
        Some(WireContent::Text("calling".to_string()))
    );
    assert_eq!(body.messages[1].tool_calls.len(), 1);
    assert_eq!(body.messages[1].tool_calls[0].arguments, "{\"a\":1}");
    assert_eq!(body.messages[2].role, "tool");
    assert_eq!(body.messages[2].tool_call_id.as_deref(), Some("c1"));
    assert_eq!(
        image_url(&ImageSource::Url { url: "u".to_string() }),
        "u"
    );
}

#[test]
fn malformed_tool_arguments_become_an_empty_object() {
    let parsed = ChatCompletion {
        model: None,
        choices: vec![RespChoice {
            content: Some(String::new()),
            tool_calls: vec![RespToolCall {
                id: "c".to_string(),
                name: "f".to_string(),
                arguments: "{not json".to_string(),
            }],
            finish_reason: None,
        }],
        usage: Some(WireUsage {
            prompt_tokens: 1,
            completion_tokens: 1,
            cached_tokens: Some(4),
            reasoning_tokens: Some(2),
        }),
    };
    let response = to_chat_response(parsed, "{}".to_string());
    assert_eq!(response.message.content.len(), 1);
    assert_eq!(response.tool_uses()[0].args, "{}");
    assert_eq!(response.stop_reason, None);
    assert_eq!(response.usage.cache_read_input_tokens, Some(4));
    assert_eq!(response.usage.reasoning_tokens, Some(2));
    assert_eq!(response.usage.cache_creation_input_tokens, None);

    let empty = to_chat_response(
        ChatCompletion { model: None, choices: vec![], usage: None },
        "{}".to_string(),
    );
    assert!(empty.message.content.is_empty());
    assert_eq!(empty.message.role, Role::Assistant);
    assert_eq!(empty.usage.input_tokens, 0);
}

#[test]
fn chunk_events_in_order() {
    let chunk = StreamChunk {
        choices: vec![StreamChoice {
            content: Some("x".to_string()),
            tool_calls: vec![DeltaToolCall {
                index: 2,
                id: Some("id".to_string()),
                name: Some("n".to_string()),
                arguments: Some("{}".to_string()),
            }],
            finish_reason: Some("length".to_string()),
        }],
        usage: Some(WireUsage {
            prompt_tokens: 1,
            completion_tokens: 2,
            cached_tokens: None,
            reasoning_tokens: None,
        }),
    };
    let events = chunk_to_events(chunk);
    assert_eq!(events.len(), 5);
    assert_eq!(events[0], StreamEvent::TextDelta("x".to_string()));
    assert_eq!(
        events[1],
        StreamEvent::ToolCallStart { index: 2, id: "id".to_string(), name: "n".to_string() }
    );
    assert_eq!(
        events[2],
        StreamEvent::ToolCallArgsDelta { index: 2, delta: "{}".to_string() }
    );
    assert_eq!(events[3], StreamEvent::Stop(StopReason::MaxTokens));
    assert!(matches!(events[4], StreamEvent::Usage(u) if u.output_tokens == 2));
    assert!(!is_done_marker("[done]"));
}
