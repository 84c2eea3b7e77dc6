use ai_core::memory::persist_recording;
use ai_core::stream::collect_events;
use ai_core::trace::TracedStreamState;
use ai_core::{
    ChatRequest, ChatResponse, Error, InMemoryTraceStore, Message, RecordingTracer,
    ResponseAccumulator, StopReason, StreamEvent, TraceEvent, TraceId, Usage,
};

fn core_script() -> Vec<StreamEvent> {
    vec![
        StreamEvent::MessageStart,
        StreamEvent::ThinkingDelta("hmm ".into()),
        StreamEvent::TextDelta("Hello, ".into()),
        StreamEvent::TextDelta("world".into()),
        StreamEvent::ToolCallStart {
            index: 0,
            id: "call_1".into(),
            name: "get_weather".into(),
        },
        StreamEvent::ToolCallArgsDelta {
            index: 0,
            delta: "{\"city\":".into(),
        },
        StreamEvent::ToolCallArgsDelta {
            index: 0,
            delta: "\"Paris\"}".into(),
        },
        StreamEvent::Usage(Usage {
            input_tokens: 10,
            output_tokens: 5,
            ..Default::default()
        }),
        StreamEvent::Stop(StopReason::ToolUse),
        StreamEvent::MessageStop,
    ]
}

fn trace_script() -> Vec<StreamEvent> {
    vec![
        StreamEvent::TextDelta("Hi ".into()),
        StreamEvent::TextDelta("there".into()),
        StreamEvent::ToolCallStart {
            index: 0,
            id: "c1".into(),
            name: "lookup".into(),
        },
        StreamEvent::Usage(Usage {
            input_tokens: 7,
            output_tokens: 3,
            ..Default::default()
        }),
        StreamEvent::Stop(StopReason::ToolUse),
    ]
}

fn request() -> ChatRequest {
    ChatRequest::builder("mock")
        .system("s")
        .user("hi")
        .build()
        .unwrap()
}

#[test]
fn chat_accumulates_text_thinking_tools_and_usage() {
    let response = collect_events(core_script());

    assert_eq!(response.text(), "Hello, world");
    assert_eq!(response.usage.input_tokens, 10);
    assert_eq!(response.usage.output_tokens, 5);
    assert_eq!(response.usage.total(), 15);
    assert_eq!(response.stop_reason, Some(StopReason::ToolUse));

    let tools = response.tool_uses();
    assert_eq!(tools.len(), 1);
    assert_eq!(tools[0].id, "call_1");
    assert_eq!(tools[0].name, "get_weather");
    let args: serde_json::Value = serde_json::from_str(tools[0].args).unwrap();
    assert_eq!(args["city"], "Paris");
    assert!(response.has_tool_calls());
}

#[test]
fn accumulator_keeps_thinking_and_orders_blocks() {
    let mut acc = ResponseAccumulator::new();
    for event in core_script() {
        acc.push(event);
    }
    let response = acc.finish();
    // Thinking, then text, then tool calls.
    assert_eq!(response.message.content.len(), 3);
    assert_eq!(
        response.message.content[0],
        ai_core::ContentBlock::Thinking { text: "hmm ".to_string(), signature: None }
    );
    assert_eq!(response.raw, "null");
    assert_eq!(response.model, None);
}

#[test]
fn malformed_streamed_arguments_become_an_empty_object() {
    let response = collect_events(vec![
        StreamEvent::ToolCallStart { index: 3, id: "a".into(), name: "f".into() },
        StreamEvent::ToolCallArgsDelta { index: 3, delta: "{\"x\":".into() },
        StreamEvent::ToolCallArgsDelta { index: 9, delta: "ignored".into() },
    ]);
    let tools = response.tool_uses();
    assert_eq!(tools.len(), 1);
    assert_eq!(tools[0].args, "{}");
    assert!(!collect_events(vec![]).has_tool_calls());
}

#[test]
fn chat_records_request_and_response() {
    let mut tracer = RecordingTracer::new();
    let id = TraceId(1);
    tracer.record(TraceEvent::from_request(id, &request()));
    let response = collect_events(trace_script());
    tracer.record(TraceEvent::from_response(id, &response));
    assert_eq!(response.text(), "Hi there");

    let events = tracer.events();
    assert_eq!(events.len(), 2);
    assert!(matches!(
        events[0],
        TraceEvent::LlmRequest {
            system: true,
            message_count: 1,
            ..
        }
    ));
    match &events[1] {
        TraceEvent::LlmResponse {
            stop_reason,
            usage,
            tool_calls,
            text_len,
            ..
        } => {
            assert_eq!(*stop_reason, Some(StopReason::ToolUse));
            assert_eq!(usage.input_tokens, 7);
            assert_eq!(tool_calls.len(), 1);
            assert_eq!(tool_calls[0].name, "lookup");
            assert_eq!(*text_len, "Hi there".len());
        }
        other => panic!("expected LlmResponse, got {other:?}"),
    }
    // Request and response are correlated by the same trace id.
    assert_eq!(events[0].trace_id(), events[1].trace_id());
}

#[test]
fn stream_records_summary_on_completion() {
    let mut tracer = RecordingTracer::new();
    let id = TraceId(2);
    tracer.record(TraceEvent::from_request(id, &request()));
    let mut state = TracedStreamState::new(id);
    for event in trace_script() {
        state.observe(&event);
    }
    if let Some(e) = state.on_end() {
        tracer.record(e);
    }
    // The stream closes once.
    assert!(state.on_end().is_none());
    assert!(state.on_error("late").is_none());

    let events = tracer.events();
    assert_eq!(events.len(), 2);
    assert!(matches!(events[0], TraceEvent::LlmRequest { .. }));
    match &events[1] {
        TraceEvent::LlmResponse {
            stop_reason,
            tool_calls,
            text_len,
            ..
        } => {
            assert_eq!(*stop_reason, Some(StopReason::ToolUse));
            assert_eq!(tool_calls.len(), 1);
            assert_eq!(*text_len, "Hi there".len());
        }
        other => panic!("expected LlmResponse summary, got {other:?}"),
    }
}

#[test]
fn errors_are_traced() {
    let mut tracer = RecordingTracer::new();
    let id = TraceId(3);
    tracer.record(TraceEvent::from_request(id, &request()));
    let err = Error::provider("mock", ai_core::ApiErrorKind::ServerError, "boom");
    tracer.record(TraceEvent::from_error(id, &err));

    let events = tracer.events();
    assert_eq!(events.len(), 2);
    assert!(matches!(events[0], TraceEvent::LlmRequest { .. }));
    assert!(matches!(events[1], TraceEvent::LlmError { .. }));
    assert_eq!(
        events[1],
        TraceEvent::LlmError {
            trace_id: id,
            message: "provider `mock` request failed [server error]: boom".to_string()
        }
    );

    // A stream that breaks records its error once, and no summary after it.
    let mut state = TracedStreamState::new(id);
    let first = state.on_error(&err.to_string());
    assert!(matches!(first, Some(TraceEvent::LlmError { .. })));
    assert!(state.on_error("again").is_none());
    assert!(state.on_end().is_none());
}

#[test]
fn recording_flushes_to_store() {
    let mut tracer = RecordingTracer::new();
    let id = TraceId(4);
    tracer.record(TraceEvent::from_request(id, &request()));
    let response = ChatResponse::from_message(Message::assistant("Hi there"));
    tracer.record(TraceEvent::from_response(id, &response));

    let mut store = InMemoryTraceStore::new();
    persist_recording(&mut tracer, &mut store);

    assert_eq!(store.len(), 2);
    assert!(tracer.is_empty(), "recorder should be drained after flush");

    let all = store.all();
    let trace_id = all[0].trace_id();
    let by_id = store.load(trace_id);
    assert_eq!(by_id.len(), 2);
    assert!(store.load(TraceId(99)).is_empty());
}

#[test]
fn recorder_filters_by_trace_id_and_drains() {
    let mut tracer = RecordingTracer::new();
    tracer.record(TraceEvent::Note { trace_id: TraceId(1), message: "a".to_string() });
    tracer.record(TraceEvent::Note { trace_id: TraceId(2), message: "b".to_string() });
    tracer.record(TraceEvent::Note { trace_id: TraceId(1), message: "c".to_string() });
    let ones = tracer.events_for(TraceId(1));
    assert_eq!(ones.len(), 2);
    assert_eq!(ones[1], TraceEvent::Note { trace_id: TraceId(1), message: "c".to_string() });
    assert_eq!(tracer.len(), 3);
    let drained = tracer.drain();
    assert_eq!(drained.len(), 3);
    assert!(tracer.is_empty());
}

#[test]
fn text_len_counts_characters() {
    let response = ChatResponse::from_message(Message::assistant("é"));
    match TraceEvent::from_response(TraceId(5), &response) {
        TraceEvent::LlmResponse { text_len, .. } => assert_eq!(text_len, 1),
        other => panic!("expected LlmResponse, got {other:?}"),
    }
    let mut state = TracedStreamState::new(TraceId(5));
    state.observe(&StreamEvent::TextDelta("é".into()));
    state.observe(&StreamEvent::TextDelta("ab".into()));
    assert_eq!(state.text_len(), 3);
    match state.on_end() {
        Some(TraceEvent::LlmResponse { text_len, .. }) => assert_eq!(text_len, 3),
        other => panic!("expected a summary, got {other:?}"),
    }
}

#[test]
fn traced_call_outcome_events() {
    let ok: Result<ChatResponse, Error> = Ok(ChatResponse::from_message(Message::assistant("hi")));
    assert!(matches!(
        TraceEvent::from_outcome(TraceId(6), &ok),
        TraceEvent::LlmResponse { trace_id: TraceId(6), text_len: 2, .. }
    ));
    let failed: Result<ChatResponse, Error> = Err(Error::stream("cut"));
    assert_eq!(
        TraceEvent::from_outcome(TraceId(6), &failed),
        TraceEvent::LlmError { trace_id: TraceId(6), message: "stream error: cut".to_string() }
    );
}
