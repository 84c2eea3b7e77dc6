use std::collections::VecDeque;

use ai_core::agent::{build_request, AgentAction, AgentPhase};
use ai_core::stream::collect_events;
use ai_core::tool::unknown_tool_error;
use ai_core::{
    AgentConfig, AgentOutcome, AgentRun, ContentBlock, Message, StopCause, StopReason,
    StreamEvent, ToolDef, ToolRegistry, TraceEvent, TraceId,
};

fn weather_def() -> ToolDef {
    ToolDef::new(
        "get_weather",
        "Get the weather for a city.",
        r#"{"type":"object","properties":{"city":{"type":"string"}}}"#,
    )
}

/// The weather tool: answers for the city in its arguments.
fn weather(args: &str) -> String {
    let args: serde_json::Value = serde_json::from_str(args).unwrap();
    let city = args.get("city").and_then(|c| c.as_str()).unwrap_or("?");
    format!("{{\"city\":\"{city}\",\"temp\":\"72F\"}}")
}

fn tool_call_events() -> Vec<StreamEvent> {
    vec![
        StreamEvent::ToolCallStart {
            index: 0,
            id: "c1".into(),
            name: "get_weather".into(),
        },
        StreamEvent::ToolCallArgsDelta {
            index: 0,
            delta: "{\"city\":\"Paris\"}".into(),
        },
        StreamEvent::Stop(StopReason::ToolUse),
    ]
}

fn final_events() -> Vec<StreamEvent> {
    vec![
        StreamEvent::TextDelta("It is 72F in Paris.".into()),
        StreamEvent::Stop(StopReason::EndTurn),
    ]
}

/// Runs the agent loop against scripted model replies, with the weather tool
/// registered when `with_tool` is set; returns the outcome and the trace.
fn drive(
    config: &AgentConfig,
    with_tool: bool,
    scripts: Vec<Vec<StreamEvent>>,
    user: &str,
) -> (AgentOutcome, Vec<TraceEvent>) {
    let mut registry = ToolRegistry::new();
    if with_tool {
        registry.add(weather_def());
    }
    let mut scripts: VecDeque<Vec<StreamEvent>> = scripts.into();
    let mut trace = Vec::new();
    let (mut run, mut action) =
        AgentRun::start(config, registry.defs(), TraceId(7), vec![Message::user(user)]);
    loop {
        action = match action {
            AgentAction::CallModel { trace: t, request } => {
                trace.extend(t);
                assert!(!request.messages.is_empty());
                let events = scripts.pop_front().unwrap_or_default();
                run.on_response(collect_events(events))
            }
            AgentAction::RunTool { trace: t, name, args } => {
                trace.extend(t);
                match registry.position(&name) {
                    Some(_) => run.on_tool_result(&weather(&args), true),
                    None => run.on_tool_result(&unknown_tool_error(&name).to_string(), false),
                }
            }
            AgentAction::Finish { trace: t, outcome } => {
                trace.extend(t);
                assert_eq!(run.phase(), AgentPhase::Finished);
                return (outcome, trace);
            }
            AgentAction::Fail { error, .. } => panic!("agent failed: {error:?}"),
        };
    }
}

#[test]
fn executes_tool_then_finishes() {
    let config = AgentConfig::new().max_steps(5);
    let (outcome, _) = drive(&config, true, vec![tool_call_events(), final_events()], "weather in Paris?");

    assert_eq!(outcome.stopped, StopCause::Final);
    assert_eq!(outcome.steps, 2);
    assert!(outcome.text().contains("72F"), "{}", outcome.text());
    // user, assistant(tool call), tool(result), assistant(final)
    assert_eq!(outcome.messages.len(), 4);
    assert_eq!(
        outcome.messages[2].content[0],
        ContentBlock::ToolResult {
            tool_use_id: "c1".to_string(),
            content: "{\"city\":\"Paris\",\"temp\":\"72F\"}".to_string(),
            is_error: false,
        }
    );
}

#[test]
fn stops_at_max_steps() {
    // The model keeps asking for tools; the cap must end the loop.
    let config = AgentConfig::new().max_steps(2);
    let (outcome, _) = drive(&config, true, vec![tool_call_events(), tool_call_events()], "loop forever?");

    assert_eq!(outcome.stopped, StopCause::MaxSteps);
    assert_eq!(outcome.steps, 2);
}

#[test]
fn emits_trace_events() {
    let config = AgentConfig::new();
    let (_, events) = drive(&config, true, vec![tool_call_events(), final_events()], "weather?");

    assert!(events
        .iter()
        .any(|e| matches!(e, TraceEvent::ToolSelected { name, .. } if name == "get_weather")));
    assert!(events
        .iter()
        .any(|e| matches!(e, TraceEvent::ToolExecuted { ok: true, .. })));
    assert!(
        events
            .iter()
            .filter(|e| matches!(e, TraceEvent::AgentStep { .. }))
            .count()
            >= 2
    );
    assert!(events.iter().all(|e| e.trace_id() == TraceId(7)));
}

#[test]
fn unknown_tool_is_reported_back_not_fatal() {
    // Model calls a tool that isn't registered; the loop should feed the error
    // back as a tool result and continue to a final answer.
    let config = AgentConfig::new().max_steps(5);
    let (outcome, _) = drive(&config, false, vec![tool_call_events(), final_events()], "weather?");

    assert_eq!(outcome.stopped, StopCause::Final);
    assert_eq!(outcome.steps, 2);
    // The tool-result message should carry the error flag.
    let had_error_result = outcome.messages.iter().any(|m| {
        m.content
            .iter()
            .any(|b| matches!(b, ContentBlock::ToolResult { is_error: true, .. }))
    });
    assert!(had_error_result);
    assert!(outcome.messages.iter().any(|m| m.text().is_empty()
        && matches!(&m.content[0], ContentBlock::ToolResult { content, .. } if content == "tool error: unknown tool `get_weather`")));
}

#[test]
fn without_tools_is_one_shot() {
    let config = AgentConfig::new();
    let (outcome, _) = drive(&config, false, vec![final_events()], "hello");

    assert_eq!(outcome.steps, 1);
    assert_eq!(outcome.stopped, StopCause::Final);
    assert_eq!(outcome.text(), "It is 72F in Paris.");
}

#[test]
fn max_steps_is_at_least_one() {
    let config = AgentConfig::new().max_steps(0);
    let (outcome, _) = drive(&config, true, vec![tool_call_events()], "once");
    assert_eq!(outcome.steps, 1);
    assert_eq!(outcome.stopped, StopCause::MaxSteps);
    // The tool call of the last step is still answered.
    assert_eq!(outcome.messages.len(), 3);
}

#[test]
fn agent_requests_carry_settings() {
    let config = AgentConfig::new()
        .model_id("served")
        .system("be terse")
        .max_tokens(50);
    let request = build_request(&config, vec![Message::user("q")], vec![weather_def()]).unwrap();
    assert_eq!(request.model, "served");
    assert_eq!(request.system.as_deref(), Some("be terse"));
    assert_eq!(request.max_tokens, Some(50));
    assert_eq!(request.tools.len(), 1);
    assert!(build_request(&config, vec![], vec![]).is_err());
    let blank = AgentConfig::new().model_id(" ");
    assert!(build_request(&blank, vec![Message::user("q")], vec![]).is_err());
}

#[test]
fn each_request_carries_the_transcript_so_far() {
    let config = AgentConfig::new().system("be terse").max_steps(3);
    let (mut run, action) = AgentRun::start(
        &config,
        vec![weather_def()],
        TraceId(9),
        vec![Message::user("weather?")],
    );
    let first = match action {
        AgentAction::CallModel { request, .. } => request,
        other => panic!("expected a model call, got {other:?}"),
    };
    assert_eq!(first.model, "model");
    assert_eq!(first.messages.len(), 1);
    assert_eq!(first.tools.len(), 1);
    assert_eq!(first.system.as_deref(), Some("be terse"));
    assert_eq!(first.temperature_bits, None);
    assert!(first.extra.is_empty());

    let action = run.on_response(collect_events(tool_call_events()));
    assert!(matches!(action, AgentAction::RunTool { ref name, .. } if name == "get_weather"));
    let second = match run.on_tool_result("sunny", true) {
        AgentAction::CallModel { request, .. } => request,
        other => panic!("expected a model call, got {other:?}"),
    };
    // initial, the model's tool call, its answer.
    assert_eq!(second.messages.len(), 3);
    assert_eq!(second.messages[0].text(), "weather?");
    assert_eq!(second.messages[1].role, ai_core::Role::Assistant);
    assert_eq!(second.messages[2], Message::tool_result("c1", "sunny", false));
    assert_eq!(second.tools, first.tools);
    assert_eq!(run.phase(), AgentPhase::AwaitingModel);
}
