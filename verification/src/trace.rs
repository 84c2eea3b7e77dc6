//! Traceability for LLM decisions.
//!
//! Every model call and the decisions around it (tool selection, why it
//! stopped, token usage, agent steps) is captured as a structured
//! [`TraceEvent`]. This module holds the events, how they are derived from
//! requests, responses and streams, and the in-memory event log behind the
//! recording tracer.

use vstd::prelude::*;
use vstd::string::*;

use crate::error::{error_text, Error, ErrorView};
use crate::message::{clone_opt_string, text_of};
use crate::request::{ChatRequest, ChatRequestView};
use crate::response::{
    clone_opt_stop_reason, tool_calls_of, zero_usage, ChatResponse, ChatResponseView,
    StopReason, StopReasonView, ToolCallView, Usage,
};
use crate::stream::{
    accumulate_all, finished_response, last_stop, last_usage, law_collected_response_reflects_stream,
    started_calls, text_deltas, StreamEvent, StreamEventView,
};
use crate::structured::{format_kind, ResponseFormatKind};
use crate::tool::{clone_opt_tool_choice, ToolChoice, ToolChoiceView};

verus! {

broadcast use vstd::string::group_string_axioms;

/// A correlation id grouping every event emitted by a single model call.
#[derive(Debug, Clone, Copy, PartialEq, Eq, Structural, Hash)]
pub struct TraceId(pub u64);

/// A tool call the model decided to make.
#[derive(Debug, PartialEq, Eq)]
pub struct ToolCall {
    /// Provider-assigned call id.
    pub id: String,
    /// Tool name.
    pub name: String,
}

impl View for ToolCall {
    type V = (Seq<char>, Seq<char>);

    open spec fn view(&self) -> (Seq<char>, Seq<char>) {
        (self.id@, self.name@)
    }
}

impl DeepView for ToolCall {
    type V = (Seq<char>, Seq<char>);

    open spec fn deep_view(&self) -> (Seq<char>, Seq<char>) {
        self@
    }
}

impl Clone for ToolCall {
    fn clone(&self) -> (res: Self)
        ensures
            res@ == self@,
    {
        ToolCall { id: self.id.clone(), name: self.name.clone() }
    }
}

/// Clones a list of tool calls.
pub fn clone_tool_calls(v: &Vec<ToolCall>) -> (res: Vec<ToolCall>)
    ensures
        res.deep_view() == v.deep_view(),
{
    let mut out: Vec<ToolCall> = Vec::new();
    let mut i: usize = 0;
    while i < v.len()
        invariant
            i <= v.len(),
            out@.len() == i,
            forall|j: int| 0 <= j < i ==> (#[trigger] out@[j])@ == v@[j]@,
        decreases v.len() - i,
    {
        out.push(v[i].clone());
        i = i + 1;
    }
    assert(out.deep_view() =~= v.deep_view());
    out
}

/// A structured record of an LLM decision or lifecycle event. Arguments are
/// JSON text; the temperature is the bit pattern of its `f32` value.
#[derive(Debug, PartialEq)]
#[allow(inconsistent_fields)]
pub enum TraceEvent {
    /// A request was issued to a model.
    LlmRequest {
        trace_id: TraceId,
        model: String,
        system: bool,
        message_count: usize,
        tool_count: usize,
        tool_choice: Option<ToolChoice>,
        response_format: Option<ResponseFormatKind>,
        max_tokens: Option<u32>,
        temperature_bits: Option<u32>,
    },
    /// A model produced a completed response.
    LlmResponse {
        trace_id: TraceId,
        model: Option<String>,
        stop_reason: Option<StopReason>,
        usage: Usage,
        tool_calls: Vec<ToolCall>,
        /// Total characters of assistant text produced.
        text_len: usize,
    },
    /// A request or stream failed.
    LlmError { trace_id: TraceId, message: String },
    /// The model selected a tool to call.
    ToolSelected { trace_id: TraceId, id: String, name: String, args: String },
    /// A selected tool was executed.
    ToolExecuted { trace_id: TraceId, id: String, name: String, ok: bool, output_len: usize },
    /// A retry was attempted.
    Retry { trace_id: TraceId, attempt: u32, reason: String },
    /// Execution fell back from one model/strategy to another.
    Fallback { trace_id: TraceId, from: String, to: String, reason: String },
    /// One step of an agent loop.
    AgentStep { trace_id: TraceId, step: u32, action: String },
    /// A free-form decision annotation.
    Note { trace_id: TraceId, message: String },
}

/// The mathematical model of a [`TraceEvent`].
#[allow(inconsistent_fields)]
pub enum TraceEventView {
    LlmRequest {
        trace_id: TraceId,
        model: Seq<char>,
        system: bool,
        message_count: usize,
        tool_count: usize,
        tool_choice: Option<ToolChoiceView>,
        response_format: Option<ResponseFormatKind>,
        max_tokens: Option<u32>,
        temperature_bits: Option<u32>,
    },
    LlmResponse {
        trace_id: TraceId,
        model: Option<Seq<char>>,
        stop_reason: Option<StopReasonView>,
        usage: Usage,
        tool_calls: Seq<(Seq<char>, Seq<char>)>,
        text_len: usize,
    },
    LlmError { trace_id: TraceId, message: Seq<char> },
    ToolSelected { trace_id: TraceId, id: Seq<char>, name: Seq<char>, args: Seq<char> },
    ToolExecuted { trace_id: TraceId, id: Seq<char>, name: Seq<char>, ok: bool, output_len: usize },
    Retry { trace_id: TraceId, attempt: u32, reason: Seq<char> },
    Fallback { trace_id: TraceId, from: Seq<char>, to: Seq<char>, reason: Seq<char> },
    AgentStep { trace_id: TraceId, step: u32, action: Seq<char> },
    Note { trace_id: TraceId, message: Seq<char> },
}

impl View for TraceEvent {
    type V = TraceEventView;

    open spec fn view(&self) -> TraceEventView {
        match self {
            TraceEvent::LlmRequest {
                trace_id,
                model,
                system,
                message_count,
                tool_count,
                tool_choice,
                response_format,
                max_tokens,
                temperature_bits,
            } => TraceEventView::LlmRequest {
                trace_id: *trace_id,
                model: model@,
                system: *system,
                message_count: *message_count,
                tool_count: *tool_count,
                tool_choice: tool_choice.deep_view(),
                response_format: *response_format,
                max_tokens: *max_tokens,
                temperature_bits: *temperature_bits,
            },
            TraceEvent::LlmResponse { trace_id, model, stop_reason, usage, tool_calls, text_len } =>
                TraceEventView::LlmResponse {
                trace_id: *trace_id,
                model: model.deep_view(),
                stop_reason: stop_reason.deep_view(),
                usage: *usage,
                tool_calls: tool_calls.deep_view(),
                text_len: *text_len,
            },
            TraceEvent::LlmError { trace_id, message } => TraceEventView::LlmError {
                trace_id: *trace_id,
                message: message@,
            },
            TraceEvent::ToolSelected { trace_id, id, name, args } => TraceEventView::ToolSelected {
                trace_id: *trace_id,
                id: id@,
                name: name@,
                args: args@,
            },
            TraceEvent::ToolExecuted { trace_id, id, name, ok, output_len } =>
                TraceEventView::ToolExecuted {
                trace_id: *trace_id,
                id: id@,
                name: name@,
                ok: *ok,
                output_len: *output_len,
            },
            TraceEvent::Retry { trace_id, attempt, reason } => TraceEventView::Retry {
                trace_id: *trace_id,
                attempt: *attempt,
                reason: reason@,
            },
            TraceEvent::Fallback { trace_id, from, to, reason } => TraceEventView::Fallback {
                trace_id: *trace_id,
                from: from@,
                to: to@,
                reason: reason@,
            },
            TraceEvent::AgentStep { trace_id, step, action } => TraceEventView::AgentStep {
                trace_id: *trace_id,
                step: *step,
                action: action@,
            },
            TraceEvent::Note { trace_id, message } => TraceEventView::Note {
                trace_id: *trace_id,
                message: message@,
            },
        }
    }
}

impl DeepView for TraceEvent {
    type V = TraceEventView;

    open spec fn deep_view(&self) -> TraceEventView {
        self@
    }
}

impl Clone for TraceEvent {
    fn clone(&self) -> (res: Self)
        ensures
            res@ == self@,
    {
        match self {
            TraceEvent::LlmRequest {
                trace_id,
                model,
                system,
                message_count,
                tool_count,
                tool_choice,
                response_format,
                max_tokens,
                temperature_bits,
            } => TraceEvent::LlmRequest {
                trace_id: *trace_id,
                model: model.clone(),
                system: *system,
                message_count: *message_count,
                tool_count: *tool_count,
                tool_choice: clone_opt_tool_choice(tool_choice),
                response_format: *response_format,
                max_tokens: *max_tokens,
                temperature_bits: *temperature_bits,
            },
            TraceEvent::LlmResponse { trace_id, model, stop_reason, usage, tool_calls, text_len } =>
                TraceEvent::LlmResponse {
                trace_id: *trace_id,
                model: clone_opt_string(model),
                stop_reason: clone_opt_stop_reason(stop_reason),
                usage: *usage,
                tool_calls: clone_tool_calls(tool_calls),
                text_len: *text_len,
            },
            TraceEvent::LlmError { trace_id, message } => TraceEvent::LlmError {
                trace_id: *trace_id,
                message: message.clone(),
            },
            TraceEvent::ToolSelected { trace_id, id, name, args } => TraceEvent::ToolSelected {
                trace_id: *trace_id,
                id: id.clone(),
                name: name.clone(),
                args: args.clone(),
            },
            TraceEvent::ToolExecuted { trace_id, id, name, ok, output_len } =>
                TraceEvent::ToolExecuted {
                trace_id: *trace_id,
                id: id.clone(),
                name: name.clone(),
                ok: *ok,
                output_len: *output_len,
            },
            TraceEvent::Retry { trace_id, attempt, reason } => TraceEvent::Retry {
                trace_id: *trace_id,
                attempt: *attempt,
                reason: reason.clone(),
            },
            TraceEvent::Fallback { trace_id, from, to, reason } => TraceEvent::Fallback {
                trace_id: *trace_id,
                from: from.clone(),
                to: to.clone(),
                reason: reason.clone(),
            },
            TraceEvent::AgentStep { trace_id, step, action } => TraceEvent::AgentStep {
                trace_id: *trace_id,
                step: *step,
                action: action.clone(),
            },
            TraceEvent::Note { trace_id, message } => TraceEvent::Note {
                trace_id: *trace_id,
                message: message.clone(),
            },
        }
    }
}

/// The correlation id an event belongs to.
pub open spec fn event_trace_id(e: TraceEventView) -> TraceId {
    match e {
        TraceEventView::LlmRequest { trace_id, .. } => trace_id,
        TraceEventView::LlmResponse { trace_id, .. } => trace_id,
        TraceEventView::LlmError { trace_id, .. } => trace_id,
        TraceEventView::ToolSelected { trace_id, .. } => trace_id,
        TraceEventView::ToolExecuted { trace_id, .. } => trace_id,
        TraceEventView::Retry { trace_id, .. } => trace_id,
        TraceEventView::Fallback { trace_id, .. } => trace_id,
        TraceEventView::AgentStep { trace_id, .. } => trace_id,
        TraceEventView::Note { trace_id, .. } => trace_id,
    }
}

/// The event recorded when a request is issued.
pub open spec fn request_event(trace_id: TraceId, r: ChatRequestView) -> TraceEventView {
    TraceEventView::LlmRequest {
        trace_id,
        model: r.model,
        system: r.system is Some,
        message_count: r.messages.len() as usize,
        tool_count: r.tools.len() as usize,
        tool_choice: r.tool_choice,
        response_format: match r.response_format {
            Some(f) => Some(format_kind(f)),
            None => None,
        },
        max_tokens: r.max_tokens,
        temperature_bits: r.temperature_bits,
    }
}

/// The event recorded when a response completes.
pub open spec fn response_event(trace_id: TraceId, r: ChatResponseView) -> TraceEventView {
    TraceEventView::LlmResponse {
        trace_id,
        model: r.model,
        stop_reason: r.stop_reason,
        usage: r.usage,
        tool_calls: tool_calls_of(r.message.content).map_values(|c: ToolCallView| (c.0, c.1)),
        text_len: text_of(r.message.content).len() as usize,
    }
}

impl TraceEvent {
    /// The correlation id this event belongs to.
    pub fn trace_id(&self) -> (t: TraceId)
        ensures
            t == event_trace_id(self@),
    {
        match self {
            TraceEvent::LlmRequest { trace_id, .. } => *trace_id,
            TraceEvent::LlmResponse { trace_id, .. } => *trace_id,
            TraceEvent::LlmError { trace_id, .. } => *trace_id,
            TraceEvent::ToolSelected { trace_id, .. } => *trace_id,
            TraceEvent::ToolExecuted { trace_id, .. } => *trace_id,
            TraceEvent::Retry { trace_id, .. } => *trace_id,
            TraceEvent::Fallback { trace_id, .. } => *trace_id,
            TraceEvent::AgentStep { trace_id, .. } => *trace_id,
            TraceEvent::Note { trace_id, .. } => *trace_id,
        }
    }

    /// The [`TraceEvent::LlmRequest`] describing `request`.
    pub fn from_request(trace_id: TraceId, request: &ChatRequest) -> (e: TraceEvent)
        ensures
            e@ == request_event(trace_id, request@),
    {
        TraceEvent::LlmRequest {
            trace_id,
            model: request.model.clone(),
            system: request.system.is_some(),
            message_count: request.messages.len(),
            tool_count: request.tools.len(),
            tool_choice: clone_opt_tool_choice(&request.tool_choice),
            response_format: match &request.response_format {
                Some(f) => Some(f.kind()),
                None => None,
            },
            max_tokens: request.max_tokens,
            temperature_bits: request.temperature_bits,
        }
    }

    /// The [`TraceEvent::LlmResponse`] summarizing `response`.
    pub fn from_response(trace_id: TraceId, response: &ChatResponse) -> (e: TraceEvent)
        ensures
            e@ == response_event(trace_id, response@),
    {
        let uses = response.tool_uses();
        let mut calls: Vec<ToolCall> = Vec::new();
        let mut i: usize = 0;
        while i < uses.len()
            invariant
                i <= uses.len(),
                calls@.len() == i,
                forall|j: int|
                    0 <= j < i ==> (#[trigger] calls@[j])@ == (uses@[j].id@, uses@[j].name@),
            decreases uses.len() - i,
        {
            calls.push(
                ToolCall { id: String::from_str(uses[i].id), name: String::from_str(uses[i].name) },
            );
            i = i + 1;
        }
        proof {
            let m = uses@.map_values(|c: crate::response::ToolUseRef| (c.id@, c.name@, c.args@));
            assert(calls.deep_view() =~= m.map_values(|c: ToolCallView| (c.0, c.1)));
        }
        let text = response.text();
        TraceEvent::LlmResponse {
            trace_id,
            model: clone_opt_string(&response.model),
            stop_reason: clone_opt_stop_reason(&response.stop_reason),
            usage: response.usage,
            tool_calls: calls,
            text_len: text.unicode_len(),
        }
    }

    /// The event that closes a traced call: the response summary when it
    /// succeeded, the error when it failed.
    pub fn from_outcome(trace_id: TraceId, outcome: &Result<ChatResponse, Error>) -> (e: TraceEvent)
        ensures
            e@ == outcome_event(
                trace_id,
                match outcome {
                    Ok(r) => Ok(r@),
                    Err(err) => Err(err@),
                },
            ),
    {
        match outcome {
            Ok(r) => TraceEvent::from_response(trace_id, r),
            Err(err) => TraceEvent::from_error(trace_id, err),
        }
    }

    /// The [`TraceEvent::LlmError`] recording that a call failed with `error`.
    pub fn from_error(trace_id: TraceId, error: &Error) -> (e: TraceEvent)
        ensures
            e@ == (TraceEventView::LlmError { trace_id, message: error_text(error@) }),
    {
        TraceEvent::LlmError { trace_id, message: error.to_string() }
    }
}


/// The events of `events` that belong to `trace_id`, in order.
pub open spec fn events_for_id(events: Seq<TraceEventView>, trace_id: TraceId) -> Seq<TraceEventView> {
    events.filter(|e: TraceEventView| event_trace_id(e) == trace_id)
}

/// Clones a list of events, keeping every event.
pub fn clone_events(v: &Vec<TraceEvent>) -> (res: Vec<TraceEvent>)
    ensures
        res.deep_view() == v.deep_view(),
{
    let mut out: Vec<TraceEvent> = Vec::new();
    let mut i: usize = 0;
    while i < v.len()
        invariant
            i <= v.len(),
            out@.len() == i,
            forall|j: int| 0 <= j < i ==> (#[trigger] out@[j])@ == v@[j]@,
        decreases v.len() - i,
    {
        out.push(v[i].clone());
        i = i + 1;
    }
    assert(out.deep_view() =~= v.deep_view());
    out
}

/// The events of `v` that belong to `trace_id`, in order.
pub fn select_events(v: &Vec<TraceEvent>, trace_id: TraceId) -> (res: Vec<TraceEvent>)
    ensures
        res.deep_view() == events_for_id(v.deep_view(), trace_id),
{
    let ghost pred = |e: TraceEventView| event_trace_id(e) == trace_id;
    let mut out: Vec<TraceEvent> = Vec::new();
    let mut i: usize = 0;
    while i < v.len()
        invariant
            i <= v.len(),
            pred == (|e: TraceEventView| event_trace_id(e) == trace_id),
            out.deep_view() == v.deep_view().take(i as int).filter(pred),
        decreases v.len() - i,
    {
        proof {
            reveal_with_fuel(Seq::filter, 1);
            assert(v.deep_view().take(i + 1).drop_last() =~= v.deep_view().take(i as int));
        }
        let ghost before = out.deep_view();
        if v[i].trace_id() == trace_id {
            out.push(v[i].clone());
            proof {
                assert(out.deep_view() =~= before.push(v.deep_view()[i as int]));
            }
        }
        i = i + 1;
    }
    proof {
        assert(v.deep_view().take(v.len() as int) =~= v.deep_view());
    }
    out
}

/// An in-memory recorder of trace events, for inspection or later persistence.
#[derive(Debug)]
pub struct RecordingTracer {
    events: Vec<TraceEvent>,
}

impl View for RecordingTracer {
    type V = Seq<TraceEventView>;

    closed spec fn view(&self) -> Seq<TraceEventView> {
        self.events.deep_view()
    }
}

impl RecordingTracer {
    /// An empty recorder.
    pub fn new() -> (t: RecordingTracer)
        ensures
            t@ == Seq::<TraceEventView>::empty(),
    {
        let t = RecordingTracer { events: Vec::new() };
        assert(t@ =~= Seq::<TraceEventView>::empty());
        t
    }

    /// Record one event.
    pub fn record(&mut self, event: TraceEvent)
        ensures
            final(self)@ == old(self)@.push(event@),
    {
        let ghost e = event@;
        self.events.push(event);
        assert(self@ =~= old(self)@.push(e));
    }

    /// A copy of the recorded events, in order.
    pub fn events(&self) -> (v: Vec<TraceEvent>)
        ensures
            v.deep_view() == self@,
    {
        clone_events(&self.events)
    }

    /// The recorded events of one correlation id, in order.
    pub fn events_for(&self, trace_id: TraceId) -> (v: Vec<TraceEvent>)
        ensures
            v.deep_view() == events_for_id(self@, trace_id),
    {
        select_events(&self.events, trace_id)
    }

    /// Number of recorded events.
    pub fn len(&self) -> (n: usize)
        ensures
            n == self@.len(),
    {
        self.events.len()
    }

    /// Whether nothing has been recorded.
    pub fn is_empty(&self) -> (b: bool)
        ensures
            b == (self@.len() == 0),
    {
        self.events.len() == 0
    }

    /// Take all recorded events, leaving the recorder empty.
    pub fn drain(&mut self) -> (v: Vec<TraceEvent>)
        ensures
            v.deep_view() == old(self)@,
            final(self)@ == Seq::<TraceEventView>::empty(),
    {
        let mut taken: Vec<TraceEvent> = Vec::new();
        std::mem::swap(&mut taken, &mut self.events);
        assert(self@ =~= Seq::<TraceEventView>::empty());
        taken
    }
}

/// The running summary of a traced stream.
#[verifier::ext_equal]
pub struct TracedStreamView {
    pub trace_id: TraceId,
    pub done: bool,
    pub text_len: usize,
    pub usage: Usage,
    pub stop_reason: Option<StopReasonView>,
    pub tools: Seq<(Seq<char>, Seq<char>)>,
}

/// How one successfully streamed event changes the summary.
pub open spec fn observe_event(s: TracedStreamView, e: StreamEventView) -> TracedStreamView {
    match e {
        StreamEventView::TextDelta(t) => TracedStreamView {
            text_len: (s.text_len + t.len()) as usize,
            ..s
        },
        StreamEventView::Usage(u) => TracedStreamView { usage: u, ..s },
        StreamEventView::Stop(r) => TracedStreamView { stop_reason: Some(r), ..s },
        StreamEventView::ToolCallStart { id, name, .. } => TracedStreamView {
            tools: s.tools.push((id, name)),
            ..s
        },
        _ => s,
    }
}

/// The response event a stream summary records.
pub open spec fn summary_event(s: TracedStreamView) -> TraceEventView {
    TraceEventView::LlmResponse {
        trace_id: s.trace_id,
        model: None,
        stop_reason: s.stop_reason,
        usage: s.usage,
        tool_calls: s.tools,
        text_len: s.text_len,
    }
}

/// The state a traced stream starts in.
pub open spec fn fresh_stream(trace_id: TraceId) -> TracedStreamView {
    TracedStreamView {
        trace_id,
        done: false,
        text_len: 0,
        usage: zero_usage(),
        stop_reason: None,
        tools: Seq::empty(),
    }
}

/// Watches a model's stream and decides which trace event closes it: the
/// response summary when it ends, or the error that broke it, whichever comes
/// first, and only once.
#[derive(Debug)]
pub struct TracedStreamState {
    trace_id: TraceId,
    done: bool,
    text_len: usize,
    usage: Usage,
    stop_reason: Option<StopReason>,
    tools: Vec<ToolCall>,
}

impl View for TracedStreamState {
    type V = TracedStreamView;

    closed spec fn view(&self) -> TracedStreamView {
        TracedStreamView {
            trace_id: self.trace_id,
            done: self.done,
            text_len: self.text_len,
            usage: self.usage,
            stop_reason: self.stop_reason.deep_view(),
            tools: self.tools.deep_view(),
        }
    }
}

impl TracedStreamState {
    /// A summary for a stream correlated by `trace_id`.
    pub fn new(trace_id: TraceId) -> (s: TracedStreamState)
        ensures
            s@ == fresh_stream(trace_id),
    {
        let s = TracedStreamState {
            trace_id,
            done: false,
            text_len: 0,
            usage: Usage::default(),
            stop_reason: None,
            tools: Vec::new(),
        };
        assert(s@ =~= fresh_stream(trace_id));
        s
    }

    /// Observe an event the stream yielded. The text length is a `usize`
    /// running sum, so it must not overflow.
    pub fn observe(&mut self, event: &StreamEvent)
        requires
            event@ matches StreamEventView::TextDelta(t) ==> old(self)@.text_len + t.len()
                <= usize::MAX,
        ensures
            final(self)@ == observe_event(old(self)@, event@),
    {
        let ghost before = self@;
        match event {
            StreamEvent::TextDelta(s) => {
                self.text_len = self.text_len + s.unicode_len();
            },
            StreamEvent::Usage(u) => {
                self.usage = *u;
            },
            StreamEvent::Stop(r) => {
                self.stop_reason = Some(r.clone());
            },
            StreamEvent::ToolCallStart { id, name, .. } => {
                self.tools.push(ToolCall { id: id.clone(), name: name.clone() });
                assert(self.tools.deep_view() =~= before.tools.push((id@, name@)));
            },
            _ => {},
        }
        assert(self@ =~= observe_event(before, event@));
    }

    /// The number of text characters observed so far.
    pub fn text_len(&self) -> (n: usize)
        ensures
            n == self@.text_len,
    {
        self.text_len
    }

    /// The summary event as it stands.
    pub fn summary(&self) -> (e: TraceEvent)
        ensures
            e@ == summary_event(self@),
    {
        TraceEvent::LlmResponse {
            trace_id: self.trace_id,
            model: None,
            stop_reason: clone_opt_stop_reason(&self.stop_reason),
            usage: self.usage,
            tool_calls: clone_tool_calls(&self.tools),
            text_len: self.text_len,
        }
    }

    /// The stream failed with `message`: the error event to record, unless the
    /// stream was already closed.
    pub fn on_error(&mut self, message: &str) -> (e: Option<TraceEvent>)
        ensures
            final(self)@ == (TracedStreamView { done: true, ..old(self)@ }),
            old(self)@.done ==> e is None,
            !old(self)@.done ==> (e matches Some(ev) && ev@ == (TraceEventView::LlmError {
                trace_id: old(self)@.trace_id,
                message: message@,
            })),
    {
        if self.done {
            return None;
        }
        self.done = true;
        Some(TraceEvent::LlmError { trace_id: self.trace_id, message: String::from_str(message) })
    }

    /// The stream ended: the summary event to record, unless the stream was
    /// already closed.
    pub fn on_end(&mut self) -> (e: Option<TraceEvent>)
        ensures
            final(self)@ == (TracedStreamView { done: true, ..old(self)@ }),
            old(self)@.done ==> e is None,
            !old(self)@.done ==> (e matches Some(ev) && ev@ == summary_event(old(self)@)),
    {
        if self.done {
            return None;
        }
        let e = self.summary();
        self.done = true;
        Some(e)
    }
}


/// The summary after observing every event of a stream, in order.
pub open spec fn observe_all(trace_id: TraceId, events: Seq<StreamEventView>) -> TracedStreamView
    decreases events.len(),
{
    if events.len() == 0 {
        fresh_stream(trace_id)
    } else {
        observe_event(observe_all(trace_id, events.drop_last()), events.last())
    }
}

/// What the summary holds after a whole stream (while its text length fits).
pub proof fn lemma_observe_all(trace_id: TraceId, events: Seq<StreamEventView>)
    requires
        text_deltas(events).len() <= usize::MAX,
    ensures
        observe_all(trace_id, events).text_len == text_deltas(events).len(),
        observe_all(trace_id, events).tools == started_calls(events),
        observe_all(trace_id, events).usage == last_usage(events),
        observe_all(trace_id, events).stop_reason == last_stop(events),
        observe_all(trace_id, events).trace_id == trace_id,
        !observe_all(trace_id, events).done,
    decreases events.len(),
{
    if events.len() == 0 {
        assert(text_deltas(events) =~= Seq::<char>::empty());
        assert(started_calls(events) =~= Seq::<(Seq<char>, Seq<char>)>::empty());
    } else {
        let d = events.drop_last();
        let extra = match events.last() {
            StreamEventView::TextDelta(t) => t,
            _ => Seq::<char>::empty(),
        };
        assert(text_deltas(events) == text_deltas(d) + extra);
        lemma_observe_all(trace_id, d);
        match events.last() {
            StreamEventView::ToolCallStart { .. } => {},
            _ => {
                assert(started_calls(events) =~= started_calls(d));
            },
        }
    }
}

/// Tracing a stream records the same response summary as tracing the response
/// it collects to: same stop reason, usage, tool calls (id and name, in order)
/// and text length in characters.
pub proof fn law_stream_summary_matches_collected_response(
    trace_id: TraceId,
    events: Seq<StreamEventView>,
)
    requires
        text_deltas(events).len() <= usize::MAX,
    ensures
        summary_event(observe_all(trace_id, events)) == response_event(
            trace_id,
            finished_response(accumulate_all(events)),
        ),
{
    lemma_observe_all(trace_id, events);
    law_collected_response_reflects_stream(events);
}

/// What polling the inner stream of a traced stream gives: an event, or a
/// failure with its message.
pub type StreamItemView = Result<StreamEventView, Seq<char>>;

/// The summary and the events recorded after polling `items`, in order:
/// events are observed; the first failure closes the stream and is recorded.
pub open spec fn poll_items(s: TracedStreamView, items: Seq<StreamItemView>) -> (
    TracedStreamView,
    Seq<TraceEventView>,
)
    decreases items.len(),
{
    if items.len() == 0 {
        (s, Seq::empty())
    } else {
        let (t, rec) = poll_items(s, items.drop_last());
        match items.last() {
            Ok(e) => (observe_event(t, e), rec),
            Err(m) => if t.done {
                (t, rec)
            } else {
                (
                    TracedStreamView { done: true, ..t },
                    rec.push(TraceEventView::LlmError { trace_id: t.trace_id, message: m }),
                )
            },
        }
    }
}

/// Everything a traced stream records after the request: what polling its
/// items recorded, then, when it ends without having closed, its summary.
pub open spec fn traced_stream_records(trace_id: TraceId, items: Seq<StreamItemView>) -> Seq<
    TraceEventView,
> {
    let (t, rec) = poll_items(fresh_stream(trace_id), items);
    if t.done {
        rec
    } else {
        rec.push(summary_event(t))
    }
}

/// The events of items that are all events.
pub open spec fn item_events(items: Seq<StreamItemView>) -> Seq<StreamEventView> {
    items.map_values(
        |i: StreamItemView|
            match i {
                Ok(e) => e,
                Err(_) => StreamEventView::MessageStop,
            },
    )
}

/// Polling items that are all events observes each one and records nothing.
proof fn lemma_poll_events(trace_id: TraceId, items: Seq<StreamItemView>)
    requires
        forall|i: int| 0 <= i < items.len() ==> (#[trigger] items[i]) is Ok,
    ensures
        poll_items(fresh_stream(trace_id), items) == (
            observe_all(trace_id, item_events(items)),
            Seq::<TraceEventView>::empty(),
        ),
        !observe_all(trace_id, item_events(items)).done,
    decreases items.len(),
{
    if items.len() > 0 {
        lemma_poll_events(trace_id, items.drop_last());
        assert(item_events(items).drop_last() =~= item_events(items.drop_last()));
        assert(items.last() is Ok);
    } else {
        assert(item_events(items) =~= Seq::<StreamEventView>::empty());
    }
}

/// Once a traced stream has closed, polling more items records nothing more.
proof fn lemma_poll_after_close(trace_id: TraceId, items: Seq<StreamItemView>, f: int)
    requires
        0 <= f <= items.len(),
        poll_items(fresh_stream(trace_id), items.take(f)).0.done,
    ensures
        poll_items(fresh_stream(trace_id), items).0.done,
        poll_items(fresh_stream(trace_id), items).1 == poll_items(
            fresh_stream(trace_id),
            items.take(f),
        ).1,
    decreases items.len() - f,
{
    if f < items.len() {
        assert(items.take(f + 1).drop_last() =~= items.take(f));
        assert(items.take(f + 1).last() == items[f]);
        lemma_poll_after_close(trace_id, items, f + 1);
    } else {
        assert(items.take(f) =~= items);
    }
}

/// A traced stream records exactly one event after its request: when every
/// item is an event, the summary of the response the stream collects to;
/// otherwise the first failure, and no summary.
pub proof fn law_traced_stream_records_once(trace_id: TraceId, items: Seq<StreamItemView>)
    ensures
        (forall|i: int| 0 <= i < items.len() ==> (#[trigger] items[i]) is Ok) && text_deltas(
            item_events(items),
        ).len() <= usize::MAX ==> traced_stream_records(trace_id, items) == seq![
            response_event(trace_id, finished_response(accumulate_all(item_events(items)))),
        ],
        forall|f: int|
            0 <= f < items.len() && (#[trigger] items[f]) is Err && (forall|i: int|
                0 <= i < f ==> (#[trigger] items[i]) is Ok) ==> traced_stream_records(trace_id, items)
                == seq![TraceEventView::LlmError { trace_id, message: items[f]->Err_0 }],
{
    if (forall|i: int| 0 <= i < items.len() ==> (#[trigger] items[i]) is Ok) && text_deltas(
        item_events(items),
    ).len() <= usize::MAX {
        lemma_poll_events(trace_id, items);
        law_stream_summary_matches_collected_response(trace_id, item_events(items));
        assert(Seq::<TraceEventView>::empty().push(
            summary_event(observe_all(trace_id, item_events(items))),
        ) =~= seq![summary_event(observe_all(trace_id, item_events(items)))]);
    }
    assert forall|f: int|
        0 <= f < items.len() && (#[trigger] items[f]) is Err && (forall|i: int|
            0 <= i < f ==> (#[trigger] items[i]) is Ok) implies traced_stream_records(trace_id, items)
        == seq![TraceEventView::LlmError { trace_id, message: items[f]->Err_0 }] by {
        let before = items.take(f);
        assert forall|i: int| 0 <= i < before.len() implies (#[trigger] before[i]) is Ok by {
            assert(before[i] == items[i]);
        }
        lemma_poll_events(trace_id, before);
        assert(items.take(f + 1).drop_last() =~= before);
        assert(items.take(f + 1).last() == items[f]);
        let t = observe_all(trace_id, item_events(before));
        lemma_observe_trace_id(trace_id, item_events(before));
        let m = items[f]->Err_0;
        assert(poll_items(fresh_stream(trace_id), items.take(f + 1)).1 =~= seq![
            TraceEventView::LlmError { trace_id, message: m },
        ]);
        lemma_poll_after_close(trace_id, items, f + 1);
    }
}

/// Observing events keeps a summary's correlation id.
proof fn lemma_observe_trace_id(trace_id: TraceId, events: Seq<StreamEventView>)
    ensures
        observe_all(trace_id, events).trace_id == trace_id,
    decreases events.len(),
{
    if events.len() > 0 {
        lemma_observe_trace_id(trace_id, events.drop_last());
    }
}

/// The event that closes a traced call: the response summary, or the error.
pub open spec fn outcome_event(trace_id: TraceId, outcome: Result<ChatResponseView, ErrorView>) -> TraceEventView {
    match outcome {
        Ok(r) => response_event(trace_id, r),
        Err(e) => TraceEventView::LlmError { trace_id, message: error_text(e) },
    }
}

/// A traced call records its request, then how it ended (the response summary
/// or the error), both under the call's correlation id, so looking that id up
/// finds exactly the two, in order.
pub proof fn law_traced_call_records(
    trace_id: TraceId,
    request: ChatRequestView,
    outcome: Result<ChatResponseView, ErrorView>,
)
    ensures
        event_trace_id(outcome_event(trace_id, outcome)) == trace_id,
        events_for_id(seq![request_event(trace_id, request), outcome_event(trace_id, outcome)], trace_id)
            == seq![request_event(trace_id, request), outcome_event(trace_id, outcome)],
{
    let evs = seq![request_event(trace_id, request), outcome_event(trace_id, outcome)];
    reveal_with_fuel(Seq::filter, 3);
    assert(evs.drop_last() =~= seq![request_event(trace_id, request)]);
    assert(evs.drop_last().drop_last() =~= Seq::<TraceEventView>::empty());
    assert(events_for_id(evs, trace_id) =~= evs);
}

} // verus!
