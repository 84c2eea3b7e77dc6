//! The decisions of the tool-calling agent loop.
//!
//! The loop is: call the model; if it requested tools, run each one and append
//! its result; repeat until the model answers without tools or the step cap is
//! reached. [`AgentRun`] is that loop as a state machine: the caller performs
//! each [`AgentAction`] (a model call, a tool run) and hands the result back;
//! every decision, every transcript change and every trace event is made here.

use vstd::prelude::*;
use vstd::string::*;
use vstd::utf8::encode_utf8;

use crate::error::{Error, ErrorView};
use crate::message::{
    clone_messages, text_of, tool_result_message, Message, MessageView, Role,
};
use crate::request::{build_outcome, empty_request, ChatRequest, ChatRequestView};
use crate::response::{tool_calls_of, ChatResponse, ChatResponseView, ToolCallView};
use crate::tool::{clone_tool_defs, ToolDef, ToolDefView};
use crate::trace::{TraceEvent, TraceEventView, TraceId};

verus! {

broadcast use vstd::string::group_string_axioms;

/// Why an agent run stopped.
#[derive(Debug, Clone, Copy, PartialEq, Eq, Structural)]
pub enum StopCause {
    /// The model produced a final answer with no tool calls.
    Final,
    /// The step cap was reached before a final answer.
    MaxSteps,
}

/// The result of an agent run.
#[derive(Debug, PartialEq)]
pub struct AgentOutcome {
    /// The last model response (the final answer on a [`StopCause::Final`] run).
    pub response: ChatResponse,
    /// The full transcript, including tool calls and tool results.
    pub messages: Vec<Message>,
    /// How many model calls were made.
    pub steps: u32,
    /// Why the run stopped.
    pub stopped: StopCause,
}

/// The mathematical model of an [`AgentOutcome`].
pub struct AgentOutcomeView {
    pub response: ChatResponseView,
    pub messages: Seq<MessageView>,
    pub steps: u32,
    pub stopped: StopCause,
}

impl View for AgentOutcome {
    type V = AgentOutcomeView;

    open spec fn view(&self) -> AgentOutcomeView {
        AgentOutcomeView {
            response: self.response@,
            messages: self.messages.deep_view(),
            steps: self.steps,
            stopped: self.stopped,
        }
    }
}

impl AgentOutcome {
    /// The text of the final response.
    pub fn text(&self) -> (s: String)
        ensures
            s@ == text_of(self@.response.message.content),
    {
        self.response.text()
    }
}

/// The settings of an agent: the model id placed in each request, the system
/// prompt, the output cap per call and the step cap (at least 1).
#[derive(Debug)]
pub struct AgentConfig {
    model_id: String,
    system: Option<String>,
    max_tokens: Option<u32>,
    max_steps: u32,
}

/// The mathematical model of an [`AgentConfig`].
#[verifier::ext_equal]
pub struct AgentConfigView {
    pub model_id: Seq<char>,
    pub system: Option<Seq<char>>,
    pub max_tokens: Option<u32>,
    pub max_steps: u32,
}

impl View for AgentConfig {
    type V = AgentConfigView;

    closed spec fn view(&self) -> AgentConfigView {
        AgentConfigView {
            model_id: self.model_id@,
            system: self.system.deep_view(),
            max_tokens: self.max_tokens,
            max_steps: self.max_steps,
        }
    }
}

impl Clone for AgentConfig {
    fn clone(&self) -> (res: Self)
        ensures
            res@ == self@,
    {
        proof {
            use_type_invariant(self);
        }
        AgentConfig {
            model_id: self.model_id.clone(),
            system: crate::message::clone_opt_string(&self.system),
            max_tokens: self.max_tokens,
            max_steps: self.max_steps,
        }
    }
}

impl AgentConfig {
    /// The configuration's invariant: at least one model call is allowed.
    #[verifier::type_invariant]
    spec fn allows_a_call(self) -> bool {
        self.max_steps >= 1
    }

    /// No system prompt, no output cap, model id `"model"`, step cap 8.
    pub fn new() -> (c: AgentConfig)
        ensures
            c@ == (AgentConfigView {
                model_id: "model"@,
                system: None,
                max_tokens: None,
                max_steps: 8,
            }),
    {
        AgentConfig {
            model_id: String::from_str("model"),
            system: None,
            max_tokens: None,
            max_steps: 8,
        }
    }

    /// Set the model id placed in each request.
    pub fn model_id(self, model_id: &str) -> (c: Self)
        ensures
            c@ == (AgentConfigView { model_id: model_id@, ..self@ }),
    {
        proof {
            use_type_invariant(&self);
        }
        AgentConfig { model_id: String::from_str(model_id), ..self }
    }

    /// Set the system prompt.
    pub fn system(self, system: &str) -> (c: Self)
        ensures
            c@ == (AgentConfigView { system: Some(system@), ..self@ }),
    {
        proof {
            use_type_invariant(&self);
        }
        AgentConfig { system: Some(String::from_str(system)), ..self }
    }

    /// Set the output token cap per model call.
    pub fn max_tokens(self, max_tokens: u32) -> (c: Self)
        ensures
            c@ == (AgentConfigView { max_tokens: Some(max_tokens), ..self@ }),
    {
        proof {
            use_type_invariant(&self);
        }
        AgentConfig { max_tokens: Some(max_tokens), ..self }
    }

    /// Set the maximum number of model calls (raised to 1 if 0).
    pub fn max_steps(self, max_steps: u32) -> (c: Self)
        ensures
            c@ == (AgentConfigView {
                max_steps: if max_steps == 0 { 1 } else { max_steps },
                ..self@
            }),
    {
        AgentConfig { max_steps: if max_steps == 0 { 1 } else { max_steps }, ..self }
    }
}

/// The request contents for one model call.
pub open spec fn agent_request(
    config: AgentConfigView,
    messages: Seq<MessageView>,
    tool_defs: Seq<ToolDefView>,
) -> ChatRequestView {
    ChatRequestView {
        messages,
        tools: tool_defs,
        system: config.system,
        max_tokens: config.max_tokens,
        ..empty_request(config.model_id)
    }
}

/// Build the request for one model call: the model id, the transcript, every
/// tool declaration, and the system prompt and output cap when set.
pub fn build_request(
    config: &AgentConfig,
    messages: Vec<Message>,
    tool_defs: Vec<ToolDef>,
) -> (r: Result<ChatRequest, Error>)
    ensures
        match (r, build_outcome(agent_request(config@, messages.deep_view(), tool_defs.deep_view()))) {
            (Ok(req), Ok(v)) => req@ == v,
            (Err(e), Err(v)) => e@ == v,
            _ => false,
        },
{
    let mut builder = ChatRequest::builder(config.model_id.as_str()).messages(messages).tools(
        tool_defs,
    );
    match &config.system {
        Some(system) => {
            builder = builder.system(system.as_str());
        },
        None => {},
    }
    match config.max_tokens {
        Some(max_tokens) => {
            builder = builder.max_tokens(max_tokens);
        },
        None => {},
    }
    proof {
        assert(builder@ =~= agent_request(config@, messages.deep_view(), tool_defs.deep_view()));
    }
    builder.build()
}

/// Where a run stands.
#[derive(Debug, Clone, Copy, PartialEq, Eq, Structural)]
pub enum AgentPhase {
    /// A model call is out; its response is awaited.
    AwaitingModel,
    /// The tool call at this position is running; its result is awaited.
    AwaitingTool(usize),
    /// The run is over.
    Finished,
}

/// What the caller must do next. Each action lists the trace events to record
/// before performing it.
#[derive(Debug)]
pub enum AgentAction {
    /// Call the model with this request.
    CallModel { trace: Vec<TraceEvent>, request: ChatRequest },
    /// Run the named tool with these arguments (JSON text).
    RunTool { trace: Vec<TraceEvent>, name: String, args: String },
    /// The run is over with this outcome.
    Finish { trace: Vec<TraceEvent>, outcome: AgentOutcome },
    /// The run failed with this error.
    Fail { trace: Vec<TraceEvent>, error: Error },
}

/// The mathematical model of an [`AgentAction`].
pub enum AgentActionView {
    CallModel { trace: Seq<TraceEventView>, request: ChatRequestView },
    RunTool { trace: Seq<TraceEventView>, name: Seq<char>, args: Seq<char> },
    Finish { trace: Seq<TraceEventView>, outcome: AgentOutcomeView },
    Fail { trace: Seq<TraceEventView>, error: ErrorView },
}

impl View for AgentAction {
    type V = AgentActionView;

    open spec fn view(&self) -> AgentActionView {
        match self {
            AgentAction::CallModel { trace, request } => AgentActionView::CallModel {
                trace: trace.deep_view(),
                request: request@,
            },
            AgentAction::RunTool { trace, name, args } => AgentActionView::RunTool {
                trace: trace.deep_view(),
                name: name@,
                args: args@,
            },
            AgentAction::Finish { trace, outcome } => AgentActionView::Finish {
                trace: trace.deep_view(),
                outcome: outcome@,
            },
            AgentAction::Fail { trace, error } => AgentActionView::Fail {
                trace: trace.deep_view(),
                error: error@,
            },
        }
    }
}

/// The state of a run.
#[verifier::ext_equal]
pub struct AgentRunView {
    pub config: AgentConfigView,
    pub tool_defs: Seq<ToolDefView>,
    pub trace_id: TraceId,
    pub messages: Seq<MessageView>,
    pub steps: u32,
    pub phase: AgentPhase,
    pub calls: Seq<ToolCallView>,
    pub response: Option<ChatResponseView>,
}

/// The trace event of a model-call step.
pub open spec fn step_event(trace_id: TraceId, step: u32) -> TraceEventView {
    TraceEventView::AgentStep { trace_id, step, action: "call_model"@ }
}

/// The trace event of a tool selection.
pub open spec fn selected_event(trace_id: TraceId, call: ToolCallView) -> TraceEventView {
    TraceEventView::ToolSelected { trace_id, id: call.0, name: call.1, args: call.2 }
}

/// The trace event of a finished tool run.
pub open spec fn executed_event(
    trace_id: TraceId,
    call: ToolCallView,
    output: Seq<char>,
    ok: bool,
) -> TraceEventView {
    TraceEventView::ToolExecuted {
        trace_id,
        id: call.0,
        name: call.1,
        ok,
        output_len: encode_utf8(output).len() as usize,
    }
}

/// The message answering tool call `call` with `output`; an error result when
/// the tool failed.
pub open spec fn answer(call: ToolCallView, output: Seq<char>, ok: bool) -> MessageView {
    tool_result_message(call.0, output, !ok)
}

/// Whether `m` is a tool-result message answering call `call`.
pub open spec fn answers(m: MessageView, call: ToolCallView) -> bool {
    &&& m.role == Role::Tool
    &&& m.content.len() == 1
    &&& m.content[0] matches crate::message::ContentBlockView::ToolResult { tool_use_id, .. }
        && tool_use_id == call.0
}

/// The run's invariant: the step count stays within the cap; while tools run,
/// the transcript ends with the model's message followed by one answer per
/// tool call already run, in call order.
pub open spec fn run_wf(s: AgentRunView) -> bool {
    &&& 1 <= s.config.max_steps
    &&& 1 <= s.steps <= s.config.max_steps
    &&& match s.phase {
        AgentPhase::AwaitingTool(p) => {
            &&& s.response matches Some(r)
            &&& s.calls == tool_calls_of(r.message.content)
            &&& p < s.calls.len() <= usize::MAX
            &&& s.messages.len() >= p + 1
            &&& s.messages[s.messages.len() - p - 1] == r.message
            &&& forall|j: int|
                0 <= j < p ==> answers(
                    #[trigger] s.messages[s.messages.len() - p + j],
                    s.calls[j],
                )
        },
        _ => true,
    }
}

/// The first model call of a run: step 1 with the initial transcript.
pub open spec fn start_transition(
    config: AgentConfigView,
    tool_defs: Seq<ToolDefView>,
    trace_id: TraceId,
    initial: Seq<MessageView>,
) -> (AgentRunView, AgentActionView) {
    let s = AgentRunView {
        config,
        tool_defs,
        trace_id,
        messages: initial,
        steps: 1,
        phase: AgentPhase::AwaitingModel,
        calls: Seq::empty(),
        response: None,
    };
    call_model(s)
}

/// Issue the model call of the current step, or fail if the request is invalid.
pub open spec fn call_model(s: AgentRunView) -> (AgentRunView, AgentActionView) {
    let trace = seq![step_event(s.trace_id, s.steps)];
    match build_outcome(agent_request(s.config, s.messages, s.tool_defs)) {
        Ok(req) => (
            AgentRunView { phase: AgentPhase::AwaitingModel, ..s },
            AgentActionView::CallModel { trace, request: req },
        ),
        Err(e) => (
            AgentRunView { phase: AgentPhase::Finished, ..s },
            AgentActionView::Fail { trace, error: e },
        ),
    }
}

/// The model answered: record its message; finish when it asked for no tool,
/// otherwise run the first tool it asked for.
pub open spec fn response_transition(s: AgentRunView, r: ChatResponseView) -> (
    AgentRunView,
    AgentActionView,
) {
    let messages = s.messages.push(r.message);
    let calls = tool_calls_of(r.message.content);
    if calls.len() == 0 {
        (
            AgentRunView {
                messages: Seq::empty(),
                phase: AgentPhase::Finished,
                calls,
                response: None,
                ..s
            },
            AgentActionView::Finish {
                trace: Seq::empty(),
                outcome: AgentOutcomeView {
                    response: r,
                    messages,
                    steps: s.steps,
                    stopped: StopCause::Final,
                },
            },
        )
    } else {
        (
            AgentRunView {
                messages,
                phase: AgentPhase::AwaitingTool(0),
                calls,
                response: Some(r),
                ..s
            },
            AgentActionView::RunTool {
                trace: seq![selected_event(s.trace_id, calls[0])],
                name: calls[0].1,
                args: calls[0].2,
            },
        )
    }
}

/// The tool at position `p` finished: record its answer; run the next tool,
/// or stop at the step cap, or start the next step.
pub open spec fn tool_transition(s: AgentRunView, p: int, output: Seq<char>, ok: bool) -> (
    AgentRunView,
    AgentActionView,
) {
    let call = s.calls[p];
    let executed = executed_event(s.trace_id, call, output, ok);
    let messages = s.messages.push(answer(call, output, ok));
    if p + 1 < s.calls.len() {
        (
            AgentRunView { messages, phase: AgentPhase::AwaitingTool((p + 1) as usize), ..s },
            AgentActionView::RunTool {
                trace: seq![executed, selected_event(s.trace_id, s.calls[p + 1])],
                name: s.calls[p + 1].1,
                args: s.calls[p + 1].2,
            },
        )
    } else if s.steps >= s.config.max_steps {
        (
            AgentRunView {
                messages: Seq::empty(),
                phase: AgentPhase::Finished,
                response: None,
                ..s
            },
            AgentActionView::Finish {
                trace: seq![executed],
                outcome: AgentOutcomeView {
                    response: s.response->0,
                    messages,
                    steps: s.steps,
                    stopped: StopCause::MaxSteps,
                },
            },
        )
    } else {
        let next = AgentRunView {
            messages,
            steps: (s.steps + 1) as u32,
            calls: Seq::empty(),
            response: None,
            ..s
        };
        let (t, a) = call_model(next);
        (
            t,
            match a {
                AgentActionView::CallModel { trace, request } => AgentActionView::CallModel {
                    trace: seq![executed] + trace,
                    request,
                },
                AgentActionView::Fail { trace, error } => AgentActionView::Fail {
                    trace: seq![executed] + trace,
                    error,
                },
                other => other,
            },
        )
    }
}

/// A tool-calling run in progress.
#[derive(Debug)]
pub struct AgentRun {
    config: AgentConfig,
    tool_defs: Vec<ToolDef>,
    trace_id: TraceId,
    messages: Vec<Message>,
    steps: u32,
    phase: AgentPhase,
    calls: Vec<(String, String, String)>,
    response: Option<ChatResponse>,
}

impl View for AgentRun {
    type V = AgentRunView;

    closed spec fn view(&self) -> AgentRunView {
        AgentRunView {
            config: self.config@,
            tool_defs: self.tool_defs.deep_view(),
            trace_id: self.trace_id,
            messages: self.messages.deep_view(),
            steps: self.steps,
            phase: self.phase,
            calls: self.calls.deep_view(),
            response: self.response.deep_view(),
        }
    }
}

impl AgentRun {
    /// The run's invariant (see [`run_wf`]).
    #[verifier::type_invariant]
    spec fn well_formed(self) -> bool {
        run_wf(self@)
    }

    /// Issues the model call of the current step (or fails on an invalid request).
    fn call_model(&mut self) -> (a: AgentAction)
        requires
            1 <= old(self)@.steps <= old(self)@.config.max_steps,
        ensures
            (final(self)@, a@) == call_model(old(self)@),
    {
        let mut trace: Vec<TraceEvent> = Vec::new();
        trace.push(
            TraceEvent::AgentStep {
                trace_id: self.trace_id,
                step: self.steps,
                action: String::from_str("call_model"),
            },
        );
        proof {
            assert(trace.deep_view() =~= seq![step_event(self.trace_id, self.steps)]);
        }
        let built = build_request(
            &self.config,
            clone_messages(&self.messages),
            clone_tool_defs(&self.tool_defs),
        );
        match built {
            Ok(request) => {
                self.phase = AgentPhase::AwaitingModel;
                AgentAction::CallModel { trace, request }
            },
            Err(error) => {
                self.phase = AgentPhase::Finished;
                AgentAction::Fail { trace, error }
            },
        }
    }

    /// Start a run: step 1 calls the model with `initial`.
    pub fn start(
        config: &AgentConfig,
        tool_defs: Vec<ToolDef>,
        trace_id: TraceId,
        initial: Vec<Message>,
    ) -> (r: (AgentRun, AgentAction))
        ensures
            (r.0@, r.1@) == start_transition(
                config@,
                tool_defs.deep_view(),
                trace_id,
                initial.deep_view(),
            ),
            run_wf(r.0@),
    {
        proof {
            use_type_invariant(config);
        }
        let mut run = AgentRun {
            config: config.clone(),
            tool_defs,
            trace_id,
            messages: initial,
            steps: 1,
            phase: AgentPhase::AwaitingModel,
            calls: Vec::new(),
            response: None,
        };
        proof {
            assert(run@.calls =~= Seq::<ToolCallView>::empty());
        }
        let a = run.call_model();
        (run, a)
    }

    /// Where the run stands.
    pub fn phase(&self) -> (p: AgentPhase)
        ensures
            p == self@.phase,
    {
        self.phase
    }

    /// The model answered the current step's call.
    pub fn on_response(&mut self, response: ChatResponse) -> (a: AgentAction)
        requires
            old(self)@.phase == AgentPhase::AwaitingModel,
        ensures
            (final(self)@, a@) == response_transition(old(self)@, response@),
            run_wf(old(self)@),
            run_wf(final(self)@),
    {
        proof {
            use_type_invariant(&*self);
        }
        let ghost r = response@;
        let message = response.message.clone();
        self.phase = AgentPhase::Finished;
        let mut grown: Vec<Message> = Vec::new();
        std::mem::swap(&mut grown, &mut self.messages);
        grown.push(message);
        self.messages = grown;
        let uses = response.tool_uses();
        let mut calls: Vec<(String, String, String)> = Vec::new();
        let mut i: usize = 0;
        while i < uses.len()
            invariant
                i <= uses.len(),
                calls@.len() == i,
                forall|j: int|
                    0 <= j < i ==> (#[trigger] calls@[j]).deep_view() == (
                        uses@[j].id@,
                        uses@[j].name@,
                        uses@[j].args@,
                    ),
            decreases uses.len() - i,
        {
            calls.push(
                (
                    String::from_str(uses[i].id),
                    String::from_str(uses[i].name),
                    String::from_str(uses[i].args),
                ),
            );
            i = i + 1;
        }
        proof {
            assert(calls.deep_view() =~= uses@.map_values(
                |c: crate::response::ToolUseRef| (c.id@, c.name@, c.args@),
            ));
            assert(calls.deep_view() == tool_calls_of(r.message.content));
        }
        let n = calls.len();
        if n == 0 {
            let mut messages: Vec<Message> = Vec::new();
            std::mem::swap(&mut messages, &mut self.messages);
            self.phase = AgentPhase::Finished;
            self.calls = calls;
            self.response = None;
            proof {
                assert(self@ =~= response_transition(old(self)@, r).0);
                assert(messages.deep_view() =~= old(self)@.messages.push(r.message));
            }
            let steps = self.steps;
            let trace: Vec<TraceEvent> = Vec::new();
            assert(trace.deep_view() =~= Seq::<TraceEventView>::empty());
            let a = AgentAction::Finish {
                trace,
                outcome: AgentOutcome { response, messages, steps, stopped: StopCause::Final },
            };
            assert(a@ == response_transition(old(self)@, r).1);
            a
        } else {
            let name = calls[0].1.clone();
            let args = calls[0].2.clone();
            let mut trace: Vec<TraceEvent> = Vec::new();
            trace.push(
                TraceEvent::ToolSelected {
                    trace_id: self.trace_id,
                    id: calls[0].0.clone(),
                    name: calls[0].1.clone(),
                    args: calls[0].2.clone(),
                },
            );
            self.calls = calls;
            self.response = Some(response);
            proof {
                assert(self@.calls == tool_calls_of(r.message.content));
                assert(self@.response == Some(r));
                assert(self@.messages.len() >= 1);
                assert(self@.messages[self@.messages.len() - 1] == r.message);
                assert(self@.calls.len() == self.calls@.len());
            }
            self.phase = AgentPhase::AwaitingTool(0);
            proof {
                assert(self@ =~= response_transition(old(self)@, r).0);
                assert(trace.deep_view() =~= seq![
                    selected_event(self.trace_id, tool_calls_of(r.message.content)[0]),
                ]);
                assert(self.calls.deep_view()[0] == tool_calls_of(r.message.content)[0]);
                assert(name@ == tool_calls_of(r.message.content)[0].1);
                assert(args@ == tool_calls_of(r.message.content)[0].2);
            }
            let a = AgentAction::RunTool { trace, name, args };
            assert(a@ == response_transition(old(self)@, r).1);
            a
        }
    }

    /// The tool that was last asked for finished with `output`; `ok` is whether
    /// it succeeded (a failed tool's `output` is its error message).
    pub fn on_tool_result(&mut self, output: &str, ok: bool) -> (a: AgentAction)
        requires
            old(self)@.phase is AwaitingTool,
        ensures
            (final(self)@, a@) == tool_transition(
                old(self)@,
                old(self)@.phase->AwaitingTool_0 as int,
                output@,
                ok,
            ),
            run_wf(old(self)@),
            run_wf(final(self)@),
    {
        proof {
            use_type_invariant(&*self);
        }
        let ghost s = self@;
        let p = match self.phase {
            AgentPhase::AwaitingTool(p) => p,
            _ => 0,
        };
        assert(p < self.calls.len()) by {
            assert(self.calls.deep_view().len() == self.calls@.len());
        }
        let ghost call = s.calls[p as int];
        let executed = TraceEvent::ToolExecuted {
            trace_id: self.trace_id,
            id: self.calls[p].0.clone(),
            name: self.calls[p].1.clone(),
            ok,
            output_len: output.len(),
        };
        assert(executed@ == executed_event(s.trace_id, call, output@, ok));
        let answer_message = Message::tool_result(self.calls[p].0.as_str(), output, !ok);
        self.phase = AgentPhase::Finished;
        let mut grown: Vec<Message> = Vec::new();
        std::mem::swap(&mut grown, &mut self.messages);
        grown.push(answer_message);
        self.messages = grown;
        let ghost messages = s.messages.push(answer(call, output@, ok));
        assert(self@.messages =~= messages);
        if p + 1 < self.calls.len() {
            let q = p + 1;
            let mut trace: Vec<TraceEvent> = Vec::new();
            trace.push(executed);
            trace.push(
                TraceEvent::ToolSelected {
                    trace_id: self.trace_id,
                    id: self.calls[q].0.clone(),
                    name: self.calls[q].1.clone(),
                    args: self.calls[q].2.clone(),
                },
            );
            let name = self.calls[q].1.clone();
            let args = self.calls[q].2.clone();
            self.phase = AgentPhase::AwaitingTool(q);
            proof {
                assert(trace.deep_view() =~= seq![
                    executed_event(s.trace_id, call, output@, ok),
                    selected_event(s.trace_id, s.calls[q as int]),
                ]);
                assert(self@ =~= tool_transition(s, p as int, output@, ok).0);
                let t = self@;
                let r = t.response->0;
                assert forall|j: int| 0 <= j < q implies answers(
                    #[trigger] t.messages[t.messages.len() - q + j],
                    t.calls[j],
                ) by {
                    if j < p {
                        assert(t.messages[t.messages.len() - q + j] == s.messages[s.messages.len()
                            - p + j]);
                    } else {
                        assert(t.messages[t.messages.len() - q + j] == answer(call, output@, ok));
                    }
                }
                assert(t.messages[t.messages.len() - q - 1] == s.messages[s.messages.len() - p - 1]);
            }
            AgentAction::RunTool { trace, name, args }
        } else if self.steps >= self.config.max_steps {
            let mut trace: Vec<TraceEvent> = Vec::new();
            trace.push(executed);
            let mut messages: Vec<Message> = Vec::new();
            std::mem::swap(&mut messages, &mut self.messages);
            let mut slot: Option<ChatResponse> = None;
            std::mem::swap(&mut slot, &mut self.response);
            self.phase = AgentPhase::Finished;
            proof {
                assert(trace.deep_view() =~= seq![executed_event(s.trace_id, call, output@, ok)]);
                assert(self@ =~= tool_transition(s, p as int, output@, ok).0);
            }
            let response = slot.unwrap();
            let steps = self.steps;
            AgentAction::Finish {
                trace,
                outcome: AgentOutcome { response, messages, steps, stopped: StopCause::MaxSteps },
            }
        } else {
            self.steps = self.steps + 1;
            self.calls = Vec::new();
            self.response = None;
            proof {
                assert(self@.calls =~= Seq::<ToolCallView>::empty());
            }
            let a = self.call_model();
            match a {
                AgentAction::CallModel { trace, request } => {
                    let mut all: Vec<TraceEvent> = Vec::new();
                    all.push(executed);
                    let mut rest = trace;
                    let ghost tail = rest.deep_view();
                    all.append(&mut rest);
                    proof {
                        assert(all.deep_view() =~= seq![
                            executed_event(s.trace_id, call, output@, ok),
                        ] + tail);
                    }
                    AgentAction::CallModel { trace: all, request }
                },
                AgentAction::Fail { trace, error } => {
                    let mut all: Vec<TraceEvent> = Vec::new();
                    all.push(executed);
                    let mut rest = trace;
                    let ghost tail = rest.deep_view();
                    all.append(&mut rest);
                    proof {
                        assert(all.deep_view() =~= seq![
                            executed_event(s.trace_id, call, output@, ok),
                        ] + tail);
                    }
                    AgentAction::Fail { trace: all, error }
                },
                other => other,
            }
        }
    }
}


/// A run answers without tools exactly when the model asked for none: the
/// response transition finishes (as `Final`, with the model's message appended
/// to the transcript and the step count so far) if and only if the response
/// holds no tool call; otherwise it runs the first call.
pub proof fn law_final_iff_no_tool_calls(s: AgentRunView, r: ChatResponseView)
    requires
        run_wf(s),
        s.phase == AgentPhase::AwaitingModel,
    ensures
        (response_transition(s, r).1 is Finish) == (tool_calls_of(r.message.content).len() == 0),
        response_transition(s, r).1 matches AgentActionView::Finish { outcome, .. } ==> {
            &&& outcome.stopped == StopCause::Final
            &&& outcome.response == r
            &&& outcome.messages == s.messages.push(r.message)
            &&& outcome.steps == s.steps
        },
        response_transition(s, r).1 matches AgentActionView::RunTool { name, args, .. } ==> {
            &&& name == tool_calls_of(r.message.content)[0].1
            &&& args == tool_calls_of(r.message.content)[0].2
        },
{
}

/// The step cap holds: a run never calls the model more than `max_steps`
/// times, and a run that stops for the cap has made exactly `max_steps` calls.
pub proof fn law_step_cap(s: AgentRunView, output: Seq<char>, ok: bool)
    requires
        run_wf(s),
        s.phase is AwaitingTool,
    ensures
        run_wf(tool_transition(s, s.phase->AwaitingTool_0 as int, output, ok).0),
        tool_transition(s, s.phase->AwaitingTool_0 as int, output, ok).1 matches
            AgentActionView::Finish { outcome, .. } ==> outcome.stopped == StopCause::MaxSteps
            && outcome.steps == s.config.max_steps,
        tool_transition(s, s.phase->AwaitingTool_0 as int, output, ok).1 is CallModel
            ==> tool_transition(s, s.phase->AwaitingTool_0 as int, output, ok).0.steps == s.steps
            + 1 <= s.config.max_steps,
{
    let p = s.phase->AwaitingTool_0 as int;
    let (t, a) = tool_transition(s, p, output, ok);
    let r = s.response->0;
    let msgs = s.messages.push(answer(s.calls[p], output, ok));
    if p + 1 < s.calls.len() {
        let q = p + 1;
        assert forall|j: int| 0 <= j < q implies answers(
            #[trigger] t.messages[t.messages.len() - q + j],
            t.calls[j],
        ) by {
            if j < p {
                assert(t.messages[t.messages.len() - q + j] == s.messages[s.messages.len() - p + j]);
            }
        }
        assert(t.messages[t.messages.len() - q - 1] == s.messages[s.messages.len() - p - 1]);
    }
}

/// Every tool call of a response is answered exactly once, in call order: when
/// the last call's result comes in, the transcript ends with the model's
/// message followed by one tool result per call, each answering that call, and
/// the failed ones marked as errors.
pub proof fn law_tool_calls_answered_in_order(s: AgentRunView, output: Seq<char>, ok: bool)
    requires
        run_wf(s),
        s.phase is AwaitingTool,
        s.phase->AwaitingTool_0 + 1 == s.calls.len(),
    ensures
        ({
            let n = s.calls.len() as int;
            let msgs = s.messages.push(answer(s.calls[n - 1], output, ok));
            &&& msgs.len() >= n + 1
            &&& msgs[msgs.len() - n - 1] == (s.response->0).message
            &&& forall|j: int| 0 <= j < n ==> answers(#[trigger] msgs[msgs.len() - n + j], s.calls[j])
            &&& msgs.last() == answer(s.calls[n - 1], output, ok)
            &&& (msgs.last().content[0] matches crate::message::ContentBlockView::ToolResult {
                is_error, ..
            } && is_error == !ok)
        }),
        ({
            let n = s.calls.len() as int;
            let msgs = s.messages.push(answer(s.calls[n - 1], output, ok));
            match tool_transition(s, n - 1, output, ok).1 {
                AgentActionView::Finish { outcome, .. } => outcome.messages == msgs,
                AgentActionView::CallModel { request, .. } => request.messages == msgs,
                _ => true,
            }
        }),
{
    let n = s.calls.len() as int;
    let p = n - 1;
    let msgs = s.messages.push(answer(s.calls[p], output, ok));
    assert forall|j: int| 0 <= j < n implies answers(#[trigger] msgs[msgs.len() - n + j], s.calls[j]) by {
        if j < p {
            assert(msgs[msgs.len() - n + j] == s.messages[s.messages.len() - p + j]);
        }
    }
    assert(msgs[msgs.len() - n - 1] == s.messages[s.messages.len() - p - 1]);
}

/// While a run is going, its transcript only grows: a transition that does not
/// finish or fail keeps every earlier message in place.
pub proof fn law_transcript_only_grows(s: AgentRunView, r: ChatResponseView, output: Seq<char>, ok: bool)
    requires
        run_wf(s),
    ensures
        s.phase == AgentPhase::AwaitingModel && !(response_transition(s, r).1 is Finish) ==> (
        response_transition(s, r).0.messages.subrange(0, s.messages.len() as int) == s.messages),
        s.phase is AwaitingTool && !(tool_transition(
            s,
            s.phase->AwaitingTool_0 as int,
            output,
            ok,
        ).1 is Finish) && !(tool_transition(s, s.phase->AwaitingTool_0 as int, output, ok).1 is Fail)
            ==> tool_transition(s, s.phase->AwaitingTool_0 as int, output, ok).0.messages.subrange(
            0,
            s.messages.len() as int,
        ) == s.messages,
{
    assert(s.messages.push(r.message).subrange(0, s.messages.len() as int) =~= s.messages);
    if s.phase is AwaitingTool {
        let p = s.phase->AwaitingTool_0 as int;
        assert(s.messages.push(answer(s.calls[p], output, ok)).subrange(0, s.messages.len() as int)
            =~= s.messages);
    }
}

/// A failing tool does not end the run: after a failed tool the run takes the
/// same course as after a successful one (the next tool, the step cap, or the
/// next model call); only the answer differs, marked as an error.
pub proof fn law_tool_failure_not_fatal(s: AgentRunView, output: Seq<char>)
    requires
        run_wf(s),
        s.phase is AwaitingTool,
    ensures
        ({
            let p = s.phase->AwaitingTool_0 as int;
            let (good, a) = tool_transition(s, p, output, true);
            let (bad, b) = tool_transition(s, p, output, false);
            &&& (b is RunTool) == (a is RunTool)
            &&& (b is Finish) == (a is Finish)
            &&& (b is CallModel) == (a is CallModel)
            &&& (b is Fail) == (a is Fail)
            &&& bad.steps == good.steps
            &&& bad.phase == good.phase
            &&& bad.messages.len() == good.messages.len()
        }),
{
    let p = s.phase->AwaitingTool_0 as int;
    let call = s.calls[p];
    let good = s.messages.push(answer(call, output, true));
    let bad = s.messages.push(answer(call, output, false));
    if !(p + 1 < s.calls.len()) && !(s.steps >= s.config.max_steps) {
        assert(bad.len() > 0);
        assert(good.len() > 0);
    }
}

// ---------------------------------------------------------------------------
// Whole runs
// ---------------------------------------------------------------------------

/// One round of a run as the caller drives it: the model's response, then the
/// result `(output, ok)` of each tool call it asked for, in order.
pub type RoundView = (ChatResponseView, Seq<(Seq<char>, bool)>);

/// The tool calls a response asks for.
pub open spec fn calls_of(r: ChatResponseView) -> Seq<ToolCallView> {
    tool_calls_of(r.message.content)
}

/// The answers to `calls`, one per result, in order.
pub open spec fn answers_of(calls: Seq<ToolCallView>, results: Seq<(Seq<char>, bool)>) -> Seq<
    MessageView,
> {
    Seq::new(results.len(), |i: int| answer(calls[i], results[i].0, results[i].1))
}

/// What one round appends to the transcript: the model's message, then the
/// answer to each of its tool calls.
pub open spec fn round_messages(round: RoundView) -> Seq<MessageView> {
    seq![round.0.message] + answers_of(calls_of(round.0), round.1)
}

/// The transcript after some rounds: the initial messages, then what each
/// round appended.
pub open spec fn transcript(initial: Seq<MessageView>, rounds: Seq<RoundView>) -> Seq<MessageView>
    decreases rounds.len(),
{
    if rounds.len() == 0 {
        initial
    } else {
        transcript(initial, rounds.drop_last()) + round_messages(rounds.last())
    }
}

/// Hands tool results to a run, in order, while it awaits a tool.
pub open spec fn feed_results(
    s: AgentRunView,
    a: AgentActionView,
    results: Seq<(Seq<char>, bool)>,
) -> (AgentRunView, AgentActionView)
    decreases results.len(),
{
    if results.len() == 0 {
        (s, a)
    } else {
        let (t, b) = feed_results(s, a, results.drop_last());
        match t.phase {
            AgentPhase::AwaitingTool(p) => tool_transition(
                t,
                p as int,
                results.last().0,
                results.last().1,
            ),
            _ => (t, b),
        }
    }
}

/// One round from a run awaiting the model: its response, then its tool
/// results.
pub open spec fn run_round(s: AgentRunView, round: RoundView) -> (AgentRunView, AgentActionView) {
    let (t, b) = response_transition(s, round.0);
    feed_results(t, b, round.1)
}

/// A run started on `initial` and driven through `rounds`, in order; rounds
/// after the run has stopped change nothing.
pub open spec fn run_rounds(
    config: AgentConfigView,
    tool_defs: Seq<ToolDefView>,
    trace_id: TraceId,
    initial: Seq<MessageView>,
    rounds: Seq<RoundView>,
) -> (AgentRunView, AgentActionView)
    decreases rounds.len(),
{
    if rounds.len() == 0 {
        start_transition(config, tool_defs, trace_id, initial)
    } else {
        let (s, a) = run_rounds(config, tool_defs, trace_id, initial, rounds.drop_last());
        if s.phase == AgentPhase::AwaitingModel {
            run_round(s, rounds.last())
        } else {
            (s, a)
        }
    }
}

/// A run awaiting the model with `steps` calls made and `messages` so far.
pub open spec fn awaiting_model(
    s: AgentRunView,
    config: AgentConfigView,
    tool_defs: Seq<ToolDefView>,
    trace_id: TraceId,
    messages: Seq<MessageView>,
    steps: int,
) -> bool {
    &&& s.config == config
    &&& s.tool_defs == tool_defs
    &&& s.trace_id == trace_id
    &&& s.messages == messages
    &&& s.steps == steps
    &&& s.phase == AgentPhase::AwaitingModel
}

/// Feeding the results of a response's tool calls: before the last result the
/// run awaits the next call in order, with the answers so far appended, and
/// asks for exactly that call.
pub proof fn law_tools_run_once_in_order(s: AgentRunView, r: ChatResponseView, results: Seq<(Seq<char>, bool)>, j: int)
    requires
        s.phase == AgentPhase::AwaitingModel,
        calls_of(r).len() > 0,
        calls_of(r).len() <= usize::MAX,
        results.len() == calls_of(r).len(),
        0 <= j < results.len(),
    ensures
        ({
            let (t, b) = response_transition(s, r);
            let (u, c) = feed_results(t, b, results.take(j));
            &&& u == AgentRunView {
                messages: s.messages.push(r.message) + answers_of(calls_of(r), results.take(j)),
                phase: AgentPhase::AwaitingTool(j as usize),
                calls: calls_of(r),
                response: Some(r),
                ..s
            }
            &&& c matches AgentActionView::RunTool { name, args, .. } && name == calls_of(r)[j].1
                && args == calls_of(r)[j].2
        }),
    decreases j,
{
    let (t, b) = response_transition(s, r);
    let cs = calls_of(r);
    if j == 0 {
        assert(results.take(0) =~= Seq::<(Seq<char>, bool)>::empty());
        assert(answers_of(cs, results.take(0)) =~= Seq::<MessageView>::empty());
        assert(s.messages.push(r.message) + answers_of(cs, results.take(0)) =~= s.messages.push(
            r.message,
        ));
    } else {
        law_tools_run_once_in_order(s, r, results, j - 1);
        assert(results.take(j).drop_last() =~= results.take(j - 1));
        assert(results.take(j).last() == results[j - 1]);
        let (u0, c0) = feed_results(t, b, results.take(j - 1));
        assert(u0.phase == AgentPhase::AwaitingTool((j - 1) as usize));
        assert(((j - 1) as usize) as int == j - 1);
        assert(answers_of(cs, results.take(j - 1)).push(
            answer(cs[j - 1], results[j - 1].0, results[j - 1].1),
        ) =~= answers_of(cs, results.take(j)));
    }
}

/// One round from a run awaiting the model at step `steps` (within the cap):
/// a response without tool calls finishes the run as `Final`; otherwise, once
/// every call is answered, the run stops at the cap or calls the model again
/// with the round's messages appended.
pub proof fn lemma_run_round(s: AgentRunView, round: RoundView)
    requires
        s.phase == AgentPhase::AwaitingModel,
        1 <= s.steps <= s.config.max_steps,
        round.1.len() == calls_of(round.0).len(),
        calls_of(round.0).len() <= usize::MAX,
    ensures
        ({
            let (t, b) = run_round(s, round);
            let msgs = s.messages + round_messages(round);
            if calls_of(round.0).len() == 0 {
                &&& t.phase == AgentPhase::Finished
                &&& b == AgentActionView::Finish {
                    trace: Seq::empty(),
                    outcome: AgentOutcomeView {
                        response: round.0,
                        messages: msgs,
                        steps: s.steps,
                        stopped: StopCause::Final,
                    },
                }
            } else if s.steps >= s.config.max_steps {
                &&& t.phase == AgentPhase::Finished
                &&& b matches AgentActionView::Finish { outcome, .. } && outcome == AgentOutcomeView {
                    response: round.0,
                    messages: msgs,
                    steps: s.steps,
                    stopped: StopCause::MaxSteps,
                }
            } else {
                &&& t == call_model(
                    AgentRunView {
                        messages: msgs,
                        steps: (s.steps + 1) as u32,
                        calls: Seq::empty(),
                        response: None,
                        ..s
                    },
                ).0
                &&& t.phase == AgentPhase::AwaitingModel ==> (b matches AgentActionView::CallModel {
                    request,
                    ..
                } && request == agent_request(s.config, msgs, s.tool_defs))
                &&& t.phase != AgentPhase::AwaitingModel ==> b is Fail
            }
        }),
{
    let r = round.0;
    let results = round.1;
    let cs = calls_of(r);
    let (t, b) = response_transition(s, r);
    if cs.len() == 0 {
        assert(results =~= Seq::<(Seq<char>, bool)>::empty());
        assert(answers_of(cs, results) =~= Seq::<MessageView>::empty());
        assert(s.messages + round_messages(round) =~= s.messages.push(r.message));
        assert(run_round(s, round) == response_transition(s, r));
        assert(response_transition(s, r).0.phase == AgentPhase::Finished);
        assert(response_transition(s, r).1 == AgentActionView::Finish {
            trace: Seq::empty(),
            outcome: AgentOutcomeView {
                response: round.0,
                messages: s.messages + round_messages(round),
                steps: s.steps,
                stopped: StopCause::Final,
            },
        });
    } else {
        let n = results.len() as int;
        law_tools_run_once_in_order(s, r, results, n - 1);
        assert(results.take(n) =~= results);
        assert(results.take(n).drop_last() =~= results.take(n - 1));
        let (u, c) = feed_results(t, b, results.take(n - 1));
        assert(u.phase == AgentPhase::AwaitingTool((n - 1) as usize));
        assert(((n - 1) as usize) as int == n - 1);
        assert(answers_of(cs, results.take(n - 1)).push(
            answer(cs[n - 1], results[n - 1].0, results[n - 1].1),
        ) =~= answers_of(cs, results));
        assert(s.messages.push(r.message) + answers_of(cs, results) =~= s.messages
            + round_messages(round));
        assert(results.drop_last() =~= results.take(n - 1));
        assert(results.last() == results[n - 1]);
        let last = tool_transition(u, n - 1, results[n - 1].0, results[n - 1].1);
        assert(run_round(s, round) == last);
        let msgs = s.messages + round_messages(round);
        assert(u.messages.push(answer(cs[n - 1], results[n - 1].0, results[n - 1].1)) == msgs);
        if s.steps >= s.config.max_steps {
            assert(last.0.phase == AgentPhase::Finished);
            assert(last.1 matches AgentActionView::Finish { outcome, .. } && outcome
                == AgentOutcomeView {
                response: round.0,
                messages: msgs,
                steps: s.steps,
                stopped: StopCause::MaxSteps,
            });
        }
        if s.steps < s.config.max_steps {
            let x1 = AgentRunView {
                messages: msgs,
                steps: (s.steps + 1) as u32,
                calls: Seq::empty(),
                response: None,
                ..u
            };
            let x2 = AgentRunView {
                messages: msgs,
                steps: (s.steps + 1) as u32,
                calls: Seq::empty(),
                response: None,
                ..s
            };
            assert(call_model(x1) == call_model(x2));
            assert(last.0 == call_model(x1).0);
        }
    }
}

/// The state before each round of a run whose every round so far was fully
/// answered and found the run awaiting the model.
proof fn lemma_before_round(
    config: AgentConfigView,
    tool_defs: Seq<ToolDefView>,
    trace_id: TraceId,
    initial: Seq<MessageView>,
    rounds: Seq<RoundView>,
    j: int,
)
    requires
        config.max_steps >= 1,
        forall|i: int|
            0 <= i < rounds.len() ==> (#[trigger] rounds[i]).1.len() == calls_of(rounds[i].0).len()
                && calls_of(rounds[i].0).len() <= usize::MAX,
        forall|i: int|
            0 <= i < rounds.len() ==> (#[trigger] run_rounds(
                config,
                tool_defs,
                trace_id,
                initial,
                rounds.take(i),
            )).0.phase == AgentPhase::AwaitingModel,
        0 <= j < rounds.len(),
    ensures
        awaiting_model(
            run_rounds(config, tool_defs, trace_id, initial, rounds.take(j)).0,
            config,
            tool_defs,
            trace_id,
            transcript(initial, rounds.take(j)),
            j + 1,
        ),
        j + 1 <= config.max_steps,
        forall|i: int| 0 <= i < j ==> calls_of((#[trigger] rounds[i]).0).len() > 0,
    decreases j,
{
    let here = run_rounds(config, tool_defs, trace_id, initial, rounds.take(j));
    assert(here.0.phase == AgentPhase::AwaitingModel);
    if j == 0 {
        assert(rounds.take(0) =~= Seq::<RoundView>::empty());
    } else {
        lemma_before_round(config, tool_defs, trace_id, initial, rounds, j - 1);
        let prev = run_rounds(config, tool_defs, trace_id, initial, rounds.take(j - 1));
        assert(rounds.take(j).drop_last() =~= rounds.take(j - 1));
        assert(rounds.take(j).last() == rounds[j - 1]);
        assert(transcript(initial, rounds.take(j)) == transcript(initial, rounds.take(j - 1))
            + round_messages(rounds[j - 1]));
        let round = rounds[j - 1];
        lemma_run_round(prev.0, round);
        assert(here == run_round(prev.0, round));
        assert(calls_of(round.0).len() > 0);
        assert(prev.0.steps < config.max_steps);
        assert forall|i: int| 0 <= i < j implies calls_of((#[trigger] rounds[i]).0).len() > 0 by {
            if i < j - 1 {
            } else {
                assert(rounds[i] == round);
            }
        }
    }
}

/// A whole run, driven round by round with every tool call answered, as long
/// as each round found the run awaiting the model: it makes at most
/// `max_steps` model calls; every response before the last asked for tools;
/// when it finishes, it has made one call per round, ends with the last
/// response, stops as `Final` exactly when that response asked for no tool
/// (otherwise at the cap), and its transcript is the initial messages followed
/// by each response and the answers to its tool calls; and while it goes on,
/// every request carries the model id, the transcript so far, the same tool
/// declarations, the system prompt and output cap of the configuration, and
/// nothing else.
pub proof fn law_whole_run(
    config: AgentConfigView,
    tool_defs: Seq<ToolDefView>,
    trace_id: TraceId,
    initial: Seq<MessageView>,
    rounds: Seq<RoundView>,
)
    requires
        config.max_steps >= 1,
        forall|i: int|
            0 <= i < rounds.len() ==> (#[trigger] rounds[i]).1.len() == calls_of(rounds[i].0).len()
                && calls_of(rounds[i].0).len() <= usize::MAX,
        forall|i: int|
            0 <= i < rounds.len() ==> (#[trigger] run_rounds(
                config,
                tool_defs,
                trace_id,
                initial,
                rounds.take(i),
            )).0.phase == AgentPhase::AwaitingModel,
    ensures
        rounds.len() <= config.max_steps,
        forall|i: int| 0 <= i < rounds.len() - 1 ==> calls_of((#[trigger] rounds[i]).0).len() > 0,
        run_rounds(config, tool_defs, trace_id, initial, rounds).1 matches AgentActionView::Finish {
            outcome,
            ..
        } ==> {
            &&& rounds.len() >= 1
            &&& outcome.steps == rounds.len()
            &&& outcome.response == rounds.last().0
            &&& outcome.messages == transcript(initial, rounds)
            &&& (outcome.stopped == StopCause::Final) == (calls_of(rounds.last().0).len() == 0)
            &&& outcome.stopped == StopCause::MaxSteps ==> outcome.steps == config.max_steps
        },
        run_rounds(config, tool_defs, trace_id, initial, rounds).1 matches AgentActionView::CallModel {
            request,
            ..
        } ==> {
            &&& request == agent_request(config, transcript(initial, rounds), tool_defs)
            &&& run_rounds(config, tool_defs, trace_id, initial, rounds).0.steps == rounds.len() + 1
        },
{
    let k = rounds.len() as int;
    let fin = run_rounds(config, tool_defs, trace_id, initial, rounds);
    if k == 0 {
        let s0 = AgentRunView {
            config,
            tool_defs,
            trace_id,
            messages: initial,
            steps: 1,
            phase: AgentPhase::AwaitingModel,
            calls: Seq::empty(),
            response: None,
        };
        assert(fin == call_model(s0));
    } else {
        lemma_before_round(config, tool_defs, trace_id, initial, rounds, k - 1);
        let prev = run_rounds(config, tool_defs, trace_id, initial, rounds.take(k - 1));
        assert(rounds.take(k) =~= rounds);
        assert(rounds.drop_last() =~= rounds.take(k - 1));
        let round = rounds[k - 1];
        assert(rounds.last() == round);
        lemma_run_round(prev.0, round);
        assert(fin == run_round(prev.0, round));
        assert(transcript(initial, rounds) == transcript(initial, rounds.take(k - 1))
            + round_messages(round));
    }
}

} // verus!
