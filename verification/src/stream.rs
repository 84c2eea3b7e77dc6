//! Streaming primitives: the normalized [`StreamEvent`] vocabulary and the
//! [`ResponseAccumulator`] that folds a stream of events into a
//! [`ChatResponse`]. A complete response is exactly the fold of its stream.

use vstd::prelude::*;
use vstd::string::*;

use crate::json::{args_text, normalize_args};
use crate::message::{
    clone_opt_string, text_of, ContentBlock, ContentBlockView, Message, MessageView, Role,
};
use crate::response::{
    tool_calls_of, zero_usage, ChatResponse, ChatResponseView, StopReason, StopReasonView,
    ToolCallView, Usage,
};

verus! {

broadcast use vstd::string::group_string_axioms;

/// A normalized streaming event.
#[derive(Debug, PartialEq)]
pub enum StreamEvent {
    /// The response message has begun.
    MessageStart,
    /// A chunk of assistant text.
    TextDelta(String),
    /// A chunk of thinking/reasoning text.
    ThinkingDelta(String),
    /// A tool call begins at `index` with its id and name.
    ToolCallStart {
        /// Position of this call in the response.
        index: usize,
        /// Provider-assigned call id.
        id: String,
        /// Tool name.
        name: String,
    },
    /// A chunk of the JSON arguments for the tool call at `index`.
    ToolCallArgsDelta {
        /// Position of the call these args belong to.
        index: usize,
        /// Raw JSON fragment to append.
        delta: String,
    },
    /// Token usage (may arrive mid- or end-of-stream).
    Usage(Usage),
    /// The model's stop reason.
    Stop(StopReason),
    /// The response message has ended.
    MessageStop,
}

/// The mathematical model of a [`StreamEvent`].
pub enum StreamEventView {
    MessageStart,
    TextDelta(Seq<char>),
    ThinkingDelta(Seq<char>),
    ToolCallStart { index: usize, id: Seq<char>, name: Seq<char> },
    ToolCallArgsDelta { index: usize, delta: Seq<char> },
    Usage(Usage),
    Stop(StopReasonView),
    MessageStop,
}

impl View for StreamEvent {
    type V = StreamEventView;

    open spec fn view(&self) -> StreamEventView {
        match self {
            StreamEvent::MessageStart => StreamEventView::MessageStart,
            StreamEvent::TextDelta(s) => StreamEventView::TextDelta(s@),
            StreamEvent::ThinkingDelta(s) => StreamEventView::ThinkingDelta(s@),
            StreamEvent::ToolCallStart { index, id, name } => StreamEventView::ToolCallStart {
                index: *index,
                id: id@,
                name: name@,
            },
            StreamEvent::ToolCallArgsDelta { index, delta } => StreamEventView::ToolCallArgsDelta {
                index: *index,
                delta: delta@,
            },
            StreamEvent::Usage(u) => StreamEventView::Usage(*u),
            StreamEvent::Stop(r) => StreamEventView::Stop(r@),
            StreamEvent::MessageStop => StreamEventView::MessageStop,
        }
    }
}

impl DeepView for StreamEvent {
    type V = StreamEventView;

    open spec fn deep_view(&self) -> StreamEventView {
        self@
    }
}

impl Clone for StreamEvent {
    fn clone(&self) -> (res: Self)
        ensures
            res@ == self@,
    {
        match self {
            StreamEvent::MessageStart => StreamEvent::MessageStart,
            StreamEvent::TextDelta(s) => StreamEvent::TextDelta(s.clone()),
            StreamEvent::ThinkingDelta(s) => StreamEvent::ThinkingDelta(s.clone()),
            StreamEvent::ToolCallStart { index, id, name } => StreamEvent::ToolCallStart {
                index: *index,
                id: id.clone(),
                name: name.clone(),
            },
            StreamEvent::ToolCallArgsDelta { index, delta } => StreamEvent::ToolCallArgsDelta {
                index: *index,
                delta: delta.clone(),
            },
            StreamEvent::Usage(u) => StreamEvent::Usage(*u),
            StreamEvent::Stop(r) => StreamEvent::Stop(r.clone()),
            StreamEvent::MessageStop => StreamEvent::MessageStop,
        }
    }
}

/// A tool call being assembled from streamed fragments.
#[derive(Debug)]
pub struct PartialTool {
    index: usize,
    id: String,
    name: String,
    args: String,
}

/// The mathematical model of a [`PartialTool`].
pub struct PartialToolView {
    pub index: usize,
    pub id: Seq<char>,
    pub name: Seq<char>,
    pub args: Seq<char>,
}

impl View for PartialTool {
    type V = PartialToolView;

    closed spec fn view(&self) -> PartialToolView {
        PartialToolView { index: self.index, id: self.id@, name: self.name@, args: self.args@ }
    }
}

impl DeepView for PartialTool {
    type V = PartialToolView;

    open spec fn deep_view(&self) -> PartialToolView {
        self@
    }
}

/// The state of an accumulation.
#[verifier::ext_equal]
pub struct AccumulatorView {
    pub thinking: Seq<char>,
    pub thinking_signature: Option<Seq<char>>,
    pub text: Seq<char>,
    pub tools: Seq<PartialToolView>,
    pub usage: Usage,
    pub stop_reason: Option<StopReasonView>,
}

/// The state before any event.
pub open spec fn initial_accumulator() -> AccumulatorView {
    AccumulatorView {
        thinking: Seq::empty(),
        thinking_signature: None,
        text: Seq::empty(),
        tools: Seq::empty(),
        usage: zero_usage(),
        stop_reason: None,
    }
}

/// The position of the first partial tool call at stream position `index`.
pub open spec fn find_tool(tools: Seq<PartialToolView>, index: usize) -> Option<int>
    decreases tools.len(),
{
    if tools.len() == 0 {
        None
    } else {
        match find_tool(tools.drop_last(), index) {
            Some(i) => Some(i),
            None => if tools.last().index == index {
                Some(tools.len() - 1)
            } else {
                None
            },
        }
    }
}

/// How one event changes the accumulation.
pub open spec fn accumulate(a: AccumulatorView, e: StreamEventView) -> AccumulatorView {
    match e {
        StreamEventView::TextDelta(s) => AccumulatorView { text: a.text + s, ..a },
        StreamEventView::ThinkingDelta(s) => AccumulatorView { thinking: a.thinking + s, ..a },
        StreamEventView::ToolCallStart { index, id, name } => AccumulatorView {
            tools: a.tools.push(PartialToolView { index, id, name, args: Seq::empty() }),
            ..a
        },
        StreamEventView::ToolCallArgsDelta { index, delta } => match find_tool(a.tools, index) {
            Some(p) => AccumulatorView {
                tools: a.tools.update(
                    p,
                    PartialToolView { args: a.tools[p].args + delta, ..a.tools[p] },
                ),
                ..a
            },
            None => a,
        },
        StreamEventView::Usage(u) => AccumulatorView { usage: u, ..a },
        StreamEventView::Stop(r) => AccumulatorView { stop_reason: Some(r), ..a },
        StreamEventView::MessageStart => a,
        StreamEventView::MessageStop => a,
    }
}

/// The accumulation of a whole sequence of events, in order.
pub open spec fn accumulate_all(events: Seq<StreamEventView>) -> AccumulatorView
    decreases events.len(),
{
    if events.len() == 0 {
        initial_accumulator()
    } else {
        accumulate(accumulate_all(events.drop_last()), events.last())
    }
}

/// The tool-use block an assembled call becomes.
pub open spec fn finished_tool(t: PartialToolView) -> ContentBlockView {
    ContentBlockView::ToolUse { id: t.id, name: t.name, args: args_text(t.args) }
}

/// The content of the finished message: a thinking block (when there was
/// thinking), a text block (when there was text), then every tool call in the
/// order it started.
pub open spec fn finished_content(a: AccumulatorView) -> Seq<ContentBlockView> {
    let thinking = if a.thinking.len() > 0 {
        seq![ContentBlockView::Thinking { text: a.thinking, signature: a.thinking_signature }]
    } else {
        Seq::empty()
    };
    let text = if a.text.len() > 0 {
        seq![ContentBlockView::Text { text: a.text }]
    } else {
        Seq::empty()
    };
    thinking + text + a.tools.map_values(|t: PartialToolView| finished_tool(t))
}

/// The response an accumulation finishes as.
pub open spec fn finished_response(a: AccumulatorView) -> ChatResponseView {
    ChatResponseView {
        message: MessageView { role: Role::Assistant, content: finished_content(a) },
        usage: a.usage,
        stop_reason: a.stop_reason,
        model: None,
        raw: "null"@,
    }
}

/// Folds streamed events into a [`ChatResponse`].
#[derive(Debug)]
pub struct ResponseAccumulator {
    thinking: String,
    thinking_signature: Option<String>,
    text: String,
    tools: Vec<PartialTool>,
    usage: Usage,
    stop_reason: Option<StopReason>,
}

impl View for ResponseAccumulator {
    type V = AccumulatorView;

    closed spec fn view(&self) -> AccumulatorView {
        AccumulatorView {
            thinking: self.thinking@,
            thinking_signature: self.thinking_signature.deep_view(),
            text: self.text@,
            tools: self.tools.deep_view(),
            usage: self.usage,
            stop_reason: self.stop_reason.deep_view(),
        }
    }
}

impl ResponseAccumulator {
    /// An accumulator that has seen no event.
    pub fn new() -> (a: ResponseAccumulator)
        ensures
            a@ == initial_accumulator(),
    {
        let a = ResponseAccumulator {
            thinking: String::new(),
            thinking_signature: None,
            text: String::new(),
            tools: Vec::new(),
            usage: Usage::default(),
            stop_reason: None,
        };
        assert(a@ =~= initial_accumulator());
        a
    }

    /// The position of the first partial call at stream position `index`.
    fn find(&self, index: usize) -> (p: Option<usize>)
        ensures
            p matches Some(i) ==> find_tool(self@.tools, index) == Some(i as int) && i
                < self@.tools.len(),
            p is None ==> find_tool(self@.tools, index) is None,
    {
        let mut i: usize = 0;
        while i < self.tools.len()
            invariant
                i <= self.tools.len(),
                find_tool(self@.tools.take(i as int), index) is None,
            decreases self.tools.len() - i,
        {
            proof {
                assert(self@.tools.take(i + 1).drop_last() =~= self@.tools.take(i as int));
            }
            if self.tools[i].index == index {
                proof {
                    lemma_find_tool_prefix(self@.tools, i as int + 1, index);
                }
                return Some(i);
            }
            i = i + 1;
        }
        proof {
            assert(self@.tools.take(self.tools.len() as int) =~= self@.tools);
        }
        None
    }

    /// Folds one event in.
    pub fn push(&mut self, event: StreamEvent)
        ensures
            final(self)@ == accumulate(old(self)@, event@),
    {
        let ghost a = self@;
        let ghost e = event@;
        match event {
            StreamEvent::TextDelta(s) => {
                self.text.append(s.as_str());
            },
            StreamEvent::ThinkingDelta(s) => {
                self.thinking.append(s.as_str());
            },
            StreamEvent::ToolCallStart { index, id, name } => {
                self.tools.push(PartialTool { index, id, name, args: String::new() });
                assert(self@.tools =~= a.tools.push(
                    PartialToolView { index, id: id@, name: name@, args: Seq::empty() },
                ));
            },
            StreamEvent::ToolCallArgsDelta { index, delta } => {
                match self.find(index) {
                    Some(p) => {
                        let mut t = PartialTool {
                            index: self.tools[p].index,
                            id: self.tools[p].id.clone(),
                            name: self.tools[p].name.clone(),
                            args: self.tools[p].args.clone(),
                        };
                        t.args.append(delta.as_str());
                        self.tools.set(p, t);
                        assert(self@.tools =~= a.tools.update(
                            p as int,
                            PartialToolView { args: a.tools[p as int].args + delta@, ..a.tools[p as int] },
                        ));
                    },
                    None => {},
                }
            },
            StreamEvent::Usage(u) => {
                self.usage = u;
            },
            StreamEvent::Stop(r) => {
                self.stop_reason = Some(r);
            },
            StreamEvent::MessageStart => {},
            StreamEvent::MessageStop => {},
        }
        assert(self@ =~= accumulate(a, e));
    }

    /// The completed response.
    pub fn finish(self) -> (r: ChatResponse)
        ensures
            r@ == finished_response(self@),
    {
        let ghost a = self@;
        let mut content: Vec<ContentBlock> = Vec::new();
        let ghost mut lead: Seq<ContentBlockView> = Seq::empty();
        if self.thinking.unicode_len() > 0 {
            content.push(
                ContentBlock::Thinking { text: self.thinking, signature: self.thinking_signature },
            );
            proof {
                lead = seq![
                    ContentBlockView::Thinking { text: a.thinking, signature: a.thinking_signature },
                ];
            }
        }
        if self.text.unicode_len() > 0 {
            content.push(ContentBlock::Text { text: self.text });
            proof {
                lead = lead + seq![ContentBlockView::Text { text: a.text }];
            }
        }
        proof {
            assert(content.deep_view() =~= lead);
        }
        let tools = self.tools;
        let mut i: usize = 0;
        while i < tools.len()
            invariant
                i <= tools.len(),
                tools.deep_view() == a.tools,
                content.deep_view() == lead + a.tools.take(i as int).map_values(
                    |t: PartialToolView| finished_tool(t),
                ),
            decreases tools.len() - i,
        {
            let ghost before = content.deep_view();
            let args = normalize_args(tools[i].args.as_str());
            content.push(
                ContentBlock::ToolUse { id: tools[i].id.clone(), name: tools[i].name.clone(), args },
            );
            proof {
                assert(a.tools[i as int] == tools@[i as int]@);
                assert(content.deep_view() =~= before.push(finished_tool(a.tools[i as int])));
                assert(a.tools.take(i + 1).map_values(|t: PartialToolView| finished_tool(t))
                    =~= a.tools.take(i as int).map_values(|t: PartialToolView| finished_tool(t)).push(
                    finished_tool(a.tools[i as int]),
                ));
            }
            i = i + 1;
        }
        proof {
            assert(a.tools.take(tools.len() as int) =~= a.tools);
            assert(content.deep_view() =~= finished_content(a));
        }
        ChatResponse {
            message: Message { role: Role::Assistant, content },
            usage: self.usage,
            stop_reason: self.stop_reason,
            model: None,
            raw: String::from_str("null"),
        }
    }
}

/// Extending a prefix of `tools` keeps the first match found in that prefix;
/// the first match at position `n - 1` of a prefix with no earlier match is
/// also the first match of the whole.
pub proof fn lemma_find_tool_prefix(tools: Seq<PartialToolView>, n: int, index: usize)
    requires
        0 < n <= tools.len(),
        find_tool(tools.take(n - 1), index) is None,
        tools[n - 1].index == index,
    ensures
        find_tool(tools, index) == Some(n - 1),
    decreases tools.len(),
{
    assert(tools.take(n).drop_last() =~= tools.take(n - 1));
    assert(find_tool(tools.take(n), index) == Some(n - 1));
    lemma_find_tool_extend(tools, n, index);
}

/// A match found in a prefix is the match of the whole sequence.
pub proof fn lemma_find_tool_extend(tools: Seq<PartialToolView>, n: int, index: usize)
    requires
        0 <= n <= tools.len(),
        find_tool(tools.take(n), index) is Some,
    ensures
        find_tool(tools, index) == find_tool(tools.take(n), index),
    decreases tools.len() - n,
{
    if n < tools.len() {
        assert(tools.take(n + 1).drop_last() =~= tools.take(n));
        lemma_find_tool_extend(tools, n + 1, index);
    } else {
        assert(tools.take(n) =~= tools);
    }
}

/// Folds a whole list of events into a response.
pub fn collect_events(events: Vec<StreamEvent>) -> (r: ChatResponse)
    ensures
        r@ == finished_response(accumulate_all(events.deep_view())),
        text_of(r@.message.content) == text_deltas(events.deep_view()),
        thinking_deltas(events.deep_view()).len() > 0 ==> r@.message.content[0]
            == (ContentBlockView::Thinking {
            text: thinking_deltas(events.deep_view()),
            signature: None,
        }),
{
    proof {
        law_collected_response_reflects_stream(events.deep_view());
        law_collected_thinking(events.deep_view());
    }
    let mut acc = ResponseAccumulator::new();
    let ghost evs = events.deep_view();
    let mut rest = events;
    let ghost all = rest@;
    let n = rest.len();
    let mut k: usize = 0;
    while k < n
        invariant
            n == all.len(),
            k <= n,
            rest@ == all.skip(k as int),
            evs == all.map_values(|e: StreamEvent| e@),
            acc@ == accumulate_all(evs.take(k as int)),
        decreases n - k,
    {
        let e = rest.remove(0);
        proof {
            assert(e == all[k as int]);
            assert(evs.take(k + 1).drop_last() =~= evs.take(k as int));
            assert(rest@ =~= all.skip(k + 1));
        }
        acc.push(e);
        k = k + 1;
    }
    proof {
        assert(evs.take(n as int) =~= evs);
    }
    acc.finish()
}


/// The concatenation of every text delta, in order.
pub open spec fn text_deltas(events: Seq<StreamEventView>) -> Seq<char>
    decreases events.len(),
{
    if events.len() == 0 {
        Seq::empty()
    } else {
        text_deltas(events.drop_last()) + match events.last() {
            StreamEventView::TextDelta(s) => s,
            _ => Seq::empty(),
        }
    }
}

/// The concatenation of every thinking delta, in order.
pub open spec fn thinking_deltas(events: Seq<StreamEventView>) -> Seq<char>
    decreases events.len(),
{
    if events.len() == 0 {
        Seq::empty()
    } else {
        thinking_deltas(events.drop_last()) + match events.last() {
            StreamEventView::ThinkingDelta(s) => s,
            _ => Seq::empty(),
        }
    }
}

/// The `(index, fragment)` of every tool-call arguments delta, in order.
pub open spec fn args_deltas(events: Seq<StreamEventView>) -> Seq<(usize, Seq<char>)>
    decreases events.len(),
{
    if events.len() == 0 {
        Seq::empty()
    } else {
        args_deltas(events.drop_last()) + match events.last() {
            StreamEventView::ToolCallArgsDelta { index, delta } => seq![(index, delta)],
            _ => Seq::empty(),
        }
    }
}

/// The `(id, name)` of every tool call started, in order.
pub open spec fn started_calls(events: Seq<StreamEventView>) -> Seq<(Seq<char>, Seq<char>)>
    decreases events.len(),
{
    if events.len() == 0 {
        Seq::empty()
    } else {
        started_calls(events.drop_last()) + match events.last() {
            StreamEventView::ToolCallStart { id, name, .. } => seq![(id, name)],
            _ => Seq::empty(),
        }
    }
}

/// The usage reported last (zero when none was reported).
pub open spec fn last_usage(events: Seq<StreamEventView>) -> Usage
    decreases events.len(),
{
    if events.len() == 0 {
        zero_usage()
    } else {
        match events.last() {
            StreamEventView::Usage(u) => u,
            _ => last_usage(events.drop_last()),
        }
    }
}

/// The stop reason reported last, if any.
pub open spec fn last_stop(events: Seq<StreamEventView>) -> Option<StopReasonView>
    decreases events.len(),
{
    if events.len() == 0 {
        None
    } else {
        match events.last() {
            StreamEventView::Stop(r) => Some(r),
            _ => last_stop(events.drop_last()),
        }
    }
}

/// The text of a concatenation of blocks is the concatenation of their texts.
pub proof fn lemma_text_of_concat(a: Seq<ContentBlockView>, b: Seq<ContentBlockView>)
    ensures
        text_of(a + b) == text_of(a) + text_of(b),
    decreases b.len(),
{
    if b.len() == 0 {
        assert(a + b =~= a);
        assert(text_of(b) =~= Seq::<char>::empty());
        assert(text_of(a) + text_of(b) =~= text_of(a));
    } else {
        assert((a + b).drop_last() =~= a + b.drop_last());
        lemma_text_of_concat(a, b.drop_last());
        assert(text_of(a + b) =~= text_of(a) + text_of(b));
    }
}

/// The tool calls of a concatenation of blocks are those of each part, in order.
pub proof fn lemma_tool_calls_of_concat(a: Seq<ContentBlockView>, b: Seq<ContentBlockView>)
    ensures
        tool_calls_of(a + b) == tool_calls_of(a) + tool_calls_of(b),
    decreases b.len(),
{
    if b.len() == 0 {
        assert(a + b =~= a);
        assert(tool_calls_of(a) + tool_calls_of(b) =~= tool_calls_of(a));
    } else {
        assert((a + b).drop_last() =~= a + b.drop_last());
        lemma_tool_calls_of_concat(a, b.drop_last());
        assert(tool_calls_of(a + b) =~= tool_calls_of(a) + tool_calls_of(b));
    }
}

/// The calls started by a concatenation of events are those of each part, in
/// order.
pub proof fn lemma_started_calls_concat(a: Seq<StreamEventView>, b: Seq<StreamEventView>)
    ensures
        started_calls(a + b) == started_calls(a) + started_calls(b),
    decreases b.len(),
{
    if b.len() == 0 {
        assert(a + b =~= a);
        assert(started_calls(a) + started_calls(b) =~= started_calls(a));
    } else {
        assert((a + b).drop_last() =~= a + b.drop_last());
        lemma_started_calls_concat(a, b.drop_last());
        assert(started_calls(a + b) =~= started_calls(a) + started_calls(b));
    }
}

/// The text and the arguments deltas of a concatenation of events are those
/// of each part, in order.
pub proof fn lemma_deltas_concat(a: Seq<StreamEventView>, b: Seq<StreamEventView>)
    ensures
        text_deltas(a + b) == text_deltas(a) + text_deltas(b),
        args_deltas(a + b) == args_deltas(a) + args_deltas(b),
    decreases b.len(),
{
    if b.len() == 0 {
        assert(a + b =~= a);
        assert(text_deltas(a) + text_deltas(b) =~= text_deltas(a));
        assert(args_deltas(a) + args_deltas(b) =~= args_deltas(a));
    } else {
        assert((a + b).drop_last() =~= a + b.drop_last());
        lemma_deltas_concat(a, b.drop_last());
        assert(text_deltas(a + b) =~= text_deltas(a) + text_deltas(b));
        assert(args_deltas(a + b) =~= args_deltas(a) + args_deltas(b));
    }
}

/// What a single event contributes to the text and to the arguments deltas.
pub proof fn lemma_deltas_single(e: StreamEventView)
    ensures
        text_deltas(seq![e]) == match e {
            StreamEventView::TextDelta(s) => s,
            _ => Seq::<char>::empty(),
        },
        args_deltas(seq![e]) == match e {
            StreamEventView::ToolCallArgsDelta { index, delta } => seq![(index, delta)],
            _ => Seq::<(usize, Seq<char>)>::empty(),
        },
{
    assert(seq![e].drop_last() =~= Seq::<StreamEventView>::empty());
    assert(seq![e].last() == e);
    assert(text_deltas(Seq::<StreamEventView>::empty()) =~= Seq::<char>::empty());
    assert(args_deltas(Seq::<StreamEventView>::empty()) =~= Seq::<(usize, Seq<char>)>::empty());
    match e {
        StreamEventView::TextDelta(s) => {
            assert(text_deltas(seq![e]) =~= s);
            assert(args_deltas(seq![e]) =~= Seq::<(usize, Seq<char>)>::empty());
        },
        StreamEventView::ToolCallArgsDelta { index, delta } => {
            assert(text_deltas(seq![e]) =~= Seq::<char>::empty());
            assert(args_deltas(seq![e]) =~= seq![(index, delta)]);
        },
        _ => {
            assert(text_deltas(seq![e]) =~= Seq::<char>::empty());
            assert(args_deltas(seq![e]) =~= Seq::<(usize, Seq<char>)>::empty());
        },
    }
}

/// A single event starts a call exactly when it is a call start.
pub proof fn lemma_started_calls_single(e: StreamEventView)
    ensures
        started_calls(seq![e]) == match e {
            StreamEventView::ToolCallStart { id, name, .. } => seq![(id, name)],
            _ => Seq::<(Seq<char>, Seq<char>)>::empty(),
        },
{
    assert(seq![e].drop_last() =~= Seq::<StreamEventView>::empty());
    assert(seq![e].last() == e);
    assert(started_calls(Seq::<StreamEventView>::empty()) =~= Seq::<(Seq<char>, Seq<char>)>::empty());
    match e {
        StreamEventView::ToolCallStart { id, name, .. } => {
            assert(started_calls(seq![e]) =~= seq![(id, name)]);
        },
        _ => {
            assert(started_calls(seq![e]) =~= Seq::<(Seq<char>, Seq<char>)>::empty());
        },
    }
}

/// Finished tool calls carry no text, and each is exactly one tool call.
pub proof fn lemma_finished_tools(tools: Seq<PartialToolView>)
    ensures
        text_of(tools.map_values(|t: PartialToolView| finished_tool(t))) == Seq::<char>::empty(),
        tool_calls_of(tools.map_values(|t: PartialToolView| finished_tool(t))) == tools.map_values(
            |t: PartialToolView| (t.id, t.name, args_text(t.args)),
        ),
    decreases tools.len(),
{
    let m = tools.map_values(|t: PartialToolView| finished_tool(t));
    if tools.len() == 0 {
        assert(m.len() == 0);
        assert(tools.map_values(|t: PartialToolView| (t.id, t.name, args_text(t.args)))
            =~= Seq::<ToolCallView>::empty());
    } else {
        lemma_finished_tools(tools.drop_last());
        assert(m.drop_last() =~= tools.drop_last().map_values(
            |t: PartialToolView| finished_tool(t),
        ));
        assert(tool_calls_of(m) =~= tools.map_values(
            |t: PartialToolView| (t.id, t.name, args_text(t.args)),
        ));
        assert(text_of(m) =~= Seq::<char>::empty());
    }
}

/// Where a found partial call sits.
pub proof fn lemma_find_tool_bounds(tools: Seq<PartialToolView>, index: usize)
    ensures
        find_tool(tools, index) matches Some(p) ==> 0 <= p < tools.len() && tools[p].index
            == index,
    decreases tools.len(),
{
    if tools.len() > 0 {
        lemma_find_tool_bounds(tools.drop_last(), index);
    }
}

/// What the accumulation holds after a whole stream.
pub proof fn lemma_accumulate_all(events: Seq<StreamEventView>)
    ensures
        accumulate_all(events).text == text_deltas(events),
        accumulate_all(events).thinking == thinking_deltas(events),
        accumulate_all(events).thinking_signature is None,
        accumulate_all(events).tools.map_values(|t: PartialToolView| (t.id, t.name))
            == started_calls(events),
        accumulate_all(events).usage == last_usage(events),
        accumulate_all(events).stop_reason == last_stop(events),
    decreases events.len(),
{
    if events.len() == 0 {
        assert(text_deltas(events) =~= Seq::<char>::empty());
        assert(thinking_deltas(events) =~= Seq::<char>::empty());
        assert(accumulate_all(events).tools.map_values(|t: PartialToolView| (t.id, t.name))
            =~= started_calls(events));
    } else {
        let d = events.drop_last();
        lemma_accumulate_all(d);
        let a = accumulate_all(d);
        let b = accumulate_all(events);
        assert(b == accumulate(a, events.last()));
        match events.last() {
            StreamEventView::TextDelta(s) => {
                assert(b.tools =~= a.tools);
                assert(started_calls(events) =~= started_calls(d));
                assert(thinking_deltas(events) =~= thinking_deltas(d));
            },
            StreamEventView::ThinkingDelta(s) => {
                assert(b.tools =~= a.tools);
                assert(started_calls(events) =~= started_calls(d));
                assert(text_deltas(events) =~= text_deltas(d));
            },
            StreamEventView::ToolCallStart { index, id, name } => {
                assert(b.tools.map_values(|t: PartialToolView| (t.id, t.name)) =~= a.tools.map_values(
                    |t: PartialToolView| (t.id, t.name),
                ).push((id, name)));
                assert(text_deltas(events) =~= text_deltas(d));
                assert(thinking_deltas(events) =~= thinking_deltas(d));
            },
            StreamEventView::ToolCallArgsDelta { index, delta } => {
                lemma_find_tool_bounds(a.tools, index);
                assert(b.tools.map_values(|t: PartialToolView| (t.id, t.name)) =~= a.tools.map_values(
                    |t: PartialToolView| (t.id, t.name),
                ));
                assert(text_deltas(events) =~= text_deltas(d));
                assert(started_calls(events) =~= started_calls(d));
                assert(thinking_deltas(events) =~= thinking_deltas(d));
            },
            _ => {
                assert(b.tools =~= a.tools);
                assert(text_deltas(events) =~= text_deltas(d));
                assert(started_calls(events) =~= started_calls(d));
                assert(thinking_deltas(events) =~= thinking_deltas(d));
            },
        }
    }
}

/// Collecting a stream into a response keeps what the stream said: the
/// response text is the concatenation of the text deltas in order; there is one
/// tool call per started call, in the order they started, with its id and name;
/// the usage is the last usage reported and the stop reason the last one
/// reported.
pub proof fn law_collected_response_reflects_stream(events: Seq<StreamEventView>)
    ensures
        text_of(finished_response(accumulate_all(events)).message.content) == text_deltas(events),
        tool_calls_of(finished_response(accumulate_all(events)).message.content).map_values(
            |c: ToolCallView| (c.0, c.1),
        ) == started_calls(events),
        finished_response(accumulate_all(events)).usage == last_usage(events),
        finished_response(accumulate_all(events)).stop_reason == last_stop(events),
{
    lemma_accumulate_all(events);
    let a = accumulate_all(events);
    let thinking = if a.thinking.len() > 0 {
        seq![ContentBlockView::Thinking { text: a.thinking, signature: a.thinking_signature }]
    } else {
        Seq::empty()
    };
    let text = if a.text.len() > 0 {
        seq![ContentBlockView::Text { text: a.text }]
    } else {
        Seq::empty()
    };
    let tools = a.tools.map_values(|t: PartialToolView| finished_tool(t));
    assert(finished_content(a) == thinking + text + tools);
    lemma_text_of_concat(thinking + text, tools);
    lemma_text_of_concat(thinking, text);
    lemma_tool_calls_of_concat(thinking + text, tools);
    lemma_tool_calls_of_concat(thinking, text);
    lemma_finished_tools(a.tools);
    reveal_with_fuel(text_of, 2);
    reveal_with_fuel(tool_calls_of, 2);
    assert(text_of(thinking) =~= Seq::<char>::empty()) by {
        if a.thinking.len() > 0 {
            assert(thinking.drop_last() =~= Seq::<ContentBlockView>::empty());
        }
    }
    assert(text_of(text) =~= a.text) by {
        if a.text.len() > 0 {
            assert(text.drop_last() =~= Seq::<ContentBlockView>::empty());
        }
    }
    assert(tool_calls_of(thinking) =~= Seq::<ToolCallView>::empty()) by {
        if a.thinking.len() > 0 {
            assert(thinking.drop_last() =~= Seq::<ContentBlockView>::empty());
        }
    }
    assert(tool_calls_of(text) =~= Seq::<ToolCallView>::empty()) by {
        if a.text.len() > 0 {
            assert(text.drop_last() =~= Seq::<ContentBlockView>::empty());
        }
    }
    assert(text_of(finished_content(a)) =~= a.text);
    assert(tool_calls_of(finished_content(a)) =~= a.tools.map_values(
        |t: PartialToolView| (t.id, t.name, args_text(t.args)),
    ));
    assert(tool_calls_of(finished_content(a)).map_values(|c: ToolCallView| (c.0, c.1))
        =~= a.tools.map_values(|t: PartialToolView| (t.id, t.name)));
}

/// Collecting a stream keeps all of its thinking: when any thinking was
/// streamed, the first block of the response is one thinking block holding
/// every thinking delta concatenated in order (with no signature); when none
/// was, the response holds no thinking block.
pub proof fn law_collected_thinking(events: Seq<StreamEventView>)
    ensures
        thinking_deltas(events).len() > 0 ==> finished_response(
            accumulate_all(events),
        ).message.content[0] == (ContentBlockView::Thinking {
            text: thinking_deltas(events),
            signature: None,
        }),
        thinking_deltas(events).len() > 0 ==> forall|i: int|
            1 <= i < finished_response(accumulate_all(events)).message.content.len()
                ==> !(#[trigger] finished_response(accumulate_all(events)).message.content[i] is Thinking),
        thinking_deltas(events).len() == 0 ==> forall|i: int|
            0 <= i < finished_response(accumulate_all(events)).message.content.len()
                ==> !(#[trigger] finished_response(accumulate_all(events)).message.content[i] is Thinking),
{
    lemma_accumulate_all(events);
    let a = accumulate_all(events);
    let c = finished_response(a).message.content;
    let thinking = if a.thinking.len() > 0 {
        seq![ContentBlockView::Thinking { text: a.thinking, signature: a.thinking_signature }]
    } else {
        Seq::empty()
    };
    let text = if a.text.len() > 0 {
        seq![ContentBlockView::Text { text: a.text }]
    } else {
        Seq::empty()
    };
    let tools = a.tools.map_values(|t: PartialToolView| finished_tool(t));
    assert(c == thinking + text + tools);
    assert forall|i: int| thinking.len() <= i < c.len() implies !(#[trigger] c[i] is Thinking) by {
        if i < thinking.len() + text.len() {
            assert(c[i] == text[i - thinking.len()]);
        } else {
            assert(c[i] == tools[i - thinking.len() - text.len()]);
        }
    }
}

/// Fragments joined in order.
pub open spec fn joined(parts: Seq<Seq<char>>) -> Seq<char>
    decreases parts.len(),
{
    if parts.len() == 0 {
        Seq::empty()
    } else {
        joined(parts.drop_last()) + parts.last()
    }
}

/// The events of one tool call streamed as its start, then fragments of its
/// arguments.
pub open spec fn streamed_call(
    index: usize,
    id: Seq<char>,
    name: Seq<char>,
    fragments: Seq<Seq<char>>,
) -> Seq<StreamEventView> {
    seq![StreamEventView::ToolCallStart { index, id, name }] + fragments.map_values(
        |f: Seq<char>| StreamEventView::ToolCallArgsDelta { index, delta: f },
    )
}

/// Folding a streamed call leaves exactly that call pending, holding the
/// fragments joined so far.
proof fn lemma_streamed_call_state(
    index: usize,
    id: Seq<char>,
    name: Seq<char>,
    fragments: Seq<Seq<char>>,
)
    ensures
        accumulate_all(streamed_call(index, id, name, fragments)) == (AccumulatorView {
            tools: seq![PartialToolView { index, id, name, args: joined(fragments) }],
            ..initial_accumulator()
        }),
    decreases fragments.len(),
{
    let events = streamed_call(index, id, name, fragments);
    if fragments.len() == 0 {
        assert(events =~= seq![StreamEventView::ToolCallStart { index, id, name }]);
        assert(events.drop_last() =~= Seq::<StreamEventView>::empty());
        assert(accumulate_all(events.drop_last()) == initial_accumulator());
        assert(joined(fragments) =~= Seq::<char>::empty());
        let first = accumulate(initial_accumulator(), events.last());
        assert(first.tools =~= seq![PartialToolView { index, id, name, args: joined(fragments) }]);
        assert(accumulate_all(events) == first);
        assert(accumulate_all(events) =~= (AccumulatorView {
            tools: seq![PartialToolView { index, id, name, args: joined(fragments) }],
            ..initial_accumulator()
        }));
    } else {
        let init = fragments.drop_last();
        lemma_streamed_call_state(index, id, name, init);
        assert(events.drop_last() =~= streamed_call(index, id, name, init));
        let prev = accumulate_all(streamed_call(index, id, name, init));
        assert(prev.tools.take(0) =~= Seq::<PartialToolView>::empty());
        lemma_find_tool_prefix(prev.tools, 1, index);
        assert(events.last() == StreamEventView::ToolCallArgsDelta {
            index,
            delta: fragments.last(),
        });
        assert(find_tool(prev.tools, index) == Some(0int));
        assert(joined(fragments) == joined(init) + fragments.last());
        let next = accumulate(prev, events.last());
        assert(next.tools =~= seq![PartialToolView { index, id, name, args: joined(fragments) }]);
        assert(accumulate_all(events) == next);
        assert(accumulate_all(events) =~= (AccumulatorView {
            tools: seq![PartialToolView { index, id, name, args: joined(fragments) }],
            ..initial_accumulator()
        }));
    }
}

/// A tool call streamed as its id and name, then fragments of its arguments,
/// is collected into exactly one tool-use block whose arguments are the
/// fragments joined in order (normalized as JSON).
pub proof fn law_streamed_call_assembles(
    index: usize,
    id: Seq<char>,
    name: Seq<char>,
    fragments: Seq<Seq<char>>,
)
    ensures
        finished_response(accumulate_all(streamed_call(index, id, name, fragments))).message.content
            == seq![ContentBlockView::ToolUse { id, name, args: args_text(joined(fragments)) }],
{
    lemma_streamed_call_state(index, id, name, fragments);
    let a = accumulate_all(streamed_call(index, id, name, fragments));
    assert(finished_content(a) =~= seq![
        ContentBlockView::ToolUse { id, name, args: args_text(joined(fragments)) },
    ]);
}

} // verus!
