//! Response and usage types.

use vstd::prelude::*;
use vstd::string::*;

use crate::message::{clone_opt_string, text_of, ContentBlock, ContentBlockView, Message, MessageView};
use crate::text::same_text;

verus! {

broadcast use vstd::string::group_string_axioms;

/// Token accounting for a request.
#[derive(Debug, Clone, Copy, PartialEq, Eq, Structural)]
pub struct Usage {
    /// Prompt tokens.
    pub input_tokens: u32,
    /// Completion tokens.
    pub output_tokens: u32,
    /// Tokens served from the provider's prompt cache, if reported.
    pub cache_read_input_tokens: Option<u32>,
    /// Tokens written to the provider's prompt cache, if reported.
    pub cache_creation_input_tokens: Option<u32>,
    /// Reasoning/thinking tokens, if reported separately.
    pub reasoning_tokens: Option<u32>,
}

/// Usage with every count zero and no optional count reported.
pub open spec fn zero_usage() -> Usage {
    Usage {
        input_tokens: 0,
        output_tokens: 0,
        cache_read_input_tokens: None,
        cache_creation_input_tokens: None,
        reasoning_tokens: None,
    }
}

impl Default for Usage {
    fn default() -> (u: Usage)
        ensures
            u == zero_usage(),
    {
        Usage {
            input_tokens: 0,
            output_tokens: 0,
            cache_read_input_tokens: None,
            cache_creation_input_tokens: None,
            reasoning_tokens: None,
        }
    }
}

impl Usage {
    /// `input_tokens + output_tokens`, saturating at `u32::MAX`.
    pub fn total(&self) -> (t: u32)
        ensures
            t == (if self.input_tokens + self.output_tokens > u32::MAX {
                u32::MAX as int
            } else {
                self.input_tokens + self.output_tokens
            }),
    {
        self.input_tokens.saturating_add(self.output_tokens)
    }
}

/// Why the model stopped generating. Unknown provider values are preserved in
/// [`StopReason::Other`].
#[derive(Debug, PartialEq, Eq)]
pub enum StopReason {
    /// The model finished naturally.
    EndTurn,
    /// Hit the output token cap.
    MaxTokens,
    /// Hit a stop sequence.
    StopSequence,
    /// The model wants to call one or more tools.
    ToolUse,
    /// The model refused on safety grounds.
    Refusal,
    /// Any other provider-specific reason, preserved verbatim.
    Other(String),
}

/// The mathematical model of a [`StopReason`].
pub enum StopReasonView {
    EndTurn,
    MaxTokens,
    StopSequence,
    ToolUse,
    Refusal,
    Other(Seq<char>),
}

impl View for StopReason {
    type V = StopReasonView;

    open spec fn view(&self) -> StopReasonView {
        match self {
            StopReason::EndTurn => StopReasonView::EndTurn,
            StopReason::MaxTokens => StopReasonView::MaxTokens,
            StopReason::StopSequence => StopReasonView::StopSequence,
            StopReason::ToolUse => StopReasonView::ToolUse,
            StopReason::Refusal => StopReasonView::Refusal,
            StopReason::Other(s) => StopReasonView::Other(s@),
        }
    }
}

impl DeepView for StopReason {
    type V = StopReasonView;

    open spec fn deep_view(&self) -> StopReasonView {
        self@
    }
}

impl Clone for StopReason {
    fn clone(&self) -> (res: Self)
        ensures
            res@ == self@,
    {
        match self {
            StopReason::EndTurn => StopReason::EndTurn,
            StopReason::MaxTokens => StopReason::MaxTokens,
            StopReason::StopSequence => StopReason::StopSequence,
            StopReason::ToolUse => StopReason::ToolUse,
            StopReason::Refusal => StopReason::Refusal,
            StopReason::Other(s) => StopReason::Other(s.clone()),
        }
    }
}

/// The canonical snake_case name of a stop reason.
pub open spec fn stop_reason_name(r: StopReasonView) -> Seq<char> {
    match r {
        StopReasonView::EndTurn => "end_turn"@,
        StopReasonView::MaxTokens => "max_tokens"@,
        StopReasonView::StopSequence => "stop_sequence"@,
        StopReasonView::ToolUse => "tool_use"@,
        StopReasonView::Refusal => "refusal"@,
        StopReasonView::Other(s) => s,
    }
}

/// The stop reason a wire string names; unknown strings are kept verbatim.
pub open spec fn stop_reason_from_wire(s: Seq<char>) -> StopReasonView {
    if s == "end_turn"@ {
        StopReasonView::EndTurn
    } else if s == "max_tokens"@ {
        StopReasonView::MaxTokens
    } else if s == "stop_sequence"@ {
        StopReasonView::StopSequence
    } else if s == "tool_use"@ {
        StopReasonView::ToolUse
    } else if s == "refusal"@ {
        StopReasonView::Refusal
    } else {
        StopReasonView::Other(s)
    }
}

impl StopReason {
    /// The canonical snake_case string for this reason.
    pub fn as_str(&self) -> (s: &str)
        ensures
            s@ == stop_reason_name(self@),
    {
        match self {
            StopReason::EndTurn => "end_turn",
            StopReason::MaxTokens => "max_tokens",
            StopReason::StopSequence => "stop_sequence",
            StopReason::ToolUse => "tool_use",
            StopReason::Refusal => "refusal",
            StopReason::Other(s) => s.as_str(),
        }
    }

    /// Parse from a wire string, mapping unknown values to [`StopReason::Other`].
    pub fn from_wire(s: &str) -> (r: StopReason)
        ensures
            r@ == stop_reason_from_wire(s@),
    {
        if same_text(s, "end_turn") {
            StopReason::EndTurn
        } else if same_text(s, "max_tokens") {
            StopReason::MaxTokens
        } else if same_text(s, "stop_sequence") {
            StopReason::StopSequence
        } else if same_text(s, "tool_use") {
            StopReason::ToolUse
        } else if same_text(s, "refusal") {
            StopReason::Refusal
        } else {
            StopReason::Other(String::from_str(s))
        }
    }
}

/// Parsing the name of any stop reason gives its name back: no wire string is
/// lost.
pub proof fn law_stop_reason_name_round_trip(s: Seq<char>)
    ensures
        stop_reason_name(stop_reason_from_wire(s)) == s,
{
}

/// A known stop reason survives a trip through its name; an `Other` reason does
/// too, unless its text is one of the known names.
pub proof fn law_stop_reason_parse_round_trip(r: StopReasonView)
    requires
        r matches StopReasonView::Other(s) ==> stop_reason_from_wire(s) is Other,
    ensures
        stop_reason_from_wire(stop_reason_name(r)) == r,
{
    reveal_strlit("end_turn");
    reveal_strlit("max_tokens");
    reveal_strlit("stop_sequence");
    reveal_strlit("tool_use");
    reveal_strlit("refusal");
    let a = "end_turn"@;
    let b = "max_tokens"@;
    let c = "stop_sequence"@;
    let d = "tool_use"@;
    let e = "refusal"@;
    assert(a.len() != b.len() && a.len() != c.len() && a.len() != e.len() && a[0] != d[0]);
    assert(b.len() != c.len() && b.len() != d.len() && b.len() != e.len());
    assert(c.len() != d.len() && c.len() != e.len());
    assert(d.len() != e.len());
}

/// A borrowed view of a tool call within a [`ChatResponse`]; the arguments are
/// JSON text.
#[derive(Debug, Clone, Copy)]
pub struct ToolUseRef<'a> {
    /// Provider-assigned call id.
    pub id: &'a str,
    /// Tool name.
    pub name: &'a str,
    /// The arguments, as JSON text.
    pub args: &'a str,
}

/// A tool call as `(id, name, args)`.
pub type ToolCallView = (Seq<char>, Seq<char>, Seq<char>);

/// The tool call a block holds, if it is a tool-use block.
pub open spec fn block_tool_call(b: ContentBlockView) -> Seq<ToolCallView> {
    match b {
        ContentBlockView::ToolUse { id, name, args } => seq![(id, name, args)],
        _ => Seq::empty(),
    }
}

/// Every tool call among the blocks, in order.
pub open spec fn tool_calls_of(blocks: Seq<ContentBlockView>) -> Seq<ToolCallView>
    decreases blocks.len(),
{
    if blocks.len() == 0 {
        Seq::empty()
    } else {
        tool_calls_of(blocks.drop_last()) + block_tool_call(blocks.last())
    }
}

/// Whether any block is a tool-use block.
pub open spec fn has_tool_use(blocks: Seq<ContentBlockView>) -> bool {
    exists|i: int| 0 <= i < blocks.len() && blocks[i] is ToolUse
}

/// A response reports tool calls (`has_tool_calls`) exactly when it lists some
/// (`tool_uses` is not empty).
pub proof fn law_has_tool_calls_iff_tool_uses(blocks: Seq<ContentBlockView>)
    ensures
        (tool_calls_of(blocks).len() > 0) == has_tool_use(blocks),
    decreases blocks.len(),
{
    if blocks.len() > 0 {
        law_has_tool_calls_iff_tool_uses(blocks.drop_last());
        let d = blocks.drop_last();
        if has_tool_use(d) {
            let i = choose|i: int| 0 <= i < d.len() && d[i] is ToolUse;
            assert(blocks[i] is ToolUse);
        }
        if has_tool_use(blocks) {
            let i = choose|i: int| 0 <= i < blocks.len() && blocks[i] is ToolUse;
            if i < blocks.len() - 1 {
                assert(d[i] is ToolUse);
            }
        }
    }
}

/// A completed (non-streaming) model response.
#[derive(Debug, PartialEq)]
pub struct ChatResponse {
    /// The assistant message.
    pub message: Message,
    /// Token accounting.
    pub usage: Usage,
    /// Why generation stopped, if reported.
    pub stop_reason: Option<StopReason>,
    /// The model id that produced this response, if reported.
    pub model: Option<String>,
    /// The provider-native payload as JSON text (`null` unless an adapter fills it).
    pub raw: String,
}

/// The mathematical model of a [`ChatResponse`].
pub struct ChatResponseView {
    pub message: MessageView,
    pub usage: Usage,
    pub stop_reason: Option<StopReasonView>,
    pub model: Option<Seq<char>>,
    pub raw: Seq<char>,
}

impl View for ChatResponse {
    type V = ChatResponseView;

    open spec fn view(&self) -> ChatResponseView {
        ChatResponseView {
            message: self.message@,
            usage: self.usage,
            stop_reason: self.stop_reason.deep_view(),
            model: self.model.deep_view(),
            raw: self.raw@,
        }
    }
}

impl DeepView for ChatResponse {
    type V = ChatResponseView;

    open spec fn deep_view(&self) -> ChatResponseView {
        self@
    }
}

/// Clones an optional stop reason.
pub fn clone_opt_stop_reason(r: &Option<StopReason>) -> (res: Option<StopReason>)
    ensures
        res.deep_view() == r.deep_view(),
{
    match r {
        Some(x) => Some(x.clone()),
        None => None,
    }
}

impl Clone for ChatResponse {
    fn clone(&self) -> (res: Self)
        ensures
            res@ == self@,
    {
        ChatResponse {
            message: self.message.clone(),
            usage: self.usage,
            stop_reason: clone_opt_stop_reason(&self.stop_reason),
            model: clone_opt_string(&self.model),
            raw: self.raw.clone(),
        }
    }
}

impl ChatResponse {
    /// A response holding `message`, with empty usage and metadata.
    pub fn from_message(message: Message) -> (r: ChatResponse)
        ensures
            r@ == (ChatResponseView {
                message: message@,
                usage: zero_usage(),
                stop_reason: None,
                model: None,
                raw: "null"@,
            }),
    {
        ChatResponse {
            message,
            usage: Usage::default(),
            stop_reason: None,
            model: None,
            raw: String::from_str("null"),
        }
    }

    /// Concatenated text of all text blocks in the message.
    pub fn text(&self) -> (s: String)
        ensures
            s@ == text_of(self@.message.content),
    {
        self.message.text()
    }

    /// All tool calls the model requested, in order.
    pub fn tool_uses(&self) -> (calls: Vec<ToolUseRef<'_>>)
        ensures
            calls@.map_values(|c: ToolUseRef| (c.id@, c.name@, c.args@)) == tool_calls_of(
                self@.message.content,
            ),
    {
        let content = &self.message.content;
        let mut out: Vec<ToolUseRef<'_>> = Vec::new();
        let mut i: usize = 0;
        while i < content.len()
            invariant
                i <= content.len(),
                content == &self.message.content,
                out@.map_values(|c: ToolUseRef| (c.id@, c.name@, c.args@)) == tool_calls_of(
                    self@.message.content.take(i as int),
                ),
            decreases content.len() - i,
        {
            proof {
                assert(self@.message.content.take(i + 1).drop_last()
                    =~= self@.message.content.take(i as int));
            }
            let ghost prev = out@;
            match &content[i] {
                ContentBlock::ToolUse { id, name, args } => {
                    out.push(ToolUseRef { id: id.as_str(), name: name.as_str(), args: args.as_str() });
                },
                _ => {},
            }
            proof {
                assert(out@.map_values(|c: ToolUseRef| (c.id@, c.name@, c.args@)) =~= prev.map_values(
                    |c: ToolUseRef| (c.id@, c.name@, c.args@),
                ) + block_tool_call(self@.message.content[i as int]));
            }
            i = i + 1;
        }
        proof {
            assert(self@.message.content.take(content.len() as int) =~= self@.message.content);
        }
        out
    }

    /// Whether the model requested any tool calls.
    pub fn has_tool_calls(&self) -> (b: bool)
        ensures
            b == has_tool_use(self@.message.content),
    {
        let content = &self.message.content;
        let mut i: usize = 0;
        while i < content.len()
            invariant
                i <= content.len(),
                content == &self.message.content,
                forall|j: int| 0 <= j < i ==> !(#[trigger] self@.message.content[j] is ToolUse),
            decreases content.len() - i,
        {
            match &content[i] {
                ContentBlock::ToolUse { .. } => {
                    assert(self@.message.content[i as int] is ToolUse);
                    return true;
                },
                _ => {},
            }
            i = i + 1;
        }
        false
    }
}

} // verus!
