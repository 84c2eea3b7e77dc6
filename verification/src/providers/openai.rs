//! The OpenAI-compatible Chat Completions adapter: how a request becomes a
//! wire body, and how a wire response or stream chunk becomes a response or
//! stream events.
//!
//! The wire types here are plain data; JSON (de)serialization and the HTTP
//! exchange happen around them. JSON documents (tool parameters, schemas,
//! arguments, passthrough values) are JSON text.

use vstd::prelude::*;
use vstd::string::*;
use vstd::utf8::{decode_utf8, valid_utf8};

use crate::error::{Error, ErrorView, kind_of_status};
use crate::json::{args_text, normalize_args};
use crate::message::{
    block_text, text_of, ContentBlock, ContentBlockView, ImageSource, ImageSourceView, Message,
    MessageView, Role,
};
use crate::request::{find_entry, find_key, lemma_find_key, ChatRequest, ChatRequestView, ExtraEntry};
use crate::response::{
    stop_reason_name, tool_calls_of, zero_usage, ToolCallView, ChatResponse, ChatResponseView, StopReason, StopReasonView, Usage,
};
use crate::stream::{
    args_deltas, lemma_deltas_concat, lemma_deltas_single, lemma_started_calls_concat,
    lemma_started_calls_single, lemma_text_of_concat, lemma_tool_calls_of_concat, started_calls,
    text_deltas, StreamEvent, StreamEventView,
};
use crate::structured::{ResponseFormat, ResponseFormatView};
use crate::text::{clone_strings, lossy_text, same_text, strip_end, trim_end_char, utf8_lossy};
use crate::tool::{ToolChoice, ToolChoiceView, ToolDef, ToolDefView};

verus! {

broadcast use vstd::string::group_string_axioms;

/// The hosted OpenAI API endpoint.
pub const OPENAI_BASE_URL: &'static str = "https://api.openai.com/v1";

/// The chat-completions endpoint under a base URL: trailing `/` dropped, then
/// `/chat/completions` appended.
pub fn chat_completions_url(base_url: &str) -> (u: String)
    ensures
        u@ == strip_end(base_url@, '/') + "/chat/completions"@,
{
    trim_end_char(base_url, '/').concat("/chat/completions")
}

/// One part of a multi-part user message.
#[derive(Debug, PartialEq)]
pub enum WirePart {
    /// A text part.
    Text { text: String },
    /// An image part, by URL (possibly a `data:` URL).
    ImageUrl { url: String },
}

/// The content of a wire message: plain text, or parts.
#[derive(Debug, PartialEq)]
pub enum WireContent {
    /// Plain text.
    Text(String),
    /// Text and image parts, in order.
    Parts(Vec<WirePart>),
}

/// A tool call in an assistant wire message.
#[derive(Debug, PartialEq)]
pub struct WireToolCall {
    /// Call id.
    pub id: String,
    /// Always `"function"`.
    pub kind: String,
    /// Function name.
    pub name: String,
    /// Arguments, as JSON text.
    pub arguments: String,
}

/// A wire message.
#[derive(Debug, PartialEq)]
pub struct WireMessage {
    /// `system`, `user`, `assistant` or `tool`.
    pub role: String,
    /// The content, if any.
    pub content: Option<WireContent>,
    /// Tool calls (assistant messages).
    pub tool_calls: Vec<WireToolCall>,
    /// The call answered (tool messages).
    pub tool_call_id: Option<String>,
}

/// A tool declaration on the wire.
#[derive(Debug, PartialEq)]
pub struct WireTool {
    /// Always `"function"`.
    pub kind: String,
    /// Function name.
    pub name: String,
    /// Description (omitted when empty).
    pub description: String,
    /// Parameter schema, as JSON text.
    pub parameters: String,
    /// Strict schema enforcement, when set.
    pub strict: Option<bool>,
}

/// A tool choice on the wire.
#[derive(Debug, PartialEq)]
pub enum WireToolChoice {
    /// `"auto"`, `"none"` or `"required"`.
    Mode(String),
    /// A specific function.
    Named {
        /// Always `"function"`.
        kind: String,
        /// The function to force.
        name: String,
    },
}

/// A response format on the wire (plain text sends none).
#[derive(Debug, PartialEq)]
pub enum WireResponseFormat {
    /// Any JSON object.
    JsonObject,
    /// JSON constrained to a named schema.
    JsonSchema { name: String, schema: String, strict: bool },
}

/// A chat-completions request body.
#[derive(Debug, PartialEq)]
pub struct WireRequest {
    /// The model id.
    pub model: String,
    /// The system prompt (as a first message) and the transcript.
    pub messages: Vec<WireMessage>,
    /// Output token cap.
    pub max_tokens: Option<u32>,
    /// Bit pattern of the `f32` temperature.
    pub temperature_bits: Option<u32>,
    /// Bit pattern of the `f32` nucleus mass.
    pub top_p_bits: Option<u32>,
    /// Stop sequences, sent only when there are any.
    pub stop: Option<Vec<String>>,
    /// Omitted from the body when empty.
    pub tools: Vec<WireTool>,
    /// Tool-use constraint.
    pub tool_choice: Option<WireToolChoice>,
    /// Output format, sent only for JSON modes.
    pub response_format: Option<WireResponseFormat>,
    /// Whether the reply is streamed.
    pub stream: bool,
    /// `stream_options.include_usage`, sent only when streaming.
    pub stream_options: Option<bool>,
    /// Passthrough `(key, JSON text)` fields to add to the body: only those
    /// whose key names no field the body already carries.
    pub extra: Vec<(String, String)>,
}

/// The mathematical model of a [`WirePart`].
pub enum WirePartView {
    Text { text: Seq<char> },
    ImageUrl { url: Seq<char> },
}

/// The mathematical model of a [`WireContent`].
pub enum WireContentView {
    Text(Seq<char>),
    Parts(Seq<WirePartView>),
}

/// The mathematical model of a [`WireToolCall`].
pub struct WireToolCallView {
    pub id: Seq<char>,
    pub kind: Seq<char>,
    pub name: Seq<char>,
    pub arguments: Seq<char>,
}

/// The mathematical model of a [`WireMessage`].
#[verifier::ext_equal]
pub struct WireMessageView {
    pub role: Seq<char>,
    pub content: Option<WireContentView>,
    pub tool_calls: Seq<WireToolCallView>,
    pub tool_call_id: Option<Seq<char>>,
}

/// The mathematical model of a [`WireTool`].
pub struct WireToolView {
    pub kind: Seq<char>,
    pub name: Seq<char>,
    pub description: Seq<char>,
    pub parameters: Seq<char>,
    pub strict: Option<bool>,
}

/// The mathematical model of a [`WireToolChoice`].
pub enum WireToolChoiceView {
    Mode(Seq<char>),
    Named { kind: Seq<char>, name: Seq<char> },
}

/// The mathematical model of a [`WireResponseFormat`].
pub enum WireResponseFormatView {
    JsonObject,
    JsonSchema { name: Seq<char>, schema: Seq<char>, strict: bool },
}

/// The mathematical model of a [`WireRequest`].
#[verifier::ext_equal]
pub struct WireRequestView {
    pub model: Seq<char>,
    pub messages: Seq<WireMessageView>,
    pub max_tokens: Option<u32>,
    pub temperature_bits: Option<u32>,
    pub top_p_bits: Option<u32>,
    pub stop: Option<Seq<Seq<char>>>,
    pub tools: Seq<WireToolView>,
    pub tool_choice: Option<WireToolChoiceView>,
    pub response_format: Option<WireResponseFormatView>,
    pub stream: bool,
    pub stream_options: Option<bool>,
    pub extra: Seq<ExtraEntry>,
}

impl View for WirePart {
    type V = WirePartView;

    open spec fn view(&self) -> WirePartView {
        match self {
            WirePart::Text { text } => WirePartView::Text { text: text@ },
            WirePart::ImageUrl { url } => WirePartView::ImageUrl { url: url@ },
        }
    }
}

impl DeepView for WirePart {
    type V = WirePartView;

    open spec fn deep_view(&self) -> WirePartView {
        self@
    }
}

impl View for WireContent {
    type V = WireContentView;

    open spec fn view(&self) -> WireContentView {
        match self {
            WireContent::Text(t) => WireContentView::Text(t@),
            WireContent::Parts(p) => WireContentView::Parts(p.deep_view()),
        }
    }
}

impl DeepView for WireContent {
    type V = WireContentView;

    open spec fn deep_view(&self) -> WireContentView {
        self@
    }
}

impl View for WireToolCall {
    type V = WireToolCallView;

    open spec fn view(&self) -> WireToolCallView {
        WireToolCallView {
            id: self.id@,
            kind: self.kind@,
            name: self.name@,
            arguments: self.arguments@,
        }
    }
}

impl DeepView for WireToolCall {
    type V = WireToolCallView;

    open spec fn deep_view(&self) -> WireToolCallView {
        self@
    }
}

impl View for WireMessage {
    type V = WireMessageView;

    open spec fn view(&self) -> WireMessageView {
        WireMessageView {
            role: self.role@,
            content: self.content.deep_view(),
            tool_calls: self.tool_calls.deep_view(),
            tool_call_id: self.tool_call_id.deep_view(),
        }
    }
}

impl DeepView for WireMessage {
    type V = WireMessageView;

    open spec fn deep_view(&self) -> WireMessageView {
        self@
    }
}

impl View for WireTool {
    type V = WireToolView;

    open spec fn view(&self) -> WireToolView {
        WireToolView {
            kind: self.kind@,
            name: self.name@,
            description: self.description@,
            parameters: self.parameters@,
            strict: self.strict,
        }
    }
}

impl DeepView for WireTool {
    type V = WireToolView;

    open spec fn deep_view(&self) -> WireToolView {
        self@
    }
}

impl View for WireToolChoice {
    type V = WireToolChoiceView;

    open spec fn view(&self) -> WireToolChoiceView {
        match self {
            WireToolChoice::Mode(m) => WireToolChoiceView::Mode(m@),
            WireToolChoice::Named { kind, name } => WireToolChoiceView::Named {
                kind: kind@,
                name: name@,
            },
        }
    }
}

impl DeepView for WireToolChoice {
    type V = WireToolChoiceView;

    open spec fn deep_view(&self) -> WireToolChoiceView {
        self@
    }
}

impl View for WireResponseFormat {
    type V = WireResponseFormatView;

    open spec fn view(&self) -> WireResponseFormatView {
        match self {
            WireResponseFormat::JsonObject => WireResponseFormatView::JsonObject,
            WireResponseFormat::JsonSchema { name, schema, strict } =>
                WireResponseFormatView::JsonSchema { name: name@, schema: schema@, strict: *strict },
        }
    }
}

impl DeepView for WireResponseFormat {
    type V = WireResponseFormatView;

    open spec fn deep_view(&self) -> WireResponseFormatView {
        self@
    }
}

impl View for WireRequest {
    type V = WireRequestView;

    open spec fn view(&self) -> WireRequestView {
        WireRequestView {
            model: self.model@,
            messages: self.messages.deep_view(),
            max_tokens: self.max_tokens,
            temperature_bits: self.temperature_bits,
            top_p_bits: self.top_p_bits,
            stop: self.stop.deep_view(),
            tools: self.tools.deep_view(),
            tool_choice: self.tool_choice.deep_view(),
            response_format: self.response_format.deep_view(),
            stream: self.stream,
            stream_options: self.stream_options,
            extra: self.extra.deep_view(),
        }
    }
}

// ---------------------------------------------------------------------------
// Request: domain -> wire
// ---------------------------------------------------------------------------

/// The URL an image source is sent as: its URL, or a `data:` URL for inline
/// bytes.
pub open spec fn image_url_of(source: ImageSourceView) -> Seq<char> {
    match source {
        ImageSourceView::Url { url } => url,
        ImageSourceView::Base64 { media_type, data } => "data:"@ + media_type + ";base64,"@ + data,
    }
}

/// The URL an image source is sent as.
pub fn image_url(source: &ImageSource) -> (u: String)
    ensures
        u@ == image_url_of(source@),
{
    match source {
        ImageSource::Url { url } => url.clone(),
        ImageSource::Base64 { media_type, data } => String::from_str("data:").concat(
            media_type.as_str(),
        ).concat(";base64,").concat(data.as_str()),
    }
}

/// The part a user block becomes: text and images are sent, other blocks are not.
pub open spec fn part_of(b: ContentBlockView) -> Seq<WirePartView> {
    match b {
        ContentBlockView::Text { text } => seq![WirePartView::Text { text }],
        ContentBlockView::Image { source } => seq![WirePartView::ImageUrl { url: image_url_of(source) }],
        _ => Seq::empty(),
    }
}

/// The parts of a user message, in order.
pub open spec fn parts_of(blocks: Seq<ContentBlockView>) -> Seq<WirePartView>
    decreases blocks.len(),
{
    if blocks.len() == 0 {
        Seq::empty()
    } else {
        parts_of(blocks.drop_last()) + part_of(blocks.last())
    }
}

/// Whether a message holds an image.
pub open spec fn has_image(blocks: Seq<ContentBlockView>) -> bool {
    exists|i: int| 0 <= i < blocks.len() && blocks[i] is Image
}

/// A user message on the wire: parts when it holds an image, its text otherwise.
pub open spec fn wire_user(m: MessageView) -> WireMessageView {
    WireMessageView {
        role: "user"@,
        content: Some(
            if has_image(m.content) {
                WireContentView::Parts(parts_of(m.content))
            } else {
                WireContentView::Text(text_of(m.content))
            },
        ),
        tool_calls: Seq::empty(),
        tool_call_id: None,
    }
}

/// The tool call an assistant block becomes, if it is a tool use.
pub open spec fn call_of(b: ContentBlockView) -> Seq<WireToolCallView> {
    match b {
        ContentBlockView::ToolUse { id, name, args } => seq![
            WireToolCallView { id, kind: "function"@, name, arguments: args_text(args) },
        ],
        _ => Seq::empty(),
    }
}

/// The tool calls of an assistant message, in order.
pub open spec fn calls_of(blocks: Seq<ContentBlockView>) -> Seq<WireToolCallView>
    decreases blocks.len(),
{
    if blocks.len() == 0 {
        Seq::empty()
    } else {
        calls_of(blocks.drop_last()) + call_of(blocks.last())
    }
}

/// An assistant message on the wire: its text (omitted when empty) and its
/// tool calls.
pub open spec fn wire_assistant(m: MessageView) -> WireMessageView {
    WireMessageView {
        role: "assistant"@,
        content: if text_of(m.content).len() > 0 {
            Some(WireContentView::Text(text_of(m.content)))
        } else {
            None
        },
        tool_calls: calls_of(m.content),
        tool_call_id: None,
    }
}

/// The tool message a tool-result block becomes.
pub open spec fn result_of(b: ContentBlockView) -> Seq<WireMessageView> {
    match b {
        ContentBlockView::ToolResult { tool_use_id, content, .. } => seq![
            WireMessageView {
                role: "tool"@,
                content: Some(WireContentView::Text(content)),
                tool_calls: Seq::empty(),
                tool_call_id: Some(tool_use_id),
            },
        ],
        _ => Seq::empty(),
    }
}

/// The tool messages of a tool-role message: one per tool result, in order.
pub open spec fn results_of(blocks: Seq<ContentBlockView>) -> Seq<WireMessageView>
    decreases blocks.len(),
{
    if blocks.len() == 0 {
        Seq::empty()
    } else {
        results_of(blocks.drop_last()) + result_of(blocks.last())
    }
}

/// The wire messages one domain message becomes.
pub open spec fn wire_of_message(m: MessageView) -> Seq<WireMessageView> {
    match m.role {
        Role::User => seq![wire_user(m)],
        Role::Assistant => seq![wire_assistant(m)],
        Role::Tool => results_of(m.content),
    }
}

/// The wire messages of a transcript, in order.
pub open spec fn wire_of_messages(msgs: Seq<MessageView>) -> Seq<WireMessageView>
    decreases msgs.len(),
{
    if msgs.len() == 0 {
        Seq::empty()
    } else {
        wire_of_messages(msgs.drop_last()) + wire_of_message(msgs.last())
    }
}

/// The system message, if the request has a system prompt.
pub open spec fn system_of(r: ChatRequestView) -> Seq<WireMessageView> {
    match r.system {
        Some(s) => seq![
            WireMessageView {
                role: "system"@,
                content: Some(WireContentView::Text(s)),
                tool_calls: Seq::empty(),
                tool_call_id: None,
            },
        ],
        None => Seq::empty(),
    }
}

/// The wire messages of a request: the system prompt first, then the
/// transcript.
pub open spec fn wire_messages(r: ChatRequestView) -> Seq<WireMessageView> {
    system_of(r) + wire_of_messages(r.messages)
}

/// The user wire message.
pub fn user_message(message: &Message) -> (w: WireMessage)
    ensures
        w@ == wire_user(message@),
{
    let blocks = &message.content;
    let ghost bv = message@.content;
    let mut has: bool = false;
    let mut i: usize = 0;
    while i < blocks.len()
        invariant
            i <= blocks.len(),
            bv == blocks.deep_view(),
            has == exists|j: int| 0 <= j < i && bv[j] is Image,
        decreases blocks.len() - i,
    {
        match &blocks[i] {
            ContentBlock::Image { .. } => {
                assert(bv[i as int] is Image);
                has = true;
            },
            _ => {},
        }
        i = i + 1;
    }
    let content = if has {
        let mut parts: Vec<WirePart> = Vec::new();
        let mut k: usize = 0;
        while k < blocks.len()
            invariant
                k <= blocks.len(),
                bv == blocks.deep_view(),
                parts.deep_view() == parts_of(bv.take(k as int)),
            decreases blocks.len() - k,
        {
            proof {
                assert(bv.take(k + 1).drop_last() =~= bv.take(k as int));
            }
            let ghost before = parts.deep_view();
            match &blocks[k] {
                ContentBlock::Text { text } => {
                    parts.push(WirePart::Text { text: text.clone() });
                },
                ContentBlock::Image { source } => {
                    parts.push(WirePart::ImageUrl { url: image_url(source) });
                },
                _ => {},
            }
            proof {
                assert(parts.deep_view() =~= before + part_of(bv[k as int]));
            }
            k = k + 1;
        }
        proof {
            assert(bv.take(blocks.len() as int) =~= bv);
        }
        WireContent::Parts(parts)
    } else {
        WireContent::Text(message.text())
    };
    let w = WireMessage {
        role: String::from_str("user"),
        content: Some(content),
        tool_calls: Vec::new(),
        tool_call_id: None,
    };
    assert(w@ =~= wire_user(message@));
    w
}

/// The assistant wire message.
pub fn assistant_message(message: &Message) -> (w: WireMessage)
    ensures
        w@ == wire_assistant(message@),
{
    let blocks = &message.content;
    let ghost bv = message@.content;
    let mut text = String::new();
    let mut calls: Vec<WireToolCall> = Vec::new();
    let mut i: usize = 0;
    while i < blocks.len()
        invariant
            i <= blocks.len(),
            bv == blocks.deep_view(),
            text@ == text_of(bv.take(i as int)),
            calls.deep_view() == calls_of(bv.take(i as int)),
        decreases blocks.len() - i,
    {
        proof {
            assert(bv.take(i + 1).drop_last() =~= bv.take(i as int));
        }
        let ghost before = calls.deep_view();
        match &blocks[i] {
            ContentBlock::Text { text: t } => {
                text.append(t.as_str());
            },
            ContentBlock::ToolUse { id, name, args } => {
                calls.push(
                    WireToolCall {
                        id: id.clone(),
                        kind: String::from_str("function"),
                        name: name.clone(),
                        arguments: normalize_args(args.as_str()),
                    },
                );
            },
            _ => {},
        }
        proof {
            assert(calls.deep_view() =~= before + call_of(bv[i as int]));
        }
        i = i + 1;
    }
    proof {
        assert(bv.take(blocks.len() as int) =~= bv);
    }
    let content = if text.unicode_len() > 0 {
        Some(WireContent::Text(text))
    } else {
        None
    };
    let w = WireMessage {
        role: String::from_str("assistant"),
        content,
        tool_calls: calls,
        tool_call_id: None,
    };
    assert(w@ =~= wire_assistant(message@));
    w
}

/// Appends the tool messages of a tool-role message.
fn push_tool_results(out: &mut Vec<WireMessage>, message: &Message)
    ensures
        final(out).deep_view() == old(out).deep_view() + results_of(message@.content),
{
    let blocks = &message.content;
    let ghost bv = message@.content;
    let ghost start = out.deep_view();
    let mut i: usize = 0;
    while i < blocks.len()
        invariant
            i <= blocks.len(),
            bv == blocks.deep_view(),
            out.deep_view() == start + results_of(bv.take(i as int)),
        decreases blocks.len() - i,
    {
        proof {
            assert(bv.take(i + 1).drop_last() =~= bv.take(i as int));
        }
        let ghost before = out.deep_view();
        match &blocks[i] {
            ContentBlock::ToolResult { tool_use_id, content, .. } => {
                let wm = WireMessage {
                    role: String::from_str("tool"),
                    content: Some(WireContent::Text(content.clone())),
                    tool_calls: Vec::new(),
                    tool_call_id: Some(tool_use_id.clone()),
                };
                assert(wm.tool_calls.deep_view() =~= Seq::<WireToolCallView>::empty());
                out.push(wm);
                proof {
                    assert(out.deep_view() =~= before + result_of(bv[i as int]));
                }
            },
            _ => {
                assert(out.deep_view() =~= before + result_of(bv[i as int]));
            },
        }
        proof {
            assert(start + results_of(bv.take(i + 1)) =~= start + results_of(bv.take(i as int))
                + result_of(bv[i as int]));
        }
        i = i + 1;
    }
    proof {
        assert(bv.take(blocks.len() as int) =~= bv);
    }
}

/// The wire messages of a request: the system prompt, then each message.
pub fn to_wire_messages(request: &ChatRequest) -> (w: Vec<WireMessage>)
    ensures
        w.deep_view() == wire_messages(request@),
{
    let mut out: Vec<WireMessage> = Vec::new();
    match &request.system {
        Some(system) => {
            let wm = WireMessage {
                role: String::from_str("system"),
                content: Some(WireContent::Text(system.clone())),
                tool_calls: Vec::new(),
                tool_call_id: None,
            };
            assert(wm.tool_calls.deep_view() =~= Seq::<WireToolCallView>::empty());
            out.push(wm);
        },
        None => {},
    }
    proof {
        assert(out.deep_view() =~= system_of(request@));
    }
    let msgs = &request.messages;
    let ghost mv = request@.messages;
    let mut i: usize = 0;
    while i < msgs.len()
        invariant
            i <= msgs.len(),
            mv == msgs.deep_view(),
            out.deep_view() == system_of(request@) + wire_of_messages(mv.take(i as int)),
        decreases msgs.len() - i,
    {
        proof {
            assert(mv.take(i + 1).drop_last() =~= mv.take(i as int));
        }
        let ghost before = out.deep_view();
        let m = &msgs[i];
        match m.role {
            Role::User => {
                out.push(user_message(m));
            },
            Role::Assistant => {
                out.push(assistant_message(m));
            },
            Role::Tool => {
                push_tool_results(&mut out, m);
            },
        }
        proof {
            assert(out.deep_view() =~= before + wire_of_message(mv[i as int]));
        }
        i = i + 1;
    }
    proof {
        assert(mv.take(msgs.len() as int) =~= mv);
    }
    out
}

/// A tool declaration on the wire.
pub open spec fn wire_tool(t: ToolDefView) -> WireToolView {
    WireToolView {
        kind: "function"@,
        name: t.name,
        description: t.description,
        parameters: t.parameters,
        strict: t.strict,
    }
}

/// The wire form of a tool declaration.
pub fn to_wire_tool(tool: &ToolDef) -> (w: WireTool)
    ensures
        w@ == wire_tool(tool@),
{
    WireTool {
        kind: String::from_str("function"),
        name: tool.name.clone(),
        description: tool.description.clone(),
        parameters: tool.parameters.clone(),
        strict: tool.strict,
    }
}

/// A tool choice on the wire.
pub open spec fn wire_tool_choice(c: ToolChoiceView) -> WireToolChoiceView {
    match c {
        ToolChoiceView::Auto => WireToolChoiceView::Mode("auto"@),
        ToolChoiceView::NoTool => WireToolChoiceView::Mode("none"@),
        ToolChoiceView::Required => WireToolChoiceView::Mode("required"@),
        ToolChoiceView::Tool { name } => WireToolChoiceView::Named { kind: "function"@, name },
    }
}

/// The wire form of a tool choice.
pub fn to_wire_tool_choice(choice: &ToolChoice) -> (w: WireToolChoice)
    ensures
        w@ == wire_tool_choice(choice@),
{
    match choice {
        ToolChoice::Auto => WireToolChoice::Mode(String::from_str("auto")),
        ToolChoice::NoTool => WireToolChoice::Mode(String::from_str("none")),
        ToolChoice::Required => WireToolChoice::Mode(String::from_str("required")),
        ToolChoice::Tool { name } => WireToolChoice::Named {
            kind: String::from_str("function"),
            name: name.clone(),
        },
    }
}

/// A response format on the wire: plain text sends none.
pub open spec fn wire_response_format(f: ResponseFormatView) -> Option<WireResponseFormatView> {
    match f {
        ResponseFormatView::Text => None,
        ResponseFormatView::JsonObject => Some(WireResponseFormatView::JsonObject),
        ResponseFormatView::JsonSchema { name, schema, strict } => Some(
            WireResponseFormatView::JsonSchema { name, schema, strict },
        ),
    }
}

/// The wire form of a response format (`None` for plain text).
pub fn to_wire_response_format(format: &ResponseFormat) -> (w: Option<WireResponseFormat>)
    ensures
        w.deep_view() == wire_response_format(format@),
        w is None <==> format@ is Text,
        format@ is JsonObject ==> w.deep_view() == Some(WireResponseFormatView::JsonObject),
        format@ matches ResponseFormatView::JsonSchema { name, schema, strict } ==> w.deep_view()
            == Some(WireResponseFormatView::JsonSchema { name, schema, strict }),
{
    proof {
        law_response_format_reaches_wire(format@);
    }
    match format {
        ResponseFormat::Text => None,
        ResponseFormat::JsonObject => Some(WireResponseFormat::JsonObject),
        ResponseFormat::JsonSchema { name, schema, strict } => Some(
            WireResponseFormat::JsonSchema {
                name: name.clone(),
                schema: schema.clone(),
                strict: *strict,
            },
        ),
    }
}

/// The wire tools of a request, in order.
pub open spec fn wire_tools(tools: Seq<ToolDefView>) -> Seq<WireToolView> {
    tools.map_values(|t: ToolDefView| wire_tool(t))
}

/// The response format a request sends, if any.
pub open spec fn sent_response_format(r: ChatRequestView) -> Option<WireResponseFormatView> {
    match r.response_format {
        Some(f) => wire_response_format(f),
        None => None,
    }
}

/// Whether the typed body already carries a field named `k`: `model`,
/// `messages` and `stream` always; the optional fields when they are sent.
pub open spec fn body_has_key(r: ChatRequestView, stream: bool, k: Seq<char>) -> bool {
    ||| k == "model"@
    ||| k == "messages"@
    ||| k == "stream"@
    ||| k == "max_tokens"@ && r.max_tokens is Some
    ||| k == "temperature"@ && r.temperature_bits is Some
    ||| k == "top_p"@ && r.top_p_bits is Some
    ||| k == "stop"@ && r.stop.len() > 0
    ||| k == "tools"@ && r.tools.len() > 0
    ||| k == "tool_choice"@ && r.tool_choice is Some
    ||| k == "response_format"@ && sent_response_format(r) is Some
    ||| k == "stream_options"@ && stream
}

/// The passthrough fields that reach the body: typed fields win, and of two
/// entries with one key the first wins.
pub open spec fn extra_fill(r: ChatRequestView, stream: bool, entries: Seq<ExtraEntry>) -> Seq<
    ExtraEntry,
>
    decreases entries.len(),
{
    if entries.len() == 0 {
        Seq::empty()
    } else {
        let prev = extra_fill(r, stream, entries.drop_last());
        let e = entries.last();
        if body_has_key(r, stream, e.0) || find_key(prev, e.0) is Some {
            prev
        } else {
            prev.push(e)
        }
    }
}

/// The request body for `model`.
pub open spec fn wire_request(model: Seq<char>, r: ChatRequestView, stream: bool) -> WireRequestView {
    WireRequestView {
        model,
        messages: wire_messages(r),
        max_tokens: r.max_tokens,
        temperature_bits: r.temperature_bits,
        top_p_bits: r.top_p_bits,
        stop: if r.stop.len() == 0 {
            None
        } else {
            Some(r.stop)
        },
        tools: wire_tools(r.tools),
        tool_choice: match r.tool_choice {
            Some(c) => Some(wire_tool_choice(c)),
            None => None,
        },
        response_format: sent_response_format(r),
        stream,
        stream_options: if stream {
            Some(true)
        } else {
            None
        },
        extra: extra_fill(r, stream, r.extra),
    }
}

/// Whether the typed body already carries a field named `key`.
fn body_key_taken(request: &ChatRequest, stream: bool, key: &str) -> (b: bool)
    ensures
        b == body_has_key(request@, stream, key@),
{
    let sent_format = match &request.response_format {
        Some(f) => match f {
            ResponseFormat::Text => false,
            _ => true,
        },
        None => false,
    };
    same_text(key, "model") || same_text(key, "messages") || same_text(key, "stream") || (
    same_text(key, "max_tokens") && request.max_tokens.is_some()) || (same_text(
        key,
        "temperature",
    ) && request.temperature_bits.is_some()) || (same_text(key, "top_p")
        && request.top_p_bits.is_some()) || (same_text(key, "stop") && request.stop.len() > 0) || (
    same_text(key, "tools") && request.tools.len() > 0) || (same_text(key, "tool_choice")
        && request.tool_choice.is_some()) || (same_text(key, "response_format") && sent_format) || (
    same_text(key, "stream_options") && stream)
}

/// The passthrough fields that reach the body (see [`extra_fill`]).
fn fill_extra(request: &ChatRequest, stream: bool) -> (out: Vec<(String, String)>)
    ensures
        out.deep_view() == extra_fill(request@, stream, request@.extra),
{
    let entries = &request.extra;
    let ghost ev = request@.extra;
    let mut out: Vec<(String, String)> = Vec::new();
    let mut i: usize = 0;
    assert(out.deep_view() =~= Seq::<ExtraEntry>::empty());
    while i < entries.len()
        invariant
            i <= entries.len(),
            ev == entries.deep_view(),
            ev == request@.extra,
            out.deep_view() == extra_fill(request@, stream, ev.take(i as int)),
        decreases entries.len() - i,
    {
        proof {
            assert(ev.take(i + 1).drop_last() =~= ev.take(i as int));
        }
        let key = entries[i].0.as_str();
        let taken = body_key_taken(request, stream, key);
        let seen = find_entry(&out, key);
        assert(ev[i as int].0 == key@);
        if !taken && seen.is_none() {
            let ghost before = out.deep_view();
            out.push((entries[i].0.clone(), entries[i].1.clone()));
            assert(out.deep_view() =~= before.push(ev[i as int]));
        }
        i = i + 1;
    }
    proof {
        assert(ev.take(entries.len() as int) =~= ev);
    }
    out
}

/// The chat-completions body for `model`: the request's messages and
/// parameters, stop sequences only when there are any, tools only when there
/// are any, `stream_options.include_usage` only when streaming, and the
/// passthrough fields that name no field already present.
pub fn build_body(model: &str, request: &ChatRequest, stream: bool) -> (w: WireRequest)
    ensures
        w@ == wire_request(model@, request@, stream),
        w@.model == model@,
        w@.max_tokens == request@.max_tokens,
        w@.temperature_bits == request@.temperature_bits,
        w@.top_p_bits == request@.top_p_bits,
        w@.stream == stream,
        w@.response_format is Some <==> (request@.response_format matches Some(f) && !(f is Text)),
        request@.response_format == Some(ResponseFormatView::JsonObject) ==> w@.response_format
            == Some(WireResponseFormatView::JsonObject),
{
    proof {
        law_body_carries_request_settings(model@, request@, stream);
    }
    let mut tools: Vec<WireTool> = Vec::new();
    let mut i: usize = 0;
    while i < request.tools.len()
        invariant
            i <= request.tools.len(),
            tools@.len() == i,
            forall|j: int| 0 <= j < i ==> (#[trigger] tools@[j])@ == wire_tool(request@.tools[j]),
        decreases request.tools.len() - i,
    {
        tools.push(to_wire_tool(&request.tools[i]));
        i = i + 1;
    }
    assert(tools.deep_view() =~= wire_tools(request@.tools));
    let stop = if request.stop.len() == 0 {
        None
    } else {
        Some(clone_strings(&request.stop))
    };
    let tool_choice = match &request.tool_choice {
        Some(c) => Some(to_wire_tool_choice(c)),
        None => None,
    };
    let response_format = match &request.response_format {
        Some(f) => to_wire_response_format(f),
        None => None,
    };
    let w = WireRequest {
        model: String::from_str(model),
        messages: to_wire_messages(request),
        max_tokens: request.max_tokens,
        temperature_bits: request.temperature_bits,
        top_p_bits: request.top_p_bits,
        stop,
        tools,
        tool_choice,
        response_format,
        stream,
        stream_options: if stream {
            Some(true)
        } else {
            None
        },
        extra: fill_extra(request, stream),
    };
    assert(w@ =~= wire_request(model@, request@, stream));
    w
}


// ---------------------------------------------------------------------------
// Response: wire -> domain
// ---------------------------------------------------------------------------

/// Token counts as the provider reports them (the nested detail objects
/// flattened to their one field each).
#[derive(Debug, Clone, Copy, PartialEq, Eq, Structural)]
pub struct WireUsage {
    pub prompt_tokens: u32,
    pub completion_tokens: u32,
    /// `prompt_tokens_details.cached_tokens`.
    pub cached_tokens: Option<u32>,
    /// `completion_tokens_details.reasoning_tokens`.
    pub reasoning_tokens: Option<u32>,
}

/// A tool call in a completion (`function` flattened).
#[derive(Debug, PartialEq)]
pub struct RespToolCall {
    pub id: String,
    pub name: String,
    /// Arguments as the provider sent them (JSON text, possibly malformed).
    pub arguments: String,
}

/// One choice of a completion (`message` flattened).
#[derive(Debug, PartialEq)]
pub struct RespChoice {
    pub content: Option<String>,
    pub tool_calls: Vec<RespToolCall>,
    pub finish_reason: Option<String>,
}

/// A chat-completions response body.
#[derive(Debug, PartialEq)]
pub struct ChatCompletion {
    pub model: Option<String>,
    pub choices: Vec<RespChoice>,
    pub usage: Option<WireUsage>,
}

/// The mathematical model of a [`RespToolCall`].
pub struct RespToolCallView {
    pub id: Seq<char>,
    pub name: Seq<char>,
    pub arguments: Seq<char>,
}

/// The mathematical model of a [`RespChoice`].
pub struct RespChoiceView {
    pub content: Option<Seq<char>>,
    pub tool_calls: Seq<RespToolCallView>,
    pub finish_reason: Option<Seq<char>>,
}

/// The mathematical model of a [`ChatCompletion`].
pub struct ChatCompletionView {
    pub model: Option<Seq<char>>,
    pub choices: Seq<RespChoiceView>,
    pub usage: Option<WireUsage>,
}

impl View for RespToolCall {
    type V = RespToolCallView;

    open spec fn view(&self) -> RespToolCallView {
        RespToolCallView { id: self.id@, name: self.name@, arguments: self.arguments@ }
    }
}

impl DeepView for RespToolCall {
    type V = RespToolCallView;

    open spec fn deep_view(&self) -> RespToolCallView {
        self@
    }
}

impl View for RespChoice {
    type V = RespChoiceView;

    open spec fn view(&self) -> RespChoiceView {
        RespChoiceView {
            content: self.content.deep_view(),
            tool_calls: self.tool_calls.deep_view(),
            finish_reason: self.finish_reason.deep_view(),
        }
    }
}

impl DeepView for RespChoice {
    type V = RespChoiceView;

    open spec fn deep_view(&self) -> RespChoiceView {
        self@
    }
}

impl View for ChatCompletion {
    type V = ChatCompletionView;

    open spec fn view(&self) -> ChatCompletionView {
        ChatCompletionView {
            model: self.model.deep_view(),
            choices: self.choices.deep_view(),
            usage: self.usage,
        }
    }
}

/// The usage a provider report stands for. Cache writes are not reported by
/// this API.
pub open spec fn usage_of(u: WireUsage) -> Usage {
    Usage {
        input_tokens: u.prompt_tokens,
        output_tokens: u.completion_tokens,
        cache_read_input_tokens: u.cached_tokens,
        cache_creation_input_tokens: None,
        reasoning_tokens: u.reasoning_tokens,
    }
}

/// The usage a provider report stands for.
pub fn usage_from_wire(usage: &WireUsage) -> (u: Usage)
    ensures
        u == usage_of(*usage),
{
    Usage {
        input_tokens: usage.prompt_tokens,
        output_tokens: usage.completion_tokens,
        cache_read_input_tokens: usage.cached_tokens,
        cache_creation_input_tokens: None,
        reasoning_tokens: usage.reasoning_tokens,
    }
}

/// The stop reason a `finish_reason` names; unknown values are kept verbatim.
pub open spec fn finish_reason_of(reason: Seq<char>) -> StopReasonView {
    if reason == "stop"@ {
        StopReasonView::EndTurn
    } else if reason == "length"@ {
        StopReasonView::MaxTokens
    } else if reason == "tool_calls"@ || reason == "function_call"@ {
        StopReasonView::ToolUse
    } else if reason == "content_filter"@ {
        StopReasonView::Refusal
    } else {
        StopReasonView::Other(reason)
    }
}

/// Maps an OpenAI `finish_reason` to a stop reason.
pub fn map_finish_reason(reason: &str) -> (r: StopReason)
    ensures
        r@ == finish_reason_of(reason@),
{
    if same_text(reason, "stop") {
        StopReason::EndTurn
    } else if same_text(reason, "length") {
        StopReason::MaxTokens
    } else if same_text(reason, "tool_calls") || same_text(reason, "function_call") {
        StopReason::ToolUse
    } else if same_text(reason, "content_filter") {
        StopReason::Refusal
    } else {
        StopReason::Other(String::from_str(reason))
    }
}

/// The tool-use block a completion's tool call becomes: arguments that are not
/// JSON become an empty object.
pub open spec fn tool_use_of(c: RespToolCallView) -> ContentBlockView {
    ContentBlockView::ToolUse { id: c.id, name: c.name, args: args_text(c.arguments) }
}

/// The text block of a completion, when it has non-empty text.
pub open spec fn text_block_of(content: Option<Seq<char>>) -> Seq<ContentBlockView> {
    match content {
        Some(t) => if t.len() > 0 {
            seq![ContentBlockView::Text { text: t }]
        } else {
            Seq::empty()
        },
        None => Seq::empty(),
    }
}

/// The content of the assistant message a choice becomes: its text, then its
/// tool calls in order.
pub open spec fn choice_blocks(c: RespChoiceView) -> Seq<ContentBlockView> {
    text_block_of(c.content) + c.tool_calls.map_values(|t: RespToolCallView| tool_use_of(t))
}

/// The response a completion stands for: the first choice (an empty message
/// when there is none), the usage (zero when unreported), the first choice's
/// finish reason, the model and the raw body.
pub open spec fn completion_response(c: ChatCompletionView, raw: Seq<char>) -> ChatResponseView {
    ChatResponseView {
        message: MessageView {
            role: Role::Assistant,
            content: if c.choices.len() > 0 {
                choice_blocks(c.choices[0])
            } else {
                Seq::empty()
            },
        },
        usage: match c.usage {
            Some(u) => usage_of(u),
            None => zero_usage(),
        },
        stop_reason: if c.choices.len() > 0 {
            match c.choices[0].finish_reason {
                Some(r) => Some(finish_reason_of(r)),
                None => None,
            }
        } else {
            None
        },
        model: c.model,
        raw,
    }
}

/// Tool-use blocks made from a completion's calls carry no text, and each is
/// exactly its call.
proof fn lemma_tool_use_blocks(calls: Seq<RespToolCallView>)
    ensures
        text_of(calls.map_values(|t: RespToolCallView| tool_use_of(t))) == Seq::<char>::empty(),
        tool_calls_of(calls.map_values(|t: RespToolCallView| tool_use_of(t))) == calls.map_values(
            |t: RespToolCallView| (t.id, t.name, args_text(t.arguments)),
        ),
    decreases calls.len(),
{
    let m = calls.map_values(|t: RespToolCallView| tool_use_of(t));
    if calls.len() == 0 {
        assert(m.len() == 0);
        assert(calls.map_values(|t: RespToolCallView| (t.id, t.name, args_text(t.arguments)))
            =~= Seq::<ToolCallView>::empty());
    } else {
        lemma_tool_use_blocks(calls.drop_last());
        assert(m.drop_last() =~= calls.drop_last().map_values(
            |t: RespToolCallView| tool_use_of(t),
        ));
        assert(tool_calls_of(m) =~= calls.map_values(
            |t: RespToolCallView| (t.id, t.name, args_text(t.arguments)),
        ));
        assert(text_of(m) =~= Seq::<char>::empty());
    }
}

/// A parsed completion keeps every tool call of its first choice: the response
/// holds exactly one tool call per call of that choice, in order, each with
/// its id, name and arguments (normalized as JSON), and its text is that
/// choice's text; a completion without choices gives an empty message.
pub proof fn law_completion_keeps_every_tool_call(c: ChatCompletionView, raw: Seq<char>)
    ensures
        c.choices.len() > 0 ==> tool_calls_of(completion_response(c, raw).message.content)
            == c.choices[0].tool_calls.map_values(
            |t: RespToolCallView| (t.id, t.name, args_text(t.arguments)),
        ),
        c.choices.len() > 0 ==> text_of(completion_response(c, raw).message.content) == match c.choices[0].content {
            Some(t) => t,
            None => Seq::<char>::empty(),
        },
        c.choices.len() == 0 ==> completion_response(c, raw).message.content.len() == 0,
{
    if c.choices.len() > 0 {
        let ch = c.choices[0];
        let head = text_block_of(ch.content);
        let tools = ch.tool_calls.map_values(|t: RespToolCallView| tool_use_of(t));
        assert(completion_response(c, raw).message.content == head + tools);
        lemma_tool_calls_of_concat(head, tools);
        lemma_text_of_concat(head, tools);
        lemma_tool_use_blocks(ch.tool_calls);
        if head.len() > 0 {
            assert(head.drop_last() =~= Seq::<ContentBlockView>::empty());
            assert(tool_calls_of(head.drop_last()) =~= Seq::<ToolCallView>::empty());
            assert(text_of(head.drop_last()) =~= Seq::<char>::empty());
            assert(tool_calls_of(head) =~= Seq::<ToolCallView>::empty());
            assert(text_of(head) =~= block_text(head.last()));
        } else {
            assert(tool_calls_of(head) =~= Seq::<ToolCallView>::empty());
            assert(text_of(head) =~= Seq::<char>::empty());
        }
        assert(tool_calls_of(head) + tool_calls_of(tools) =~= tool_calls_of(tools));
        assert(text_of(head) + text_of(tools) =~= text_of(head));
        assert(text_of(head) =~= match ch.content {
            Some(t) => t,
            None => Seq::<char>::empty(),
        });
    }
}

/// The response a chat-completions body stands for (see
/// [`completion_response`]); `raw` is the body's JSON text.
pub fn to_chat_response(parsed: ChatCompletion, raw: String) -> (r: ChatResponse)
    ensures
        r@ == completion_response(parsed@, raw@),
        parsed@.choices.len() > 0 ==> tool_calls_of(r@.message.content)
            == parsed@.choices[0].tool_calls.map_values(
            |t: RespToolCallView| (t.id, t.name, args_text(t.arguments)),
        ),
{
    proof {
        law_completion_keeps_every_tool_call(parsed@, raw@);
    }
    let mut content: Vec<ContentBlock> = Vec::new();
    let mut stop_reason: Option<StopReason> = None;
    if parsed.choices.len() > 0 {
        let choice = &parsed.choices[0];
        let ghost cv = choice@;
        match &choice.content {
            Some(text) => {
                if text.unicode_len() > 0 {
                    content.push(ContentBlock::Text { text: text.clone() });
                }
            },
            None => {},
        }
        assert(content.deep_view() =~= text_block_of(cv.content));
        let ghost head = content.deep_view();
        let mut i: usize = 0;
        while i < choice.tool_calls.len()
            invariant
                i <= choice.tool_calls.len(),
                cv == choice@,
                content@.len() == head.len() + i,
                forall|j: int| 0 <= j < head.len() ==> (#[trigger] content@[j])@ == head[j],
                forall|j: int|
                    0 <= j < i ==> (#[trigger] content@[head.len() + j])@ == tool_use_of(
                        cv.tool_calls[j],
                    ),
            decreases choice.tool_calls.len() - i,
        {
            let call = &choice.tool_calls[i];
            content.push(
                ContentBlock::ToolUse {
                    id: call.id.clone(),
                    name: call.name.clone(),
                    args: normalize_args(call.arguments.as_str()),
                },
            );
            proof {
                assert(content@[head.len() + i]@ == tool_use_of(cv.tool_calls[i as int]));
            }
            i = i + 1;
        }
        proof {
            let want = choice_blocks(cv);
            assert forall|j: int| 0 <= j < want.len() implies content.deep_view()[j] == want[j] by {
                if j >= head.len() {
                    assert(content@[head.len() + (j - head.len())]@ == tool_use_of(
                        cv.tool_calls[j - head.len()],
                    ));
                }
            }
            assert(content.deep_view() =~= want);
        }
        stop_reason = match &choice.finish_reason {
            Some(reason) => Some(map_finish_reason(reason.as_str())),
            None => None,
        };
    } else {
        assert(content.deep_view() =~= Seq::<ContentBlockView>::empty());
    }
    let usage = match &parsed.usage {
        Some(u) => usage_from_wire(u),
        None => Usage::default(),
    };
    ChatResponse {
        message: Message { role: Role::Assistant, content },
        usage,
        stop_reason,
        model: parsed.model,
        raw,
    }
}

// ---------------------------------------------------------------------------
// Response: wire -> domain (streaming)
// ---------------------------------------------------------------------------

/// A tool-call fragment in a stream chunk (`function` flattened: a fragment
/// without a `function` object has neither name nor arguments).
#[derive(Debug, PartialEq)]
pub struct DeltaToolCall {
    pub index: usize,
    pub id: Option<String>,
    pub name: Option<String>,
    pub arguments: Option<String>,
}

/// One choice of a stream chunk (`delta` flattened).
#[derive(Debug, PartialEq)]
pub struct StreamChoice {
    pub content: Option<String>,
    pub tool_calls: Vec<DeltaToolCall>,
    pub finish_reason: Option<String>,
}

/// One server-sent chunk of a streamed completion.
#[derive(Debug, PartialEq)]
pub struct StreamChunk {
    pub choices: Vec<StreamChoice>,
    pub usage: Option<WireUsage>,
}

/// The mathematical model of a [`DeltaToolCall`].
pub struct DeltaToolCallView {
    pub index: usize,
    pub id: Option<Seq<char>>,
    pub name: Option<Seq<char>>,
    pub arguments: Option<Seq<char>>,
}

/// The mathematical model of a [`StreamChoice`].
pub struct StreamChoiceView {
    pub content: Option<Seq<char>>,
    pub tool_calls: Seq<DeltaToolCallView>,
    pub finish_reason: Option<Seq<char>>,
}

/// The mathematical model of a [`StreamChunk`].
pub struct StreamChunkView {
    pub choices: Seq<StreamChoiceView>,
    pub usage: Option<WireUsage>,
}

impl View for DeltaToolCall {
    type V = DeltaToolCallView;

    open spec fn view(&self) -> DeltaToolCallView {
        DeltaToolCallView {
            index: self.index,
            id: self.id.deep_view(),
            name: self.name.deep_view(),
            arguments: self.arguments.deep_view(),
        }
    }
}

impl DeepView for DeltaToolCall {
    type V = DeltaToolCallView;

    open spec fn deep_view(&self) -> DeltaToolCallView {
        self@
    }
}

impl View for StreamChoice {
    type V = StreamChoiceView;

    open spec fn view(&self) -> StreamChoiceView {
        StreamChoiceView {
            content: self.content.deep_view(),
            tool_calls: self.tool_calls.deep_view(),
            finish_reason: self.finish_reason.deep_view(),
        }
    }
}

impl DeepView for StreamChoice {
    type V = StreamChoiceView;

    open spec fn deep_view(&self) -> StreamChoiceView {
        self@
    }
}

impl View for StreamChunk {
    type V = StreamChunkView;

    open spec fn view(&self) -> StreamChunkView {
        StreamChunkView { choices: self.choices.deep_view(), usage: self.usage }
    }
}

/// The events of a tool-call fragment: a start when it carries both an id and a
/// name, then an arguments delta when it carries non-empty arguments.
pub open spec fn delta_call_events(c: DeltaToolCallView) -> Seq<StreamEventView> {
    (match (c.id, c.name) {
        (Some(id), Some(name)) => seq![StreamEventView::ToolCallStart { index: c.index, id, name }],
        _ => Seq::empty(),
    }) + (match c.arguments {
        Some(a) => if a.len() > 0 {
            seq![StreamEventView::ToolCallArgsDelta { index: c.index, delta: a }]
        } else {
            Seq::empty()
        },
        None => Seq::empty(),
    })
}

/// The events of a choice's tool-call fragments, in order.
pub open spec fn calls_events(calls: Seq<DeltaToolCallView>) -> Seq<StreamEventView>
    decreases calls.len(),
{
    if calls.len() == 0 {
        Seq::empty()
    } else {
        calls_events(calls.drop_last()) + delta_call_events(calls.last())
    }
}

/// The events of one choice: its non-empty text, its tool-call fragments, then
/// its finish reason.
pub open spec fn choice_events(c: StreamChoiceView) -> Seq<StreamEventView> {
    text_events(c.content) + calls_events(c.tool_calls) + stop_events(c.finish_reason)
}

/// A text delta for non-empty text.
pub open spec fn text_events(content: Option<Seq<char>>) -> Seq<StreamEventView> {
    match content {
        Some(t) => if t.len() > 0 {
            seq![StreamEventView::TextDelta(t)]
        } else {
            Seq::empty()
        },
        None => Seq::empty(),
    }
}

/// A stop event for a reported finish reason.
pub open spec fn stop_events(reason: Option<Seq<char>>) -> Seq<StreamEventView> {
    match reason {
        Some(r) => seq![StreamEventView::Stop(finish_reason_of(r))],
        None => Seq::empty(),
    }
}

/// The events of a chunk's choices, in order.
pub open spec fn choices_events(choices: Seq<StreamChoiceView>) -> Seq<StreamEventView>
    decreases choices.len(),
{
    if choices.len() == 0 {
        Seq::empty()
    } else {
        choices_events(choices.drop_last()) + choice_events(choices.last())
    }
}

/// The events a chunk stands for: those of its choices, then its usage.
pub open spec fn chunk_events(c: StreamChunkView) -> Seq<StreamEventView> {
    choices_events(c.choices) + (match c.usage {
        Some(u) => seq![StreamEventView::Usage(usage_of(u))],
        None => Seq::empty(),
    })
}

/// The `(id, name)` of every tool-call fragment that carries both, in order.
pub open spec fn fragment_starts(calls: Seq<DeltaToolCallView>) -> Seq<(Seq<char>, Seq<char>)>
    decreases calls.len(),
{
    if calls.len() == 0 {
        Seq::empty()
    } else {
        fragment_starts(calls.drop_last()) + match (calls.last().id, calls.last().name) {
            (Some(id), Some(name)) => seq![(id, name)],
            _ => Seq::empty(),
        }
    }
}

/// The `(id, name)` of every tool-call fragment that carries both, over all
/// choices in order.
pub open spec fn chunk_starts(choices: Seq<StreamChoiceView>) -> Seq<(Seq<char>, Seq<char>)>
    decreases choices.len(),
{
    if choices.len() == 0 {
        Seq::empty()
    } else {
        chunk_starts(choices.drop_last()) + fragment_starts(choices.last().tool_calls)
    }
}

/// The `(index, arguments)` of every tool-call fragment with non-empty
/// arguments, in order.
pub open spec fn fragment_args(calls: Seq<DeltaToolCallView>) -> Seq<(usize, Seq<char>)>
    decreases calls.len(),
{
    if calls.len() == 0 {
        Seq::empty()
    } else {
        fragment_args(calls.drop_last()) + match calls.last().arguments {
            Some(a) => if a.len() > 0 {
                seq![(calls.last().index, a)]
            } else {
                Seq::empty()
            },
            None => Seq::empty(),
        }
    }
}

/// The arguments fragments of every choice, in order.
pub open spec fn chunk_args(choices: Seq<StreamChoiceView>) -> Seq<(usize, Seq<char>)>
    decreases choices.len(),
{
    if choices.len() == 0 {
        Seq::empty()
    } else {
        chunk_args(choices.drop_last()) + fragment_args(choices.last().tool_calls)
    }
}

/// The text of every choice (none when absent), concatenated in order.
pub open spec fn chunk_text(choices: Seq<StreamChoiceView>) -> Seq<char>
    decreases choices.len(),
{
    if choices.len() == 0 {
        Seq::empty()
    } else {
        chunk_text(choices.drop_last()) + match choices.last().content {
            Some(t) => t,
            None => Seq::empty(),
        }
    }
}

/// What an empty or one-event sequence contributes to the text, the
/// arguments deltas and the started calls.
proof fn lemma_small_events(e: Seq<StreamEventView>)
    requires
        e.len() <= 1,
    ensures
        e.len() == 0 ==> text_deltas(e) == Seq::<char>::empty() && args_deltas(e) == Seq::<
            (usize, Seq<char>),
        >::empty() && started_calls(e) == Seq::<(Seq<char>, Seq<char>)>::empty(),
        e.len() == 1 ==> e == seq![e[0]],
{
    if e.len() == 1 {
        assert(e =~= seq![e[0]]);
    } else {
        assert(text_deltas(e) =~= Seq::<char>::empty());
        assert(args_deltas(e) =~= Seq::<(usize, Seq<char>)>::empty());
        assert(started_calls(e) =~= Seq::<(Seq<char>, Seq<char>)>::empty());
    }
}

/// The text and arguments a fragment's events carry: no text, and its
/// arguments when they are non-empty.
proof fn lemma_fragment_deltas(c: DeltaToolCallView)
    ensures
        text_deltas(delta_call_events(c)) == Seq::<char>::empty(),
        args_deltas(delta_call_events(c)) == match c.arguments {
            Some(a) => if a.len() > 0 {
                seq![(c.index, a)]
            } else {
                Seq::<(usize, Seq<char>)>::empty()
            },
            None => Seq::<(usize, Seq<char>)>::empty(),
        },
{
    let head: Seq<StreamEventView> = match (c.id, c.name) {
        (Some(id), Some(name)) => seq![StreamEventView::ToolCallStart { index: c.index, id, name }],
        _ => Seq::empty(),
    };
    let tail: Seq<StreamEventView> = match c.arguments {
        Some(a) => if a.len() > 0 {
            seq![StreamEventView::ToolCallArgsDelta { index: c.index, delta: a }]
        } else {
            Seq::empty()
        },
        None => Seq::empty(),
    };
    assert(delta_call_events(c) == head + tail);
    lemma_deltas_concat(head, tail);
    lemma_small_events(head);
    lemma_small_events(tail);
    if head.len() == 1 {
        lemma_deltas_single(head[0]);
    }
    if tail.len() == 1 {
        lemma_deltas_single(tail[0]);
    }
    assert(text_deltas(head) + text_deltas(tail) =~= Seq::<char>::empty());
    assert(args_deltas(head) + args_deltas(tail) =~= args_deltas(tail));
}

/// The text and arguments of a choice's fragments.
proof fn lemma_calls_deltas(calls: Seq<DeltaToolCallView>)
    ensures
        text_deltas(calls_events(calls)) == Seq::<char>::empty(),
        args_deltas(calls_events(calls)) == fragment_args(calls),
    decreases calls.len(),
{
    if calls.len() == 0 {
        lemma_small_events(calls_events(calls));
        assert(fragment_args(calls) =~= Seq::<(usize, Seq<char>)>::empty());
    } else {
        lemma_calls_deltas(calls.drop_last());
        lemma_deltas_concat(calls_events(calls.drop_last()), delta_call_events(calls.last()));
        lemma_fragment_deltas(calls.last());
        assert(text_deltas(calls_events(calls)) =~= Seq::<char>::empty());
        assert(args_deltas(calls_events(calls)) =~= fragment_args(calls));
    }
}

/// The text and arguments of a chunk's choices, choice by choice.
proof fn lemma_choices_deltas(choices: Seq<StreamChoiceView>)
    ensures
        text_deltas(choices_events(choices)) == chunk_text(choices),
        args_deltas(choices_events(choices)) == chunk_args(choices),
    decreases choices.len(),
{
    if choices.len() == 0 {
        lemma_small_events(choices_events(choices));
        assert(chunk_text(choices) =~= Seq::<char>::empty());
        assert(chunk_args(choices) =~= Seq::<(usize, Seq<char>)>::empty());
    } else {
        let c = choices.last();
        let t = text_events(c.content);
        let m = calls_events(c.tool_calls);
        let z = stop_events(c.finish_reason);
        lemma_choices_deltas(choices.drop_last());
        lemma_deltas_concat(choices_events(choices.drop_last()), choice_events(c));
        lemma_deltas_concat(t + m, z);
        lemma_deltas_concat(t, m);
        lemma_calls_deltas(c.tool_calls);
        lemma_small_events(t);
        lemma_small_events(z);
        if t.len() == 1 {
            lemma_deltas_single(t[0]);
        }
        if z.len() == 1 {
            lemma_deltas_single(z[0]);
        }
        let own: Seq<char> = match c.content {
            Some(x) => x,
            None => Seq::empty(),
        };
        assert(text_deltas(t) =~= own);
        assert(text_deltas(choice_events(c)) =~= own);
        assert(args_deltas(choice_events(c)) =~= fragment_args(c.tool_calls));
        assert(text_deltas(choices_events(choices)) =~= chunk_text(choices));
        assert(args_deltas(choices_events(choices)) =~= chunk_args(choices));
    }
}

/// A chunk loses no text and no arguments: its text deltas are the text of
/// every choice concatenated in order, and its arguments deltas are the
/// non-empty arguments of every fragment of every choice, in order, each at
/// its fragment's index.
pub proof fn law_chunk_keeps_text_and_arguments(c: StreamChunkView)
    ensures
        text_deltas(chunk_events(c)) == chunk_text(c.choices),
        args_deltas(chunk_events(c)) == chunk_args(c.choices),
{
    let usage: Seq<StreamEventView> = match c.usage {
        Some(u) => seq![StreamEventView::Usage(usage_of(u))],
        None => Seq::empty(),
    };
    assert(chunk_events(c) == choices_events(c.choices) + usage);
    lemma_deltas_concat(choices_events(c.choices), usage);
    lemma_small_events(usage);
    if usage.len() == 1 {
        lemma_deltas_single(usage[0]);
    }
    lemma_choices_deltas(c.choices);
    assert(text_deltas(chunk_events(c)) =~= chunk_text(c.choices));
    assert(args_deltas(chunk_events(c)) =~= chunk_args(c.choices));
}

/// A text delta, a stop or a usage report starts no call.
proof fn lemma_no_starts(e: Seq<StreamEventView>)
    requires
        e.len() <= 1,
        e.len() == 1 ==> !(e[0] is ToolCallStart),
    ensures
        started_calls(e) == Seq::<(Seq<char>, Seq<char>)>::empty(),
{
    if e.len() == 1 {
        assert(e =~= seq![e[0]]);
        lemma_started_calls_single(e[0]);
    } else {
        assert(started_calls(e) =~= Seq::<(Seq<char>, Seq<char>)>::empty());
    }
}

/// The calls a fragment starts: one when it carries an id and a name.
proof fn lemma_fragment_starts(c: DeltaToolCallView)
    ensures
        started_calls(delta_call_events(c)) == match (c.id, c.name) {
            (Some(id), Some(name)) => seq![(id, name)],
            _ => Seq::<(Seq<char>, Seq<char>)>::empty(),
        },
{
    let head: Seq<StreamEventView> = match (c.id, c.name) {
        (Some(id), Some(name)) => seq![StreamEventView::ToolCallStart { index: c.index, id, name }],
        _ => Seq::empty(),
    };
    let tail: Seq<StreamEventView> = match c.arguments {
        Some(a) => if a.len() > 0 {
            seq![StreamEventView::ToolCallArgsDelta { index: c.index, delta: a }]
        } else {
            Seq::empty()
        },
        None => Seq::empty(),
    };
    assert(delta_call_events(c) == head + tail);
    lemma_started_calls_concat(head, tail);
    lemma_no_starts(tail);
    match (c.id, c.name) {
        (Some(id), Some(name)) => {
            lemma_started_calls_single(StreamEventView::ToolCallStart { index: c.index, id, name });
        },
        _ => {
            lemma_no_starts(head);
        },
    }
    assert(started_calls(head) + started_calls(tail) =~= started_calls(head));
}

/// The calls a choice's fragments start, in order.
proof fn lemma_calls_starts(calls: Seq<DeltaToolCallView>)
    ensures
        started_calls(calls_events(calls)) == fragment_starts(calls),
    decreases calls.len(),
{
    if calls.len() == 0 {
        assert(started_calls(calls_events(calls)) =~= fragment_starts(calls));
    } else {
        lemma_calls_starts(calls.drop_last());
        lemma_started_calls_concat(calls_events(calls.drop_last()), delta_call_events(calls.last()));
        lemma_fragment_starts(calls.last());
    }
}

/// The calls a chunk's choices start, choice by choice.
proof fn lemma_choices_starts(choices: Seq<StreamChoiceView>)
    ensures
        started_calls(choices_events(choices)) == chunk_starts(choices),
    decreases choices.len(),
{
    if choices.len() == 0 {
        assert(started_calls(choices_events(choices)) =~= chunk_starts(choices));
    } else {
        let c = choices.last();
        lemma_choices_starts(choices.drop_last());
        lemma_started_calls_concat(choices_events(choices.drop_last()), choice_events(c));
        lemma_started_calls_concat(text_events(c.content) + calls_events(c.tool_calls), stop_events(c.finish_reason));
        lemma_started_calls_concat(text_events(c.content), calls_events(c.tool_calls));
        lemma_no_starts(text_events(c.content));
        lemma_no_starts(stop_events(c.finish_reason));
        lemma_calls_starts(c.tool_calls);
        assert(started_calls(choice_events(c)) =~= fragment_starts(c.tool_calls));
    }
}

/// A chunk starts one tool call for each fragment that carries an id and a
/// name, in the order of the fragments, choice by choice, however many
/// fragments a choice holds.
pub proof fn law_chunk_starts_every_call(c: StreamChunkView)
    ensures
        started_calls(chunk_events(c)) == chunk_starts(c.choices),
{
    let usage: Seq<StreamEventView> = match c.usage {
        Some(u) => seq![StreamEventView::Usage(usage_of(u))],
        None => Seq::empty(),
    };
    assert(chunk_events(c) == choices_events(c.choices) + usage);
    lemma_started_calls_concat(choices_events(c.choices), usage);
    lemma_no_starts(usage);
    lemma_choices_starts(c.choices);
    assert(started_calls(chunk_events(c)) =~= chunk_starts(c.choices));
}

/// Appends the events of one tool-call fragment.
fn push_call_events(out: &mut Vec<StreamEvent>, call: &DeltaToolCall)
    ensures
        final(out).deep_view() == old(out).deep_view() + delta_call_events(call@),
{
    let ghost start = out.deep_view();
    match (&call.id, &call.name) {
        (Some(id), Some(name)) => {
            out.push(StreamEvent::ToolCallStart { index: call.index, id: id.clone(), name: name.clone() });
        },
        _ => {},
    }
    let ghost mid = out.deep_view();
    match &call.arguments {
        Some(arguments) => {
            if arguments.unicode_len() > 0 {
                out.push(StreamEvent::ToolCallArgsDelta { index: call.index, delta: arguments.clone() });
            }
        },
        None => {},
    }
    assert(out.deep_view() =~= start + delta_call_events(call@));
}

/// Appends the events of one choice.
fn push_choice_events(out: &mut Vec<StreamEvent>, choice: &StreamChoice)
    ensures
        final(out).deep_view() == old(out).deep_view() + choice_events(choice@),
{
    let ghost start = out.deep_view();
    match &choice.content {
        Some(text) => {
            if text.unicode_len() > 0 {
                out.push(StreamEvent::TextDelta(text.clone()));
            }
        },
        None => {},
    }
    let ghost after_text = out.deep_view();
    assert(after_text =~= start + text_events(choice@.content));
    let ghost cv = choice@.tool_calls;
    let mut i: usize = 0;
    while i < choice.tool_calls.len()
        invariant
            i <= choice.tool_calls.len(),
            cv == choice.tool_calls.deep_view(),
            out.deep_view() == after_text + calls_events(cv.take(i as int)),
        decreases choice.tool_calls.len() - i,
    {
        proof {
            assert(cv.take(i + 1).drop_last() =~= cv.take(i as int));
        }
        push_call_events(out, &choice.tool_calls[i]);
        proof {
            assert(after_text + calls_events(cv.take(i + 1)) =~= after_text + calls_events(
                cv.take(i as int),
            ) + delta_call_events(cv[i as int]));
        }
        i = i + 1;
    }
    proof {
        assert(cv.take(choice.tool_calls.len() as int) =~= cv);
    }
    let ghost after_calls = out.deep_view();
    match &choice.finish_reason {
        Some(reason) => {
            out.push(StreamEvent::Stop(map_finish_reason(reason.as_str())));
        },
        None => {},
    }
    assert(out.deep_view() =~= after_calls + stop_events(choice@.finish_reason));
    assert(out.deep_view() =~= start + choice_events(choice@));
}

/// The normalized events of one stream chunk (see [`chunk_events`]).
pub fn chunk_to_events(chunk: StreamChunk) -> (events: Vec<StreamEvent>)
    ensures
        events.deep_view() == chunk_events(chunk@),
        started_calls(events.deep_view()) == chunk_starts(chunk@.choices),
        text_deltas(events.deep_view()) == chunk_text(chunk@.choices),
        args_deltas(events.deep_view()) == chunk_args(chunk@.choices),
{
    proof {
        law_chunk_starts_every_call(chunk@);
        law_chunk_keeps_text_and_arguments(chunk@);
    }
    let mut out: Vec<StreamEvent> = Vec::new();
    let ghost cv = chunk@.choices;
    assert(out.deep_view() =~= Seq::<StreamEventView>::empty());
    let mut i: usize = 0;
    while i < chunk.choices.len()
        invariant
            i <= chunk.choices.len(),
            cv == chunk.choices.deep_view(),
            out.deep_view() == choices_events(cv.take(i as int)),
        decreases chunk.choices.len() - i,
    {
        proof {
            assert(cv.take(i + 1).drop_last() =~= cv.take(i as int));
        }
        push_choice_events(&mut out, &chunk.choices[i]);
        i = i + 1;
    }
    proof {
        assert(cv.take(chunk.choices.len() as int) =~= cv);
    }
    let ghost before_usage = out.deep_view();
    match &chunk.usage {
        Some(u) => {
            out.push(StreamEvent::Usage(usage_from_wire(u)));
        },
        None => {},
    }
    assert(out.deep_view() =~= chunk_events(chunk@));
    out
}

/// Whether a server-sent event's data is the end-of-stream marker `[DONE]`.
pub fn is_done_marker(data: &str) -> (b: bool)
    ensures
        b == (data@ == "[DONE]"@),
{
    same_text(data, "[DONE]")
}

/// The error for a failed HTTP exchange: the `error.message` of the body's
/// error envelope when it has a non-empty one, the body text otherwise.
pub open spec fn provider_error_of(
    status: u16,
    envelope_message: Option<Seq<char>>,
    body_text: Seq<char>,
) -> ErrorView {
    ErrorView::Provider {
        provider: "openai"@,
        status: Some(status),
        kind: kind_of_status(status),
        message: match envelope_message {
            Some(m) => if m.len() > 0 {
                m
            } else {
                body_text
            },
            None => body_text,
        },
    }
}

/// The error for a failed HTTP exchange with status `status` and body `body`;
/// `envelope_message` is the body's `error.message`, when the body parses as
/// an error envelope that has one. The body's text is its lossy UTF-8
/// decoding.
pub fn provider_error(status: u16, envelope_message: Option<String>, body: &[u8]) -> (e: Error)
    ensures
        e@ == provider_error_of(status, envelope_message.deep_view(), lossy_text(body@)),
        valid_utf8(body@) ==> e@ == provider_error_of(
            status,
            envelope_message.deep_view(),
            decode_utf8(body@),
        ),
{
    let text = utf8_lossy(body);
    provider_error_with_text(status, envelope_message, text.as_str())
}

/// The error for a failed HTTP exchange, given the body's text (see
/// [`provider_error`]).
pub fn provider_error_with_text(status: u16, envelope_message: Option<String>, body_text: &str) -> (e: Error)
    ensures
        e@ == provider_error_of(status, envelope_message.deep_view(), body_text@),
{
    match envelope_message {
        Some(m) => {
            if m.unicode_len() > 0 {
                Error::provider_status("openai", status, m.as_str())
            } else {
                Error::provider_status("openai", status, body_text)
            }
        },
        None => Error::provider_status("openai", status, body_text),
    }
}

/// Every response format but plain text is requested on the wire: plain text
/// sends no format, JSON mode sends JSON mode, and a JSON schema is sent with
/// its name, schema and strictness unchanged.
pub proof fn law_response_format_reaches_wire(f: ResponseFormatView)
    ensures
        wire_response_format(f) is None <==> f is Text,
        f is JsonObject ==> wire_response_format(f) == Some(WireResponseFormatView::JsonObject),
        f matches ResponseFormatView::JsonSchema { name, schema, strict } ==> wire_response_format(f)
            == Some(WireResponseFormatView::JsonSchema { name, schema, strict }),
{
}

/// The body carries the model it is built for and each setting of the request
/// under its own field: the token limit as `max_tokens`, the temperature as
/// `temperature`, the nucleus-sampling mass as `top_p`; `stream` as asked, with
/// usage reporting requested exactly when streaming; a tool choice exactly when
/// the request has one; stop sequences exactly when there are any; and a
/// response format exactly when the request asks for one other than plain text
/// (JSON mode as JSON mode).
pub proof fn law_body_carries_request_settings(model: Seq<char>, r: ChatRequestView, stream: bool)
    ensures
        wire_request(model, r, stream).model == model,
        wire_request(model, r, stream).max_tokens == r.max_tokens,
        wire_request(model, r, stream).temperature_bits == r.temperature_bits,
        wire_request(model, r, stream).top_p_bits == r.top_p_bits,
        wire_request(model, r, stream).stream == stream,
        wire_request(model, r, stream).stream_options == (if stream {
            Some(true)
        } else {
            None
        }),
        wire_request(model, r, stream).tool_choice is Some <==> r.tool_choice is Some,
        wire_request(model, r, stream).stop is Some <==> r.stop.len() > 0,
        wire_request(model, r, stream).stop matches Some(s) ==> s == r.stop,
        wire_request(model, r, stream).response_format is Some <==> (r.response_format matches Some(
            f,
        ) && !(f is Text)),
        r.response_format == Some(ResponseFormatView::JsonObject) ==> wire_request(
            model,
            r,
            stream,
        ).response_format == Some(WireResponseFormatView::JsonObject),
{
    match r.response_format {
        Some(f) => law_response_format_reaches_wire(f),
        None => {},
    }
}

/// Passthrough fields never override a typed field and never repeat a key, and
/// every passthrough field whose key the typed body does not carry reaches the
/// body.
pub proof fn law_extra_fills_only_unmodeled_fields(
    r: ChatRequestView,
    stream: bool,
    entries: Seq<ExtraEntry>,
)
    ensures
        forall|i: int|
            0 <= i < extra_fill(r, stream, entries).len() ==> !body_has_key(
                r,
                stream,
                (#[trigger] extra_fill(r, stream, entries)[i]).0,
            ) && entries.contains(extra_fill(r, stream, entries)[i]),
        forall|i: int, j: int|
            0 <= i < j < extra_fill(r, stream, entries).len() ==> (#[trigger] extra_fill(
                r,
                stream,
                entries,
            )[i]).0 != (#[trigger] extra_fill(r, stream, entries)[j]).0,
        forall|k: Seq<char>|
            #![trigger find_key(entries, k)]
            find_key(entries, k) is Some && !body_has_key(r, stream, k) ==> find_key(
                extra_fill(r, stream, entries),
                k,
            ) is Some,
    decreases entries.len(),
{
    if entries.len() > 0 {
        let init = entries.drop_last();
        let e = entries.last();
        let prev = extra_fill(r, stream, init);
        let out = extra_fill(r, stream, entries);
        law_extra_fills_only_unmodeled_fields(r, stream, init);
        lemma_find_key(prev, e.0);
        assert forall|i: int| 0 <= i < out.len() implies !body_has_key(r, stream, (#[trigger] out[i]).0)
            && entries.contains(out[i]) by {
            if i < prev.len() {
                assert(out[i] == prev[i]);
                assert(init.contains(prev[i]));
                let w = choose|w: int| 0 <= w < init.len() && init[w] == prev[i];
                assert(entries[w] == init[w]);
            } else {
                assert(out[i] == e);
                assert(entries[entries.len() - 1] == e);
            }
        }
        assert forall|i: int, j: int| 0 <= i < j < out.len() implies (#[trigger] out[i]).0 != (
        #[trigger] out[j]).0 by {
            if j < prev.len() {
                assert(out[i] == prev[i] && out[j] == prev[j]);
            } else {
                assert(out[j] == e);
                assert(out[i] == prev[i]);
            }
        }
        assert forall|k: Seq<char>|
            #![trigger find_key(entries, k)]
            find_key(entries, k) is Some && !body_has_key(r, stream, k) implies find_key(
                out,
                k,
            ) is Some by {
            lemma_find_key(entries, k);
            lemma_find_key(init, k);
            lemma_find_key(out, k);
            lemma_find_key(prev, k);
            let f = find_key(entries, k)->0;
            if f < init.len() {
                assert(init[f] == entries[f]);
                let p = find_key(prev, k)->0;
                if out.len() > prev.len() {
                    assert(out[p] == prev[p]);
                } else {
                    assert(out == prev);
                }
            } else {
                assert(e.0 == k);
                if find_key(prev, k) is Some {
                    let p = find_key(prev, k)->0;
                    if out.len() > prev.len() {
                        assert(out[p] == prev[p]);
                    } else {
                        assert(out == prev);
                    }
                } else {
                    assert(out[prev.len() as int] == e);
                }
            }
        }
    }
}

} // verus!
