//! Provider-neutral conversation types.
//!
//! These are the canonical representation, decoupled from any provider's wire
//! format; adapters convert to and from them. The system prompt is not a
//! [`Role`]: it is a first-class field of the request. JSON payloads (tool
//! arguments) are carried as JSON text.

use vstd::prelude::*;
use vstd::string::*;

verus! {

broadcast use vstd::string::group_string_axioms;

/// Who authored a message. There is no `System`: the system prompt lives on the
/// request.
#[derive(Debug, Clone, Copy, PartialEq, Eq, Structural)]
pub enum Role {
    /// End-user input.
    User,
    /// Model output.
    Assistant,
    /// A tool result fed back to the model.
    Tool,
}

/// The source of an image content block.
#[derive(Debug, PartialEq)]
pub enum ImageSource {
    /// A remote URL.
    Url {
        /// The image URL.
        url: String,
    },
    /// Inline base64-encoded bytes.
    Base64 {
        /// MIME type, e.g. `image/png`.
        media_type: String,
        /// Base64-encoded image data.
        data: String,
    },
}

/// The mathematical model of an [`ImageSource`].
pub enum ImageSourceView {
    Url { url: Seq<char> },
    Base64 { media_type: Seq<char>, data: Seq<char> },
}

impl View for ImageSource {
    type V = ImageSourceView;

    open spec fn view(&self) -> ImageSourceView {
        match self {
            ImageSource::Url { url } => ImageSourceView::Url { url: url@ },
            ImageSource::Base64 { media_type, data } => ImageSourceView::Base64 {
                media_type: media_type@,
                data: data@,
            },
        }
    }
}

impl DeepView for ImageSource {
    type V = ImageSourceView;

    open spec fn deep_view(&self) -> ImageSourceView {
        self@
    }
}

impl Clone for ImageSource {
    fn clone(&self) -> (res: Self)
        ensures
            res@ == self@,
    {
        match self {
            ImageSource::Url { url } => ImageSource::Url { url: url.clone() },
            ImageSource::Base64 { media_type, data } => ImageSource::Base64 {
                media_type: media_type.clone(),
                data: data.clone(),
            },
        }
    }
}

/// A unit of message content. JSON arguments are carried as JSON text.
#[derive(Debug, PartialEq)]
pub enum ContentBlock {
    /// Plain text.
    Text {
        /// The text.
        text: String,
    },
    /// An image input.
    Image {
        /// Where the image comes from.
        source: ImageSource,
    },
    /// A tool call requested by the model.
    ToolUse {
        /// Provider-assigned call id (correlates with the matching result).
        id: String,
        /// Tool name.
        name: String,
        /// The arguments, as JSON text.
        args: String,
    },
    /// A tool result fed back to the model.
    ToolResult {
        /// The id of the tool call this answers.
        tool_use_id: String,
        /// Result payload (stringified).
        content: String,
        /// Whether the tool errored.
        is_error: bool,
    },
    /// Model reasoning / thinking content.
    Thinking {
        /// The reasoning text.
        text: String,
        /// Opaque provider signature, preserved verbatim for round-tripping.
        signature: Option<String>,
    },
}

/// The mathematical model of a [`ContentBlock`].
pub enum ContentBlockView {
    Text { text: Seq<char> },
    Image { source: ImageSourceView },
    ToolUse { id: Seq<char>, name: Seq<char>, args: Seq<char> },
    ToolResult { tool_use_id: Seq<char>, content: Seq<char>, is_error: bool },
    Thinking { text: Seq<char>, signature: Option<Seq<char>> },
}

impl View for ContentBlock {
    type V = ContentBlockView;

    open spec fn view(&self) -> ContentBlockView {
        match self {
            ContentBlock::Text { text } => ContentBlockView::Text { text: text@ },
            ContentBlock::Image { source } => ContentBlockView::Image { source: source@ },
            ContentBlock::ToolUse { id, name, args } => ContentBlockView::ToolUse {
                id: id@,
                name: name@,
                args: args@,
            },
            ContentBlock::ToolResult { tool_use_id, content, is_error } =>
                ContentBlockView::ToolResult {
                tool_use_id: tool_use_id@,
                content: content@,
                is_error: *is_error,
            },
            ContentBlock::Thinking { text, signature } => ContentBlockView::Thinking {
                text: text@,
                signature: signature.deep_view(),
            },
        }
    }
}

impl DeepView for ContentBlock {
    type V = ContentBlockView;

    open spec fn deep_view(&self) -> ContentBlockView {
        self@
    }
}

/// Clones an optional string, keeping its contents.
pub fn clone_opt_string(s: &Option<String>) -> (res: Option<String>)
    ensures
        res.deep_view() == s.deep_view(),
{
    match s {
        Some(t) => Some(t.clone()),
        None => None,
    }
}

impl Clone for ContentBlock {
    fn clone(&self) -> (res: Self)
        ensures
            res@ == self@,
    {
        match self {
            ContentBlock::Text { text } => ContentBlock::Text { text: text.clone() },
            ContentBlock::Image { source } => ContentBlock::Image { source: source.clone() },
            ContentBlock::ToolUse { id, name, args } => ContentBlock::ToolUse {
                id: id.clone(),
                name: name.clone(),
                args: args.clone(),
            },
            ContentBlock::ToolResult { tool_use_id, content, is_error } =>
                ContentBlock::ToolResult {
                tool_use_id: tool_use_id.clone(),
                content: content.clone(),
                is_error: *is_error,
            },
            ContentBlock::Thinking { text, signature } => ContentBlock::Thinking {
                text: text.clone(),
                signature: clone_opt_string(signature),
            },
        }
    }
}

/// The text a block contributes to a message's text: its own text when it is
/// a text block, nothing otherwise.
pub open spec fn block_text(b: ContentBlockView) -> Seq<char> {
    match b {
        ContentBlockView::Text { text } => text,
        _ => Seq::empty(),
    }
}

/// The concatenation of all text blocks, in order.
pub open spec fn text_of(blocks: Seq<ContentBlockView>) -> Seq<char>
    decreases blocks.len(),
{
    if blocks.len() == 0 {
        Seq::empty()
    } else {
        text_of(blocks.drop_last()) + block_text(blocks.last())
    }
}

impl ContentBlock {
    /// A text block.
    pub fn text(text: &str) -> (b: ContentBlock)
        ensures
            b@ == (ContentBlockView::Text { text: text@ }),
    {
        ContentBlock::Text { text: String::from_str(text) }
    }

    /// An image block from a URL.
    pub fn image_url(url: &str) -> (b: ContentBlock)
        ensures
            b@ == (ContentBlockView::Image { source: ImageSourceView::Url { url: url@ } }),
    {
        ContentBlock::Image { source: ImageSource::Url { url: String::from_str(url) } }
    }

    /// An image block from base64-encoded bytes.
    pub fn image_base64(media_type: &str, data: &str) -> (b: ContentBlock)
        ensures
            b@ == (ContentBlockView::Image {
                source: ImageSourceView::Base64 { media_type: media_type@, data: data@ },
            }),
    {
        ContentBlock::Image {
            source: ImageSource::Base64 {
                media_type: String::from_str(media_type),
                data: String::from_str(data),
            },
        }
    }
}

/// A single message in a conversation: a role plus ordered content blocks.
#[derive(Debug, PartialEq)]
pub struct Message {
    /// Who authored this message.
    pub role: Role,
    /// Ordered content blocks.
    pub content: Vec<ContentBlock>,
}

/// The mathematical model of a [`Message`].
pub struct MessageView {
    pub role: Role,
    pub content: Seq<ContentBlockView>,
}

impl View for Message {
    type V = MessageView;

    open spec fn view(&self) -> MessageView {
        MessageView { role: self.role, content: self.content.deep_view() }
    }
}

impl DeepView for Message {
    type V = MessageView;

    open spec fn deep_view(&self) -> MessageView {
        self@
    }
}

/// Clones a list of content blocks, keeping every block.
pub fn clone_blocks(v: &Vec<ContentBlock>) -> (res: Vec<ContentBlock>)
    ensures
        res.deep_view() == v.deep_view(),
{
    let mut out: Vec<ContentBlock> = Vec::new();
    let mut i: usize = 0;
    while i < v.len()
        invariant
            i <= v.len(),
            out@.len() == i,
            out.deep_view() == v.deep_view().take(i as int),
        decreases v.len() - i,
    {
        let c = v[i].clone();
        let ghost prev = out@;
        out.push(c);
        proof {
            assert(prev.len() == i);
            assert(out@ == prev.push(c));
            assert forall|j: int| 0 <= j <= i implies #[trigger] out@[j].deep_view()
                == v@[j].deep_view() by {
                if j < i {
                    assert(out@[j] == prev[j]);
                    assert(prev[j].deep_view() == v.deep_view().take(i as int)[j]);
                }
            }
        }
        i = i + 1;
        assert(out.deep_view() =~= v.deep_view().take(i as int));
    }
    assert(v.deep_view().take(v.len() as int) =~= v.deep_view());
    out
}

impl Clone for Message {
    fn clone(&self) -> (res: Self)
        ensures
            res@ == self@,
    {
        Message { role: self.role, content: clone_blocks(&self.content) }
    }
}

/// Clones a list of messages, keeping every message.
pub fn clone_messages(v: &Vec<Message>) -> (res: Vec<Message>)
    ensures
        res.deep_view() == v.deep_view(),
{
    let mut out: Vec<Message> = Vec::new();
    let mut i: usize = 0;
    while i < v.len()
        invariant
            i <= v.len(),
            out@.len() == i,
            out.deep_view() == v.deep_view().take(i as int),
        decreases v.len() - i,
    {
        let c = v[i].clone();
        let ghost prev = out@;
        out.push(c);
        proof {
            assert(prev.len() == i);
            assert(out@ == prev.push(c));
            assert forall|j: int| 0 <= j <= i implies #[trigger] out@[j].deep_view()
                == v@[j].deep_view() by {
                if j < i {
                    assert(out@[j] == prev[j]);
                    assert(prev[j].deep_view() == v.deep_view().take(i as int)[j]);
                }
            }
        }
        i = i + 1;
        assert(out.deep_view() =~= v.deep_view().take(i as int));
    }
    assert(v.deep_view().take(v.len() as int) =~= v.deep_view());
    out
}

/// A message from `role` holding one text block.
pub open spec fn text_message(role: Role, text: Seq<char>) -> MessageView {
    MessageView { role, content: seq![ContentBlockView::Text { text }] }
}

/// A tool-result message answering call `id`.
pub open spec fn tool_result_message(id: Seq<char>, content: Seq<char>, is_error: bool) -> MessageView {
    MessageView {
        role: Role::Tool,
        content: seq![ContentBlockView::ToolResult { tool_use_id: id, content, is_error }],
    }
}

impl Message {
    /// A message from a role and content blocks.
    pub fn new(role: Role, content: Vec<ContentBlock>) -> (m: Message)
        ensures
            m@ == (MessageView { role, content: content.deep_view() }),
    {
        Message { role, content }
    }

    /// A user message containing a single text block.
    pub fn user(text: &str) -> (m: Message)
        ensures
            m@ == text_message(Role::User, text@),
    {
        let mut content = Vec::new();
        content.push(ContentBlock::text(text));
        proof {
            assert(content.deep_view() =~= seq![ContentBlockView::Text { text: text@ }]);
        }
        Message { role: Role::User, content }
    }

    /// An assistant message containing a single text block.
    pub fn assistant(text: &str) -> (m: Message)
        ensures
            m@ == text_message(Role::Assistant, text@),
    {
        let mut content = Vec::new();
        content.push(ContentBlock::text(text));
        proof {
            assert(content.deep_view() =~= seq![ContentBlockView::Text { text: text@ }]);
        }
        Message { role: Role::Assistant, content }
    }

    /// A tool-result message answering a prior tool call.
    pub fn tool_result(tool_use_id: &str, content: &str, is_error: bool) -> (m: Message)
        ensures
            m@ == tool_result_message(tool_use_id@, content@, is_error),
    {
        let mut blocks = Vec::new();
        blocks.push(
            ContentBlock::ToolResult {
                tool_use_id: String::from_str(tool_use_id),
                content: String::from_str(content),
                is_error,
            },
        );
        proof {
            assert(blocks.deep_view() =~= seq![
                ContentBlockView::ToolResult {
                    tool_use_id: tool_use_id@,
                    content: content@,
                    is_error,
                },
            ]);
        }
        Message { role: Role::Tool, content: blocks }
    }

    /// The concatenation of all text blocks.
    pub fn text(&self) -> (s: String)
        ensures
            s@ == text_of(self@.content),
    {
        let mut out = String::new();
        let mut i: usize = 0;
        while i < self.content.len()
            invariant
                i <= self.content.len(),
                out@ == text_of(self@.content.take(i as int)),
            decreases self.content.len() - i,
        {
            proof {
                assert(self@.content.take(i + 1).drop_last() =~= self@.content.take(i as int));
            }
            match &self.content[i] {
                ContentBlock::Text { text } => {
                    out.append(text.as_str());
                },
                _ => {},
            }
            i = i + 1;
        }
        proof {
            assert(self@.content.take(self.content.len() as int) =~= self@.content);
        }
        out
    }
}

} // verus!
