//! The provider-neutral chat request and its builder.
//!
//! Sampling parameters that are floating point on the wire (`temperature`,
//! `top_p`) are carried as the IEEE-754 bit patterns of their `f32` values; the
//! library never computes with them. Provider-specific passthrough fields are
//! carried as `(key, JSON text)` pairs with unique keys.

use vstd::prelude::*;
use vstd::string::*;

use crate::error::{Error, ErrorView};
use crate::message::{clone_messages, clone_opt_string, text_message, Message, MessageView, Role};
use crate::structured::{clone_opt_response_format, ResponseFormat, ResponseFormatView};
use crate::text::{clone_strings, is_blank, is_blank_seq, same_text};
use crate::tool::{clone_opt_tool_choice, clone_tool_defs, ToolChoice, ToolChoiceView, ToolDef, ToolDefView};

verus! {

broadcast use vstd::string::group_string_axioms;

/// A `(key, JSON text)` passthrough entry.
pub type ExtraEntry = (Seq<char>, Seq<char>);

/// The position of the first entry whose key is `k`.
pub open spec fn find_key(s: Seq<ExtraEntry>, k: Seq<char>) -> Option<int>
    decreases s.len(),
{
    if s.len() == 0 {
        None
    } else if s[0].0 == k {
        Some(0)
    } else {
        match find_key(s.drop_first(), k) {
            Some(i) => Some(i + 1),
            None => None,
        }
    }
}

/// The value stored under `k`, if any.
pub open spec fn lookup(s: Seq<ExtraEntry>, k: Seq<char>) -> Option<Seq<char>> {
    match find_key(s, k) {
        Some(i) => Some(s[i].1),
        None => None,
    }
}

/// Setting `k` to `v`: the existing entry is updated in place, or a new one is
/// appended.
pub open spec fn put(s: Seq<ExtraEntry>, k: Seq<char>, v: Seq<char>) -> Seq<ExtraEntry> {
    match find_key(s, k) {
        Some(i) => s.update(i, (k, v)),
        None => s.push((k, v)),
    }
}

/// Facts about [`find_key`]: where it points, and that a miss means absence.
pub proof fn lemma_find_key(s: Seq<ExtraEntry>, k: Seq<char>)
    ensures
        find_key(s, k) matches Some(i) ==> 0 <= i < s.len() && s[i].0 == k && forall|j: int|
            0 <= j < i ==> s[j].0 != k,
        find_key(s, k) is None ==> forall|j: int| 0 <= j < s.len() ==> s[j].0 != k,
    decreases s.len(),
{
    if s.len() > 0 {
        lemma_find_key(s.drop_first(), k);
        if s[0].0 != k {
            assert forall|j: int| 1 <= j < s.len() implies s[j] == s.drop_first()[j - 1] by {}
        }
    }
}

/// After setting `k` to `v`, `k` maps to `v` and every other key keeps its value.
pub proof fn law_extra_put_then_lookup(s: Seq<ExtraEntry>, k: Seq<char>, v: Seq<char>, k2: Seq<char>)
    ensures
        lookup(put(s, k, v), k) == Some(v),
        k2 != k ==> lookup(put(s, k, v), k2) == lookup(s, k2),
{
    lemma_find_key(s, k);
    lemma_find_key(s, k2);
    let t = put(s, k, v);
    lemma_find_key(t, k);
    lemma_find_key(t, k2);
    match find_key(s, k) {
        Some(i) => {
            assert(t[i].0 == k);
            match find_key(t, k) {
                Some(j) => {
                    if j < i {
                        assert(t[j] == s[j]);
                    } else if j > i {
                        assert(t[i].0 == k);
                    }
                },
                None => {
                    assert(t[i].0 == k);
                },
            }
            if k2 != k {
                match (find_key(s, k2), find_key(t, k2)) {
                    (Some(a), Some(b)) => {
                        if a < b {
                            assert(t[a] == s[a]);
                        } else if b < a {
                            assert(s[b] == t[b]);
                        }
                    },
                    (Some(a), None) => {
                        assert(t[a] == s[a]);
                    },
                    (None, Some(b)) => {
                        assert(s[b] == t[b]);
                    },
                    (None, None) => {},
                }
            }
        },
        None => {
            assert(t[s.len() as int].0 == k);
            match find_key(t, k) {
                Some(j) => {
                    if j < s.len() {
                        assert(t[j] == s[j]);
                    }
                },
                None => {},
            }
            if k2 != k {
                match (find_key(s, k2), find_key(t, k2)) {
                    (Some(a), Some(b)) => {
                        if a < b {
                            assert(t[a] == s[a]);
                        } else if b < a {
                            assert(s[b] == t[b]);
                        }
                    },
                    (Some(a), None) => {
                        assert(t[a] == s[a]);
                    },
                    (None, Some(b)) => {
                        if b < s.len() {
                            assert(s[b] == t[b]);
                        }
                    },
                    (None, None) => {},
                }
            }
        },
    }
}

/// The position of the first entry whose key is `key`.
pub fn find_entry(entries: &Vec<(String, String)>, key: &str) -> (p: Option<usize>)
    ensures
        p matches Some(i) ==> find_key(entries.deep_view(), key@) == Some(i as int) && i
            < entries@.len(),
        p is None ==> find_key(entries.deep_view(), key@) is None,
{
    let ghost s = entries.deep_view();
    proof {
        lemma_find_key(s, key@);
    }
    let mut i: usize = 0;
    while i < entries.len()
        invariant
            i <= entries.len(),
            s == entries.deep_view(),
            forall|j: int| 0 <= j < i ==> (#[trigger] s[j]).0 != key@,
            find_key(s, key@) matches Some(f) ==> f >= i,
            find_key(s, key@) matches Some(f) ==> 0 <= f < s.len() && s[f].0 == key@
                && forall|j: int| 0 <= j < f ==> s[j].0 != key@,
            find_key(s, key@) is None ==> forall|j: int| 0 <= j < s.len() ==> s[j].0 != key@,
        decreases entries.len() - i,
    {
        let hit = same_text(entries[i].0.as_str(), key);
        assert(s[i as int].0 == entries@[i as int].0@);
        if hit {
            return Some(i);
        }
        i = i + 1;
    }
    None
}

/// Sets `key` to `value` in a list of passthrough entries.
pub fn put_entry(entries: &mut Vec<(String, String)>, key: &str, value: &str)
    ensures
        final(entries).deep_view() == put(old(entries).deep_view(), key@, value@),
{
    let ghost s = entries.deep_view();
    match find_entry(entries, key) {
        Some(i) => {
            entries.set(i, (String::from_str(key), String::from_str(value)));
            assert(entries.deep_view() =~= s.update(i as int, (key@, value@)));
        },
        None => {
            entries.push((String::from_str(key), String::from_str(value)));
            assert(entries.deep_view() =~= s.push((key@, value@)));
        },
    }
}

/// A provider-neutral chat request.
#[derive(Debug, PartialEq)]
pub struct ChatRequest {
    /// Model identifier (provider-specific).
    pub model: String,
    /// Conversation so far (non-empty once built).
    pub messages: Vec<Message>,
    /// System prompt: a first-class field, not a message role.
    pub system: Option<String>,
    /// Maximum output tokens.
    pub max_tokens: Option<u32>,
    /// Sampling temperature, as the bit pattern of its `f32` value.
    pub temperature_bits: Option<u32>,
    /// Nucleus sampling probability mass, as the bit pattern of its `f32` value.
    pub top_p_bits: Option<u32>,
    /// Stop sequences.
    pub stop: Vec<String>,
    /// Tools the model may call.
    pub tools: Vec<ToolDef>,
    /// Constraint on tool usage.
    pub tool_choice: Option<ToolChoice>,
    /// Desired output format (structured output).
    pub response_format: Option<ResponseFormat>,
    /// Provider-specific passthrough fields: `(key, JSON text)`, unique keys.
    pub extra: Vec<(String, String)>,
}

/// The mathematical model of a [`ChatRequest`] (and of a builder's contents).
#[verifier::ext_equal]
pub struct ChatRequestView {
    pub model: Seq<char>,
    pub messages: Seq<MessageView>,
    pub system: Option<Seq<char>>,
    pub max_tokens: Option<u32>,
    pub temperature_bits: Option<u32>,
    pub top_p_bits: Option<u32>,
    pub stop: Seq<Seq<char>>,
    pub tools: Seq<ToolDefView>,
    pub tool_choice: Option<ToolChoiceView>,
    pub response_format: Option<ResponseFormatView>,
    pub extra: Seq<ExtraEntry>,
}

impl View for ChatRequest {
    type V = ChatRequestView;

    open spec fn view(&self) -> ChatRequestView {
        ChatRequestView {
            model: self.model@,
            messages: self.messages.deep_view(),
            system: self.system.deep_view(),
            max_tokens: self.max_tokens,
            temperature_bits: self.temperature_bits,
            top_p_bits: self.top_p_bits,
            stop: self.stop.deep_view(),
            tools: self.tools.deep_view(),
            tool_choice: self.tool_choice.deep_view(),
            response_format: self.response_format.deep_view(),
            extra: self.extra.deep_view(),
        }
    }
}

/// Clones a list of passthrough entries.
pub fn clone_entries(v: &Vec<(String, String)>) -> (res: Vec<(String, String)>)
    ensures
        res.deep_view() == v.deep_view(),
{
    let mut out: Vec<(String, String)> = Vec::new();
    let mut i: usize = 0;
    while i < v.len()
        invariant
            i <= v.len(),
            out@.len() == i,
            forall|j: int| 0 <= j < i ==> (#[trigger] out@[j]).deep_view() == v@[j].deep_view(),
        decreases v.len() - i,
    {
        out.push((v[i].0.clone(), v[i].1.clone()));
        i = i + 1;
    }
    assert(out.deep_view() =~= v.deep_view());
    out
}

impl Clone for ChatRequest {
    fn clone(&self) -> (res: Self)
        ensures
            res@ == self@,
    {
        ChatRequest {
            model: self.model.clone(),
            messages: clone_messages(&self.messages),
            system: clone_opt_string(&self.system),
            max_tokens: self.max_tokens,
            temperature_bits: self.temperature_bits,
            top_p_bits: self.top_p_bits,
            stop: clone_strings(&self.stop),
            tools: clone_tool_defs(&self.tools),
            tool_choice: clone_opt_tool_choice(&self.tool_choice),
            response_format: clone_opt_response_format(&self.response_format),
            extra: clone_entries(&self.extra),
        }
    }
}

/// The contents of a fresh builder for `model`.
pub open spec fn empty_request(model: Seq<char>) -> ChatRequestView {
    ChatRequestView {
        model,
        messages: Seq::empty(),
        system: None,
        max_tokens: None,
        temperature_bits: None,
        top_p_bits: None,
        stop: Seq::empty(),
        tools: Seq::empty(),
        tool_choice: None,
        response_format: None,
        extra: Seq::empty(),
    }
}

/// What `build` answers for the given contents: the request itself, or the
/// error naming the first violated invariant.
pub open spec fn build_outcome(r: ChatRequestView) -> Result<ChatRequestView, ErrorView> {
    if is_blank_seq(r.model) {
        Err(ErrorView::InvalidRequest("model must not be empty"@))
    } else if r.messages.len() == 0 {
        Err(ErrorView::InvalidRequest("at least one message is required"@))
    } else {
        Ok(r)
    }
}

impl ChatRequest {
    /// Start building a request for `model`.
    pub fn builder(model: &str) -> (b: ChatRequestBuilder)
        ensures
            b@ == empty_request(model@),
    {
        ChatRequestBuilder::new(model)
    }
}

/// Builder for [`ChatRequest`]. The two invariants, a non-blank model and at
/// least one message, are checked by [`ChatRequestBuilder::build`].
#[derive(Debug)]
pub struct ChatRequestBuilder {
    request: ChatRequest,
}

impl View for ChatRequestBuilder {
    type V = ChatRequestView;

    closed spec fn view(&self) -> ChatRequestView {
        self.request@
    }
}

impl ChatRequestBuilder {
    /// A builder for `model`.
    pub fn new(model: &str) -> (b: Self)
        ensures
            b@ == empty_request(model@),
    {
        let b = ChatRequestBuilder {
            request: ChatRequest {
                model: String::from_str(model),
                messages: Vec::new(),
                system: None,
                max_tokens: None,
                temperature_bits: None,
                top_p_bits: None,
                stop: Vec::new(),
                tools: Vec::new(),
                tool_choice: None,
                response_format: None,
                extra: Vec::new(),
            },
        };
        assert(b@ =~= empty_request(model@));
        b
    }

    /// Append a message.
    pub fn message(self, message: Message) -> (b: Self)
        ensures
            b@ == (ChatRequestView { messages: self@.messages.push(message@), ..self@ }),
    {
        let mut s = self;
        let ghost m = message@;
        s.request.messages.push(message);
        assert(s@.messages =~= self@.messages.push(m));
        s
    }

    /// Append several messages, in order.
    pub fn messages(self, messages: Vec<Message>) -> (b: Self)
        ensures
            b@ == (ChatRequestView {
                messages: self@.messages + messages.deep_view(),
                ..self@
            }),
    {
        let mut s = self;
        let mut more = messages;
        let ghost added = more.deep_view();
        s.request.messages.append(&mut more);
        assert(s@.messages =~= self@.messages + added);
        s
    }

    /// Append a user text message.
    pub fn user(self, text: &str) -> (b: Self)
        ensures
            b@ == (ChatRequestView { messages: self@.messages.push(text_message(Role::User, text@)), ..self@ }),
    {
        self.message(Message::user(text))
    }

    /// Append an assistant text message.
    pub fn assistant(self, text: &str) -> (b: Self)
        ensures
            b@ == (ChatRequestView {
                messages: self@.messages.push(text_message(Role::Assistant, text@)),
                ..self@
            }),
    {
        self.message(Message::assistant(text))
    }

    /// Set the system prompt.
    pub fn system(self, system: &str) -> (b: Self)
        ensures
            b@ == (ChatRequestView { system: Some(system@), ..self@ }),
    {
        let mut s = self;
        s.request.system = Some(String::from_str(system));
        s
    }

    /// Set the maximum number of output tokens.
    pub fn max_tokens(self, max_tokens: u32) -> (b: Self)
        ensures
            b@ == (ChatRequestView { max_tokens: Some(max_tokens), ..self@ }),
    {
        let mut s = self;
        s.request.max_tokens = Some(max_tokens);
        s
    }

    /// Set the sampling temperature, given as the bit pattern of an `f32`.
    pub fn temperature_bits(self, bits: u32) -> (b: Self)
        ensures
            b@ == (ChatRequestView { temperature_bits: Some(bits), ..self@ }),
    {
        let mut s = self;
        s.request.temperature_bits = Some(bits);
        s
    }

    /// Set the nucleus sampling mass, given as the bit pattern of an `f32`.
    pub fn top_p_bits(self, bits: u32) -> (b: Self)
        ensures
            b@ == (ChatRequestView { top_p_bits: Some(bits), ..self@ }),
    {
        let mut s = self;
        s.request.top_p_bits = Some(bits);
        s
    }

    /// Add a stop sequence.
    pub fn stop(self, stop: &str) -> (b: Self)
        ensures
            b@ == (ChatRequestView { stop: self@.stop.push(stop@), ..self@ }),
    {
        let mut s = self;
        s.request.stop.push(String::from_str(stop));
        assert(s@.stop =~= self@.stop.push(stop@));
        s
    }

    /// Add a tool the model may call.
    pub fn tool(self, tool: ToolDef) -> (b: Self)
        ensures
            b@ == (ChatRequestView { tools: self@.tools.push(tool@), ..self@ }),
    {
        let mut s = self;
        let ghost t = tool@;
        s.request.tools.push(tool);
        assert(s@.tools =~= self@.tools.push(t));
        s
    }

    /// Add several tools, in order.
    pub fn tools(self, tools: Vec<ToolDef>) -> (b: Self)
        ensures
            b@ == (ChatRequestView { tools: self@.tools + tools.deep_view(), ..self@ }),
    {
        let mut s = self;
        let mut more = tools;
        let ghost added = more.deep_view();
        s.request.tools.append(&mut more);
        assert(s@.tools =~= self@.tools + added);
        s
    }

    /// Constrain how tools may be used.
    pub fn tool_choice(self, tool_choice: ToolChoice) -> (b: Self)
        ensures
            b@ == (ChatRequestView { tool_choice: Some(tool_choice@), ..self@ }),
    {
        let mut s = self;
        s.request.tool_choice = Some(tool_choice);
        s
    }

    /// Request a specific output format.
    pub fn response_format(self, response_format: ResponseFormat) -> (b: Self)
        ensures
            b@ == (ChatRequestView { response_format: Some(response_format@), ..self@ }),
    {
        let mut s = self;
        s.request.response_format = Some(response_format);
        s
    }

    /// Set a provider-specific passthrough field (`value` is JSON text).
    pub fn extra(self, key: &str, value: &str) -> (b: Self)
        ensures
            b@ == (ChatRequestView { extra: put(self@.extra, key@, value@), ..self@ }),
    {
        let mut s = self;
        put_entry(&mut s.request.extra, key, value);
        s
    }

    /// Validate and build the request: [`Error::InvalidRequest`] when the model
    /// is blank or there are no messages.
    pub fn build(self) -> (r: Result<ChatRequest, Error>)
        ensures
            match (r, build_outcome(self@)) {
                (Ok(req), Ok(v)) => req@ == v,
                (Err(e), Err(v)) => e@ == v,
                _ => false,
            },
    {
        if is_blank(self.request.model.as_str()) {
            return Err(Error::invalid_request("model must not be empty"));
        }
        if self.request.messages.len() == 0 {
            return Err(Error::invalid_request("at least one message is required"));
        }
        Ok(self.request)
    }
}

/// Building enforces the request's two invariants: a request that builds has a
/// non-blank model and at least one message, and is exactly what was set;
/// every other combination is refused.
pub proof fn law_built_request_valid(r: ChatRequestView)
    ensures
        build_outcome(r) is Ok <==> (!is_blank_seq(r.model) && r.messages.len() > 0),
        build_outcome(r) matches Ok(b) ==> b == r,
{
}

} // verus!
