//! The naming and reporting rules for tools loaded from MCP servers.
//!
//! Each remote tool is registered locally as `<server_label>_<tool_name>`, with
//! a description that names its source; each server yields one load report.
//! Talking to the servers (JSON-RPC over HTTP) is the caller's business.

use vstd::prelude::*;
use vstd::string::*;

use crate::text::{
    decimal, is_ascii_alnum, is_blank, lemma_strip_end_cut, lemma_strip_start_cut, push_char,
    push_decimal, strip_end, strip_start, trim, trim_char, trim_end_ws, trim_start_ws, trim_ws,
    is_white_space,
};
use crate::error::{Error, ErrorView};
use crate::json::{json_reencode, reencode_json};
use crate::tool::{ToolDef, ToolDefView};

verus! {

broadcast use vstd::string::group_string_axioms;

/// A label character as it appears in a namespaced name: ASCII letters, digits
/// and `_` are kept, anything else becomes `_`.
pub open spec fn label_char(c: char) -> char {
    if is_ascii_alnum(c) || c == '_' {
        c
    } else {
        '_'
    }
}

/// The label that namespaces a server's tools: the trimmed label with every
/// other character replaced by `_`, then stripped of leading and trailing `_`;
/// `mcp` when nothing is left.
pub open spec fn sanitized_label(label: Seq<char>) -> Seq<char> {
    let mapped = trim_ws(label).map_values(|c: char| label_char(c));
    let out = strip_end(strip_start(mapped, '_'), '_');
    if out.len() == 0 {
        "mcp"@
    } else {
        out
    }
}

/// Sanitize a server label for use in namespaced tool names.
pub fn sanitize_server_label(label: &str) -> (s: String)
    ensures
        s@ == sanitized_label(label@),
{
    let trimmed = trim(label);
    let t = trimmed.as_str();
    let n = t.unicode_len();
    let mut mapped = String::new();
    let mut i: usize = 0;
    while i < n
        invariant
            n == t@.len(),
            i <= n,
            mapped@ == t@.take(i as int).map_values(|c: char| label_char(c)),
        decreases n - i,
    {
        let c = t.get_char(i);
        let k = if ('0' <= c && c <= '9') || ('a' <= c && c <= 'z') || ('A' <= c && c <= 'Z') || c
            == '_' {
            c
        } else {
            '_'
        };
        push_char(&mut mapped, k);
        proof {
            assert(t@.take(i + 1).map_values(|c: char| label_char(c)) =~= t@.take(
                i as int,
            ).map_values(|c: char| label_char(c)).push(label_char(c)));
        }
        i = i + 1;
    }
    proof {
        assert(t@.take(n as int) =~= t@);
    }
    let out = trim_char(mapped.as_str(), '_');
    if out.unicode_len() == 0 {
        String::from_str("mcp")
    } else {
        out
    }
}

/// A sanitized label is never empty, holds only ASCII letters, digits and `_`,
/// and neither starts nor ends with `_`.
pub proof fn law_sanitized_label_shape(label: Seq<char>)
    ensures
        sanitized_label(label).len() > 0,
        forall|i: int|
            0 <= i < sanitized_label(label).len() ==> is_ascii_alnum(
                #[trigger] sanitized_label(label)[i],
            ) || sanitized_label(label)[i] == '_',
        sanitized_label(label)[0] != '_',
        sanitized_label(label).last() != '_',
{
    let mapped = trim_ws(label).map_values(|c: char| label_char(c));
    let a = lemma_strip_start_cut(mapped, '_');
    let front = strip_start(mapped, '_');
    let b = lemma_strip_end_cut(front, '_');
    let out = strip_end(front, '_');
    if out.len() == 0 {
        reveal_strlit("mcp");
        assert("mcp"@[0] == 'm');
        assert("mcp"@[2] == 'p');
    } else {
        assert forall|i: int| 0 <= i < out.len() implies is_ascii_alnum(#[trigger] out[i])
            || out[i] == '_' by {
            assert(out[i] == front[i]);
            assert(front[i] == mapped[a + i]);
        }
        assert(out[0] == front[0]);
        if front[0] == '_' {
            assert(front[0] == mapped[a]);
        }
        assert(out.last() == front[b - 1]);
    }
}

/// Sanitizing a sanitized label changes nothing.
pub proof fn law_sanitize_idempotent(label: Seq<char>)
    ensures
        sanitized_label(sanitized_label(label)) == sanitized_label(label),
{
    let s = sanitized_label(label);
    law_sanitized_label_shape(label);
    // No character of `s` is whitespace, so trimming keeps it.
    assert(!is_white_space(s[0]));
    assert(trim_start_ws(s) == s);
    assert(!is_white_space(s.last()));
    assert(trim_end_ws(s) == s);
    assert(trim_ws(s) == s);
    let mapped = trim_ws(s).map_values(|c: char| label_char(c));
    assert(mapped =~= s);
    assert(strip_start(mapped, '_') == mapped);
    assert(strip_end(mapped, '_') == mapped);
}

/// The default label of the `index`-th configured server (counting from 0):
/// `mcp1`, `mcp2`, ...
pub fn default_server_label(index: usize) -> (s: String)
    requires
        index < usize::MAX,
    ensures
        s@ == "mcp"@ + decimal(index as nat + 1),
{
    let mut s = String::from_str("mcp");
    push_decimal(&mut s, (index as u64) + 1);
    s
}

/// The local name of a remote tool: `<sanitized label>_<tool name>`.
pub open spec fn namespaced_name(server_label: Seq<char>, tool_name: Seq<char>) -> Seq<char> {
    sanitized_label(server_label) + "_"@ + tool_name
}

/// The local name of a remote tool.
pub fn namespaced_tool_name(server_label: &str, tool_name: &str) -> (s: String)
    ensures
        s@ == namespaced_name(server_label@, tool_name@),
{
    sanitize_server_label(server_label).concat("_").concat(tool_name)
}

/// The local description of a remote tool: its source, then its own trimmed
/// description when that is not empty.
pub open spec fn described(
    server_label: Seq<char>,
    tool_name: Seq<char>,
    description: Seq<char>,
) -> Seq<char> {
    let prefix = "Source server `"@ + sanitized_label(server_label) + "`; original MCP tool `"@
        + tool_name + "`."@;
    let d = trim_ws(description);
    if d.len() == 0 {
        prefix
    } else {
        prefix + " "@ + d
    }
}

/// The local description of a remote tool.
pub fn describe_tool(server_label: &str, tool_name: &str, description: &str) -> (s: String)
    ensures
        s@ == described(server_label@, tool_name@, description@),
{
    let prefix = String::from_str("Source server `").concat(
        sanitize_server_label(server_label).as_str(),
    ).concat("`; original MCP tool `").concat(tool_name).concat("`.");
    let d = trim(description);
    if d.unicode_len() == 0 {
        prefix
    } else {
        prefix.concat(" ").concat(d.as_str())
    }
}

/// Tool metadata advertised by an MCP server; the input schema is JSON text.
#[derive(Debug, PartialEq)]
pub struct McpToolInfo {
    /// Remote tool name.
    pub name: String,
    /// What the tool does and when to call it.
    pub description: String,
    /// JSON Schema for the tool's arguments, as JSON text.
    pub input_schema: String,
}

/// The mathematical model of an [`McpToolInfo`].
pub struct McpToolInfoView {
    pub name: Seq<char>,
    pub description: Seq<char>,
    pub input_schema: Seq<char>,
}

impl View for McpToolInfo {
    type V = McpToolInfoView;

    open spec fn view(&self) -> McpToolInfoView {
        McpToolInfoView {
            name: self.name@,
            description: self.description@,
            input_schema: self.input_schema@,
        }
    }
}

impl DeepView for McpToolInfo {
    type V = McpToolInfoView;

    open spec fn deep_view(&self) -> McpToolInfoView {
        self@
    }
}

/// A remote tool as registered locally: its local declaration and the name the
/// server knows it by.
#[derive(Debug, PartialEq)]
pub struct McpToolSpec {
    /// The local declaration (namespaced name, sourced description, schema).
    pub def: ToolDef,
    /// The tool's name on its server.
    pub remote_name: String,
}

/// The local declaration of a discovered remote tool.
pub open spec fn local_def(server_label: Seq<char>, info: McpToolInfoView) -> ToolDefView {
    ToolDefView {
        name: namespaced_name(server_label, info.name),
        description: described(server_label, info.name, info.description),
        parameters: info.input_schema,
        strict: None,
    }
}

impl McpToolSpec {
    /// The local tool for a remote one named `remote_name`.
    pub fn new(local_name: &str, remote_name: &str, description: &str, parameters: &str) -> (t:
        McpToolSpec)
        ensures
            t.def@ == (ToolDefView {
                name: local_name@,
                description: description@,
                parameters: parameters@,
                strict: None,
            }),
            t.remote_name@ == remote_name@,
    {
        McpToolSpec {
            def: ToolDef::new(local_name, description, parameters),
            remote_name: String::from_str(remote_name),
        }
    }

    /// The namespaced local tool for discovered metadata.
    pub fn from_info(server_label: &str, info: McpToolInfo) -> (t: McpToolSpec)
        ensures
            t.def@ == local_def(server_label@, info@),
            t.remote_name@ == info@.name,
    {
        let local_name = namespaced_tool_name(server_label, info.name.as_str());
        let description = describe_tool(server_label, info.name.as_str(), info.description.as_str());
        McpToolSpec {
            def: ToolDef {
                name: local_name,
                description,
                parameters: info.input_schema,
                strict: None,
            },
            remote_name: info.name,
        }
    }
}

/// Per-server load report.
#[derive(Debug, PartialEq, Eq)]
pub struct McpLoadReport {
    /// Sanitized label used to namespace registered tool names.
    pub label: String,
    /// Server URL, trimmed.
    pub url: String,
    /// Registered, namespaced tool names.
    pub tool_names: Vec<String>,
    /// Failure detail, if this server could not be loaded.
    pub error: Option<String>,
}

/// The label and URL a configured server is loaded under: the sanitized label
/// and the trimmed URL.
pub fn prepare_server(label: &str, url: &str) -> (r: (String, String))
    ensures
        r.0@ == sanitized_label(label@),
        r.1@ == trim_ws(url@),
{
    (sanitize_server_label(label), trim(url))
}

/// What loading a server yields: for a listing, one local tool per remote tool
/// (in listing order) and a report naming them; for a failure, no tool and a
/// report carrying the error.
pub fn load_report(label: String, url: String, listing: Result<Vec<McpToolInfo>, String>) -> (r: (
    McpLoadReport,
    Vec<McpToolSpec>,
))
    ensures
        r.0.label@ == label@,
        r.0.url@ == url@,
        match listing {
            Ok(infos) => {
                &&& r.0.error is None
                &&& r.1@.len() == infos@.len()
                &&& r.0.tool_names@.len() == infos@.len()
                &&& forall|i: int|
                    0 <= i < infos@.len() ==> (#[trigger] r.1@[i]).def@ == local_def(
                        label@,
                        infos@[i]@,
                    ) && r.1@[i].remote_name@ == infos@[i]@.name && r.0.tool_names@[i]@ == local_def(
                        label@,
                        infos@[i]@,
                    ).name
            },
            Err(msg) => {
                &&& r.0.error.deep_view() == Some(msg@)
                &&& r.1@.len() == 0
                &&& r.0.tool_names@.len() == 0
            },
        },
{
    match listing {
        Ok(infos) => {
            let ghost all = infos@;
            let mut rest = infos;
            let n = rest.len();
            let mut specs: Vec<McpToolSpec> = Vec::new();
            let mut names: Vec<String> = Vec::new();
            let mut k: usize = 0;
            while k < n
                invariant
                    n == all.len(),
                    k <= n,
                    rest@ == all.skip(k as int),
                    specs@.len() == k,
                    names@.len() == k,
                    forall|i: int|
                        0 <= i < k ==> (#[trigger] specs@[i]).def@ == local_def(label@, all[i]@)
                            && specs@[i].remote_name@ == all[i]@.name && names@[i]@ == local_def(
                            label@,
                            all[i]@,
                        ).name,
                decreases n - k,
            {
                let info = rest.remove(0);
                proof {
                    assert(info == all[k as int]);
                    assert(rest@ =~= all.skip(k + 1));
                }
                let spec = McpToolSpec::from_info(label.as_str(), info);
                names.push(spec.def.name.clone());
                specs.push(spec);
                k = k + 1;
            }
            (McpLoadReport { label, url, tool_names: names, error: None }, specs)
        },
        Err(msg) => (
            McpLoadReport { label, url, tool_names: Vec::new(), error: Some(msg) },
            Vec::new(),
        ),
    }
}

/// What a JSON-RPC reply answers: the error it carries (as JSON text) becomes a
/// tool error, otherwise its `result` (JSON `null` when absent).
pub open spec fn rpc_outcome_of(error: Option<Seq<char>>, result: Option<Seq<char>>) -> Result<
    Seq<char>,
    ErrorView,
> {
    match error {
        Some(e) => Err(ErrorView::Tool("mcp error: "@ + e)),
        None => Ok(
            match result {
                Some(r) => r,
                None => "null"@,
            },
        ),
    }
}

/// Reads a JSON-RPC reply: `error` and `result` are the reply's members of
/// those names, as JSON text, when present.
pub fn rpc_outcome(error: Option<String>, result: Option<String>) -> (r: Result<String, Error>)
    ensures
        match (r, rpc_outcome_of(error.deep_view(), result.deep_view())) {
            (Ok(v), Ok(w)) => v@ == w,
            (Err(e), Err(f)) => e@ == f,
            _ => false,
        },
{
    match error {
        Some(e) => Err(Error::tool(String::from_str("mcp error: ").concat(e.as_str()).as_str())),
        None => Ok(
            match result {
                Some(r) => r,
                None => String::from_str("null"),
            },
        ),
    }
}

/// The text of a `tools/call` result: the `text` of each content block that
/// has one, joined in order.
pub open spec fn joined_texts(texts: Seq<Option<Seq<char>>>) -> Seq<char>
    decreases texts.len(),
{
    if texts.len() == 0 {
        Seq::empty()
    } else {
        joined_texts(texts.drop_last()) + match texts.last() {
            Some(t) => t,
            None => Seq::empty(),
        }
    }
}

/// The value a remote tool answered: the JSON its text holds, or the text
/// itself when it is not JSON.
#[derive(Debug, PartialEq)]
pub enum McpCallOutput {
    /// The text parsed as JSON; here its canonical JSON text.
    Json(String),
    /// The text, which is not JSON.
    Text(String),
}

/// The mathematical model of a [`McpCallOutput`].
pub enum McpCallOutputView {
    Json(Seq<char>),
    Text(Seq<char>),
}

impl View for McpCallOutput {
    type V = McpCallOutputView;

    open spec fn view(&self) -> McpCallOutputView {
        match self {
            McpCallOutput::Json(t) => McpCallOutputView::Json(t@),
            McpCallOutput::Text(t) => McpCallOutputView::Text(t@),
        }
    }
}

/// The value a `tools/call` result stands for.
pub open spec fn call_output_of(texts: Seq<Option<Seq<char>>>) -> McpCallOutputView {
    match json_reencode(joined_texts(texts)) {
        Some(j) => McpCallOutputView::Json(j),
        None => McpCallOutputView::Text(joined_texts(texts)),
    }
}

/// Reads a `tools/call` result from the `text` of each of its content blocks
/// (`None` for a block without one).
pub fn call_output(block_texts: Vec<Option<String>>) -> (o: McpCallOutput)
    ensures
        o@ == call_output_of(block_texts.deep_view()),
{
    let ghost tv = block_texts.deep_view();
    let mut text = String::new();
    let mut i: usize = 0;
    while i < block_texts.len()
        invariant
            i <= block_texts.len(),
            tv == block_texts.deep_view(),
            text@ == joined_texts(tv.take(i as int)),
        decreases block_texts.len() - i,
    {
        proof {
            assert(tv.take(i + 1).drop_last() =~= tv.take(i as int));
        }
        match &block_texts[i] {
            Some(t) => {
                text.append(t.as_str());
            },
            None => {},
        }
        i = i + 1;
    }
    proof {
        assert(tv.take(block_texts.len() as int) =~= tv);
    }
    let reencoded = reencode_json(text.as_str());
    call_output_from(text, reencoded)
}

/// The value a remote tool answered with `text`, given what re-encoding `text`
/// as JSON gave: its canonical JSON, or the text itself when it is not JSON.
pub fn call_output_from(text: String, reencoded: Option<String>) -> (o: McpCallOutput)
    ensures
        o@ == match reencoded.deep_view() {
            Some(j) => McpCallOutputView::Json(j),
            None => McpCallOutputView::Text(text@),
        },
{
    match reencoded {
        Some(j) => McpCallOutput::Json(j),
        None => McpCallOutput::Text(text),
    }
}

} // verus!
