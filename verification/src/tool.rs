//! Tool definitions and the tool registry.
//!
//! A tool is a function the model can call: a name, a description, and a JSON
//! Schema (as JSON text) for its parameters. [`ToolRegistry`] is the name-keyed
//! registry behind a tool box: it decides which slot a tool occupies, which
//! declarations are advertised, and what an unknown name answers.

use vstd::prelude::*;
use vstd::string::*;

use crate::error::{Error, ErrorView};
use crate::message::clone_opt_string;
use crate::text::same_text;

verus! {

broadcast use vstd::string::group_string_axioms;

/// The provider-neutral declaration of a callable tool.
#[derive(Debug, PartialEq)]
pub struct ToolDef {
    /// Unique tool name.
    pub name: String,
    /// What the tool does and when to call it.
    pub description: String,
    /// JSON Schema describing the tool's parameters, as JSON text.
    pub parameters: String,
    /// Whether the provider should strictly enforce the schema, when supported.
    pub strict: Option<bool>,
}

/// The mathematical model of a [`ToolDef`].
pub struct ToolDefView {
    pub name: Seq<char>,
    pub description: Seq<char>,
    pub parameters: Seq<char>,
    pub strict: Option<bool>,
}

impl View for ToolDef {
    type V = ToolDefView;

    open spec fn view(&self) -> ToolDefView {
        ToolDefView {
            name: self.name@,
            description: self.description@,
            parameters: self.parameters@,
            strict: self.strict,
        }
    }
}

impl DeepView for ToolDef {
    type V = ToolDefView;

    open spec fn deep_view(&self) -> ToolDefView {
        self@
    }
}

impl Clone for ToolDef {
    fn clone(&self) -> (res: Self)
        ensures
            res@ == self@,
    {
        ToolDef {
            name: self.name.clone(),
            description: self.description.clone(),
            parameters: self.parameters.clone(),
            strict: self.strict,
        }
    }
}

impl ToolDef {
    /// A tool definition with an explicit JSON Schema parameter object (JSON text).
    pub fn new(name: &str, description: &str, parameters: &str) -> (t: ToolDef)
        ensures
            t@ == (ToolDefView {
                name: name@,
                description: description@,
                parameters: parameters@,
                strict: None,
            }),
    {
        ToolDef {
            name: String::from_str(name),
            description: String::from_str(description),
            parameters: String::from_str(parameters),
            strict: None,
        }
    }
}

/// Clones a list of tool definitions, keeping every definition.
pub fn clone_tool_defs(v: &Vec<ToolDef>) -> (res: Vec<ToolDef>)
    ensures
        res.deep_view() == v.deep_view(),
{
    let mut out: Vec<ToolDef> = Vec::new();
    let mut i: usize = 0;
    while i < v.len()
        invariant
            i <= v.len(),
            out@.len() == i,
            forall|j: int| 0 <= j < i ==> (#[trigger] out@[j])@ == v@[j]@,
        decreases v.len() - i,
    {
        out.push(v[i].clone());
        i = i + 1;
    }
    assert(out.deep_view() =~= v.deep_view());
    out
}

/// How the model is allowed (or required) to use tools for a request.
#[derive(Debug, PartialEq)]
pub enum ToolChoice {
    /// The model decides whether to call a tool (default).
    Auto,
    /// The model may not call any tool.
    NoTool,
    /// The model must call at least one tool.
    Required,
    /// The model must call this specific tool.
    Tool {
        /// The tool name to force.
        name: String,
    },
}

/// The mathematical model of a [`ToolChoice`].
pub enum ToolChoiceView {
    Auto,
    NoTool,
    Required,
    Tool { name: Seq<char> },
}

impl View for ToolChoice {
    type V = ToolChoiceView;

    open spec fn view(&self) -> ToolChoiceView {
        match self {
            ToolChoice::Auto => ToolChoiceView::Auto,
            ToolChoice::NoTool => ToolChoiceView::NoTool,
            ToolChoice::Required => ToolChoiceView::Required,
            ToolChoice::Tool { name } => ToolChoiceView::Tool { name: name@ },
        }
    }
}

impl DeepView for ToolChoice {
    type V = ToolChoiceView;

    open spec fn deep_view(&self) -> ToolChoiceView {
        self@
    }
}

impl Clone for ToolChoice {
    fn clone(&self) -> (res: Self)
        ensures
            res@ == self@,
    {
        match self {
            ToolChoice::Auto => ToolChoice::Auto,
            ToolChoice::NoTool => ToolChoice::NoTool,
            ToolChoice::Required => ToolChoice::Required,
            ToolChoice::Tool { name } => ToolChoice::Tool { name: name.clone() },
        }
    }
}

/// Clones an optional tool choice.
pub fn clone_opt_tool_choice(c: &Option<ToolChoice>) -> (res: Option<ToolChoice>)
    ensures
        res.deep_view() == c.deep_view(),
{
    match c {
        Some(x) => Some(x.clone()),
        None => None,
    }
}

/// The index of the first definition named `name`, if any.
pub open spec fn index_of_name(defs: Seq<ToolDefView>, name: Seq<char>) -> Option<int> {
    if exists|i: int| 0 <= i < defs.len() && defs[i].name == name {
        Some(choose|i: int| 0 <= i < defs.len() && defs[i].name == name)
    } else {
        None
    }
}

/// No two definitions share a name.
pub open spec fn names_unique(defs: Seq<ToolDefView>) -> bool {
    forall|i: int, j: int|
        0 <= i < defs.len() && 0 <= j < defs.len() && i != j ==> defs[i].name != defs[j].name
}

/// Registering `def`: it replaces the definition of the same name in place, or
/// is appended when the name is new.
pub open spec fn register(defs: Seq<ToolDefView>, def: ToolDefView) -> Seq<ToolDefView> {
    match index_of_name(defs, def.name) {
        Some(i) => defs.update(i, def),
        None => defs.push(def),
    }
}

/// A registry of tool declarations, keyed by name. Each registered name owns one
/// slot; the caller keeps whatever runs the tool in the same slot.
#[derive(Debug)]
pub struct ToolRegistry {
    defs: Vec<ToolDef>,
}

impl View for ToolRegistry {
    type V = Seq<ToolDefView>;

    closed spec fn view(&self) -> Seq<ToolDefView> {
        self.defs.deep_view()
    }
}

impl Clone for ToolRegistry {
    fn clone(&self) -> (res: Self)
        ensures
            res@ == self@,
    {
        proof {
            use_type_invariant(self);
        }
        ToolRegistry { defs: clone_tool_defs(&self.defs) }
    }
}

impl ToolRegistry {
    /// The registry's invariant: names are unique.
    #[verifier::type_invariant]
    spec fn unique_names(self) -> bool {
        names_unique(self.defs.deep_view())
    }

    /// An empty registry.
    pub fn new() -> (r: ToolRegistry)
        ensures
            r@ == Seq::<ToolDefView>::empty(),
            names_unique(r@),
    {
        let r = ToolRegistry { defs: Vec::new() };
        assert(r@ =~= Seq::<ToolDefView>::empty());
        r
    }

    /// Looks up the slot of `name`.
    pub fn position(&self, name: &str) -> (p: Option<usize>)
        ensures
            p matches Some(i) ==> index_of_name(self@, name@) == Some(i as int),
            p is None <==> index_of_name(self@, name@) is None,
    {
        proof {
            use_type_invariant(self);
        }
        let mut i: usize = 0;
        while i < self.defs.len()
            invariant
                i <= self.defs.len(),
                names_unique(self@),
                forall|j: int| 0 <= j < i ==> (#[trigger] self@[j]).name != name@,
            decreases self.defs.len() - i,
        {
            if same_text(self.defs[i].name.as_str(), name) {
                proof {
                    assert(self@[i as int].name == name@);
                    let k = choose|k: int| 0 <= k < self@.len() && self@[k].name == name@;
                    assert(k == i);
                }
                return Some(i);
            }
            i = i + 1;
        }
        None
    }

    /// Registers a definition, replacing any existing one with the same name.
    /// Returns the slot it occupies and whether that slot is new.
    pub fn add(&mut self, def: ToolDef) -> (slot: (usize, bool))
        ensures
            names_unique(final(self)@),
            final(self)@ == register(old(self)@, def@),
            slot.1 == (index_of_name(old(self)@, def@.name) is None),
            slot.1 ==> slot.0 == old(self)@.len(),
            !slot.1 ==> index_of_name(old(self)@, def@.name) == Some(slot.0 as int),
    {
        proof {
            use_type_invariant(&*self);
        }
        let ghost d = def@;
        let found = self.position(def.name.as_str());
        let mut defs: Vec<ToolDef> = Vec::new();
        std::mem::swap(&mut defs, &mut self.defs);
        let ghost before = defs.deep_view();
        assert(before == old(self)@);
        match found {
            Some(i) => {
                defs.set(i, def);
                proof {
                    assert(defs.deep_view() =~= before.update(i as int, d));
                }
                self.defs = defs;
                (i, false)
            },
            None => {
                let n = defs.len();
                defs.push(def);
                proof {
                    assert(defs.deep_view() =~= before.push(d));
                }
                self.defs = defs;
                (n, true)
            },
        }
    }

    /// Which registered tool runs for `name`: its slot, or, for a name that
    /// is not registered, the unknown-tool error (and no tool runs).
    pub fn dispatch(&self, name: &str) -> (r: Result<usize, Error>)
        ensures
            match r {
                Ok(i) => index_of_name(self@, name@) == Some(i as int) && i < self@.len(),
                Err(e) => index_of_name(self@, name@) is None && e@ == ErrorView::Tool(
                    "unknown tool `"@ + name@ + "`"@,
                ),
            },
    {
        match self.position(name) {
            Some(i) => Ok(i),
            None => Err(unknown_tool_error(name)),
        }
    }

    /// The declarations of every registered tool, in slot order.
    pub fn defs(&self) -> (d: Vec<ToolDef>)
        ensures
            d.deep_view() == self@,
    {
        clone_tool_defs(&self.defs)
    }

    /// Number of registered tools.
    pub fn len(&self) -> (n: usize)
        ensures
            n == self@.len(),
    {
        self.defs.len()
    }

    /// Whether no tools are registered.
    pub fn is_empty(&self) -> (b: bool)
        ensures
            b == (self@.len() == 0),
    {
        self.defs.len() == 0
    }
}

/// The error an invocation of an unregistered tool answers.
pub fn unknown_tool_error(name: &str) -> (e: Error)
    ensures
        e@ == ErrorView::Tool("unknown tool `"@ + name@ + "`"@),
{
    Error::Tool(String::from_str("unknown tool `").concat(name).concat("`"))
}

} // verus!
