//! The JSON operations the library takes from `serde_json`.
//!
//! JSON documents are carried through the library as JSON text. Where the
//! library needs a document's canonical text (tool-call arguments assembled from
//! streamed fragments), it asks `serde_json` to parse and re-serialize it.

use vstd::prelude::*;
use vstd::string::*;

verus! {

/// The compact JSON text `serde_json` writes for the document that `text`
/// parses to, or `None` when `text` is not valid JSON.
pub uninterp spec fn json_reencode(text: Seq<char>) -> Option<Seq<char>>;

/// Parses `text` with `serde_json::from_str` into a `serde_json::Value` and
/// writes it back with `Value::to_string`. The contract claims only that the
/// result is a function of `text` (named [`json_reencode`]); what that function
/// is, is `serde_json`'s parser and writer.
#[verifier::external_body]
pub(crate) fn reencode_json(text: &str) -> (r: Option<String>)
    ensures
        r.deep_view() == json_reencode(text@),
{
    serde_json::from_str::<serde_json::Value>(text).ok().map(|v| v.to_string())
}

/// The arguments text for a re-encoding outcome: the canonical JSON when the
/// text was JSON, an empty object otherwise.
pub open spec fn args_from(reencoded: Option<Seq<char>>) -> Seq<char> {
    match reencoded {
        Some(t) => t,
        None => "{}"@,
    }
}

/// The arguments text a tool call carries once its raw text is assembled: the
/// canonical JSON of the document, or an empty object when the text is not JSON.
pub open spec fn args_text(raw: Seq<char>) -> Seq<char> {
    args_from(json_reencode(raw))
}

/// The arguments text for a re-encoding outcome (see [`args_from`]).
pub fn args_or_empty_object(reencoded: Option<String>) -> (t: String)
    ensures
        t@ == args_from(reencoded.deep_view()),
{
    match reencoded {
        Some(t) => t,
        None => String::from_str("{}"),
    }
}

/// Normalizes assembled tool-call arguments (see [`args_text`]).
pub fn normalize_args(raw: &str) -> (t: String)
    ensures
        t@ == args_text(raw@),
{
    args_or_empty_object(reencode_json(raw))
}

} // verus!
