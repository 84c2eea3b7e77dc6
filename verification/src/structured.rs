//! Structured-output request configuration.
//!
//! The desired response shape is described with a [`ResponseFormat`]; adapters
//! use the provider-native JSON/schema mode when available.

use vstd::prelude::*;
use vstd::string::*;

use crate::request::{ChatRequest, ChatRequestView};

verus! {

/// How the model should format its response. The schema is JSON text.
#[derive(Debug, PartialEq)]
pub enum ResponseFormat {
    /// Free-form text (the default behavior).
    Text,
    /// Any syntactically valid JSON object.
    JsonObject,
    /// JSON constrained to a named JSON Schema.
    JsonSchema {
        /// A name for the schema.
        name: String,
        /// The JSON Schema document, as JSON text.
        schema: String,
        /// Whether to request strict enforcement.
        strict: bool,
    },
}

/// The mathematical model of a [`ResponseFormat`].
pub enum ResponseFormatView {
    Text,
    JsonObject,
    JsonSchema { name: Seq<char>, schema: Seq<char>, strict: bool },
}

impl View for ResponseFormat {
    type V = ResponseFormatView;

    open spec fn view(&self) -> ResponseFormatView {
        match self {
            ResponseFormat::Text => ResponseFormatView::Text,
            ResponseFormat::JsonObject => ResponseFormatView::JsonObject,
            ResponseFormat::JsonSchema { name, schema, strict } => ResponseFormatView::JsonSchema {
                name: name@,
                schema: schema@,
                strict: *strict,
            },
        }
    }
}

impl DeepView for ResponseFormat {
    type V = ResponseFormatView;

    open spec fn deep_view(&self) -> ResponseFormatView {
        self@
    }
}

impl Clone for ResponseFormat {
    fn clone(&self) -> (res: Self)
        ensures
            res@ == self@,
    {
        match self {
            ResponseFormat::Text => ResponseFormat::Text,
            ResponseFormat::JsonObject => ResponseFormat::JsonObject,
            ResponseFormat::JsonSchema { name, schema, strict } => ResponseFormat::JsonSchema {
                name: name.clone(),
                schema: schema.clone(),
                strict: *strict,
            },
        }
    }
}

/// Clones an optional response format.
pub fn clone_opt_response_format(f: &Option<ResponseFormat>) -> (res: Option<ResponseFormat>)
    ensures
        res.deep_view() == f.deep_view(),
{
    match f {
        Some(x) => Some(x.clone()),
        None => None,
    }
}

/// The discriminant of a [`ResponseFormat`], without its payload.
#[derive(Debug, Clone, Copy, PartialEq, Eq, Structural)]
pub enum ResponseFormatKind {
    /// See [`ResponseFormat::Text`].
    Text,
    /// See [`ResponseFormat::JsonObject`].
    JsonObject,
    /// See [`ResponseFormat::JsonSchema`].
    JsonSchema,
}

/// The discriminant of a format.
pub open spec fn format_kind(f: ResponseFormatView) -> ResponseFormatKind {
    match f {
        ResponseFormatView::Text => ResponseFormatKind::Text,
        ResponseFormatView::JsonObject => ResponseFormatKind::JsonObject,
        ResponseFormatView::JsonSchema { .. } => ResponseFormatKind::JsonSchema,
    }
}

impl ResponseFormat {
    /// The discriminant of this format.
    pub fn kind(&self) -> (k: ResponseFormatKind)
        ensures
            k == format_kind(self@),
    {
        match self {
            ResponseFormat::Text => ResponseFormatKind::Text,
            ResponseFormat::JsonObject => ResponseFormatKind::JsonObject,
            ResponseFormat::JsonSchema { .. } => ResponseFormatKind::JsonSchema,
        }
    }

    /// A JSON-Schema format with the given name, schema (JSON text) and strictness.
    pub fn json_schema(name: &str, schema: &str, strict: bool) -> (f: ResponseFormat)
        ensures
            f@ == (ResponseFormatView::JsonSchema { name: name@, schema: schema@, strict }),
    {
        ResponseFormat::JsonSchema {
            name: String::from_str(name),
            schema: String::from_str(schema),
            strict,
        }
    }
}

/// Prepares a request for structured output whose JSON Schema is `schema`: a
/// request that sets no format is given the non-strict schema format named
/// `output`; a format already set is kept.
pub fn with_default_format(request: &mut ChatRequest, schema: &str)
    ensures
        final(request)@ == (ChatRequestView {
            response_format: match old(request)@.response_format {
                Some(f) => Some(f),
                None => Some(
                    ResponseFormatView::JsonSchema { name: "output"@, schema: schema@, strict: false },
                ),
            },
            ..old(request)@
        }),
{
    if request.response_format.is_none() {
        request.response_format = Some(ResponseFormat::json_schema("output", schema, false));
    }
}

} // verus!
