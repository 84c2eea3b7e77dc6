//! The crate-wide error type.
//!
//! Provider errors are normalized into a single [`Error::Provider`] variant
//! carrying an [`ApiErrorKind`], so callers branch on the kind uniformly across
//! every provider.

use vstd::prelude::*;
use vstd::string::*;

verus! {

/// Provider-agnostic classification of an API error.
#[derive(Debug, Clone, Copy, PartialEq, Eq, Structural)]
pub enum ApiErrorKind {
    /// Too many requests / quota exceeded.
    RateLimited,
    /// Missing or invalid credentials.
    InvalidAuth,
    /// Input exceeded the model's context window.
    ContextLengthExceeded,
    /// Request or response blocked by a content filter / safety system.
    ContentFilter,
    /// Resource (model, endpoint) not found.
    NotFound,
    /// Malformed request the provider rejected.
    BadRequest,
    /// Provider-side failure (5xx).
    ServerError,
    /// Request timed out.
    Timeout,
    /// Anything not otherwise classified.
    Other,
}

/// The classification of an HTTP status code.
pub open spec fn kind_of_status(status: u16) -> ApiErrorKind {
    if status == 400 {
        ApiErrorKind::BadRequest
    } else if status == 401 || status == 403 {
        ApiErrorKind::InvalidAuth
    } else if status == 404 {
        ApiErrorKind::NotFound
    } else if status == 408 {
        ApiErrorKind::Timeout
    } else if status == 429 {
        ApiErrorKind::RateLimited
    } else if 500 <= status <= 599 {
        ApiErrorKind::ServerError
    } else {
        ApiErrorKind::Other
    }
}

impl ApiErrorKind {
    /// Best-effort classification from an HTTP status code.
    pub fn from_status(status: u16) -> (kind: ApiErrorKind)
        ensures
            kind == kind_of_status(status),
    {
        if status == 400 {
            ApiErrorKind::BadRequest
        } else if status == 401 || status == 403 {
            ApiErrorKind::InvalidAuth
        } else if status == 404 {
            ApiErrorKind::NotFound
        } else if status == 408 {
            ApiErrorKind::Timeout
        } else if status == 429 {
            ApiErrorKind::RateLimited
        } else if 500 <= status && status <= 599 {
            ApiErrorKind::ServerError
        } else {
            ApiErrorKind::Other
        }
    }
}


/// The human-readable name of an error kind.
pub open spec fn kind_name(kind: ApiErrorKind) -> Seq<char> {
    match kind {
        ApiErrorKind::RateLimited => "rate limited"@,
        ApiErrorKind::InvalidAuth => "invalid auth"@,
        ApiErrorKind::ContextLengthExceeded => "context length exceeded"@,
        ApiErrorKind::ContentFilter => "content filtered"@,
        ApiErrorKind::NotFound => "not found"@,
        ApiErrorKind::BadRequest => "bad request"@,
        ApiErrorKind::ServerError => "server error"@,
        ApiErrorKind::Timeout => "timeout"@,
        ApiErrorKind::Other => "other"@,
    }
}

impl ApiErrorKind {
    /// The human-readable name of this kind, as errors display it.
    pub fn as_str(&self) -> (s: &'static str)
        ensures
            s@ == kind_name(*self),
    {
        match self {
            ApiErrorKind::RateLimited => "rate limited",
            ApiErrorKind::InvalidAuth => "invalid auth",
            ApiErrorKind::ContextLengthExceeded => "context length exceeded",
            ApiErrorKind::ContentFilter => "content filtered",
            ApiErrorKind::NotFound => "not found",
            ApiErrorKind::BadRequest => "bad request",
            ApiErrorKind::ServerError => "server error",
            ApiErrorKind::Timeout => "timeout",
            ApiErrorKind::Other => "other",
        }
    }
}

/// The crate-wide error type. Failures of outside code (JSON decoding, the HTTP
/// transport, anything else) are carried as their messages.
#[derive(Debug, PartialEq)]
pub enum Error {
    /// The request was rejected before it left the crate.
    InvalidRequest(String),
    /// A provider returned (or the transport surfaced) a normalized error.
    Provider {
        /// Provider identifier, e.g. `"openai"`.
        provider: String,
        /// HTTP status, when the transport is HTTP.
        status: Option<u16>,
        /// Normalized, provider-agnostic error classification.
        kind: ApiErrorKind,
        /// Human-readable detail (often the provider's own message).
        message: String,
    },
    /// An error occurred while reading or decoding a streamed response.
    Stream(String),
    /// A tool invocation failed.
    Tool(String),
    /// (De)serialization failure.
    Serde(String),
    /// Transport-level HTTP error.
    Http(String),
    /// Any other error, shown as its own message.
    Other(String),
}

/// The mathematical model of an [`Error`].
pub enum ErrorView {
    InvalidRequest(Seq<char>),
    Provider { provider: Seq<char>, status: Option<u16>, kind: ApiErrorKind, message: Seq<char> },
    Stream(Seq<char>),
    Tool(Seq<char>),
    Serde(Seq<char>),
    Http(Seq<char>),
    Other(Seq<char>),
}

impl View for Error {
    type V = ErrorView;

    open spec fn view(&self) -> ErrorView {
        match self {
            Error::InvalidRequest(m) => ErrorView::InvalidRequest(m@),
            Error::Provider { provider, status, kind, message } => ErrorView::Provider {
                provider: provider@,
                status: *status,
                kind: *kind,
                message: message@,
            },
            Error::Stream(m) => ErrorView::Stream(m@),
            Error::Tool(m) => ErrorView::Tool(m@),
            Error::Serde(m) => ErrorView::Serde(m@),
            Error::Http(m) => ErrorView::Http(m@),
            Error::Other(m) => ErrorView::Other(m@),
        }
    }
}

/// The text an error displays.
pub open spec fn error_text(e: ErrorView) -> Seq<char> {
    match e {
        ErrorView::InvalidRequest(m) => "invalid request: "@ + m,
        ErrorView::Provider { provider, kind, message, .. } => "provider `"@ + provider
            + "` request failed ["@ + kind_name(kind) + "]: "@ + message,
        ErrorView::Stream(m) => "stream error: "@ + m,
        ErrorView::Tool(m) => "tool error: "@ + m,
        ErrorView::Serde(m) => "serialization error: "@ + m,
        ErrorView::Http(m) => "http error: "@ + m,
        ErrorView::Other(m) => m,
    }
}

impl Error {
    /// An [`Error::InvalidRequest`].
    pub fn invalid_request(msg: &str) -> (e: Error)
        ensures
            e@ == ErrorView::InvalidRequest(msg@),
    {
        Error::InvalidRequest(String::from_str(msg))
    }

    /// An [`Error::Provider`] with no HTTP status.
    pub fn provider(provider: &str, kind: ApiErrorKind, message: &str) -> (e: Error)
        ensures
            e@ == (ErrorView::Provider {
                provider: provider@,
                status: None,
                kind,
                message: message@,
            }),
    {
        Error::Provider {
            provider: String::from_str(provider),
            status: None,
            kind,
            message: String::from_str(message),
        }
    }

    /// An [`Error::Provider`] from an HTTP status, classifying the kind from it.
    pub fn provider_status(provider: &str, status: u16, message: &str) -> (e: Error)
        ensures
            e@ == (ErrorView::Provider {
                provider: provider@,
                status: Some(status),
                kind: kind_of_status(status),
                message: message@,
            }),
    {
        Error::Provider {
            provider: String::from_str(provider),
            status: Some(status),
            kind: ApiErrorKind::from_status(status),
            message: String::from_str(message),
        }
    }

    /// An [`Error::Stream`].
    pub fn stream(msg: &str) -> (e: Error)
        ensures
            e@ == ErrorView::Stream(msg@),
    {
        Error::Stream(String::from_str(msg))
    }

    /// An [`Error::Tool`].
    pub fn tool(msg: &str) -> (e: Error)
        ensures
            e@ == ErrorView::Tool(msg@),
    {
        Error::Tool(String::from_str(msg))
    }

    /// The message this error displays.
    pub fn to_string(&self) -> (s: String)
        ensures
            s@ == error_text(self@),
    {
        match self {
            Error::InvalidRequest(m) => String::from_str("invalid request: ").concat(m.as_str()),
            Error::Provider { provider, kind, message, .. } => String::from_str(
                "provider `",
            ).concat(provider.as_str()).concat("` request failed [").concat(kind.as_str()).concat(
                "]: ",
            ).concat(message.as_str()),
            Error::Stream(m) => String::from_str("stream error: ").concat(m.as_str()),
            Error::Tool(m) => String::from_str("tool error: ").concat(m.as_str()),
            Error::Serde(m) => String::from_str("serialization error: ").concat(m.as_str()),
            Error::Http(m) => String::from_str("http error: ").concat(m.as_str()),
            Error::Other(m) => m.clone(),
        }
    }
}

} // verus!
