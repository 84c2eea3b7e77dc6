//! Authentication schemes for HTTP providers, as the header each one adds to
//! an outgoing request.

use vstd::prelude::*;
use vstd::string::*;

verus! {

broadcast use vstd::string::group_string_axioms;

/// No authentication, for local runners.
#[derive(Debug, Clone, Copy, Default)]
pub struct NoAuth;

/// `Authorization: Bearer <token>`, the OpenAI / hosted-gateway default.
#[derive(Debug)]
pub struct BearerAuth(pub String);

/// An arbitrary API-key header, e.g. `x-api-key: <value>`.
#[derive(Debug)]
pub struct ApiKeyAuth {
    /// Header name.
    pub header: String,
    /// Header value.
    pub value: String,
}

impl NoAuth {
    /// The header this scheme adds: none.
    pub fn header(&self) -> (h: Option<(String, String)>)
        ensures
            h is None,
    {
        None
    }
}

impl BearerAuth {
    /// The header this scheme adds: `authorization: Bearer <token>`.
    pub fn header(&self) -> (h: Option<(String, String)>)
        ensures
            h.deep_view() == Some(("authorization"@, "Bearer "@ + self.0@)),
    {
        Some((String::from_str("authorization"), String::from_str("Bearer ").concat(self.0.as_str())))
    }
}

impl ApiKeyAuth {
    /// An API-key header scheme.
    pub fn new(header: &str, value: &str) -> (a: ApiKeyAuth)
        ensures
            a.header@ == header@,
            a.value@ == value@,
    {
        ApiKeyAuth { header: String::from_str(header), value: String::from_str(value) }
    }

    /// The header this scheme adds: its own name and value.
    pub fn header(&self) -> (h: Option<(String, String)>)
        ensures
            h.deep_view() == Some((self.header@, self.value@)),
    {
        Some((self.header.clone(), self.value.clone()))
    }
}

} // verus!
