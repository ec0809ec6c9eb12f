//! Request plans: the single HTTP call an operation asks the transport to
//! perform.
//!
//! A plan pins the verb, the fully resolved path, the exact body (if any)
//! and the query pairs. Executing it — connecting, authenticating, sending —
//! is the transport collaborator's job, outside this library.

use vstd::prelude::*;

verus! {

/// The HTTP verb of a plan. The batch resource uses only these two.
#[derive(Debug, Clone, Copy, PartialEq, Eq)]
pub enum HttpMethod {
    Get,
    Post,
}

/// One HTTP call to perform: verb, resolved path, optional body text, and
/// query pairs to encode onto the URL.
#[derive(Debug, Clone, PartialEq, Eq)]
pub struct HttpRequest {
    pub method: HttpMethod,
    pub path: String,
    pub body: Option<String>,
    pub query: Vec<(String, String)>,
}

} // verus!
