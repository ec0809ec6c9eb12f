//! The batch-job client facade.
//!
//! `Batches` exposes the four operations of the batch resource. Each one
//! resolves the resource path from the configuration as it stands at that
//! call (override first, default `/batches` otherwise — nothing is cached),
//! and returns the single HTTP call to perform as an [`HttpRequest`] plan.
//! The caller executes the plan and maps the outcome back through
//! [`crate::response`].

use vstd::prelude::*;
use vstd::string::*;
use crate::config::BatchConfig;
use crate::error::{BatchError, BatchErrorView};
use crate::json::{empty_json_object, empty_object_body, request_json, request_to_json};
use crate::paths::{
    cancel_item_path, item_path, join_cancel_path, join_item_path, resolve_base_path,
    resolved_base,
};
use crate::plan::{HttpMethod, HttpRequest};
use crate::types::BatchRequest;

verus! {

/// The message reported when an operation is given an empty identifier.
pub open spec fn empty_id_message() -> Seq<char> {
    "batch id must not be empty"@
}

/// A facade over the batch resource, bound to a configuration. It holds no
/// per-call state: every operation reads the configuration afresh.
pub struct Batches {
    pub config: BatchConfig,
}

impl Batches {
    /// A client that resolves paths against `config`.
    pub fn new(config: BatchConfig) -> (r: Self)
        ensures
            r.config == config,
    {
        Batches { config }
    }

    /// Replaces the configuration. A subsequent operation resolves its path
    /// from the new value: resolution is per-call, never cached.
    pub fn set_config(&mut self, config: BatchConfig)
        ensures
            final(self).config == config,
    {
        self.config = config;
    }

    /// Plans the submission of a batch: one POST to the resolved base path
    /// whose body is exactly the serialized request.
    pub fn create(&self, request: &BatchRequest) -> (r: HttpRequest)
        ensures
            r.method == HttpMethod::Post,
            r.path@ == resolved_base(self.config@),
            r.body matches Some(b) && b@ == request_json(*request),
            r.query@.len() == 0,
    {
        let path = resolve_base_path(&self.config);
        let body = request_to_json(request);
        HttpRequest { method: HttpMethod::Post, path, body: Some(body), query: Vec::new() }
    }

    /// Plans the submission of a caller-serialized payload: the same verb,
    /// path and (absent) query as [`Self::create`], with the given text as
    /// body. `payload` is the outcome of the caller's own serializer; a
    /// failed serialization is surfaced as a `Serialization` error and no
    /// plan — hence no network call — is produced.
    pub fn create_with_body(&self, payload: Result<String, String>) -> (r: Result<
        HttpRequest,
        BatchError,
    >)
        ensures
            match payload {
                Ok(s) => r matches Ok(p) && p.method == HttpMethod::Post && p.path@
                    == resolved_base(self.config@) && (p.body matches Some(b) && b@ == s@)
                    && p.query@.len() == 0,
                Err(m) => r matches Err(e) && e@ == BatchErrorView::Serialization(m@),
            },
    {
        match payload {
            Ok(s) => {
                let path = resolve_base_path(&self.config);
                Ok(HttpRequest { method: HttpMethod::Post, path, body: Some(s), query: Vec::new() })
            },
            Err(m) => Err(BatchError::Serialization(m)),
        }
    }

    /// Plans a page listing: one GET against the resolved base path carrying
    /// the given query pairs verbatim. No pair is required; any serializable
    /// query the caller can express as pairs is accepted, the empty query
    /// included.
    pub fn list(&self, query: Vec<(String, String)>) -> (r: HttpRequest)
        ensures
            r.method == HttpMethod::Get,
            r.path@ == resolved_base(self.config@),
            r.body is None,
            r.query == query,
    {
        let path = resolve_base_path(&self.config);
        HttpRequest { method: HttpMethod::Get, path, body: None, query }
    }

    /// Plans the retrieval of one batch: a GET with the identifier
    /// interpolated verbatim into the resolved path. An empty identifier is
    /// rejected before any plan is produced.
    pub fn retrieve(&self, batch_id: &str) -> (r: Result<HttpRequest, BatchError>)
        ensures
            batch_id@.len() == 0 ==> (r matches Err(e) && e@ == BatchErrorView::Serialization(
                empty_id_message(),
            )),
            batch_id@.len() > 0 ==> (r matches Ok(p) && p.method == HttpMethod::Get && p.path@
                == item_path(resolved_base(self.config@), batch_id@) && p.body is None
                && p.query@.len() == 0),
    {
        if batch_id.unicode_len() == 0 {
            return Err(BatchError::Serialization(String::from_str("batch id must not be empty")));
        }
        let base = resolve_base_path(&self.config);
        let path = join_item_path(base.as_str(), batch_id);
        Ok(HttpRequest { method: HttpMethod::Get, path, body: None, query: Vec::new() })
    }

    /// Plans the cancellation of one batch: a POST to the resolved item path
    /// with the `/cancel` suffix, whose body is always the non-null empty
    /// JSON object — the endpoint requires a body but no parameters, and no
    /// payload override reaches this operation. An empty identifier is
    /// rejected before any plan is produced. Cancellation is asynchronous on
    /// the service: the returned record may still report `Cancelling`, and
    /// callers poll `retrieve` to observe the terminal state.
    pub fn cancel(&self, batch_id: &str) -> (r: Result<HttpRequest, BatchError>)
        ensures
            batch_id@.len() == 0 ==> (r matches Err(e) && e@ == BatchErrorView::Serialization(
                empty_id_message(),
            )),
            batch_id@.len() > 0 ==> (r matches Ok(p) && p.method == HttpMethod::Post && p.path@
                == cancel_item_path(resolved_base(self.config@), batch_id@) && (p.body matches Some(
                b,
            ) && b@ == empty_json_object()) && p.query@.len() == 0),
    {
        if batch_id.unicode_len() == 0 {
            return Err(BatchError::Serialization(String::from_str("batch id must not be empty")));
        }
        let base = resolve_base_path(&self.config);
        let path = join_cancel_path(base.as_str(), batch_id);
        let body = empty_object_body();
        Ok(HttpRequest { method: HttpMethod::Post, path, body: Some(body), query: Vec::new() })
    }
}

} // verus!
