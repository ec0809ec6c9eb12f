//! The typed payloads of the batch resource.
//!
//! `BatchRequest` describes a job to submit; `Batch` is the service's job
//! record as reported at response time; `ListBatchesResponse` is one page
//! of records with pagination metadata. The client only transports these
//! values: it neither tracks nor enforces the remote lifecycle.

use vstd::prelude::*;

verus! {

/// The lifecycle state a batch was in when the service answered.
///
/// Happy path: `Validating` → `InProgress` → `Finalizing` → `Completed`;
/// alternate terminal states are `Failed` and `Expired`; cancellation moves
/// through `Cancelling` to `Cancelled`. These transitions happen on the
/// remote service; a value here is a point-in-time snapshot only.
#[derive(Debug, Clone, Copy, PartialEq, Eq)]
pub enum BatchStatus {
    Validating,
    InProgress,
    Finalizing,
    Completed,
    Failed,
    Expired,
    Cancelling,
    Cancelled,
}

/// How many of the batch's requests have finished, by outcome.
#[derive(Debug, Clone, Copy, PartialEq, Eq)]
pub struct BatchRequestCounts {
    pub total: u32,
    pub completed: u32,
    pub failed: u32,
}

/// A job description to submit with `create`: the uploaded input artifact,
/// the endpoint to execute against, the completion window, and optional
/// caller metadata as key/value pairs. Immutable once constructed.
#[derive(Debug, Clone, PartialEq, Eq)]
pub struct BatchRequest {
    pub input_file_id: String,
    pub endpoint: String,
    pub completion_window: String,
    pub metadata: Option<Vec<(String, String)>>,
}

/// The service's materialized job record, read-only from this side.
#[derive(Debug, Clone, PartialEq, Eq)]
pub struct Batch {
    pub id: String,
    pub status: BatchStatus,
    pub created_at: u64,
    pub input_file_id: String,
    pub output_file_id: Option<String>,
    pub error_file_id: Option<String>,
    pub request_counts: Option<BatchRequestCounts>,
}

/// One page of batch records plus pagination cursor metadata.
#[derive(Debug, Clone, PartialEq, Eq)]
pub struct ListBatchesResponse {
    pub data: Vec<Batch>,
    pub first_id: Option<String>,
    pub last_id: Option<String>,
    pub has_more: bool,
}

} // verus!
