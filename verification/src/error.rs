//! The error taxonomy of the client.
//!
//! Every failure a caller can see is one of four kinds, and each operation's
//! contract says exactly which kind arises from which outcome. The client
//! never retries, recovers or falls back: errors propagate unmodified.

use vstd::prelude::*;

verus! {

/// What a failed operation reports.
#[derive(Debug, Clone, PartialEq, Eq)]
pub enum BatchError {
    /// The caller-supplied payload could not be encoded, or an identifier
    /// could not be placed into the path. Local; raised before any network
    /// activity.
    Serialization(String),
    /// The transport collaborator failed to carry the request; surfaced
    /// as-is.
    Transport(String),
    /// The remote service answered with a non-success status; carries that
    /// status and the response text.
    Api { status: u16, message: String },
    /// The response body did not match the expected shape.
    Decode(String),
}

/// The mathematical shape of a `BatchError`, with texts as character
/// sequences.
pub enum BatchErrorView {
    Serialization(Seq<char>),
    Transport(Seq<char>),
    Api { status: u16, message: Seq<char> },
    Decode(Seq<char>),
}

impl View for BatchError {
    type V = BatchErrorView;

    open spec fn view(&self) -> BatchErrorView {
        match self {
            BatchError::Serialization(m) => BatchErrorView::Serialization(m@),
            BatchError::Transport(m) => BatchErrorView::Transport(m@),
            BatchError::Api { status, message } => (BatchErrorView::Api {
                status: *status,
                message: message@,
            }),
            BatchError::Decode(m) => BatchErrorView::Decode(m@),
        }
    }
}

} // verus!
