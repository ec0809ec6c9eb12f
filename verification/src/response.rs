//! Mapping transport outcomes back into typed results.
//!
//! After the caller executes a plan, it hands the outcome to
//! [`handle_transport_outcome`]: a success status yields the raw body, a
//! non-success status becomes an `Api` error carrying that status, and a
//! transport failure becomes a `Transport` error. Once the body has been
//! decoded into the expected (or caller-chosen) type, [`accept_decoded`]
//! finishes the taxonomy: a decode failure becomes a `Decode` error. No
//! outcome is retried and none is altered.

use vstd::prelude::*;
use crate::error::{BatchError, BatchErrorView};

verus! {

/// What the remote service answered: its status code and the response text.
#[derive(Debug, Clone, PartialEq, Eq)]
pub struct HttpResponse {
    pub status: u16,
    pub body: String,
}

/// The statuses the client treats as success.
pub open spec fn is_success_status(status: u16) -> bool {
    200 <= status < 300
}

/// Turns the transport's outcome into the raw response body or the typed
/// error that exactly reflects it.
pub fn handle_transport_outcome(outcome: Result<HttpResponse, String>) -> (r: Result<
    String,
    BatchError,
>)
    ensures
        match outcome {
            Ok(resp) => if is_success_status(resp.status) {
                r matches Ok(b) && b@ == resp.body@
            } else {
                r matches Err(e) && e@ == (BatchErrorView::Api {
                    status: resp.status,
                    message: resp.body@,
                })
            },
            Err(m) => r matches Err(e) && e@ == BatchErrorView::Transport(m@),
        },
{
    match outcome {
        Ok(resp) => {
            if 200 <= resp.status && resp.status < 300 {
                Ok(resp.body)
            } else {
                Err(BatchError::Api { status: resp.status, message: resp.body })
            }
        },
        Err(m) => Err(BatchError::Transport(m)),
    }
}

/// Accepts the outcome of decoding a response body: the decoded value is
/// passed through unchanged, and a decode failure becomes a `Decode` error.
/// The type parameter is the caller's choice, so a custom response shape
/// goes through the same taxonomy as the default one.
pub fn accept_decoded<T>(decoded: Result<T, String>) -> (r: Result<T, BatchError>)
    ensures
        match decoded {
            Ok(v) => r matches Ok(w) && w == v,
            Err(m) => r matches Err(e) && e@ == BatchErrorView::Decode(m@),
        },
{
    match decoded {
        Ok(v) => Ok(v),
        Err(m) => Err(BatchError::Decode(m)),
    }
}

} // verus!
