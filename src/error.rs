//! Errors that a call can end with.

use vstd::prelude::*;

verus! {

/// Why an API call did not produce a typed result.
#[derive(Debug, PartialEq, Eq)]
pub enum OneBotApiError {
    /// The connection could not be opened, read or written.
    WebSocket(String),
    /// A frame or a result could not be encoded or decoded as JSON.
    Json(String),
    /// The completion slot was dropped before a response was handed over.
    Channel,
    /// No response arrived before the deadline.
    Timeout,
    /// The reply arrived but did not have the shape the call expects.
    InvalidMessage,
    /// The outbound queue is gone: the adapter is shutting down.
    Closed,
    /// Anything else, with a description.
    Internal(String),
}

impl OneBotApiError {
    /// Transport failures and timeouts may succeed when tried again; the
    /// other kinds would fail the same way.
    pub fn is_retryable(&self) -> (r: bool)
        ensures
            r == (self is WebSocket || self is Timeout),
    {
        match self {
            OneBotApiError::WebSocket(_) => true,
            OneBotApiError::Timeout => true,
            _ => false,
        }
    }
}

} // verus!
