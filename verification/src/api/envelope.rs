//! The envelopes that carry a payload together with its capability, an
//! optional correlation id and, on the way back, a typed error.

use super::capabilities::CapabilityId;
use vstd::prelude::*;

verus! {

/// Who sent a request, and over which transport.
#[derive(Debug, Clone, PartialEq, Eq, Default)]
pub struct RequestMetadata {
    pub transport: Option<String>,
    pub actor: Option<String>,
}

impl RequestMetadata {
    /// Whether neither a transport nor an actor is stated.
    pub fn states_nothing(&self) -> (nothing: bool)
        ensures
            nothing == (self.transport is None && self.actor is None),
    {
        self.transport.is_none() && self.actor.is_none()
    }
}

/// A request on its way to the engine.
#[derive(Debug, Clone, PartialEq)]
pub struct RequestEnvelope<T> {
    pub request_id: Option<String>,
    pub capability: CapabilityId,
    pub metadata: RequestMetadata,
    pub payload: T,
}

/// The engine's answer to one request.
#[derive(Debug, Clone, PartialEq)]
pub struct ResponseEnvelope<T> {
    pub request_id: Option<String>,
    pub capability: CapabilityId,
    pub result: ApiResultEnvelope<T>,
}

/// Either the data that was asked for or the error that prevented it.
#[derive(Debug, Clone, PartialEq)]
pub enum ApiResultEnvelope<T> {
    /// The request succeeded; on the wire the status is `ok`.
    Success { data: T },
    /// The request failed; on the wire the status is `err`.
    Failure { error: ApiErrorEnvelope },
}

/// The kinds of error the engine reports.
#[derive(Debug, Clone, Copy, PartialEq, Eq, Structural)]
pub enum ApiErrorCode {
    InvalidRequest,
    ValidationFailed,
    NotFound,
    Conflict,
    IoFailure,
    ExternalFailure,
    Unsupported,
    Internal,
}

/// An error as it travels in a response.
#[derive(Debug, Clone, PartialEq)]
pub struct ApiErrorEnvelope {
    pub code: ApiErrorCode,
    pub message: String,
    pub retryable: bool,
    pub details: Option<serde_json::Value>,
}

} // verus!
