//! The errors that an operation can end in.
use vstd::prelude::*;

verus! {

/// Why an operation failed. Each variant carries text for diagnostics: the
/// remote error object in its JSON text, or a message.
#[derive(Debug, Clone, PartialEq, Eq)]
pub enum OpenAIError {
    /// The prompt leaves the model no room for a completion; nothing was sent.
    TooManyTokens(String),
    /// The remote side reported `billing_not_active`.
    BillingNotActive(String),
    /// The remote side reported `invalid_request_error`.
    InvalidRequest(String),
    /// The remote side reported an error of another or of no type.
    UnrecognizedError(String),
    /// The call failed below the API: connection, HTTP, or a body that is
    /// not JSON.
    TransportError(String),
    /// A success payload that does not have the shape of the expected response.
    DecodeError(String),
}

} // verus!
