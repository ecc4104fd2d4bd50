//! Error types shared by every fallible operation of the crate.

use vstd::prelude::*;

verus! {

/// The structured error object the PocketBase server returns in a non-empty
/// response body: `{code, message, data}`.
#[derive(Debug, Clone)]
pub struct PocketBaseErrorResponse {
    pub code: u8,
    pub message: String,
    pub data: Vec<(String, String)>,
}

/// Every way an operation of this crate can fail.
#[derive(Debug)]
pub enum Error {
    /// An invalid request parameter, such as a base URL that does not parse.
    InvalidParameter(String),
    /// A transport-level failure of an outbound call.
    RequestFailed(String),
    /// An operation that needs credentials was invoked before authentication.
    NotAuthenticated,
    /// The authentication response could not be understood.
    AuthenticationError(String),
    /// The server answered a request with a structured error body.
    PocketBaseErrorResponse(PocketBaseErrorResponse),
    /// The server behaved in a way this client does not know how to handle.
    PocketBaseImplementException(String),
    /// A bounded wait ran out before the awaited condition held.
    Timeout(String),
    /// An operation requiring an established realtime connection was invoked
    /// before one exists.
    SSEClientNotExist,
    /// An internal invariant of the client was broken.
    ShouldNot(String),
}

/// The text `message` returns for each error variant.
pub open spec fn spec_error_message(e: Error) -> Seq<char> {
    match e {
        Error::InvalidParameter(s) => "Invalid parameter: "@ + s@,
        Error::RequestFailed(s) => "Request failed: "@ + s@,
        Error::NotAuthenticated => "Not authenticated"@,
        Error::AuthenticationError(s) => "Authentication error: "@ + s@,
        Error::PocketBaseErrorResponse(r) => "PocketBase request error: "@ + r.message@,
        Error::PocketBaseImplementException(s) => "Pocketbase implementation error: "@ + s@,
        Error::Timeout(s) => "Timeout: "@ + s@,
        Error::SSEClientNotExist => "SSE Client not created yet"@,
        Error::ShouldNot(s) => "Should not: "@ + s@,
    }
}

impl Error {
    /// A human-readable description of the error.
    pub fn message(&self) -> (r: String)
        ensures
            r@ == spec_error_message(*self),
    {
        match self {
            Error::InvalidParameter(s) => {
                let mut r = String::from_str("Invalid parameter: ");
                r.append(s.as_str());
                r
            },
            Error::RequestFailed(s) => {
                let mut r = String::from_str("Request failed: ");
                r.append(s.as_str());
                r
            },
            Error::NotAuthenticated => String::from_str("Not authenticated"),
            Error::AuthenticationError(s) => {
                let mut r = String::from_str("Authentication error: ");
                r.append(s.as_str());
                r
            },
            Error::PocketBaseErrorResponse(resp) => {
                let mut r = String::from_str("PocketBase request error: ");
                r.append(resp.message.as_str());
                r
            },
            Error::PocketBaseImplementException(s) => {
                let mut r = String::from_str("Pocketbase implementation error: ");
                r.append(s.as_str());
                r
            },
            Error::Timeout(s) => {
                let mut r = String::from_str("Timeout: ");
                r.append(s.as_str());
                r
            },
            Error::SSEClientNotExist => String::from_str("SSE Client not created yet"),
            Error::ShouldNot(s) => {
                let mut r = String::from_str("Should not: ");
                r.append(s.as_str());
                r
            },
        }
    }
}

} // verus!
