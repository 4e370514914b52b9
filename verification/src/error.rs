//! The error taxonomy: what each failed call reports to its caller.
//!
//! Every failure is returned immediately; nothing is retried or
//! logged.  Transport-level failures are constructed by the embedding
//! application (which owns the socket) from the message it observed;
//! everything else is produced by the library's own classification.

use vstd::prelude::*;

verus! {

/// Why a request failed.
#[derive(Debug, PartialEq, Eq)]
pub enum ErrorResponse {
    /// The request could not be sent or the connection failed.
    GenericClientError(String),
    /// The response arrived but its body could not be read as text.
    TextParsingError(String),
    /// The body is not valid JSON, or lacks the status-probe shape.
    SerdeJsonParsingError,
    /// Upstream reported a non-success status without a message.
    ClassChartsStatusError(usize),
    /// Upstream reported a non-success status with a message.
    ClassChartsError(usize, String),
}

/// Why the login flow failed to produce a client.
#[derive(Debug, PartialEq, Eq)]
pub enum ClientCreationError {
    /// No redirect or no cookie came back: the credentials are wrong
    /// or the service is unreachable, and the two cannot be told apart.
    AuthenticationError,
    /// The login request itself could not be performed.
    ClientError(String),
    /// The session cookie's JSON payload cannot be parsed.
    CookieParsingError,
    /// No cookie of the expected name was among those returned.
    MissingSesssionCookie(()),
    /// A response header could not be read as a string.
    StringParseError(String),
    /// The identity fetch after login failed.
    ApiRequestError(ErrorResponse),
    /// The session cookie's percent-encoding could not be decoded.
    StringDecodingError,
}

} // verus!
