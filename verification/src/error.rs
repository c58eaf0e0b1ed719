//! Error types surfaced by the request pipeline.

use vstd::prelude::*;

verus! {

/// Body the service attaches to a failing response: a success flag
/// (always false on errors) and a human-readable cause.
#[derive(Debug, Clone, PartialEq)]
pub struct ErrorReply {
    pub success: bool,
    pub cause: String,
}

impl ErrorReply {
    /// Whether the service marked the response as successful.
    pub fn success(&self) -> (r: bool)
        ensures
            r == self.success,
    {
        self.success
    }

    /// The cause reported by the service.
    pub fn cause(&self) -> (r: &str)
        ensures
            r@ == self.cause@,
    {
        self.cause.as_str()
    }
}

/// Everything that can go wrong while executing one logical request.
///
/// Header values that fail to parse are always recovered locally with a
/// documented default and never reach a caller; the remaining variants are
/// surfaced verbatim from `submit`.
#[derive(Debug, Clone, PartialEq)]
pub enum HypixelApiError {
    /// A header value was present but not a decimal integer.
    IntFromStrError(String),
    /// The service answered with a status outside the protocol's
    /// `{200, 429}` set; carries the status and, when the body could be
    /// parsed, the structured cause the service sent along.
    UnexpectedResponseCode(u16, Option<ErrorReply>),
    /// The transport below us failed (connection, timeout, TLS).
    TransportFailure(String),
    /// The wake or timer channel closed: the client was shut down mid-flight.
    ChannelFailure,
    /// The admitted body did not match the shape the caller requested.
    DeserializationFailure(String),
}

} // verus!
