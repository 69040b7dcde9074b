//! The error vocabulary of the execution engine.
//!
//! A caller always receives either a fully decoded response or exactly one of
//! these values; partial or ambiguous states never escape the engine.

use vstd::prelude::*;
use crate::status::Status;

verus! {

/// Everything that can go wrong while executing a request.
#[derive(Debug)]
pub enum Error {
    /// The query string was not built before execution was requested.  This
    /// is a caller bug, not a network condition: it is reported immediately
    /// and no network attempt is made.
    QueryNotBuilt,
    /// The transport could not connect or complete; the payload describes the
    /// cause.  Always worth retrying.
    Transport(String),
    /// The server answered with a non-success HTTP status code.
    HttpUnsuccessful(u16),
    /// A success HTTP status arrived but the body did not decode as the
    /// expected schema; retrying cannot repair a malformed payload.
    Schema,
    /// The service itself reported a domain-level failure through the
    /// application status embedded in the body, with an optional message.
    Service(Status, Option<String>),
    /// The retry budget was spent while the fault remained retryable; carries
    /// the last observed retryable cause.
    Exhausted(Box<Error>),
}

impl Error {
    /// A short human-readable description of the error kind.
    pub fn message(&self) -> (r: &'static str)
    {
        match self {
            Error::QueryNotBuilt => "the query string must be built before the request may be sent",
            Error::Transport(_) => "the transport could not connect or complete the request",
            Error::HttpUnsuccessful(_) => "the server answered with an unsuccessful HTTP status",
            Error::Schema => "the response body did not decode as the expected schema",
            Error::Service(_, _) => "the service reported a domain-level failure",
            Error::Exhausted(_) => "the retry budget was spent while the fault remained retryable",
        }
    }
}

} // verus!
