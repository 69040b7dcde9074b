//! Pure classification of one network attempt's outcome.
//!
//! The classifier separates faults worth retrying (transient server or
//! network conditions, and the one explicitly "unknown" service error) from
//! faults that will not change on retry (malformed payloads, denials,
//! invalid arguments).  It is a pure function of the observed outcome: it has
//! no hidden state, and it never performs I/O.

use vstd::prelude::*;
use crate::error::Error;
use crate::status::Status;

verus! {

/// A response body that decoded as the expected schema.
pub struct DecodedBody<T> {
    /// The application-level status embedded in the body.
    pub status: Status,
    /// The optional error message embedded in the body.
    pub message: Option<String>,
    /// The decoded typed payload.
    pub value: T,
}

/// The observed outcome of one network attempt, before classification.
pub enum Attempt<T> {
    /// The transport could not connect or complete; the payload is the cause.
    NoResponse(String),
    /// The server answered with `http_status`; `decoded` is `Some` when the
    /// body decoded as the expected schema with a recognized application
    /// status, and `None` otherwise.
    Response { http_status: u16, decoded: Option<DecodedBody<T>> },
}

/// What one attempt's outcome means for the retry loop.
pub enum Classification<T> {
    /// The attempt succeeded; carries the decoded body.
    Success(T),
    /// The fault is transient: a later attempt may succeed.
    Retryable(Error),
    /// The fault is permanent: no retry can change the result.
    Permanent(Error),
}

/// Whether an HTTP status code is in the success range.
pub open spec fn spec_http_success(code: u16) -> bool {
    200 <= code <= 299
}

/// Whether an HTTP status code is a server error or the remote service's own
/// rate-limit rejection, the only unsuccessful codes worth retrying.
pub open spec fn spec_http_retryable(code: u16) -> bool {
    (500 <= code <= 599) || code == 429
}

/// The decision table, first matching rule wins:
/// 1. no response from the transport: retryable;
/// 2. success HTTP status but an undecodable body: permanent;
/// 3. success HTTP status, decoded body, application status `Okay`: success;
/// 4. success HTTP status, decoded body, application status `UnknownError`:
///    retryable;
/// 5. success HTTP status, decoded body, any other application status:
///    permanent;
/// 6. server-error HTTP status or 429: retryable;
/// 7. any other HTTP status: permanent.
pub open spec fn spec_classify<T>(a: Attempt<T>) -> Classification<T> {
    match a {
        Attempt::NoResponse(cause) => Classification::Retryable(Error::Transport(cause)),
        Attempt::Response { http_status, decoded } => {
            if spec_http_success(http_status) {
                match decoded {
                    None => Classification::Permanent(Error::Schema),
                    Some(body) => {
                        if body.status == Status::Okay {
                            Classification::Success(body.value)
                        } else if body.status == Status::UnknownError {
                            Classification::Retryable(Error::Service(body.status, body.message))
                        } else {
                            Classification::Permanent(Error::Service(body.status, body.message))
                        }
                    },
                }
            } else if spec_http_retryable(http_status) {
                Classification::Retryable(Error::HttpUnsuccessful(http_status))
            } else {
                Classification::Permanent(Error::HttpUnsuccessful(http_status))
            }
        },
    }
}

/// Whether an HTTP status code is in the success range.
pub fn http_success(code: u16) -> (r: bool)
    ensures
        r == spec_http_success(code),
{
    200 <= code && code <= 299
}

/// Classifies one attempt's outcome by the decision table of
/// [`spec_classify`].
pub fn classify<T>(a: Attempt<T>) -> (r: Classification<T>)
    ensures
        r == spec_classify(a),
{
    match a {
        Attempt::NoResponse(cause) => Classification::Retryable(Error::Transport(cause)),
        Attempt::Response { http_status, decoded } => {
            if http_success(http_status) {
                match decoded {
                    None => Classification::Permanent(Error::Schema),
                    Some(body) => {
                        if body.status == Status::Okay {
                            Classification::Success(body.value)
                        } else if body.status == Status::UnknownError {
                            Classification::Retryable(Error::Service(body.status, body.message))
                        } else {
                            Classification::Permanent(Error::Service(body.status, body.message))
                        }
                    },
                }
            } else if (500 <= http_status && http_status <= 599) || http_status == 429 {
                Classification::Retryable(Error::HttpUnsuccessful(http_status))
            } else {
                Classification::Permanent(Error::HttpUnsuccessful(http_status))
            }
        },
    }
}

/// Classification is a pure function: the same observed outcome always
/// yields the same classification, whatever else has happened.
pub proof fn lemma_classify_idempotent<T>(a1: Attempt<T>, a2: Attempt<T>)
    requires
        a1 == a2,
    ensures
        spec_classify(a1) == spec_classify(a2),
{
}

/// Every HTTP 500 and every HTTP 429 response classifies as retryable,
/// regardless of what the body held.
pub proof fn lemma_server_faults_retryable<T>(code: u16, decoded: Option<DecodedBody<T>>)
    requires
        code == 500 || code == 429,
    ensures
        spec_classify(Attempt::Response { http_status: code, decoded })
            == Classification::<T>::Retryable(Error::HttpUnsuccessful(code)),
{
}

/// On a success HTTP status with a decoded body, exactly the `UnknownError`
/// application status is retryable; every other non-`Okay` status is
/// permanent.
pub proof fn lemma_application_status_split<T>(code: u16, body: DecodedBody<T>)
    requires
        spec_http_success(code),
        body.status != Status::Okay,
    ensures
        body.status == Status::UnknownError ==> spec_classify(
            Attempt::Response { http_status: code, decoded: Some(body) },
        ) == Classification::<T>::Retryable(Error::Service(body.status, body.message)),
        body.status != Status::UnknownError ==> spec_classify(
            Attempt::Response { http_status: code, decoded: Some(body) },
        ) == Classification::<T>::Permanent(Error::Service(body.status, body.message)),
{
}

} // verus!
