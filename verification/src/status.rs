//! Application-level status codes embedded in service response bodies.
//!
//! A response body carries a `status` string, distinct from the HTTP status
//! code, that reports whether the service fulfilled the request.  Only the
//! values listed here are recognized; a body whose status is anything else is
//! treated as undecodable.

use vstd::prelude::*;

verus! {

/// The application-level status a service reports inside a response body.
#[derive(Clone, Copy, Debug, PartialEq, Eq, Structural)]
pub enum Status {
    /// The request was successful.
    Okay,
    /// The request was malformed.
    InvalidRequest,
    /// The usage cap was exceeded, the key is invalid, or billing is not
    /// enabled.
    OverDailyLimit,
    /// The requestor has exceeded quota.
    OverQueryLimit,
    /// The service did not complete the request.
    RequestDenied,
    /// A generically transient service-side fault.
    UnknownError,
}

/// The status a wire-format status string denotes, or `None` when the string
/// is not a recognized status value.
pub open spec fn status_of_wire(s: Seq<char>) -> Option<Status> {
    if s == "OK"@ {
        Some(Status::Okay)
    } else if s == "INVALID_REQUEST"@ {
        Some(Status::InvalidRequest)
    } else if s == "OVER_DAILY_LIMIT"@ {
        Some(Status::OverDailyLimit)
    } else if s == "OVER_QUERY_LIMIT"@ {
        Some(Status::OverQueryLimit)
    } else if s == "REQUEST_DENIED"@ {
        Some(Status::RequestDenied)
    } else if s == "UNKNOWN_ERROR"@ {
        Some(Status::UnknownError)
    } else {
        None
    }
}

/// Maps a wire-format status string to the status it denotes.
pub fn parse_status(s: &String) -> (r: Option<Status>)
    ensures
        r == status_of_wire(s@),
{
    proof {
        reveal_strlit("OK");
        reveal_strlit("INVALID_REQUEST");
        reveal_strlit("OVER_DAILY_LIMIT");
        reveal_strlit("OVER_QUERY_LIMIT");
        reveal_strlit("REQUEST_DENIED");
        reveal_strlit("UNKNOWN_ERROR");
    }
    if *s == "OK".to_owned() {
        Some(Status::Okay)
    } else if *s == "INVALID_REQUEST".to_owned() {
        Some(Status::InvalidRequest)
    } else if *s == "OVER_DAILY_LIMIT".to_owned() {
        Some(Status::OverDailyLimit)
    } else if *s == "OVER_QUERY_LIMIT".to_owned() {
        Some(Status::OverQueryLimit)
    } else if *s == "REQUEST_DENIED".to_owned() {
        Some(Status::RequestDenied)
    } else if *s == "UNKNOWN_ERROR".to_owned() {
        Some(Status::UnknownError)
    } else {
        None
    }
}

/// The wire-format string for a status, as services spell it.
pub fn wire_of_status(s: Status) -> (r: &'static str)
    ensures
        status_of_wire(r@) == Some(s),
{
    proof {
        reveal_strlit("OK");
        reveal_strlit("INVALID_REQUEST");
        reveal_strlit("OVER_DAILY_LIMIT");
        reveal_strlit("OVER_QUERY_LIMIT");
        reveal_strlit("REQUEST_DENIED");
        reveal_strlit("UNKNOWN_ERROR");
        assert("OK"@.len() == 2);
        assert("INVALID_REQUEST"@.len() == 15);
        assert("OVER_DAILY_LIMIT"@.len() == 16);
        assert("OVER_QUERY_LIMIT"@.len() == 16);
        assert("REQUEST_DENIED"@.len() == 14);
        assert("UNKNOWN_ERROR"@.len() == 13);
        assert("OVER_DAILY_LIMIT"@[5] != "OVER_QUERY_LIMIT"@[5]);
    }
    match s {
        Status::Okay => "OK",
        Status::InvalidRequest => "INVALID_REQUEST",
        Status::OverDailyLimit => "OVER_DAILY_LIMIT",
        Status::OverQueryLimit => "OVER_QUERY_LIMIT",
        Status::RequestDenied => "REQUEST_DENIED",
        Status::UnknownError => "UNKNOWN_ERROR",
    }
}

} // verus!
