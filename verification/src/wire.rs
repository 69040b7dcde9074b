//! Reading the wire-format envelope out of a response body.
//!
//! Every service response is a JSON object carrying at minimum a `status`
//! string and optionally an error message.  Extracting those two fields is
//! the only place the engine touches a JSON parser; everything downstream
//! works on the plain values it hands back.

use vstd::prelude::*;
use crate::classify::{Attempt, DecodedBody};
use crate::status::{status_of_wire, parse_status};

verus! {

/// The envelope a JSON parser finds in a body: the `status` string and the
/// optional error message, or `None` when the body is not a JSON object with
/// a string `status` field.
pub uninterp spec fn envelope_of(s: Seq<char>) -> Option<(Seq<char>, Option<Seq<char>>)>;

/// The view of an extracted envelope.
pub open spec fn envelope_view(r: Option<(String, Option<String>)>) -> Option<
    (Seq<char>, Option<Seq<char>>),
> {
    match r {
        None => None,
        Some((st, None)) => Some((st@, None)),
        Some((st, Some(msg))) => Some((st@, Some(msg@))),
    }
}

/// Relies on serde_json::from_str and serde_json::Value's accessors: parses
/// the body as JSON and reads its `status` string field and its optional
/// `error_message`/`errorMessage` string field.  The result is a function of
/// the body text alone.
#[verifier::external_body]
fn parse_envelope(body: &str) -> (r: Option<(String, Option<String>)>)
    ensures
        envelope_view(r) == envelope_of(body@),
{
    let v: serde_json::Value = match serde_json::from_str(body) {
        Ok(v) => v,
        Err(_) => return None,
    };
    let status = match v.get("status").and_then(|s| s.as_str()) {
        Some(s) => s.to_string(),
        None => return None,
    };
    let message = v
        .get("error_message")
        .or_else(|| v.get("errorMessage"))
        .and_then(|m| m.as_str())
        .map(|m| m.to_string());
    Some((status, message))
}

/// The view of an optional message field.
pub open spec fn message_view(m: Option<String>) -> Option<Seq<char>> {
    match m {
        None => None,
        Some(s) => Some(s@),
    }
}

/// What [`evaluate_response`] must produce for a body whose envelope and
/// status are as the parser reports them: an undecodable body, or one whose
/// status string is unrecognized, yields no decoded body; otherwise the
/// decoded body carries the recognized status, the message, and the raw text.
pub open spec fn spec_evaluated(code: u16, raw: Seq<char>, a: Attempt<String>) -> bool {
    match a {
        Attempt::NoResponse(_) => false,
        Attempt::Response { http_status, decoded } => {
            &&& http_status == code
            &&& match envelope_of(raw) {
                None => decoded is None,
                Some((st, msg)) => match status_of_wire(st) {
                    None => decoded is None,
                    Some(status) => match decoded {
                        None => false,
                        Some(b) => {
                            &&& b.status == status
                            &&& message_view(b.message) == msg
                            &&& b.value@ == raw
                        },
                    },
                },
            }
        },
    }
}

/// Turns one raw transport response into the attempt outcome the classifier
/// consumes: the HTTP status code as observed, and the decoded envelope when
/// the body is a JSON object with a recognized `status` value.
pub fn evaluate_response(http_status: u16, body: &str) -> (a: Attempt<String>)
    ensures
        spec_evaluated(http_status, body@, a),
{
    match parse_envelope(body) {
        None => Attempt::Response { http_status, decoded: None },
        Some((st, msg)) => match parse_status(&st) {
            None => Attempt::Response { http_status, decoded: None },
            Some(status) => Attempt::Response {
                http_status,
                decoded: Some(DecodedBody { status, message: msg, value: body.to_owned() }),
            },
        },
    }
}

} // verus!
