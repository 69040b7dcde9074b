//! End-to-end behaviour of the execution engine: classification, retry,
//! scripted execution, and envelope decoding.

use maps_engine::backoff::BackoffPolicy;
use maps_engine::category::ApiCategory;
use maps_engine::classify::{classify, Attempt, Classification, DecodedBody};
use maps_engine::error::Error;
use maps_engine::executor::{execute_scripted, Request, ScriptedRun};
use maps_engine::retry::{MachineState, RetryMachine, Step};
use maps_engine::status::Status;
use maps_engine::wire::evaluate_response;

fn policy(max_attempts: u32) -> BackoffPolicy {
    BackoffPolicy {
        initial_delay_ms: 100,
        multiplier_percent: 200,
        max_delay_ms: 1_000,
        max_attempts,
    }
}

fn built_request() -> Request {
    Request::new(ApiCategory::Directions).with_query("origin=a&destination=b".to_string())
}

/// Converts raw transport responses into a script of attempt outcomes, the
/// way a live driver would observe them.
fn script_of(raw: &[(u16, &str)]) -> Vec<Attempt<String>> {
    raw.iter().map(|(code, body)| evaluate_response(*code, *body)).collect()
}

#[test]
fn unbuilt_query_fails_immediately_with_zero_attempts() {
    let req = Request::new(ApiCategory::Elevation);
    let script: Vec<Attempt<String>> = script_of(&[(200, "{\"status\":\"OK\"}")]);
    match execute_scripted(&req, &policy(3), script) {
        ScriptedRun::Completed { result: Err(Error::QueryNotBuilt), attempts } => {
            assert_eq!(attempts, 0);
        }
        _ => panic!("an unbuilt query must fail with QueryNotBuilt and no attempts"),
    }
}

#[test]
fn http_500_and_429_classify_retryable_regardless_of_body() {
    for code in [500u16, 429u16] {
        let with_ok_body = Attempt::Response {
            http_status: code,
            decoded: Some(DecodedBody {
                status: Status::Okay,
                message: None,
                value: "payload".to_string(),
            }),
        };
        assert!(matches!(
            classify(with_ok_body),
            Classification::Retryable(Error::HttpUnsuccessful(c)) if c == code
        ));
        let without_body: Attempt<String> = Attempt::Response { http_status: code, decoded: None };
        assert!(matches!(
            classify(without_body),
            Classification::Retryable(Error::HttpUnsuccessful(c)) if c == code
        ));
    }
}

#[test]
fn unknown_error_retries_and_every_other_failure_status_is_permanent() {
    let unknown = Attempt::Response {
        http_status: 200,
        decoded: Some(DecodedBody {
            status: Status::UnknownError,
            message: None,
            value: 0u8,
        }),
    };
    assert!(matches!(
        classify(unknown),
        Classification::Retryable(Error::Service(Status::UnknownError, None))
    ));
    for status in [
        Status::InvalidRequest,
        Status::OverDailyLimit,
        Status::OverQueryLimit,
        Status::RequestDenied,
    ] {
        let attempt = Attempt::Response {
            http_status: 200,
            decoded: Some(DecodedBody { status, message: None, value: 0u8 }),
        };
        assert!(matches!(
            classify(attempt),
            Classification::Permanent(Error::Service(s, None)) if s == status
        ));
    }
}

#[test]
fn classification_is_idempotent() {
    let make = || Attempt::Response {
        http_status: 503,
        decoded: Some(DecodedBody {
            status: Status::Okay,
            message: Some("m".to_string()),
            value: 1u8,
        }),
    };
    let first = classify(make());
    let second = classify(make());
    match (first, second) {
        (
            Classification::Retryable(Error::HttpUnsuccessful(a)),
            Classification::Retryable(Error::HttpUnsuccessful(b)),
        ) => assert_eq!(a, b),
        _ => panic!("the same outcome must classify the same way twice"),
    }
}

#[test]
fn transport_failure_is_retryable() {
    let attempt: Attempt<u8> = Attempt::NoResponse("connection refused".to_string());
    assert!(matches!(
        classify(attempt),
        Classification::Retryable(Error::Transport(c)) if c == "connection refused"
    ));
}

#[test]
fn undecodable_body_on_success_status_is_permanent_schema_error() {
    let attempt: Attempt<String> = evaluate_response(200, "this is not json");
    assert!(matches!(classify(attempt), Classification::Permanent(Error::Schema)));
}

#[test]
fn unrecognized_application_status_is_permanent_schema_error() {
    let attempt: Attempt<String> = evaluate_response(200, "{\"status\":\"SOMETHING_NEW\"}");
    assert!(matches!(classify(attempt), Classification::Permanent(Error::Schema)));
}

#[test]
fn non_retryable_http_status_is_permanent() {
    let attempt: Attempt<String> = evaluate_response(404, "{\"status\":\"OK\"}");
    assert!(matches!(
        classify(attempt),
        Classification::Permanent(Error::HttpUnsuccessful(404))
    ));
}

#[test]
fn three_503s_then_ok_succeeds_after_four_attempts() {
    let raw: Vec<(u16, &str)> = vec![
        (503, ""),
        (503, ""),
        (503, ""),
        (200, "{\"status\":\"OK\",\"routes\":[]}"),
    ];
    match execute_scripted(&built_request(), &policy(10), script_of(&raw)) {
        ScriptedRun::Completed { result: Ok(body), attempts } => {
            assert_eq!(attempts, 4);
            assert_eq!(body, "{\"status\":\"OK\",\"routes\":[]}");
        }
        _ => panic!("the run must succeed on the fourth attempt"),
    }
}

#[test]
fn request_denied_is_permanent_after_one_attempt() {
    let raw = [(200u16, "{\"status\":\"REQUEST_DENIED\"}")];
    match execute_scripted(&built_request(), &policy(10), script_of(&raw)) {
        ScriptedRun::Completed { result: Err(Error::Service(Status::RequestDenied, None)), attempts } => {
            assert_eq!(attempts, 1);
        }
        _ => panic!("a denied request must fail permanently after one attempt"),
    }
}

#[test]
fn all_500s_exhaust_the_budget_after_three_attempts() {
    let raw = [(500u16, ""), (500u16, ""), (500u16, "")];
    match execute_scripted(&built_request(), &policy(3), script_of(&raw)) {
        ScriptedRun::Completed { result: Err(Error::Exhausted(cause)), attempts } => {
            assert_eq!(attempts, 3);
            assert!(matches!(*cause, Error::HttpUnsuccessful(500)));
        }
        _ => panic!("three retryable faults must exhaust a budget of three"),
    }
}

#[test]
fn script_shorter_than_needed_reports_exhausted_script() {
    let raw = [(503u16, "")];
    match execute_scripted(&built_request(), &policy(5), script_of(&raw)) {
        ScriptedRun::ScriptExhausted { attempts } => assert_eq!(attempts, 1),
        _ => panic!("a script that ends before resolution must say so"),
    }
}

#[test]
fn machine_walks_the_documented_states() {
    let mut m: RetryMachine<String> = RetryMachine::new(policy(3));
    assert!(matches!(m.state, MachineState::Idle));
    m.begin();
    assert!(matches!(m.state, MachineState::Attempting));
    let step = m.observe(evaluate_response(500, ""));
    match step {
        Step::RetryAfter(delay) => assert_eq!(delay, 100),
        Step::Finished => panic!("a retryable fault with budget left must wait"),
    }
    assert!(matches!(m.state, MachineState::Waiting { delay_ms: 100 }));
    m.resume();
    let step = m.observe(evaluate_response(500, ""));
    match step {
        Step::RetryAfter(delay) => assert_eq!(delay, 200),
        Step::Finished => panic!("budget remains after two of three attempts"),
    }
    m.resume();
    let step = m.observe(evaluate_response(200, "{\"status\":\"OK\"}"));
    assert!(matches!(step, Step::Finished));
    assert!(m.is_resolved());
    assert_eq!(m.attempts, 3);
    assert!(matches!(m.into_result(), Ok(_)));
}

#[test]
fn evaluate_response_reads_status_and_message_from_json() {
    let attempt = evaluate_response(200, "{\"status\":\"UNKNOWN_ERROR\",\"errorMessage\":\"try later\"}");
    match attempt {
        Attempt::Response { http_status, decoded: Some(body) } => {
            assert_eq!(http_status, 200);
            assert_eq!(body.status, Status::UnknownError);
            assert_eq!(body.message.as_deref(), Some("try later"));
        }
        _ => panic!("a well-formed envelope must decode"),
    }
    let attempt = evaluate_response(200, "{\"status\":\"OVER_QUERY_LIMIT\",\"error_message\":\"quota\"}");
    match attempt {
        Attempt::Response { decoded: Some(body), .. } => {
            assert_eq!(body.status, Status::OverQueryLimit);
            assert_eq!(body.message.as_deref(), Some("quota"));
        }
        _ => panic!("the snake-case message field must decode too"),
    }
}

#[test]
fn evaluate_response_rejects_missing_or_non_string_status() {
    assert!(matches!(
        evaluate_response(200, "{\"routes\":[]}"),
        Attempt::Response { decoded: None, .. }
    ));
    assert!(matches!(
        evaluate_response(200, "{\"status\":7}"),
        Attempt::Response { decoded: None, .. }
    ));
    assert!(matches!(
        evaluate_response(200, "[1,2]"),
        Attempt::Response { decoded: None, .. }
    ));
}

#[test]
fn unknown_error_retries_until_the_service_recovers() {
    let raw = [
        (200u16, "{\"status\":\"UNKNOWN_ERROR\",\"errorMessage\":\"hiccup\"}"),
        (200u16, "{\"status\":\"OK\"}"),
    ];
    match execute_scripted(&built_request(), &policy(5), script_of(&raw)) {
        ScriptedRun::Completed { result: Ok(_), attempts } => assert_eq!(attempts, 2),
        _ => panic!("one unknown error then a success must resolve on the second attempt"),
    }
}

#[test]
fn exhaustion_carries_the_last_retryable_service_cause() {
    let raw = [
        (200u16, "{\"status\":\"UNKNOWN_ERROR\",\"errorMessage\":\"first\"}"),
        (200u16, "{\"status\":\"UNKNOWN_ERROR\",\"errorMessage\":\"second\"}"),
    ];
    match execute_scripted(&built_request(), &policy(2), script_of(&raw)) {
        ScriptedRun::Completed { result: Err(Error::Exhausted(cause)), attempts } => {
            assert_eq!(attempts, 2);
            match *cause {
                Error::Service(Status::UnknownError, Some(m)) => assert_eq!(m, "second"),
                _ => panic!("the exhaustion cause must be the last unknown-error fault"),
            }
        }
        _ => panic!("two unknown errors must exhaust a budget of two"),
    }
}
