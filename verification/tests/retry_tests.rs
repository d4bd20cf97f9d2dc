use grokipedia_x::errors::{
    has_aborted_stream_signature, is_gateway_timeout, map_client_error, map_status_message,
    AgenticError, CompletionError,
};
use grokipedia_x::retry::{
    copy_outcome, decide, retry_notice_text, run_attempts, RetryDecision, RetryReport,
    MAX_ATTEMPTS,
};

const RAW_TIMEOUT: &str = "status: Internal, message: \"protocol error: invalid compression flag: 60, while sending request, status: 504 Gateway Timeout\"";

fn transient() -> Result<String, CompletionError> {
    Err(CompletionError::Agentic(map_status_message(RAW_TIMEOUT.to_string())))
}

fn fatal() -> Result<String, CompletionError> {
    Err(CompletionError::Client("transport error: connection refused".to_string()))
}

fn success() -> Result<String, CompletionError> {
    Ok("[1,2,3]".to_string())
}

#[test]
fn the_budget_is_three_attempts() {
    assert_eq!(MAX_ATTEMPTS, 3);
}

#[test]
fn two_transient_failures_then_success_succeeds_with_two_notices() {
    let report = run_attempts(&vec![transient(), transient(), success()]).unwrap();
    assert_eq!(report.result, success());
    assert_eq!(report.attempts, 3);
    assert_eq!(
        report.notices,
        vec![
            "summarize_with_xai attempt 1 failed due to gateway timeout, retrying...".to_string(),
            "summarize_with_xai attempt 2 failed due to gateway timeout, retrying...".to_string(),
        ]
    );
}

#[test]
fn three_transient_failures_fail_with_that_error() {
    let report = run_attempts(&vec![transient(), transient(), transient()]).unwrap();
    assert_eq!(report.result, transient());
    assert_eq!(report.attempts, 3);
    assert_eq!(report.notices.len(), 2);
}

#[test]
fn a_fatal_failure_on_the_first_attempt_fails_at_once() {
    let report = run_attempts(&vec![fatal(), success(), success()]).unwrap();
    assert_eq!(report, RetryReport { result: fatal(), notices: Vec::new(), attempts: 1 });
}

#[test]
fn missing_completion_text_is_not_retried() {
    let empty: Result<String, CompletionError> = Err(CompletionError::MissingCompletionText);
    let report = run_attempts(&vec![copy_outcome(&empty), success()]).unwrap();
    assert_eq!(report.result, empty);
    assert_eq!(report.attempts, 1);
    assert!(report.notices.is_empty());
}

#[test]
fn a_success_ends_the_run_at_once() {
    let report = run_attempts(&vec![success()]).unwrap();
    assert_eq!(report, RetryReport { result: success(), notices: Vec::new(), attempts: 1 });
    let later = run_attempts(&vec![transient(), success(), fatal()]).unwrap();
    assert_eq!(later.result, success());
    assert_eq!(later.attempts, 2);
    assert_eq!(later.notices.len(), 1);
}

#[test]
fn a_fatal_failure_after_a_retry_ends_the_run() {
    let report = run_attempts(&vec![transient(), fatal(), success()]).unwrap();
    assert_eq!(report.result, fatal());
    assert_eq!(report.attempts, 2);
    assert_eq!(report.notices.len(), 1);
}

#[test]
fn a_record_that_ends_too_early_reports_nothing() {
    assert_eq!(run_attempts(&Vec::new()), None);
    assert_eq!(run_attempts(&vec![transient()]), None);
    assert_eq!(run_attempts(&vec![transient(), transient()]), None);
}

#[test]
fn outcomes_after_the_end_are_not_looked_at() {
    let report = run_attempts(&vec![transient(), transient(), transient(), success()]).unwrap();
    assert_eq!(report.result, transient());
    assert_eq!(report.attempts, 3);
}

#[test]
fn decide_repeats_only_transient_failures_with_attempts_left() {
    assert_eq!(
        decide(1, transient()),
        RetryDecision::Retry(
            "summarize_with_xai attempt 1 failed due to gateway timeout, retrying...".to_string()
        )
    );
    assert_eq!(decide(2, transient()), RetryDecision::Retry(retry_notice_text(2)));
    assert_eq!(decide(3, transient()), RetryDecision::Done(transient()));
    assert_eq!(decide(4, transient()), RetryDecision::Done(transient()));
    assert_eq!(decide(1, fatal()), RetryDecision::Done(fatal()));
    assert_eq!(decide(1, success()), RetryDecision::Done(success()));
    assert_eq!(decide(3, success()), RetryDecision::Done(success()));
}

#[test]
fn only_the_composite_signature_is_transient() {
    assert!(is_gateway_timeout(RAW_TIMEOUT));
    assert!(is_gateway_timeout("504 Gateway Timeout; invalid compression flag"));
    assert!(!is_gateway_timeout("invalid compression flag"));
    assert!(!is_gateway_timeout("504 Gateway Timeout"));
    assert!(!is_gateway_timeout("invalid compression flag, status 504"));
    assert!(!is_gateway_timeout("Invalid Compression Flag 504 gateway timeout"));
    assert!(!is_gateway_timeout(""));
    assert!(!is_gateway_timeout("xAI response missing completion text"));
}

#[test]
fn aborted_stream_signature_needs_symptom_and_status_code() {
    assert!(has_aborted_stream_signature("invalid compression flag, status 504"));
    assert!(has_aborted_stream_signature(RAW_TIMEOUT));
    assert!(!has_aborted_stream_signature("invalid compression flag, status 502"));
    assert!(!has_aborted_stream_signature("status 504"));
}

#[test]
fn status_messages_are_prefixed_only_with_the_signature() {
    assert_eq!(
        map_status_message(RAW_TIMEOUT.to_string()),
        AgenticError(format!(
            "xAI agentic stream aborted (gateway timeout before first chunk). Raw error: {RAW_TIMEOUT}"
        ))
    );
    assert_eq!(
        map_status_message("status: Unavailable".to_string()),
        AgenticError("status: Unavailable".to_string())
    );
    assert_eq!(map_status_message(String::new()).message(), "");
}

#[test]
fn client_errors_are_kept_unless_they_carry_the_signature() {
    assert_eq!(
        map_client_error("transport error: refused".to_string()),
        CompletionError::Client("transport error: refused".to_string())
    );
    let mapped = map_client_error(RAW_TIMEOUT.to_string());
    assert_eq!(
        mapped,
        CompletionError::Agentic(AgenticError(format!(
            "xAI agentic stream aborted (gateway timeout before first chunk). Raw error: {RAW_TIMEOUT}"
        )))
    );
    assert!(is_gateway_timeout(&mapped.message()));
}

#[test]
fn mapping_keeps_a_transient_message_transient() {
    for raw in [RAW_TIMEOUT, "invalid compression flag 504 Gateway Timeout"] {
        assert!(is_gateway_timeout(raw));
        assert!(is_gateway_timeout(&map_status_message(raw.to_string()).message()));
    }
}

#[test]
fn completion_errors_have_their_messages() {
    assert_eq!(CompletionError::Serialization("s".to_string()).message(), "s");
    assert_eq!(CompletionError::Client("c".to_string()).message(), "c");
    assert_eq!(CompletionError::Agentic(AgenticError("a".to_string())).message(), "a");
    assert_eq!(
        CompletionError::MissingCompletionText.message(),
        "xAI response missing completion text"
    );
}

#[test]
fn copying_an_outcome_keeps_it() {
    for outcome in [
        success(),
        fatal(),
        transient(),
        Err(CompletionError::MissingCompletionText),
        Err(CompletionError::Serialization("x".to_string())),
    ] {
        assert_eq!(copy_outcome(&outcome), outcome);
    }
}

#[test]
fn the_third_attempt_ends_the_run_whatever_its_outcome() {
    for third in [success(), fatal(), transient(), Err(CompletionError::MissingCompletionText)] {
        let report =
            run_attempts(&vec![transient(), transient(), copy_outcome(&third)]).unwrap();
        assert_eq!(report.result, third);
        assert_eq!(report.attempts, 3);
        assert_eq!(report.notices.len(), 2);
    }
}
