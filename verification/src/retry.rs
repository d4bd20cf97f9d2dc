//! The retry controller: an attempt is repeated only after a transient
//! failure and only while the budget lasts. The controller decides; whoever
//! runs the attempts performs them and hands back their outcomes.

use vstd::prelude::*;
use vstd::string::StringExecFns;
use crate::errors::{is_gateway_timeout, is_transient, AgenticError, CompletionError};
use crate::stream::texts_of;
use crate::text::{decimal, decimal_string};

verus! {

/// The number of attempts a run may make.
pub const MAX_ATTEMPTS: usize = 3;

/// What a retry notice says before the attempt's number.
pub const NOTICE_OPENING: &'static str = "summarize_with_xai attempt ";

/// What a retry notice says after the attempt's number.
pub const NOTICE_CLOSING: &'static str = " failed due to gateway timeout, retrying...";

/// What the controller decides after an attempt.
#[derive(Debug, PartialEq, Eq)]
pub enum RetryDecision {
    /// The run is over with this result; nothing more is attempted.
    Done(Result<String, CompletionError>),
    /// The attempt is to be repeated; the notice says why.
    Retry(String),
}

/// How a run ended: its result, the retry notices emitted on the way, and the
/// number of attempts made.
#[derive(Debug, PartialEq, Eq)]
pub struct RetryReport {
    pub result: Result<String, CompletionError>,
    pub notices: Vec<String>,
    pub attempts: usize,
}

/// The notice emitted when the attempt with the given number is repeated.
pub open spec fn retry_notice(attempt: nat) -> Seq<char> {
    NOTICE_OPENING@ + decimal(attempt) + NOTICE_CLOSING@
}

/// An attempt is repeated if and only if it failed, its message carries the
/// transient signature, and attempts remain.
pub open spec fn wants_retry(attempt: nat, outcome: Result<String, CompletionError>) -> bool {
    match outcome {
        Ok(_) => false,
        Err(error) => is_transient(error.message_text()) && attempt < MAX_ATTEMPTS,
    }
}

/// The position in a record of outcomes at which a run stops, where the
/// attempts up to `from` have all been repeated. There is none where the
/// record ends before the run does.
pub open spec fn stop_index(outcomes: Seq<Result<String, CompletionError>>, from: nat) -> Option<
    nat,
>
    decreases outcomes.len() - from,
{
    if from >= outcomes.len() {
        None
    } else if wants_retry(from + 1, outcomes[from as int]) {
        stop_index(outcomes, from + 1)
    } else {
        Some(from)
    }
}

/// The notices of a run that repeated its first `count` attempts.
pub open spec fn retry_notices(count: nat) -> Seq<Seq<char>> {
    Seq::new(count, |i: int| retry_notice((i + 1) as nat))
}

/// What replaying a record of outcomes reports.
pub open spec fn is_report_of(
    outcomes: Seq<Result<String, CompletionError>>,
    report: Option<RetryReport>,
) -> bool {
    match stop_index(outcomes, 0) {
        Some(last) => {
            &&& report matches Some(run)
            &&& run.result == outcomes[last as int]
            &&& run.attempts == last + 1
            &&& texts_of(run.notices@) == retry_notices(last)
        },
        None => report is None,
    }
}

/// A run stops at or after the attempt it is at, and within the budget.
pub proof fn lemma_stop_index_bounds(outcomes: Seq<Result<String, CompletionError>>, from: nat)
    ensures
        stop_index(outcomes, from) matches Some(last) ==> from <= last < outcomes.len() && (last
            < MAX_ATTEMPTS || last == from),
    decreases outcomes.len() - from,
{
    if from < outcomes.len() && wants_retry(from + 1, outcomes[from as int]) {
        lemma_stop_index_bounds(outcomes, from + 1);
    }
}

/// No run makes more attempts than the budget allows, and one fewer notices
/// than attempts.
pub proof fn lemma_run_stays_within_budget(outcomes: Seq<Result<String, CompletionError>>)
    ensures
        stop_index(outcomes, 0) matches Some(last) ==> last + 1 <= MAX_ATTEMPTS && retry_notices(
            last,
        ).len() == last,
{
    lemma_stop_index_bounds(outcomes, 0);
}

/// A record with an outcome for every attempt of the budget never ends before
/// the run does.
pub proof fn lemma_full_record_suffices(outcomes: Seq<Result<String, CompletionError>>)
    requires
        outcomes.len() >= MAX_ATTEMPTS,
    ensures
        stop_index(outcomes, 0) is Some,
{
    reveal_with_fuel(stop_index, 4);
}

/// A run whose first attempt succeeds or fails without the transient
/// signature ends at once, with that outcome and no notice.
pub proof fn lemma_first_outcome_final(outcomes: Seq<Result<String, CompletionError>>)
    requires
        outcomes.len() > 0,
        !wants_retry(1, outcomes[0]),
    ensures
        stop_index(outcomes, 0) == Some(0nat),
        retry_notices(0) == Seq::<Seq<char>>::empty(),
{
    assert(retry_notices(0) =~= Seq::<Seq<char>>::empty());
}

/// A run whose first two attempts fail with the transient signature ends
/// with the third attempt, whatever its outcome, after exactly two notices.
pub proof fn lemma_third_attempt_decides(outcomes: Seq<Result<String, CompletionError>>)
    requires
        outcomes.len() >= MAX_ATTEMPTS,
        wants_retry(1, outcomes[0]),
        wants_retry(2, outcomes[1]),
    ensures
        stop_index(outcomes, 0) == Some(2nat),
        retry_notices(2).len() == 2,
{
    reveal_with_fuel(stop_index, 4);
}

/// A copy of an outcome.
pub fn copy_outcome(outcome: &Result<String, CompletionError>) -> (copy: Result<
    String,
    CompletionError,
>)
    ensures
        copy == *outcome,
{
    match outcome {
        Ok(summary) => Ok(summary.clone()),
        Err(CompletionError::Serialization(reason)) => Err(
            CompletionError::Serialization(reason.clone()),
        ),
        Err(CompletionError::Client(raw)) => Err(CompletionError::Client(raw.clone())),
        Err(CompletionError::Agentic(error)) => Err(
            CompletionError::Agentic(AgenticError(error.0.clone())),
        ),
        Err(CompletionError::MissingCompletionText) => Err(CompletionError::MissingCompletionText),
    }
}

/// Writes the notice for repeating the attempt with the given number.
pub fn retry_notice_text(attempt: usize) -> (notice: String)
    ensures
        notice@ == retry_notice(attempt as nat),
{
    let mut notice = String::from_str(NOTICE_OPENING);
    notice.append(decimal_string(attempt).as_str());
    notice.append(NOTICE_CLOSING);
    notice
}

/// Decides what follows the attempt with the given number, counted from one.
/// A success ends the run. A failure is repeated if and only if it is
/// transient and the attempt was not the last of the budget; any other
/// failure ends the run with that error.
pub fn decide(attempt: usize, outcome: Result<String, CompletionError>) -> (decision: RetryDecision)
    ensures
        match decision {
            RetryDecision::Retry(notice) => wants_retry(attempt as nat, outcome) && notice@
                == retry_notice(attempt as nat),
            RetryDecision::Done(result) => !wants_retry(attempt as nat, outcome) && result
                == outcome,
        },
{
    match outcome {
        Ok(summary) => RetryDecision::Done(Ok(summary)),
        Err(error) => {
            let message = error.message();
            if !is_gateway_timeout(message.as_str()) || attempt >= MAX_ATTEMPTS {
                RetryDecision::Done(Err(error))
            } else {
                RetryDecision::Retry(retry_notice_text(attempt))
            }
        },
    }
}

/// Replays a record of attempt outcomes through the controller, the first
/// outcome being that of attempt one. Reports how the run ends, or nothing
/// where the record ends while the controller still asks for an attempt.
/// Outcomes after the one that ends the run are not looked at.
pub fn run_attempts(outcomes: &Vec<Result<String, CompletionError>>) -> (report: Option<
    RetryReport,
>)
    ensures
        is_report_of(outcomes@, report),
{
    let mut notices: Vec<String> = Vec::new();
    let mut at: usize = 0;
    assert(texts_of(notices@) =~= retry_notices(0));
    while at < outcomes.len()
        invariant
            at <= outcomes.len(),
            stop_index(outcomes@, 0) == stop_index(outcomes@, at as nat),
            texts_of(notices@) == retry_notices(at as nat),
        decreases outcomes.len() - at,
    {
        match decide(at + 1, copy_outcome(&outcomes[at])) {
            RetryDecision::Retry(notice) => {
                let ghost before = notices@;
                notices.push(notice);
                proof {
                    assert(texts_of(notices@) =~= texts_of(before).push(notice@));
                    assert(retry_notices((at + 1) as nat) =~= retry_notices(at as nat).push(
                        retry_notice((at + 1) as nat),
                    ));
                }
                at += 1;
            },
            RetryDecision::Done(result) => {
                return Some(RetryReport { result, notices, attempts: at + 1 });
            },
        }
    }
    None
}

} // verus!
