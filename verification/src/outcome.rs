//! What a run tells its user: the progress it prints, which failures end it,
//! and with which status and diagnostic.

use vstd::prelude::*;
use vstd::string::StringExecFns;
use crate::config::ConfigError;
use crate::errors::CompletionError;
use crate::extract::ExtractError;
use crate::fetch::FetchError;
use crate::store::{upsert_failure_notice, UPSERT_FAILED_OPENING};

verus! {

/// The status of a run that produced its file.
pub const EXIT_SUCCESS: u8 = 0;

/// The status of a run that a failure ended.
pub const EXIT_FAILURE: u8 = 1;

/// The path of the file the summary is written to, relative to where the run
/// was started. An existing file is overwritten.
pub const SUMMARY_OUTPUT_PATH: &'static str = "summary.json";

/// What the payload banner says before the query.
pub const PAYLOAD_OPENING: &'static str = "=== Raw X payload for query: ";

/// How a banner line ends before the text it announces.
pub const BANNER_CLOSING: &'static str = " ===\n";

/// What the summary banner says before the model.
pub const SUMMARY_OPENING: &'static str = "\n=== xAI summary (";

/// How the summary banner line ends before the summary.
pub const SUMMARY_CLOSING: &'static str = ") ===\n";

/// What the save confirmation says before the path.
pub const SAVED_OPENING: &'static str = "Saved summary to ";

/// Something that went wrong in a run, by the stage it went wrong in.
#[derive(Debug, Clone, PartialEq, Eq)]
pub enum Failure {
    /// A required credential is missing.
    Configuration(ConfigError),
    /// The payload could not be fetched.
    Fetch(FetchError),
    /// No completion was obtained, at once or after the retries.
    Completion(CompletionError),
    /// The completion held no valid array.
    Extraction(ExtractError),
    /// The file could not be produced; the reason is the serializer's or the
    /// file system's.
    FilePersistence(String),
    /// The store could not be written; the reason is the store's.
    StorePersistence(String),
}

impl Failure {
    /// Every failure ends the run but one in the store, which is a mirror
    /// only.
    pub open spec fn is_fatal(self) -> bool {
        !(self is StorePersistence)
    }

    /// The single-line diagnostic of this failure, as a text.
    pub open spec fn diagnostic_text(self) -> Seq<char> {
        match self {
            Failure::Configuration(error) => error.message_text(),
            Failure::Fetch(error) => error.message_text(),
            Failure::Completion(error) => error.message_text(),
            Failure::Extraction(error) => error.message_text(),
            Failure::FilePersistence(reason) => reason@,
            Failure::StorePersistence(reason) => UPSERT_FAILED_OPENING@ + reason@,
        }
    }

    /// Whether this failure ends the run.
    pub fn fatal(&self) -> (fatal: bool)
        ensures
            fatal == self.is_fatal(),
    {
        match self {
            Failure::StorePersistence(_) => false,
            _ => true,
        }
    }

    /// The single-line diagnostic of this failure.
    pub fn diagnostic(&self) -> (text: String)
        ensures
            text@ == self.diagnostic_text(),
    {
        match self {
            Failure::Configuration(error) => error.message(),
            Failure::Fetch(error) => error.message(),
            Failure::Completion(error) => error.message(),
            Failure::Extraction(error) => error.message(),
            Failure::FilePersistence(reason) => reason.clone(),
            Failure::StorePersistence(reason) => upsert_failure_notice(reason.as_str()),
        }
    }
}

/// What is printed once the payload is fetched: the query and the payload.
pub open spec fn payload_banner(query: Seq<char>, payload_text: Seq<char>) -> Seq<char> {
    PAYLOAD_OPENING@ + query + BANNER_CLOSING@ + payload_text
}

/// What is printed once the completion is aggregated: the model and the summary.
pub open spec fn summary_banner(model: Seq<char>, summary: Seq<char>) -> Seq<char> {
    SUMMARY_OPENING@ + model + SUMMARY_CLOSING@ + summary
}

/// What is printed once the file is written.
pub open spec fn saved_confirmation() -> Seq<char> {
    SAVED_OPENING@ + SUMMARY_OUTPUT_PATH@
}

/// Some failure among `failures` ends the run.
pub open spec fn any_fatal(failures: Seq<Failure>) -> bool {
    exists|i: int| 0 <= i < failures.len() && (#[trigger] failures[i]).is_fatal()
}

/// A run in which nothing failed but the store still succeeds.
pub proof fn lemma_store_failure_keeps_success(failures: Seq<Failure>)
    requires
        forall|i: int| 0 <= i < failures.len() ==> #[trigger] failures[i] is StorePersistence,
    ensures
        !any_fatal(failures),
{
}

/// The status a run exits with, given everything that failed in it: success
/// unless a failure was fatal.
pub fn exit_status(failures: &Vec<Failure>) -> (status: u8)
    ensures
        status == (if any_fatal(failures@) {
            EXIT_FAILURE
        } else {
            EXIT_SUCCESS
        }),
{
    let mut i: usize = 0;
    while i < failures.len()
        invariant
            i <= failures.len(),
            forall|j: int| 0 <= j < i ==> !(#[trigger] failures@[j]).is_fatal(),
        decreases failures.len() - i,
    {
        if failures[i].fatal() {
            return EXIT_FAILURE;
        }
        i += 1;
    }
    EXIT_SUCCESS
}

/// Writes what is printed once the payload is fetched.
pub fn payload_banner_text(query: &str, payload_text: &str) -> (text: String)
    ensures
        text@ == payload_banner(query@, payload_text@),
{
    let mut text = String::from_str(PAYLOAD_OPENING);
    text.append(query);
    text.append(BANNER_CLOSING);
    text.append(payload_text);
    text
}

/// Writes what is printed once the completion is aggregated.
pub fn summary_banner_text(model: &str, summary: &str) -> (text: String)
    ensures
        text@ == summary_banner(model@, summary@),
{
    let mut text = String::from_str(SUMMARY_OPENING);
    text.append(model);
    text.append(SUMMARY_CLOSING);
    text.append(summary);
    text
}

/// Writes what is printed once the file is written.
pub fn saved_confirmation_text() -> (text: String)
    ensures
        text@ == saved_confirmation(),
{
    let mut text = String::from_str(SAVED_OPENING);
    text.append(SUMMARY_OUTPUT_PATH);
    text
}

} // verus!
