//! Failures of the completion stage and how raw service messages are mapped
//! to them.

use vstd::prelude::*;
use vstd::string::StringExecFns;
use crate::text::{contains, contains_text, lemma_contains_in_concat, lemma_contains_transitive};

verus! {

/// The symptom of a malformed transport encoding in a service message.
pub const ENCODING_SYMPTOM: &'static str = "invalid compression flag";

/// The status code of an upstream gateway timeout.
pub const GATEWAY_STATUS: &'static str = "504";

/// The full status line of an upstream gateway timeout.
pub const GATEWAY_TIMEOUT: &'static str = "504 Gateway Timeout";

/// What is put before a raw message that shows a stream aborted by the gateway.
pub const ABORTED_PREFIX: &'static str =
    "xAI agentic stream aborted (gateway timeout before first chunk). Raw error: ";

/// The diagnostic of a stream that ended without completion text.
pub const MISSING_COMPLETION_TEXT: &'static str = "xAI response missing completion text";

/// A failure reported by the completion service, as a message.
#[derive(Debug, Clone, PartialEq, Eq)]
pub struct AgenticError(pub String);

impl View for AgenticError {
    type V = Seq<char>;

    open spec fn view(&self) -> Seq<char> {
        self.0@
    }
}

impl AgenticError {
    /// The message of this error.
    pub fn message(&self) -> (text: String)
        ensures
            text@ == self@,
    {
        self.0.clone()
    }
}

/// Why an attempt at a completion failed.
#[derive(Debug, Clone, PartialEq, Eq)]
pub enum CompletionError {
    /// The payload could not be serialized into a request.
    Serialization(String),
    /// The client failed; its own message, unchanged.
    Client(String),
    /// The service aborted or the stream failed.
    Agentic(AgenticError),
    /// The stream ended and its text was empty or all whitespace.
    MissingCompletionText,
}

impl CompletionError {
    /// The diagnostic of this error, as a text.
    pub open spec fn message_text(self) -> Seq<char> {
        match self {
            CompletionError::Serialization(reason) => reason@,
            CompletionError::Client(raw) => raw@,
            CompletionError::Agentic(error) => error@,
            CompletionError::MissingCompletionText => MISSING_COMPLETION_TEXT@,
        }
    }

    /// The diagnostic of this error.
    pub fn message(&self) -> (text: String)
        ensures
            text@ == self.message_text(),
    {
        match self {
            CompletionError::Serialization(reason) => reason.clone(),
            CompletionError::Client(raw) => raw.clone(),
            CompletionError::Agentic(error) => error.message(),
            CompletionError::MissingCompletionText => String::from_str(MISSING_COMPLETION_TEXT),
        }
    }
}

/// The message shows a stream that the gateway aborted: the encoding symptom
/// together with the gateway status code.
pub open spec fn shows_aborted_stream(message: Seq<char>) -> bool {
    contains(message, ENCODING_SYMPTOM@) && contains(message, GATEWAY_STATUS@)
}

/// The message carries the transient signature: the encoding symptom together
/// with the full gateway-timeout status line. Nothing else is transient.
pub open spec fn is_transient(message: Seq<char>) -> bool {
    contains(message, ENCODING_SYMPTOM@) && contains(message, GATEWAY_TIMEOUT@)
}

/// The message a raw service message is mapped to: prefixed where it shows an
/// aborted stream, unchanged otherwise.
pub open spec fn mapped_message(raw: Seq<char>) -> Seq<char> {
    if shows_aborted_stream(raw) {
        ABORTED_PREFIX@ + raw
    } else {
        raw
    }
}

/// What a client failure with the given message is mapped to.
pub open spec fn mapped_client_error(raw: Seq<char>, mapped: CompletionError) -> bool {
    if shows_aborted_stream(raw) {
        mapped matches CompletionError::Agentic(error) && error@ == ABORTED_PREFIX@ + raw
    } else {
        mapped matches CompletionError::Client(kept) && kept@ == raw
    }
}

/// Mapping a message keeps whatever it contained: the raw message ends the
/// mapped one.
pub proof fn lemma_mapping_keeps_contents(raw: Seq<char>, needle: Seq<char>)
    requires
        contains(raw, needle),
    ensures
        contains(mapped_message(raw), needle),
{
    if shows_aborted_stream(raw) {
        let whole = ABORTED_PREFIX@ + raw;
        assert(whole =~= ABORTED_PREFIX@ + raw + Seq::<char>::empty());
        lemma_contains_in_concat(ABORTED_PREFIX@, raw, Seq::<char>::empty());
        lemma_contains_transitive(whole, raw, needle);
    }
}

/// A transient message stays transient when mapped, so mapping never turns a
/// retryable failure into a fatal one.
pub proof fn lemma_mapping_keeps_transient(raw: Seq<char>)
    requires
        is_transient(raw),
    ensures
        is_transient(mapped_message(raw)),
{
    lemma_mapping_keeps_contents(raw, ENCODING_SYMPTOM@);
    lemma_mapping_keeps_contents(raw, GATEWAY_TIMEOUT@);
}

/// Every transient message also shows an aborted stream: the status line
/// holds the status code.
pub proof fn lemma_transient_shows_aborted_stream(message: Seq<char>)
    requires
        is_transient(message),
    ensures
        shows_aborted_stream(message),
{
    reveal_strlit("504");
    reveal_strlit("504 Gateway Timeout");
    let line = GATEWAY_TIMEOUT@;
    let code = GATEWAY_STATUS@;
    assert(line.subrange(0, 3) =~= code);
    assert(crate::text::occurs_at(line, code, 0));
    lemma_contains_transitive(message, line, code);
}

/// Whether a message shows a stream that the gateway aborted.
pub fn has_aborted_stream_signature(message: &str) -> (found: bool)
    ensures
        found == shows_aborted_stream(message@),
{
    contains_text(message, ENCODING_SYMPTOM) && contains_text(message, GATEWAY_STATUS)
}

/// Whether a failure message is transient, and so worth another attempt.
pub fn is_gateway_timeout(message: &str) -> (transient: bool)
    ensures
        transient == is_transient(message@),
{
    contains_text(message, ENCODING_SYMPTOM) && contains_text(message, GATEWAY_TIMEOUT)
}

/// Maps the message of a failed stream delivery to an error: the message is
/// prefixed where it shows an aborted stream and kept as it is otherwise.
pub fn map_status_message(msg: String) -> (error: AgenticError)
    ensures
        error@ == mapped_message(msg@),
{
    if has_aborted_stream_signature(msg.as_str()) {
        let mut text = String::from_str(ABORTED_PREFIX);
        text.append(msg.as_str());
        AgenticError(text)
    } else {
        AgenticError(msg)
    }
}

/// Maps the message of a failed client call to an error: an agentic error with
/// the prefixed message where it shows an aborted stream, the client's own
/// failure otherwise.
pub fn map_client_error(raw: String) -> (error: CompletionError)
    ensures
        mapped_client_error(raw@, error),
        error.message_text() == mapped_message(raw@),
{
    if has_aborted_stream_signature(raw.as_str()) {
        CompletionError::Agentic(map_status_message(raw))
    } else {
        CompletionError::Client(raw)
    }
}

} // verus!
