//! The completion request: a fixed system instruction, a user instruction
//! that embeds the serialized payload and states the output contract, and the
//! declared toolset.

use vstd::prelude::*;
use vstd::string::StringExecFns;
use crate::errors::CompletionError;
use crate::json::{
    compact_printed, json_as_array, json_error_message, json_get, json_model, member,
    to_compact_text, JsonModel,
};
use crate::text::{contains, decimal, decimal_string, lemma_contains_in_concat};

verus! {

/// The agent's persona and task framing; the same for every request.
pub const SYSTEM_INSTRUCTION: &'static str =
    "You are the real time pipeline agent for breaking X news to Grokipedia. Based on the breaking news data provided, determine what are the concerning organizations or individuals involved and find an existing Grokipedia article that matches the context of that same organization or individual.";

/// What the user instruction says before the payload.
pub const USER_OPENING: &'static str =
    "Here is the JSON payload returned by the X News endpoint: ";

/// What the user instruction asks for, between the payload and the output contract.
pub const USER_TASK: &'static str =
    ". You are the real time pipeline agent for breaking X news to Grokipedia. Based on the entire JSON, the breaking news data provided, determine what are the concerning organizations or individuals involved and find an existing Grokipedia article that matches the context of that same organization or individual. Here is what I need in from you: the url of the grokipedia page (if it exists), then i need your suggested edit based on that initial JSON payload of relevant news, and finally i need you to grab the ORIGINAL TEXT within that grokipedia page that is subject to be changed and updated. Use your tools to go to the URL of the grokipedia page if it exists in order to fetch REAL text from the article that is the MOST relevant to the suggested edit from the news claim. Word for word, that will be the ORIGINAL TEXT. Make sure the JSON has inner objects of multiple entries for this which each have the fields that i requested. ";

/// How the output contract begins where entries are expected.
pub const DIRECTIVE_OPENING: &'static str =
    "Return a JSON array (not wrapped in an object) with ";

/// What stands before the cap on the number of entries.
pub const CAP_OPENING: &'static str =
    "at most ";

/// What stands after the cap on the number of entries.
pub const CAP_CLOSING: &'static str =
    " objects";

/// The rest of the output contract: order, omission of unmatched items, no merging.
pub const DIRECTIVE_CLOSING: &'static str =
    ", each corresponding to one payload.data[i] in order. Make a best-effort attempt to produce an entry for every payload item (use tools/web search if needed) and only skip an item if, after searching, no relevant Grokipedia page exists. When you skip, omit the entry entirely instead of outputting null or empty fields. Do not combine multiple payload items into one entry.";

/// The output contract where no entries are expected.
pub const EMPTY_DIRECTIVE: &'static str =
    "If payload.data is empty, return an empty JSON array (just []).";

/// The payload member whose array length bounds the number of output entries.
pub const DATA_KEY: &'static str = "data";

/// A capability the completion service may use while answering.
#[derive(Debug, Clone, Copy, PartialEq, Eq, Structural)]
pub enum Tool {
    /// Search of the open web.
    WebSearch,
    /// Search scoped to the posting site.
    SiteSearch,
    /// Execution of code.
    CodeExecution,
}

/// A request to the completion service. Built once per attempt, never changed.
#[derive(Debug, Clone, PartialEq, Eq)]
pub struct CompletionRequest {
    pub system: String,
    pub user: String,
    pub model: String,
    pub tools: Vec<Tool>,
    pub parallel_tool_calls: bool,
}

/// What a `CompletionRequest` holds.
pub struct CompletionRequestView {
    pub system: Seq<char>,
    pub user: Seq<char>,
    pub model: Seq<char>,
    pub tools: Seq<Tool>,
    pub parallel_tool_calls: bool,
}

impl View for CompletionRequest {
    type V = CompletionRequestView;

    open spec fn view(&self) -> CompletionRequestView {
        CompletionRequestView {
            system: self.system@,
            user: self.user@,
            model: self.model@,
            tools: self.tools@,
            parallel_tool_calls: self.parallel_tool_calls,
        }
    }
}

/// The number of output entries a payload allows: the length of its `data`
/// array, and zero where it has no such member or the member is no array.
pub open spec fn data_entries(payload: JsonModel) -> nat {
    match member(payload, DATA_KEY@) {
        Some(JsonModel::Array(items)) => items.len(),
        _ => 0,
    }
}

/// The phrase that caps the output at `entries` objects.
pub open spec fn entry_cap(entries: nat) -> Seq<char> {
    CAP_OPENING@ + decimal(entries) + CAP_CLOSING@
}

/// The output contract stated to the service: with entries expected, a bare
/// array capped at their number; with none, an empty array.
pub open spec fn entry_directive(entries: nat) -> Seq<char> {
    if entries > 0 {
        DIRECTIVE_OPENING@ + entry_cap(entries) + DIRECTIVE_CLOSING@
    } else {
        EMPTY_DIRECTIVE@
    }
}

/// The user instruction for a payload with the given serialization.
pub open spec fn user_instruction(payload_text: Seq<char>, entries: nat) -> Seq<char> {
    USER_OPENING@ + payload_text + USER_TASK@ + entry_directive(entries)
}

/// The three capabilities every request declares, in their fixed order.
pub open spec fn toolset() -> Seq<Tool> {
    seq![Tool::WebSearch, Tool::SiteSearch, Tool::CodeExecution]
}

/// The request for a payload with the given serialization and entry count.
pub open spec fn completion_request(
    payload_text: Seq<char>,
    entries: nat,
    model: Seq<char>,
) -> CompletionRequestView {
    CompletionRequestView {
        system: SYSTEM_INSTRUCTION@,
        user: user_instruction(payload_text, entries),
        model,
        tools: toolset(),
        parallel_tool_calls: true,
    }
}

/// The user instruction embeds the serialized payload verbatim.
pub proof fn lemma_user_instruction_embeds_payload(payload_text: Seq<char>, entries: nat)
    ensures
        contains(user_instruction(payload_text, entries), payload_text),
{
    let tail = USER_TASK@ + entry_directive(entries);
    assert(user_instruction(payload_text, entries) =~= USER_OPENING@ + payload_text + tail);
    lemma_contains_in_concat(USER_OPENING@, payload_text, tail);
}

/// The user instruction ends with the output contract for the entry count.
pub proof fn lemma_user_instruction_states_directive(payload_text: Seq<char>, entries: nat)
    ensures
        entry_directive(entries).is_suffix_of(user_instruction(payload_text, entries)),
        contains(user_instruction(payload_text, entries), entry_directive(entries)),
{
    let head = USER_OPENING@ + payload_text + USER_TASK@;
    let whole = user_instruction(payload_text, entries);
    let directive = entry_directive(entries);
    assert(whole =~= head + directive + Seq::<char>::empty());
    lemma_contains_in_concat(head, directive, Seq::<char>::empty());
    assert(whole.subrange(whole.len() - directive.len(), whole.len() as int) =~= directive);
}

/// With entries expected, the output contract caps the array at exactly their
/// number; with none, it is the empty-array directive.
pub proof fn lemma_directive_caps_entries(entries: nat)
    ensures
        entries > 0 ==> contains(entry_directive(entries), entry_cap(entries)),
        entries == 0 ==> entry_directive(entries) == EMPTY_DIRECTIVE@,
{
    if entries > 0 {
        lemma_contains_in_concat(DIRECTIVE_OPENING@, entry_cap(entries), DIRECTIVE_CLOSING@);
    }
}

/// Counts the entries of the payload's `data` array.
pub fn expected_entries(payload: &serde_json::Value) -> (entries: usize)
    ensures
        entries == data_entries(json_model(*payload)),
{
    match json_get(payload, DATA_KEY) {
        Some(data) => match json_as_array(data) {
            Some(items) => items.len(),
            None => 0,
        },
        None => 0,
    }
}

/// Writes the output contract for the given number of expected entries.
pub fn entry_directive_text(entries: usize) -> (directive: String)
    ensures
        directive@ == entry_directive(entries as nat),
{
    if entries > 0 {
        let mut directive = String::from_str(DIRECTIVE_OPENING);
        directive.append(CAP_OPENING);
        directive.append(decimal_string(entries).as_str());
        directive.append(CAP_CLOSING);
        directive.append(DIRECTIVE_CLOSING);
        assert(directive@ =~= entry_directive(entries as nat));
        directive
    } else {
        String::from_str(EMPTY_DIRECTIVE)
    }
}

/// Writes the user instruction around the serialized payload.
pub fn user_prompt(payload_text: &str, entries: usize) -> (prompt: String)
    ensures
        prompt@ == user_instruction(payload_text@, entries as nat),
{
    let mut prompt = String::from_str(USER_OPENING);
    prompt.append(payload_text);
    prompt.append(USER_TASK);
    prompt.append(entry_directive_text(entries).as_str());
    prompt
}

/// The declared toolset.
pub fn declared_tools() -> (tools: Vec<Tool>)
    ensures
        tools@ == toolset(),
{
    let mut tools: Vec<Tool> = Vec::new();
    tools.push(Tool::WebSearch);
    tools.push(Tool::SiteSearch);
    tools.push(Tool::CodeExecution);
    assert(tools@ =~= toolset());
    tools
}

/// Builds the request around an already serialized payload.
pub fn assemble_request(payload_text: &str, entries: usize, model: &str) -> (request:
    CompletionRequest)
    ensures
        request@ == completion_request(payload_text@, entries as nat, model@),
{
    CompletionRequest {
        system: String::from_str(SYSTEM_INSTRUCTION),
        user: user_prompt(payload_text, entries),
        model: String::from_str(model),
        tools: declared_tools(),
        parallel_tool_calls: true,
    }
}

/// Builds the request from what the serializer returned for the payload: the
/// request where it returned text, a serialization error with its message
/// where it failed.
pub fn request_from_serialized(
    serialized: Result<String, String>,
    entries: usize,
    model: &str,
) -> (res: Result<CompletionRequest, CompletionError>)
    ensures
        match serialized {
            Ok(payload_text) => res matches Ok(request) && request@ == completion_request(
                payload_text@,
                entries as nat,
                model@,
            ),
            Err(reason) => res == Err::<CompletionRequest, CompletionError>(
                CompletionError::Serialization(reason),
            ),
        },
{
    match serialized {
        Ok(payload_text) => Ok(assemble_request(payload_text.as_str(), entries, model)),
        Err(reason) => Err(CompletionError::Serialization(reason)),
    }
}

/// Builds the completion request for a payload and a model identifier. The
/// payload is serialized by `serde_json`. Where that yields text, the request
/// is exactly the one for that text and the length of the payload's `data`
/// array; where it fails, no request is built and the failure is a
/// serialization error with the serializer's message.
pub fn build_completion_request(payload: &serde_json::Value, model: &str) -> (res: Result<
    CompletionRequest,
    CompletionError,
>)
    ensures
        match compact_printed(json_model(*payload)) {
            Ok(payload_text) => res matches Ok(request) && request@ == completion_request(
                payload_text,
                data_entries(json_model(*payload)),
                model@,
            ),
            Err(reason) => res matches Err(CompletionError::Serialization(kept)) && kept@
                == reason,
        },
{
    let entries = expected_entries(payload);
    let serialized = match to_compact_text(payload) {
        Ok(payload_text) => Ok(payload_text),
        Err(error) => Err(json_error_message(&error)),
    };
    request_from_serialized(serialized, entries, model)
}

} // verus!
