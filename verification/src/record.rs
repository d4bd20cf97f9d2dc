//! The summary record and the JSON document it is persisted as.

use vstd::prelude::*;
use vstd::string::StringExecFns;
use crate::json::{
    distinct_keys, field, json_error_message, json_map_insert, json_map_new, json_model,
    json_object, json_string, object_entries, pretty_printed, to_pretty_text, JsonModel,
};

verus! {

/// The member of the persisted document that holds the model identifier.
pub const MODEL_KEY: &'static str = "model";

/// The member of the persisted document that holds the summary.
pub const SUMMARY_KEY: &'static str = "summary";

/// The artifact of a run: the model identifier and the summary, which is the
/// validated array or, in the raw variant, the aggregated text as a string.
#[derive(Debug, PartialEq)]
pub struct SummaryRecord {
    pub model: String,
    pub summary: serde_json::Value,
}

/// Why a document could not be turned into text.
#[derive(Debug, Clone, PartialEq, Eq)]
pub enum RenderError {
    /// The serializer failed; the message is its own.
    Serialization(String),
}

impl RenderError {
    /// The diagnostic of this error.
    pub fn message(&self) -> (text: String)
        ensures
            text@ == (match *self {
                RenderError::Serialization(reason) => reason@,
            }),
    {
        match self {
            RenderError::Serialization(reason) => reason.clone(),
        }
    }
}

/// `document` is the persisted form of a record: an object of exactly two
/// members, the model identifier as a string and the summary.
pub open spec fn is_summary_document(
    document: JsonModel,
    model: Seq<char>,
    summary: JsonModel,
) -> bool {
    &&& document matches JsonModel::Object(entries)
    &&& entries.len() == 2
    &&& distinct_keys(entries)
    &&& field(entries, MODEL_KEY@) == Some(JsonModel::Text(model))
    &&& field(entries, SUMMARY_KEY@) == Some(summary)
}

/// The record of the raw variant: the aggregated text itself is the summary.
pub fn raw_record(summary: String, model: &str) -> (record: SummaryRecord)
    ensures
        record.model@ == model@,
        json_model(record.summary) == JsonModel::Text(summary@),
{
    SummaryRecord { model: String::from_str(model), summary: json_string(summary) }
}

/// Builds the document a record is persisted as.
pub fn summary_document(record: SummaryRecord) -> (document: serde_json::Value)
    ensures
        is_summary_document(json_model(document), record.model@, json_model(record.summary)),
{
    proof {
        reveal_strlit("model");
        reveal_strlit("summary");
    }
    assert(MODEL_KEY@ != SUMMARY_KEY@) by {
        assert(MODEL_KEY@.len() == 5);
        assert(SUMMARY_KEY@.len() == 7);
    }
    let mut members = json_map_new();
    let ghost empty = object_entries(members);
    assert(field(empty, MODEL_KEY@) is None);
    json_map_insert(&mut members, String::from_str(MODEL_KEY), json_string(record.model));
    let ghost one = object_entries(members);
    assert(field(one, SUMMARY_KEY@) is None);
    json_map_insert(&mut members, String::from_str(SUMMARY_KEY), record.summary);
    json_object(members)
}

/// Prints a document as the pretty JSON text that is written to the file.
/// Where the serializer returns text it is the pretty text of the document;
/// where it fails, its message is kept.
pub fn render_document(document: &serde_json::Value) -> (res: Result<String, RenderError>)
    ensures
        is_rendering_of(pretty_printed(json_model(*document)), res),
{
    let printed = match to_pretty_text(document) {
        Ok(text) => Ok(text),
        Err(error) => Err(json_error_message(&error)),
    };
    rendering_of(printed)
}

/// What rendering yields for each outcome of the printer: the text it
/// printed, or a serialization error that keeps its message.
pub open spec fn is_rendering_of(
    printed: Result<Seq<char>, Seq<char>>,
    res: Result<String, RenderError>,
) -> bool {
    match printed {
        Ok(text) => res matches Ok(kept) && kept@ == text,
        Err(reason) => res matches Err(RenderError::Serialization(kept)) && kept@ == reason,
    }
}

/// Turns what the printer returned into the rendering: its text where it
/// printed one, a serialization error with its message where it failed.
pub fn rendering_of(printed: Result<String, String>) -> (res: Result<String, RenderError>)
    ensures
        match printed {
            Ok(text) => res == Ok::<String, RenderError>(text),
            Err(reason) => res == Err::<String, RenderError>(RenderError::Serialization(reason)),
        },
{
    match printed {
        Ok(text) => Ok(text),
        Err(reason) => Err(RenderError::Serialization(reason)),
    }
}

} // verus!
