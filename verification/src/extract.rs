//! Recovering the structured result from the aggregated free text: the part
//! from the first `[` to the last `]` is parsed as JSON and must be an array.

use vstd::prelude::*;
use vstd::string::StringExecFns;
use vstd::string::StrSliceExecFns;
use crate::json::{json_error_message, json_is_array, json_model, parse_json, parsed_json, JsonModel};
use crate::record::SummaryRecord;
use crate::text::{
    chars_of, find_first, find_last, first_position, is_last_position, last_position,
    lemma_positions_are_occurrences,
};

verus! {

/// The diagnostic of a summary without both array delimiters.
pub const MISSING_DELIMITERS: &'static str = "xAI summary missing JSON array delimiters.";

/// What the diagnostic of an unparsable array says before the parser's message.
pub const INVALID_JSON_OPENING: &'static str =
    "xAI summary is not valid JSON array. Parsing failed: ";

/// The diagnostic of a summary whose JSON is no array.
pub const NOT_AN_ARRAY: &'static str = "xAI summary must be a JSON array.";

/// Why no result could be extracted from a summary.
#[derive(Debug, Clone, PartialEq, Eq)]
pub enum ExtractError {
    /// The summary lacks a `[` or a `]`.
    MissingDelimiters,
    /// The delimited part is no JSON; the message is the parser's.
    InvalidJson(String),
    /// The delimited part is JSON but no array.
    NotAnArray,
}

impl ExtractError {
    /// The diagnostic of this error, as a text.
    pub open spec fn message_text(self) -> Seq<char> {
        match self {
            ExtractError::MissingDelimiters => MISSING_DELIMITERS@,
            ExtractError::InvalidJson(reason) => INVALID_JSON_OPENING@ + reason@,
            ExtractError::NotAnArray => NOT_AN_ARRAY@,
        }
    }

    /// The diagnostic of this error.
    pub fn message(&self) -> (text: String)
        ensures
            text@ == self.message_text(),
    {
        match self {
            ExtractError::MissingDelimiters => String::from_str(MISSING_DELIMITERS),
            ExtractError::InvalidJson(reason) => {
                let mut text = String::from_str(INVALID_JSON_OPENING);
                text.append(reason.as_str());
                text
            },
            ExtractError::NotAnArray => String::from_str(NOT_AN_ARRAY),
        }
    }
}

/// The part of `summary` from its first `[` to its last `]`, both included.
/// There is none where either is absent. Where the last `]` stands before
/// the first `[`, nothing lies between them and the part is empty.
pub open spec fn array_slice(summary: Seq<char>) -> Option<Seq<char>> {
    match (first_position(summary, '['), last_position(summary, ']')) {
        (Some(start), Some(end)) => Some(
            if start <= end {
                summary.subrange(start, end + 1)
            } else {
                Seq::empty()
            },
        ),
        _ => None,
    }
}

/// What validating a parser outcome yields: the record for an array, the
/// wrong-shape error for any other document, the parse error with the
/// parser's message for a failure.
pub open spec fn is_validation_of(
    parsed: Result<JsonModel, Seq<char>>,
    model: Seq<char>,
    res: Result<SummaryRecord, ExtractError>,
) -> bool {
    match parsed {
        Ok(document) => if document is Array {
            &&& res matches Ok(record)
            &&& record.model@ == model
            &&& json_model(record.summary) == document
        } else {
            res matches Err(ExtractError::NotAnArray)
        },
        Err(reason) => res matches Err(ExtractError::InvalidJson(kept)) && kept@ == reason,
    }
}

/// What extraction yields for a summary: the delimiter error where a
/// delimiter is absent, else the validation of what the parser makes of the
/// delimited part.
pub open spec fn is_extraction_of(
    summary: Seq<char>,
    model: Seq<char>,
    res: Result<SummaryRecord, ExtractError>,
) -> bool {
    match array_slice(summary) {
        None => res matches Err(ExtractError::MissingDelimiters),
        Some(slice) => is_validation_of(parsed_json(slice), model, res),
    }
}

/// A summary in which a `[` is followed, somewhere, by a `]` has a delimited
/// part that starts with `[` and ends with `]`.
pub proof fn lemma_array_slice_is_delimited(summary: Seq<char>, opening: int, closing: int)
    requires
        0 <= opening <= closing < summary.len(),
        summary[opening] == '[',
        summary[closing] == ']',
    ensures
        array_slice(summary) matches Some(slice) && slice.len() >= 2 && slice.first() == '['
            && slice.last() == ']',
{
    assert(summary.contains('['));
    assert(summary.contains(']'));
    let start = first_position(summary, '[')->Some_0;
    let end = last_position(summary, ']')->Some_0;
    lemma_positions_are_occurrences(summary, '[');
    lemma_positions_are_occurrences(summary, ']');
    assert(start <= opening) by {
        if opening < start {
            assert(summary[opening] != '[');
        }
    }
    assert(closing <= end) by {
        if end < closing {
            assert(summary[closing] != ']');
        }
    }
    assert(start != end);
}

/// Cuts the part from the first `[` to the last `]` out of a summary.
pub fn find_array_slice(summary: &str) -> (res: Option<&str>)
    ensures
        match res {
            Some(slice) => array_slice(summary@) == Some(slice@),
            None => array_slice(summary@) is None,
        },
{
    let chars = chars_of(summary);
    let start = match find_first(&chars, '[') {
        Some(start) => start,
        None => {
            return None;
        },
    };
    let end = match find_last(&chars, ']') {
        Some(end) => end,
        None => {
            return None;
        },
    };
    proof {
        lemma_positions_are_occurrences(summary@, ']');
        assert(is_last_position(summary@, ']', end as int));
        assert(end < chars.len());
    }
    if start <= end {
        Some(summary.substring_char(start, end + 1))
    } else {
        let nothing = summary.substring_char(0, 0);
        assert(nothing@ =~= Seq::<char>::empty());
        Some(nothing)
    }
}

/// Validates what the parser made of the delimited part and, for an array,
/// wraps it with the model identifier into a record.
pub fn validate_parsed(parsed: Result<serde_json::Value, String>, model: &str) -> (res: Result<
    SummaryRecord,
    ExtractError,
>)
    ensures
        match parsed {
            Ok(value) => if json_model(value) is Array {
                &&& res matches Ok(record)
                &&& record.model@ == model@
                &&& record.summary == value
            } else {
                res matches Err(ExtractError::NotAnArray)
            },
            Err(reason) => res matches Err(ExtractError::InvalidJson(kept)) && kept == reason,
        },
{
    match parsed {
        Ok(value) => {
            if json_is_array(&value) {
                Ok(SummaryRecord { model: String::from_str(model), summary: value })
            } else {
                Err(ExtractError::NotAnArray)
            }
        },
        Err(reason) => Err(ExtractError::InvalidJson(reason)),
    }
}

/// Extracts the structured result from an aggregated summary: the part from
/// the first `[` to the last `]` is parsed as JSON and, being an array,
/// wrapped with the model identifier into a record. Each of the three ways to
/// fail has its own error.
pub fn extract_result(summary: &str, model: &str) -> (res: Result<SummaryRecord, ExtractError>)
    ensures
        is_extraction_of(summary@, model@, res),
{
    match find_array_slice(summary) {
        None => Err(ExtractError::MissingDelimiters),
        Some(slice) => {
            let parsed = match parse_json(slice) {
                Ok(value) => Ok(value),
                Err(error) => Err(json_error_message(&error)),
            };
            validate_parsed(parsed, model)
        },
    }
}

} // verus!
