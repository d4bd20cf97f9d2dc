//! From the aggregated summary to what is persisted: the validated record,
//! its document, and the text of the file.

use vstd::prelude::*;
use crate::extract::{array_slice, extract_result, ExtractError};
use crate::json::{json_model, parsed_json, pretty_printed};
use crate::outcome::Failure;
use crate::record::{is_summary_document, render_document, summary_document, RenderError};

verus! {

/// What a run persists: the document, which goes to the store, and its
/// pretty text, which goes to the file.
#[derive(Debug, PartialEq)]
pub struct Artifact {
    pub document: serde_json::Value,
    pub text: String,
}

/// What persisting a built document yields: the document with the text the
/// printer gave for it, or, where the printer failed, a failure of file
/// persistence that keeps the printer's message.
pub open spec fn is_persisting_of(built: serde_json::Value, res: Result<Artifact, Failure>) -> bool {
    match pretty_printed(json_model(built)) {
        Ok(text) => res matches Ok(artifact) && artifact.document == built && artifact.text@
            == text,
        Err(reason) => res matches Err(Failure::FilePersistence(kept)) && kept@ == reason,
    }
}

/// What preparing the artifact of a summary yields. Every way extraction
/// fails is an extraction failure with that error. Where extraction
/// succeeds, the document of the record is built, with the model identifier
/// and the array read, and the result is what persisting that document
/// yields.
pub open spec fn is_preparation_of(
    summary: Seq<char>,
    model: Seq<char>,
    res: Result<Artifact, Failure>,
) -> bool {
    match array_slice(summary) {
        None => res matches Err(Failure::Extraction(ExtractError::MissingDelimiters)),
        Some(slice) => match parsed_json(slice) {
            Err(reason) => res matches Err(Failure::Extraction(ExtractError::InvalidJson(kept)))
                && kept@ == reason,
            Ok(document) => if document is Array {
                exists|built: serde_json::Value|
                    {
                        &&& is_summary_document(#[trigger] json_model(built), model, document)
                        &&& is_persisting_of(built, res)
                    }
            } else {
                res matches Err(Failure::Extraction(ExtractError::NotAnArray))
            },
        },
    }
}

/// Prepares what is persisted for an aggregated summary: extracts and
/// validates the array, wraps it with the model identifier, and prints the
/// document. Nothing is written here.
pub fn prepare_artifact(summary: &str, model: &str) -> (res: Result<Artifact, Failure>)
    ensures
        is_preparation_of(summary@, model@, res),
{
    let record = match extract_result(summary, model) {
        Ok(record) => record,
        Err(error) => {
            return Err(Failure::Extraction(error));
        },
    };
    let ghost read = json_model(record.summary);
    let document = summary_document(record);
    let ghost built = document;
    let res = match render_document(&document) {
        Ok(text) => Ok(Artifact { document, text }),
        Err(RenderError::Serialization(reason)) => Err(Failure::FilePersistence(reason)),
    };
    proof {
        assert(is_summary_document(json_model(built), model@, read));
        assert(is_persisting_of(built, res));
    }
    res
}

} // verus!
