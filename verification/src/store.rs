//! The best-effort mirror of the summary in a document store: whether it is
//! written at all, where, and under which identifier. Writing it is left to
//! whoever holds the connection.

use vstd::prelude::*;
use vstd::string::StringExecFns;
use crate::config::{or_default, value_or_default};
use crate::json::{json_as_str, json_get, json_model, member, JsonModel};
use crate::record::MODEL_KEY;

verus! {

/// The database used where none is configured.
pub const DEFAULT_DATABASE: &'static str = "grokipedia";

/// The collection used where none is configured.
pub const DEFAULT_COLLECTION: &'static str = "summaries";

/// The model identifier of a document that names no model.
pub const FALLBACK_MODEL: &'static str = "latest-summary";

/// What separates the model identifier from the timestamp in an identifier.
pub const ID_SEPARATOR: &'static str = "-";

/// The pattern of the timestamp: date and time of day in UTC, to the millisecond.
pub const STAMP_PATTERN: &'static str = "%Y%m%dT%H%M%S%.3fZ";

/// Where the connection string of the store is configured.
pub const URI_VARIABLE: &'static str = "MONGO_URI";

/// Where the database is configured.
pub const DATABASE_VARIABLE: &'static str = "MONGO_DB";

/// Where the collection is configured.
pub const COLLECTION_VARIABLE: &'static str = "MONGO_COLLECTION";

/// The update operator under which the document is handed to the store.
pub const SET_OPERATOR: &'static str = "$set";

/// The member of the stored document that holds its identifier.
pub const ID_FIELD: &'static str = "_id";

/// The member of the stored document that holds the time of the write.
pub const UPDATED_AT_FIELD: &'static str = "updated_at";

/// What the confirmation of an upsert says before the collection.
pub const UPSERTED_OPENING: &'static str = "Upserted summary into MongoDB collection \"";

/// What the confirmation of an upsert says between collection and database.
pub const UPSERTED_DATABASE: &'static str = "\" (db: \"";

/// What the confirmation of an upsert says between database and identifier.
pub const UPSERTED_ID: &'static str = "\", id: \"";

/// How the confirmation of an upsert ends.
pub const UPSERTED_CLOSING: &'static str = "\")";

/// What the notice of a failed upsert says before the reason.
pub const UPSERT_FAILED_OPENING: &'static str = "Failed to upsert summary in MongoDB: ";

/// What is configured of the store. Without a connection string the store is
/// disabled; database and collection have defaults.
#[derive(Debug, Clone, PartialEq, Eq)]
pub struct StoreSettings {
    pub uri: Option<String>,
    pub database: Option<String>,
    pub collection: Option<String>,
}

/// One write to the store: where the document goes, under which identifier,
/// and whether a document is inserted where none has that identifier yet.
#[derive(Debug, Clone, PartialEq, Eq)]
pub struct UpsertPlan {
    pub uri: String,
    pub database: String,
    pub collection: String,
    pub document_id: String,
    pub insert_if_absent: bool,
}

/// What the store step of a run does.
#[derive(Debug, Clone, PartialEq, Eq)]
pub enum StoreStep {
    /// The store is disabled: nothing is written, and that is no failure.
    Skip,
    /// The document is upserted as planned.
    Upsert(UpsertPlan),
}

/// The model identifier a document names: its `model` member where that is a
/// string, the fallback otherwise.
pub open spec fn named_model(document: JsonModel) -> Seq<char> {
    match member(document, MODEL_KEY@) {
        Some(JsonModel::Text(model)) => model,
        _ => FALLBACK_MODEL@,
    }
}

/// The identifier of a document: the bare model identifier, or the model
/// identifier, a hyphen and the timestamp.
pub open spec fn identifier(model: Seq<char>, stamp: Option<Seq<char>>) -> Seq<char> {
    match stamp {
        Some(stamp) => model + ID_SEPARATOR@ + stamp,
        None => model,
    }
}

/// The text of an optional string.
pub open spec fn text_of(value: Option<&str>) -> Option<Seq<char>> {
    match value {
        Some(text) => Some(text@),
        None => None,
    }
}

/// `step` is the store step for the given settings and identifier: a skip
/// exactly where no connection string is set, else the write into the
/// configured or default database and collection, inserting where the
/// identifier is new.
pub open spec fn is_store_step(
    settings: StoreSettings,
    document_id: Seq<char>,
    step: StoreStep,
) -> bool {
    match settings.uri {
        None => step is Skip,
        Some(uri) => {
            &&& step matches StoreStep::Upsert(plan)
            &&& plan.uri == uri
            &&& plan.database@ == or_default(settings.database, DEFAULT_DATABASE@)
            &&& plan.collection@ == or_default(settings.collection, DEFAULT_COLLECTION@)
            &&& plan.document_id@ == document_id
            &&& plan.insert_if_absent
        },
    }
}

/// The confirmation printed after an upsert.
pub open spec fn upsert_confirmation(plan: UpsertPlan) -> Seq<char> {
    UPSERTED_OPENING@ + plan.collection@ + UPSERTED_DATABASE@ + plan.database@ + UPSERTED_ID@
        + plan.document_id@ + UPSERTED_CLOSING@
}

/// A decimal digit.
pub open spec fn is_digit(c: char) -> bool {
    '0' <= c && c <= '9'
}

/// `stamp` has the shape of a time written with the library's pattern: a
/// year of at least four characters, then two digits each for month and day,
/// `T`, two digits each for hour, minute and second, a point, three digits
/// for the milliseconds, and `Z`.
pub open spec fn is_utc_stamp(stamp: Seq<char>) -> bool {
    let end = stamp.len() as int;
    &&& end >= 20
    &&& stamp[end - 1] == 'Z'
    &&& stamp[end - 5] == '.'
    &&& stamp[end - 12] == 'T'
    &&& forall|i: int|
        end - 16 <= i < end && i != end - 1 && i != end - 5 && i != end - 12 ==> is_digit(
            #[trigger] stamp[i],
        )
}

/// Calls `chrono::Utc::now`, formats the time with `pattern` and takes the
/// text. Which time it is depends on the clock and is not claimed. Believed,
/// from how `chrono` writes each item of the pattern: the text has the shape
/// of a stamp. The pattern must be the library's own, which `chrono`
/// accepts; on another it may panic.
#[verifier::external_body]
fn utc_now_formatted(pattern: &str) -> (stamp: String)
    requires
        pattern@ == STAMP_PATTERN@,
    ensures
        is_utc_stamp(stamp@),
{
    chrono::Utc::now().format(pattern).to_string()
}

/// Reads the model identifier off a document.
pub fn model_identifier(document: &serde_json::Value) -> (model: String)
    ensures
        model@ == named_model(json_model(*document)),
{
    match json_get(document, MODEL_KEY) {
        Some(found) => match json_as_str(found) {
            Some(model) => String::from_str(model),
            None => String::from_str(FALLBACK_MODEL),
        },
        None => String::from_str(FALLBACK_MODEL),
    }
}

/// Derives the identifier a document is stored under.
pub fn document_identifier(model: &str, stamp: Option<&str>) -> (id: String)
    ensures
        id@ == identifier(model@, text_of(stamp)),
{
    let mut id = String::from_str(model);
    match stamp {
        Some(stamp) => {
            id.append(ID_SEPARATOR);
            id.append(stamp);
        },
        None => {},
    }
    id
}

/// Plans the store step for a document under a given policy: with `stamp`
/// the identifier is the model identifier, a hyphen and the stamp; without,
/// the bare model identifier.
pub fn plan_upsert(
    settings: StoreSettings,
    document: &serde_json::Value,
    stamp: Option<&str>,
) -> (step: StoreStep)
    ensures
        is_store_step(
            settings,
            identifier(named_model(json_model(*document)), text_of(stamp)),
            step,
        ),
{
    match settings.uri {
        None => StoreStep::Skip,
        Some(uri) => {
            let model = model_identifier(document);
            StoreStep::Upsert(
                UpsertPlan {
                    uri,
                    database: value_or_default(settings.database, DEFAULT_DATABASE),
                    collection: value_or_default(settings.collection, DEFAULT_COLLECTION),
                    document_id: document_identifier(model.as_str(), stamp),
                    insert_if_absent: true,
                },
            )
        },
    }
}

/// `step` is the store step with a timestamped identifier: a skip exactly
/// where no connection string is set, else the write under the model
/// identifier, a hyphen and some stamp of the shape the pattern gives.
pub open spec fn is_timestamped_step(
    settings: StoreSettings,
    model: Seq<char>,
    step: StoreStep,
) -> bool {
    match settings.uri {
        None => step is Skip,
        Some(_) => exists|stamp: Seq<char>|
            is_utc_stamp(stamp) && is_store_step(
                settings,
                #[trigger] identifier(model, Some(stamp)),
                step,
            ),
    }
}

/// Plans the store step for a document, with an identifier made unique by
/// the current time. Without a connection string the step is a skip and the
/// clock is not read. Otherwise the identifier is the model identifier, a
/// hyphen and the stamp the clock gave, written to the millisecond.
pub fn plan_timestamped_upsert(settings: StoreSettings, document: &serde_json::Value) -> (step:
    StoreStep)
    ensures
        is_timestamped_step(settings, named_model(json_model(*document)), step),
{
    match settings.uri {
        None => StoreStep::Skip,
        Some(_) => {
            let stamp = utc_now_formatted(STAMP_PATTERN);
            let step = plan_upsert(settings, document, Some(stamp.as_str()));
            assert(is_store_step(
                settings,
                identifier(named_model(json_model(*document)), Some(stamp@)),
                step,
            ));
            step
        },
    }
}

/// Writes the confirmation of an upsert.
pub fn upsert_confirmation_text(plan: &UpsertPlan) -> (text: String)
    ensures
        text@ == upsert_confirmation(*plan),
{
    let mut text = String::from_str(UPSERTED_OPENING);
    text.append(plan.collection.as_str());
    text.append(UPSERTED_DATABASE);
    text.append(plan.database.as_str());
    text.append(UPSERTED_ID);
    text.append(plan.document_id.as_str());
    text.append(UPSERTED_CLOSING);
    text
}

/// Writes the notice of a failed upsert.
pub fn upsert_failure_notice(reason: &str) -> (text: String)
    ensures
        text@ == UPSERT_FAILED_OPENING@ + reason@,
{
    let mut text = String::from_str(UPSERT_FAILED_OPENING);
    text.append(reason);
    text
}

} // verus!
