use grokipedia_x::store::{
    document_identifier, model_identifier, plan_timestamped_upsert, plan_upsert,
    upsert_confirmation_text, upsert_failure_notice, StoreSettings, StoreStep, UpsertPlan,
    COLLECTION_VARIABLE, DATABASE_VARIABLE, DEFAULT_COLLECTION, DEFAULT_DATABASE, ID_FIELD,
    SET_OPERATOR, STAMP_PATTERN, UPDATED_AT_FIELD, URI_VARIABLE,
};
use serde_json::Value;

fn document() -> Value {
    serde_json::from_str("{\"model\":\"grok-4\",\"summary\":[1]}").unwrap()
}

fn settings(uri: Option<&str>, database: Option<&str>, collection: Option<&str>) -> StoreSettings {
    StoreSettings {
        uri: uri.map(|s| s.to_string()),
        database: database.map(|s| s.to_string()),
        collection: collection.map(|s| s.to_string()),
    }
}

#[test]
fn without_a_connection_string_the_store_step_is_a_skip() {
    assert_eq!(plan_upsert(settings(None, None, None), &document(), None), StoreStep::Skip);
    assert_eq!(
        plan_upsert(settings(None, Some("db"), Some("coll")), &document(), Some("stamp")),
        StoreStep::Skip
    );
    assert_eq!(plan_timestamped_upsert(settings(None, None, None), &document()), StoreStep::Skip);
}

#[test]
fn database_and_collection_have_defaults() {
    assert_eq!(DEFAULT_DATABASE, "grokipedia");
    assert_eq!(DEFAULT_COLLECTION, "summaries");
    assert_eq!(
        plan_upsert(settings(Some("mongodb://h"), None, None), &document(), None),
        StoreStep::Upsert(UpsertPlan {
            uri: "mongodb://h".to_string(),
            database: "grokipedia".to_string(),
            collection: "summaries".to_string(),
            document_id: "grok-4".to_string(),
            insert_if_absent: true,
        })
    );
}

#[test]
fn database_and_collection_are_overridable_independently() {
    let step = plan_upsert(settings(Some("u"), Some("db"), None), &document(), None);
    assert_eq!(
        step,
        StoreStep::Upsert(UpsertPlan {
            uri: "u".to_string(),
            database: "db".to_string(),
            collection: "summaries".to_string(),
            document_id: "grok-4".to_string(),
            insert_if_absent: true,
        })
    );
    let step = plan_upsert(settings(Some("u"), None, Some("coll")), &document(), None);
    assert_eq!(
        step,
        StoreStep::Upsert(UpsertPlan {
            uri: "u".to_string(),
            database: "grokipedia".to_string(),
            collection: "coll".to_string(),
            document_id: "grok-4".to_string(),
            insert_if_absent: true,
        })
    );
}

#[test]
fn identifier_is_bare_or_suffixed_with_the_stamp() {
    assert_eq!(document_identifier("grok-4", None), "grok-4");
    assert_eq!(
        document_identifier("grok-4", Some("20260102T030405.678Z")),
        "grok-4-20260102T030405.678Z"
    );
    assert_eq!(document_identifier("", Some("s")), "-s");
    let step = plan_upsert(settings(Some("u"), None, None), &document(), Some("20260102T030405.678Z"));
    match step {
        StoreStep::Upsert(plan) => assert_eq!(plan.document_id, "grok-4-20260102T030405.678Z"),
        StoreStep::Skip => panic!("a connection string is set"),
    }
}

#[test]
fn model_identifier_falls_back_where_no_model_is_named() {
    assert_eq!(model_identifier(&document()), "grok-4");
    let unnamed: Value = serde_json::from_str("{\"summary\":[]}").unwrap();
    assert_eq!(model_identifier(&unnamed), "latest-summary");
    let numbered: Value = serde_json::from_str("{\"model\":4}").unwrap();
    assert_eq!(model_identifier(&numbered), "latest-summary");
    let array: Value = serde_json::from_str("[\"model\"]").unwrap();
    assert_eq!(model_identifier(&array), "latest-summary");
}

#[test]
fn timestamped_identifier_carries_a_utc_stamp_to_the_millisecond() {
    let step = plan_timestamped_upsert(settings(Some("u"), None, Some("c")), &document());
    let plan = match step {
        StoreStep::Upsert(plan) => plan,
        StoreStep::Skip => panic!("a connection string is set"),
    };
    assert_eq!(plan.uri, "u");
    assert_eq!(plan.database, "grokipedia");
    assert_eq!(plan.collection, "c");
    assert!(plan.insert_if_absent);
    let stamp = plan.document_id.strip_prefix("grok-4-").unwrap();
    assert_eq!(stamp.len(), 20);
    let bytes = stamp.as_bytes();
    assert_eq!(bytes[8], b'T');
    assert_eq!(bytes[15], b'.');
    assert_eq!(bytes[19], b'Z');
    for (i, b) in bytes.iter().enumerate() {
        if i != 8 && i != 15 && i != 19 {
            assert!(b.is_ascii_digit());
        }
    }
    assert_ne!(stamp, STAMP_PATTERN);
}

#[test]
fn stored_document_fields_have_their_names() {
    assert_eq!(ID_FIELD, "_id");
    assert_eq!(UPDATED_AT_FIELD, "updated_at");
    assert_eq!(SET_OPERATOR, "$set");
    assert_eq!(URI_VARIABLE, "MONGO_URI");
    assert_eq!(DATABASE_VARIABLE, "MONGO_DB");
    assert_eq!(COLLECTION_VARIABLE, "MONGO_COLLECTION");
}

#[test]
fn upsert_is_confirmed_and_failure_is_noticed() {
    let plan = UpsertPlan {
        uri: "u".to_string(),
        database: "grokipedia".to_string(),
        collection: "summaries".to_string(),
        document_id: "grok-4-20260102T030405.678Z".to_string(),
        insert_if_absent: true,
    };
    assert_eq!(
        upsert_confirmation_text(&plan),
        "Upserted summary into MongoDB collection \"summaries\" (db: \"grokipedia\", id: \"grok-4-20260102T030405.678Z\")"
    );
    assert_eq!(
        upsert_failure_notice("server selection timeout"),
        "Failed to upsert summary in MongoDB: server selection timeout"
    );
}

#[test]
fn timestamped_identifiers_of_later_runs_do_not_go_back() {
    let first = plan_timestamped_upsert(settings(Some("u"), None, None), &document());
    let second = plan_timestamped_upsert(settings(Some("u"), None, None), &document());
    match (first, second) {
        (StoreStep::Upsert(first), StoreStep::Upsert(second)) => {
            assert!(first.document_id <= second.document_id);
            assert!(first.document_id.ends_with('Z'));
            assert!(second.document_id.starts_with("grok-4-2"));
        }
        _ => panic!("a connection string is set"),
    }
}
