use grokipedia_x::config::{
    resolve_config, value_or_default, ConfigError, RunConfig, API_KEY_VARIABLE, BEARER_VARIABLE,
    MODEL_VARIABLE,
};
use grokipedia_x::errors::CompletionError;
use grokipedia_x::extract::ExtractError;
use grokipedia_x::fetch::{
    feed_url, fetch_outcome, is_success_status, search_url, Feed, FetchError, ACCEPT_JSON,
    APP_USER_AGENT,
};
use grokipedia_x::outcome::{
    exit_status, payload_banner_text, saved_confirmation_text, summary_banner_text, Failure,
    EXIT_FAILURE, EXIT_SUCCESS, SUMMARY_OUTPUT_PATH,
};
use serde_json::Value;

#[test]
fn plain_query_is_appended_as_it_is() {
    assert_eq!(
        search_url("government"),
        "https://api.x.com/2/tweets/search/all?max_results=100&query=government"
    );
    assert_eq!(
        search_url("Az09-_.~"),
        "https://api.x.com/2/tweets/search/all?max_results=100&query=Az09-_.~"
    );
    assert_eq!(search_url(""), "https://api.x.com/2/tweets/search/all?max_results=100&query=");
}

#[test]
fn reserved_characters_of_a_query_are_percent_encoded() {
    assert_eq!(
        search_url("a b&c=d/e?f"),
        "https://api.x.com/2/tweets/search/all?max_results=100&query=a%20b%26c%3Dd%2Fe%3Ff"
    );
    assert_eq!(
        search_url("from:nasa has:links"),
        "https://api.x.com/2/tweets/search/all?max_results=100&query=from%3Anasa%20has%3Alinks"
    );
    assert_eq!(
        search_url("é€"),
        "https://api.x.com/2/tweets/search/all?max_results=100&query=%C3%A9%E2%82%AC"
    );
    assert_eq!(
        search_url("\u{0}\u{7f}+%"),
        "https://api.x.com/2/tweets/search/all?max_results=100&query=%00%7F%2B%25"
    );
}

#[test]
fn fixed_feeds_have_their_addresses() {
    assert_eq!(
        feed_url(Feed::Crime),
        "https://api.x.com/2/tweets/search/all?max_results=100&query=crime"
    );
    assert_eq!(
        feed_url(Feed::Politics),
        "https://api.x.com/2/tweets/search/all?max_results=100&query=politics"
    );
    assert_eq!(
        feed_url(Feed::News),
        "https://api.x.com/2/tweets/search/recent?max_results=100&query=breaking%20min_likes%3A10%20min_reposts%3A200%20is%3Averified%20-has%3Ahashtags%20lang%3Aen%20-has%3Alinks"
    );
    assert_eq!(
        feed_url(Feed::Relevant),
        "https://api.x.com/2/tweets/search/recent?max_results=100&query=breaking%20min_likes%3A10000%20min_reposts%3A1000%20is%3Averified%20-has%3Ahashtags%20lang%3Aen%20-has%3Alinks"
    );
    assert_eq!(
        feed_url(Feed::Announcements),
        "https://api.x.com/2/tweets/search/recent?max_results=100&query=announcement%20min_likes%3A100%20min_reposts%3A100%20is%3Averified%20-has%3Ahashtags%20lang%3Aen%20has%3Alinks"
    );
    for feed in [Feed::Sports, Feed::Lando, Feed::General] {
        let url = feed_url(feed);
        assert!(url.starts_with("https://api.x.com/2/tweets/search/recent?max_results=100&query=("));
        assert!(url.contains("%20"));
    }
    assert!(feed_url(Feed::Sports).contains("cricket%20OR%20basketball"));
    assert!(feed_url(Feed::Lando).contains("\"just%20in\""));
    assert!(feed_url(Feed::General).contains("\"why%20this%20matters\""));
}

#[test]
fn request_headers_are_fixed() {
    assert_eq!(ACCEPT_JSON, "application/json");
    assert_eq!(APP_USER_AGENT, "grokipedia-x/0.1");
}

#[test]
fn only_statuses_from_200_to_299_let_a_fetch_go_on() {
    assert!(is_success_status(200));
    assert!(is_success_status(204));
    assert!(is_success_status(299));
    assert!(!is_success_status(199));
    assert!(!is_success_status(300));
    assert!(!is_success_status(304));
    assert!(!is_success_status(404));
    assert!(!is_success_status(504));
    assert!(!is_success_status(0));
    assert!(!is_success_status(u16::MAX));
}

#[test]
fn a_good_response_gives_the_payload() {
    let expected: Value = serde_json::from_str("{\"data\":[{\"id\":\"1\"}]}").unwrap();
    assert_eq!(fetch_outcome(200, " {\"data\": [ {\"id\": \"1\"} ] } "), Ok(expected));
}

#[test]
fn a_refused_fetch_is_an_error_whatever_the_body() {
    assert_eq!(fetch_outcome(401, "{\"title\":\"Unauthorized\"}"), Err(FetchError::Status(401)));
    assert_eq!(fetch_outcome(302, "{}"), Err(FetchError::Status(302)));
    assert_eq!(fetch_outcome(100, "{}"), Err(FetchError::Status(100)));
    assert_eq!(fetch_outcome(503, "not json"), Err(FetchError::Status(503)));
}

#[test]
fn an_unreadable_body_is_an_error() {
    let reason = serde_json::from_str::<Value>("<html>").unwrap_err().to_string();
    assert_eq!(fetch_outcome(200, "<html>"), Err(FetchError::Body(reason)));
}

#[test]
fn fetch_errors_have_their_diagnostics() {
    assert_eq!(FetchError::Status(429).message(), "search request failed with HTTP status 429");
    assert_eq!(FetchError::Transport("dns error".to_string()).message(), "dns error");
    assert_eq!(
        FetchError::Body("expected value at line 1 column 1".to_string()).message(),
        "search response is not valid JSON: expected value at line 1 column 1"
    );
}

fn some(text: &str) -> Option<String> {
    Some(text.to_string())
}

#[test]
fn configuration_needs_both_credentials() {
    assert_eq!(resolve_config(None, some("k"), None, None), Err(ConfigError::MissingBearer));
    assert_eq!(resolve_config(None, None, some("m"), some("q")), Err(ConfigError::MissingBearer));
    assert_eq!(resolve_config(some("b"), None, None, None), Err(ConfigError::MissingApiKey));
}

#[test]
fn configuration_has_defaults_for_model_and_query() {
    assert_eq!(
        resolve_config(some("b"), some("k"), None, None),
        Ok(RunConfig {
            bearer_token: "b".to_string(),
            api_key: "k".to_string(),
            model: "grok-4-fast-non-reasoning".to_string(),
            query: "government".to_string(),
        })
    );
    assert_eq!(
        resolve_config(some("b"), some("k"), some("grok-5"), some("crime")),
        Ok(RunConfig {
            bearer_token: "b".to_string(),
            api_key: "k".to_string(),
            model: "grok-5".to_string(),
            query: "crime".to_string(),
        })
    );
    assert_eq!(value_or_default(None, "d"), "d");
    assert_eq!(value_or_default(some(""), "d"), "");
}

#[test]
fn configuration_errors_have_their_diagnostics() {
    assert_eq!(
        ConfigError::MissingBearer.message(),
        "Missing BEARER env var. Export a valid X API bearer token before running."
    );
    assert_eq!(
        ConfigError::MissingApiKey.message(),
        "Missing XAI_API_KEY env var. Export a valid xAI API key before running."
    );
}

#[test]
fn a_store_failure_does_not_fail_the_run() {
    assert_eq!(exit_status(&Vec::new()), EXIT_SUCCESS);
    assert_eq!(exit_status(&vec![Failure::StorePersistence("unreachable".to_string())]), 0);
    assert!(!Failure::StorePersistence("unreachable".to_string()).fatal());
    assert_eq!(
        Failure::StorePersistence("unreachable".to_string()).diagnostic(),
        "Failed to upsert summary in MongoDB: unreachable"
    );
}

#[test]
fn every_other_failure_fails_the_run() {
    let fatal = vec![
        Failure::Configuration(ConfigError::MissingBearer),
        Failure::Fetch(FetchError::Status(500)),
        Failure::Completion(CompletionError::MissingCompletionText),
        Failure::Extraction(ExtractError::MissingDelimiters),
        Failure::FilePersistence("permission denied".to_string()),
    ];
    for failure in &fatal {
        assert!(failure.fatal());
        assert_eq!(exit_status(&vec![failure.clone()]), EXIT_FAILURE);
        assert_eq!(
            exit_status(&vec![Failure::StorePersistence("s".to_string()), failure.clone()]),
            1
        );
    }
    assert_eq!(fatal[0].diagnostic(), ConfigError::MissingBearer.message());
    assert_eq!(fatal[1].diagnostic(), "search request failed with HTTP status 500");
    assert_eq!(fatal[2].diagnostic(), "xAI response missing completion text");
    assert_eq!(fatal[3].diagnostic(), "xAI summary missing JSON array delimiters.");
    assert_eq!(fatal[4].diagnostic(), "permission denied");
}

#[test]
fn progress_is_printed_under_banners() {
    assert_eq!(
        payload_banner_text("government", "{\n  \"data\": []\n}"),
        "=== Raw X payload for query: government ===\n{\n  \"data\": []\n}"
    );
    assert_eq!(
        summary_banner_text("grok-4-fast-non-reasoning", "[1]"),
        "\n=== xAI summary (grok-4-fast-non-reasoning) ===\n[1]"
    );
    assert_eq!(saved_confirmation_text(), "Saved summary to summary.json");
    assert_eq!(SUMMARY_OUTPUT_PATH, "summary.json");
}

#[test]
fn settings_are_read_from_their_variables() {
    assert_eq!(BEARER_VARIABLE, "BEARER");
    assert_eq!(API_KEY_VARIABLE, "XAI_API_KEY");
    assert_eq!(MODEL_VARIABLE, "XAI_MODEL");
}
