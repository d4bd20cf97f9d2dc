//! The configuration of a run, assembled once from what the environment and
//! the command line gave.

use vstd::prelude::*;
use vstd::string::StringExecFns;

verus! {

/// The model used where none is configured.
pub const DEFAULT_MODEL: &'static str = "grok-4-fast-non-reasoning";

/// The query searched for where none is given.
pub const DEFAULT_QUERY: &'static str = "government";

/// Where the search credential is configured.
pub const BEARER_VARIABLE: &'static str = "BEARER";

/// Where the completion-service credential is configured.
pub const API_KEY_VARIABLE: &'static str = "XAI_API_KEY";

/// Where the model is configured.
pub const MODEL_VARIABLE: &'static str = "XAI_MODEL";

/// The diagnostic of a missing search credential.
pub const MISSING_BEARER: &'static str =
    "Missing BEARER env var. Export a valid X API bearer token before running.";

/// The diagnostic of a missing completion-service credential.
pub const MISSING_API_KEY: &'static str =
    "Missing XAI_API_KEY env var. Export a valid xAI API key before running.";

/// What a run needs to know before its first network call.
#[derive(Debug, Clone, PartialEq, Eq)]
pub struct RunConfig {
    pub bearer_token: String,
    pub api_key: String,
    pub model: String,
    pub query: String,
}

/// A required credential is missing.
#[derive(Debug, Clone, Copy, PartialEq, Eq, Structural)]
pub enum ConfigError {
    /// The credential of the search service.
    MissingBearer,
    /// The credential of the completion service.
    MissingApiKey,
}

impl ConfigError {
    /// The diagnostic of this error, as a text.
    pub open spec fn message_text(self) -> Seq<char> {
        match self {
            ConfigError::MissingBearer => MISSING_BEARER@,
            ConfigError::MissingApiKey => MISSING_API_KEY@,
        }
    }

    /// The diagnostic of this error.
    pub fn message(&self) -> (text: String)
        ensures
            text@ == self.message_text(),
    {
        match self {
            ConfigError::MissingBearer => String::from_str(MISSING_BEARER),
            ConfigError::MissingApiKey => String::from_str(MISSING_API_KEY),
        }
    }
}

/// The value configured, or the default where none is.
pub open spec fn or_default(configured: Option<String>, default: Seq<char>) -> Seq<char> {
    match configured {
        Some(value) => value@,
        None => default,
    }
}

/// The value configured, or the default where none is.
pub fn value_or_default(configured: Option<String>, default: &str) -> (value: String)
    ensures
        value@ == or_default(configured, default@),
{
    match configured {
        Some(value) => value,
        None => String::from_str(default),
    }
}

/// Assembles the configuration of a run. Both credentials are required; the
/// search credential is looked at first. Model and query have defaults.
pub fn resolve_config(
    bearer_token: Option<String>,
    api_key: Option<String>,
    model: Option<String>,
    query: Option<String>,
) -> (res: Result<RunConfig, ConfigError>)
    ensures
        match res {
            Ok(config) => {
                &&& bearer_token == Some(config.bearer_token)
                &&& api_key == Some(config.api_key)
                &&& config.model@ == or_default(model, DEFAULT_MODEL@)
                &&& config.query@ == or_default(query, DEFAULT_QUERY@)
            },
            Err(ConfigError::MissingBearer) => bearer_token is None,
            Err(ConfigError::MissingApiKey) => bearer_token is Some && api_key is None,
        },
{
    let bearer_token = match bearer_token {
        Some(token) => token,
        None => {
            return Err(ConfigError::MissingBearer);
        },
    };
    let api_key = match api_key {
        Some(key) => key,
        None => {
            return Err(ConfigError::MissingApiKey);
        },
    };
    Ok(
        RunConfig {
            bearer_token,
            api_key,
            model: value_or_default(model, DEFAULT_MODEL),
            query: value_or_default(query, DEFAULT_QUERY),
        },
    )
}

} // verus!
