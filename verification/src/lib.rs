pub mod artifact;
pub mod config;
pub mod errors;
pub mod extract;
pub mod fetch;
pub mod json;
pub mod outcome;
pub mod record;
pub mod request;
pub mod retry;
pub mod store;
pub mod stream;
pub mod text;
