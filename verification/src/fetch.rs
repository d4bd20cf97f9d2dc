//! The boundary to the search service: which address a query is fetched from
//! and what a response amounts to.

use vstd::prelude::*;
use vstd::string::StringExecFns;
use vstd::utf8::encode_utf8;
use crate::json::{json_error_message, json_model, parse_json, parsed_json};
use crate::text::{decimal, decimal_string};

verus! {

/// The search address up to the query; the encoded query follows it.
pub const SEARCH_ENDPOINT: &'static str =
    "https://api.x.com/2/tweets/search/all?max_results=100&query=";

/// The media type asked for.
pub const ACCEPT_JSON: &'static str = "application/json";

/// How the client names itself.
pub const APP_USER_AGENT: &'static str = "grokipedia-x/0.1";

/// What the diagnostic of a refused fetch says before the status.
pub const STATUS_OPENING: &'static str = "search request failed with HTTP status ";

/// What the diagnostic of an unreadable body says before the parser's message.
pub const BODY_OPENING: &'static str = "search response is not valid JSON: ";

/// Posts about crime, from the full archive.
pub const CRIME_FEED: &'static str =
    "https://api.x.com/2/tweets/search/all?max_results=100&query=crime";

/// Recent sports posts that link to major news sites.
pub const SPORTS_FEED: &'static str =
    "https://api.x.com/2/tweets/search/recent?max_results=100&query=(cricket%20OR%20basketball%20OR%20football%20OR%20soccer%20OR%20baseball%20OR%20athletics)%20(%20%20url%3Anytimes.com%20OR%20%20%20url%3Acnn.com%20OR%20%20%20url%3Abloomberg.com%20OR%20%20%20url%3Afoxnews.com%20OR%20%20%20url%3Andtv.com%20OR%20%20%20url%3Aindiatimes.com%20OR%20%20%20url%3Achannelnewsasia.com%20)%20has%3Alinks%20lang%3Aen%20min_likes%3A10%20-is%3Aretweet%20-is%3Areply&sort_order=recency";

/// Posts about politics, from the full archive.
pub const POLITICS_FEED: &'static str =
    "https://api.x.com/2/tweets/search/all?max_results=100&query=politics";

/// Recent breaking-news posts that link to major news sites.
pub const LANDO_FEED: &'static str =
    "https://api.x.com/2/tweets/search/recent?max_results=100&query=(%20%20%20breaking%20OR%20%20%20%20\"just%20in\"%20OR%20%20%20announcement%20OR%20%20%20update%20OR%20%20%20\"new%20report\"%20OR%20%20%20\"major%20development\"%20)%20(%20%20url%3Anytimes.com%20OR%20%20%20url%3Acnn.com%20OR%20%20%20url%3Abloomberg.com%20OR%20%20%20url%3Afoxnews.com%20OR%20%20%20url%3Andtv.com%20OR%20%20%20url%3Aindiatimes.com%20OR%20%20%20url%3Achannelnewsasia.com%20)%20has%3Alinks%20lang%3Aen%20min_likes%3A100%20-is%3Aretweet%20-is%3Areply&sort_order=recency";

/// Recent, widely shared breaking posts by verified authors.
pub const RELEVANT_FEED: &'static str =
    "https://api.x.com/2/tweets/search/recent?max_results=100&query=breaking%20min_likes%3A10000%20min_reposts%3A1000%20is%3Averified%20-has%3Ahashtags%20lang%3Aen%20-has%3Alinks";

/// Recent breaking posts by verified authors.
pub const NEWS_FEED: &'static str =
    "https://api.x.com/2/tweets/search/recent?max_results=100&query=breaking%20min_likes%3A10%20min_reposts%3A200%20is%3Averified%20-has%3Ahashtags%20lang%3Aen%20-has%3Alinks";

/// Recent announcements and analyses by verified authors, with links.
pub const GENERAL_FEED: &'static str =
    "https://api.x.com/2/tweets/search/recent?max_results=100&query=(%20%20%20\"breaking\"%20OR%20\"update\"%20OR%20\"announcement\"%20OR%20\"new%20report\"%20OR%20%20%20%20\"published%20today\"%20OR%20\"leaked\"%20OR%20\"revealed\"%20OR%20\"new%20study\"%20OR%20%20%20\"launch\"%20OR%20\"rollout\"%20)%20(%20%20%20\"analysis\"%20OR%20\"deep%20dive\"%20OR%20\"context\"%20OR%20\"implications\"%20OR%20%20%20%20\"counterintuitive\"%20OR%20\"underappreciated\"%20OR%20\"the%20real%20reason\"%20OR%20%20%20%20\"if%20you%20zoom%20out\"%20OR%20\"why%20this%20matters\"%20)%20min_likes%3A100%20min_reposts%3A100%20is%3Averified%20-has%3Ahashtags%20lang%3Aen%20has%3Alinks";

/// Recent announcements by verified authors, with links.
pub const ANNOUNCEMENTS_FEED: &'static str =
    "https://api.x.com/2/tweets/search/recent?max_results=100&query=announcement%20min_likes%3A100%20min_reposts%3A100%20is%3Averified%20-has%3Ahashtags%20lang%3Aen%20has%3Alinks";

/// A fixed search that needs no query.
#[derive(Debug, Clone, Copy, PartialEq, Eq, Structural)]
pub enum Feed {
    /// Posts about crime, from the full archive.
    Crime,
    /// Recent sports posts that link to major news sites.
    Sports,
    /// Posts about politics, from the full archive.
    Politics,
    /// Recent breaking-news posts that link to major news sites.
    Lando,
    /// Recent, widely shared breaking posts by verified authors.
    Relevant,
    /// Recent breaking posts by verified authors.
    News,
    /// Recent announcements and analyses by verified authors, with links.
    General,
    /// Recent announcements by verified authors, with links.
    Announcements,
}

/// Why a fetch gave no payload.
#[derive(Debug, Clone, PartialEq, Eq)]
pub enum FetchError {
    /// The service answered with a status outside 200 to 299.
    Status(u16),
    /// The request did not get through; the message is the transport's.
    Transport(String),
    /// The body is no JSON; the message is the parser's.
    Body(String),
}

impl FetchError {
    /// The diagnostic of this error, as a text.
    pub open spec fn message_text(self) -> Seq<char> {
        match self {
            FetchError::Status(status) => STATUS_OPENING@ + decimal(status as nat),
            FetchError::Transport(reason) => reason@,
            FetchError::Body(reason) => BODY_OPENING@ + reason@,
        }
    }

    /// The diagnostic of this error.
    pub fn message(&self) -> (text: String)
        ensures
            text@ == self.message_text(),
    {
        match self {
            FetchError::Status(status) => {
                let mut text = String::from_str(STATUS_OPENING);
                text.append(decimal_string(*status as usize).as_str());
                text
            },
            FetchError::Transport(reason) => reason.clone(),
            FetchError::Body(reason) => {
                let mut text = String::from_str(BODY_OPENING);
                text.append(reason.as_str());
                text
            },
        }
    }
}

/// A byte that percent-encoding leaves as it is: an ASCII letter or digit, or
/// one of `-`, `.`, `_`, `~`.
pub open spec fn is_unreserved(byte: u8) -> bool {
    ||| (0x30 <= byte && byte <= 0x39)
    ||| (0x41 <= byte && byte <= 0x5a)
    ||| (0x61 <= byte && byte <= 0x7a)
    ||| byte == 0x2d
    ||| byte == 0x2e
    ||| byte == 0x5f
    ||| byte == 0x7e
}

/// The upper-case hexadecimal digit of a value below sixteen.
pub open spec fn hex_digit(value: u8) -> char {
    if value < 10 {
        (0x30 + value) as char
    } else {
        (0x37 + value) as char
    }
}

/// One byte, percent-encoded.
pub open spec fn encoded_byte(byte: u8) -> Seq<char> {
    if is_unreserved(byte) {
        seq![byte as char]
    } else {
        seq!['%', hex_digit(byte / 16), hex_digit(byte % 16)]
    }
}

/// A run of bytes, percent-encoded byte by byte.
pub open spec fn encoded_bytes(bytes: Seq<u8>) -> Seq<char>
    decreases bytes.len(),
{
    if bytes.len() == 0 {
        Seq::empty()
    } else {
        encoded_bytes(bytes.drop_last()) + encoded_byte(bytes.last())
    }
}

/// A text, percent-encoded: every byte of its UTF-8 form but the unreserved
/// ones becomes `%` and two hexadecimal digits.
pub open spec fn percent_encoded(raw: Seq<char>) -> Seq<char> {
    encoded_bytes(encode_utf8(raw))
}

/// The address a query is searched at.
pub open spec fn search_address(raw_query: Seq<char>) -> Seq<char> {
    SEARCH_ENDPOINT@ + percent_encoded(raw_query)
}

/// The address of a fixed search.
pub open spec fn feed_address(feed: Feed) -> Seq<char> {
    match feed {
        Feed::Crime => CRIME_FEED@,
        Feed::Sports => SPORTS_FEED@,
        Feed::Politics => POLITICS_FEED@,
        Feed::Lando => LANDO_FEED@,
        Feed::Relevant => RELEVANT_FEED@,
        Feed::News => NEWS_FEED@,
        Feed::General => GENERAL_FEED@,
        Feed::Announcements => ANNOUNCEMENTS_FEED@,
    }
}

/// A status from 200 to 299.
pub open spec fn is_success(status: u16) -> bool {
    200 <= status && status < 300
}

/// What a response amounts to: a refusal for any status outside 200 to 299,
/// else whatever the parser makes of the body.
pub open spec fn is_fetch_outcome(
    status: u16,
    body: Seq<char>,
    res: Result<serde_json::Value, FetchError>,
) -> bool {
    if !is_success(status) {
        res matches Err(FetchError::Status(refused)) && refused == status
    } else {
        match parsed_json(body) {
            Ok(document) => res matches Ok(payload) && json_model(payload) == document,
            Err(reason) => res matches Err(FetchError::Body(kept)) && kept@ == reason,
        }
    }
}

/// Calls `urlencoding::encode` and takes the result as an owned string.
/// Believed, as the crate documents it: every byte of the text is
/// percent-encoded except ASCII letters, digits and `-`, `.`, `_`, `~`,
/// with upper-case hexadecimal digits.
#[verifier::external_body]
fn percent_encode(raw: &str) -> (encoded: String)
    ensures
        encoded@ == percent_encoded(raw@),
{
    urlencoding::encode(raw).into_owned()
}

/// Builds the address at which `raw_query` is searched.
pub fn search_url(raw_query: &str) -> (url: String)
    ensures
        url@ == search_address(raw_query@),
{
    let mut url = String::from_str(SEARCH_ENDPOINT);
    url.append(percent_encode(raw_query).as_str());
    url
}

/// The address of a fixed search.
pub fn feed_url(feed: Feed) -> (url: &'static str)
    ensures
        url@ == feed_address(feed),
{
    match feed {
        Feed::Crime => CRIME_FEED,
        Feed::Sports => SPORTS_FEED,
        Feed::Politics => POLITICS_FEED,
        Feed::Lando => LANDO_FEED,
        Feed::Relevant => RELEVANT_FEED,
        Feed::News => NEWS_FEED,
        Feed::General => GENERAL_FEED,
        Feed::Announcements => ANNOUNCEMENTS_FEED,
    }
}

/// Whether a status lets the fetch go on.
pub fn is_success_status(status: u16) -> (ok: bool)
    ensures
        ok == is_success(status),
{
    200 <= status && status < 300
}

/// Turns a response into the payload or the error of the fetch. Any status
/// outside 200 to 299 is an error, whatever the body holds; otherwise the
/// body is parsed as JSON.
pub fn fetch_outcome(status: u16, body: &str) -> (res: Result<serde_json::Value, FetchError>)
    ensures
        is_fetch_outcome(status, body@, res),
{
    if !is_success_status(status) {
        return Err(FetchError::Status(status));
    }
    match parse_json(body) {
        Ok(payload) => Ok(payload),
        Err(error) => Err(FetchError::Body(json_error_message(&error))),
    }
}

} // verus!
