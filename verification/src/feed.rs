//! Feed fetching support: URL validation, classification of an HTTP fetch
//! outcome into the error taxonomy, and parsing of feed text into a document
//! of raw items.

use vstd::prelude::*;
use vstd::string::{StrSliceExecFns, StringExecFns};

use crate::error::{NetworkError, RssError, RustcastError, RustcastResult};
use crate::text::{is_blank, str_eq, str_is_blank};
use crate::timefmt::{dec_rep, decimal_string};

verus! {

/// One item of a fetched feed, before validation: every field may be absent.
#[derive(Debug, PartialEq)]
pub struct RawFeedItem {
    pub title: Option<String>,
    pub enclosure_url: Option<String>,
    pub description: Option<String>,
    pub guid: Option<String>,
    pub pub_date: Option<String>,
}

/// The mathematical value of a `RawFeedItem`.
pub struct ItemModel {
    pub title: Option<Seq<char>>,
    pub enclosure_url: Option<Seq<char>>,
    pub description: Option<Seq<char>>,
    pub guid: Option<Seq<char>>,
    pub pub_date: Option<Seq<char>>,
}

/// The characters of an optional string.
pub open spec fn opt_chars(o: Option<String>) -> Option<Seq<char>> {
    match o {
        Some(s) => Some(s@),
        None => None,
    }
}

impl View for RawFeedItem {
    type V = ItemModel;

    open spec fn view(&self) -> ItemModel {
        ItemModel {
            title: opt_chars(self.title),
            enclosure_url: opt_chars(self.enclosure_url),
            description: opt_chars(self.description),
            guid: opt_chars(self.guid),
            pub_date: opt_chars(self.pub_date),
        }
    }
}

/// A parsed feed: its title and its items, in document order.
#[derive(Debug, PartialEq)]
pub struct FeedDocument {
    pub title: String,
    pub items: Vec<RawFeedItem>,
}

/// The mathematical value of a `FeedDocument`.
pub struct FeedModel {
    pub title: Seq<char>,
    pub items: Seq<ItemModel>,
}

impl View for FeedDocument {
    type V = FeedModel;

    open spec fn view(&self) -> FeedModel {
        FeedModel { title: self.title@, items: self.items@.map_values(|i: RawFeedItem| i@) }
    }
}

/// The scheme of `url` when it parses as an absolute URL, lower-cased;
/// absent when it does not parse.
pub uninterp spec fn url_scheme(url: Seq<char>) -> Option<Seq<char>>;

/// Relies on `url::Url::parse` and `url::Url::scheme`: parsing either fails
/// or yields a URL whose lower-cased scheme `scheme` returns; both are
/// functions of the input string alone.
#[verifier::external_body]
fn parse_url_scheme(url: &str) -> (r: Option<String>)
    ensures
        match r {
            Some(s) => url_scheme(url@) == Some(s@),
            None => url_scheme(url@) is None,
        },
{
    match url::Url::parse(url) {
        Ok(u) => Some(u.scheme().to_string()),
        Err(_) => None,
    }
}

/// A URL is accepted when it is not blank and parses with an http or https
/// scheme.
pub open spec fn spec_url_ok(url: Seq<char>) -> bool {
    !is_blank(url) && (url_scheme(url) == Some("http"@) || url_scheme(url) == Some("https"@))
}

/// Check that a feed URL is not blank and uses http or https.
pub fn validate_podcast_url(url: &str) -> (r: RustcastResult<()>)
    ensures
        r is Ok <==> spec_url_ok(url@),
        is_blank(url@) ==> (r matches Err(e)
            && e matches RustcastError::Network(NetworkError::InvalidUrl(m))
            && m@ == "URL cannot be empty"@),
        !is_blank(url@) && url_scheme(url@) is None ==> (r matches Err(e)
            && e matches RustcastError::Network(NetworkError::InvalidUrl(m))
            && m@ == "Invalid URL format"@),
        !is_blank(url@) && url_scheme(url@) is Some && !spec_url_ok(url@) ==> (r matches Err(e)
            && e matches RustcastError::Network(NetworkError::InvalidUrl(m))
            && m@ == "URL must use HTTP or HTTPS protocol"@),
{
    if str_is_blank(url) {
        return Err(RustcastError::Network(NetworkError::InvalidUrl(String::from_str(
            "URL cannot be empty",
        ))));
    }
    match parse_url_scheme(url) {
        Some(scheme) => {
            if str_eq(scheme.as_str(), "http") || str_eq(scheme.as_str(), "https") {
                Ok(())
            } else {
                Err(RustcastError::Network(NetworkError::InvalidUrl(String::from_str(
                    "URL must use HTTP or HTTPS protocol",
                ))))
            }
        },
        None => Err(RustcastError::Network(NetworkError::InvalidUrl(String::from_str(
            "Invalid URL format",
        )))),
    }
}

/// User-entered podcast data is accepted when the title is not blank, the
/// URL passes `validate_podcast_url`, and the description stays within two
/// thousand characters.
pub open spec fn spec_podcast_data_ok(title: Seq<char>, link: Seq<char>, description: Seq<char>) -> bool {
    !is_blank(title) && spec_url_ok(link) && description.len() <= 2000
}

/// Validate the fields of a podcast the user asks to add.
pub fn validate_podcast_data(title: &str, link: &str, description: &str) -> (r: RustcastResult<()>)
    ensures
        r is Ok <==> spec_podcast_data_ok(title@, link@, description@),
        is_blank(title@) ==> (r matches Err(e)
            && e matches RustcastError::Rss(RssError::MissingRequiredField(m))
            && m@ == "Podcast title cannot be empty"@),
        !is_blank(title@) && !spec_url_ok(link@) ==> (r matches Err(e)
            && e matches RustcastError::Network(NetworkError::InvalidUrl(_))),
        !is_blank(title@) && spec_url_ok(link@) && description@.len() > 2000 ==> (
        r matches Err(e) && e matches RustcastError::Rss(RssError::InvalidFeed(m))
            && m@ == "Description is too long (max 2000 characters)"@),
{
    if str_is_blank(title) {
        return Err(RustcastError::Rss(RssError::MissingRequiredField(String::from_str(
            "Podcast title cannot be empty",
        ))));
    }
    match validate_podcast_url(link) {
        Ok(()) => {},
        Err(e) => {
            return Err(e);
        },
    }
    if description.unicode_len() > 2000 {
        return Err(RustcastError::Rss(RssError::InvalidFeed(String::from_str(
            "Description is too long (max 2000 characters)",
        ))));
    }
    Ok(())
}

/// What an HTTP fetch of a feed produced, as plain values.
#[derive(Debug, PartialEq)]
pub enum FetchOutcome {
    /// A successful response whose body was read.
    Body(String),
    /// A response with a non-success status code.
    Status(u16),
    /// A response arrived but reading its body failed, with detail.
    BodyReadFailed(String),
    /// The request itself failed (DNS, connection, timeout), with detail.
    Transport(String),
}

/// Map a fetch outcome to the feed body or the owed error: a missing feed
/// and an unavailable server are told apart from other failures.
pub fn evaluate_fetch(outcome: FetchOutcome) -> (r: RustcastResult<String>)
    ensures
        outcome matches FetchOutcome::Body(b) ==> (r matches Ok(s) && s@ == b@),
        outcome matches FetchOutcome::Status(c) ==> {
            &&& r is Err
            &&& (c == 404 ==> r == RustcastResult::<String>::Err(
                RustcastError::Network(NetworkError::FeedNotFound),
            ))
            &&& (c >= 500 ==> r == RustcastResult::<String>::Err(
                RustcastError::Network(NetworkError::ServerUnavailable),
            ))
            &&& (c != 404 && c < 500 ==> (r matches Err(e)
                && e matches RustcastError::Network(NetworkError::RequestFailed(m))
                && m@ == "HTTP error "@ + dec_rep(c as int)))
        },
        outcome matches FetchOutcome::BodyReadFailed(d) ==> (r matches Err(e)
            && e matches RustcastError::Network(NetworkError::InvalidResponse(m))
            && m@ == d@),
        outcome matches FetchOutcome::Transport(d) ==> (r matches Err(e)
            && e matches RustcastError::Network(NetworkError::RequestFailed(m))
            && m@ == d@),
{
    match outcome {
        FetchOutcome::Body(b) => Ok(b),
        FetchOutcome::Status(c) => {
            if c == 404 {
                Err(RustcastError::Network(NetworkError::FeedNotFound))
            } else if c >= 500 {
                Err(RustcastError::Network(NetworkError::ServerUnavailable))
            } else {
                let m = String::from_str("HTTP error ").concat(
                    decimal_string(c as u64).as_str(),
                );
                Err(RustcastError::Network(NetworkError::RequestFailed(m)))
            }
        },
        FetchOutcome::BodyReadFailed(d) => Err(
            RustcastError::Network(NetworkError::InvalidResponse(d)),
        ),
        FetchOutcome::Transport(d) => Err(RustcastError::Network(NetworkError::RequestFailed(d))),
    }
}

/// The parse of feed text: absent when the text is not a well-formed feed,
/// otherwise the feed's title and items with the fields each item carries.
pub uninterp spec fn feed_parse(content: Seq<char>) -> Option<FeedModel>;

/// Relies on `rss::Channel::read_from`: parsing the channel and reading each
/// item's title, enclosure URL, description, guid and publish date are
/// functions of the fed bytes alone.
#[verifier::external_body]
fn parse_channel(content: &str) -> (r: Option<FeedDocument>)
    ensures
        match r {
            Some(doc) => feed_parse(content@) == Some(doc@),
            None => feed_parse(content@) is None,
        },
{
    let ch = rss::Channel::read_from(content.as_bytes()).ok()?;
    Some(FeedDocument {
        title: ch.title().to_string(),
        items: ch.items().iter().map(|i| RawFeedItem {
            title: i.title().map(str::to_string),
            enclosure_url: i.enclosure().map(|e| e.url().to_string()),
            description: i.description().map(str::to_string),
            guid: i.guid().map(|g| g.value().to_string()),
            pub_date: i.pub_date().map(str::to_string),
        }).collect(),
    })
}

/// Parse feed text into a document: empty text and unparsable text are
/// rejected as an invalid feed, a parsed feed without a title as a missing
/// required field.
pub fn parse_feed(content: &str) -> (r: RustcastResult<FeedDocument>)
    ensures
        content@.len() == 0 ==> (r matches Err(e)
            && e matches RustcastError::Rss(RssError::InvalidFeed(m))
            && m@ == "Feed content is empty"@),
        content@.len() > 0 && feed_parse(content@) is None ==> (r matches Err(e)
            && e matches RustcastError::Rss(RssError::InvalidFeed(m))
            && m@ == "Feed content could not be parsed"@),
        content@.len() > 0 && (feed_parse(content@) matches Some(doc) && doc.title.len() == 0)
            ==> (r matches Err(e) && e matches RustcastError::Rss(RssError::MissingRequiredField(f))
            && f@ == "title"@),
        content@.len() > 0 && (feed_parse(content@) matches Some(doc) && doc.title.len() > 0)
            ==> (r matches Ok(d) && feed_parse(content@) == Some(d@)),
        r is Ok <==> content@.len() > 0 && (feed_parse(content@) matches Some(doc)
            && doc.title.len() > 0),
{
    if content.is_empty() {
        return Err(RustcastError::Rss(RssError::InvalidFeed(String::from_str(
            "Feed content is empty",
        ))));
    }
    match parse_channel(content) {
        None => Err(RustcastError::Rss(RssError::InvalidFeed(String::from_str(
            "Feed content could not be parsed",
        )))),
        Some(doc) => {
            if doc.title.as_str().is_empty() {
                Err(RustcastError::Rss(RssError::MissingRequiredField(String::from_str("title"))))
            } else {
                Ok(doc)
            }
        },
    }
}

} // verus!
