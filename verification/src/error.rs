//! Error taxonomy of the client: network, database, feed, player and UI
//! failures, and the translation of each into a plain-language message.

use vstd::prelude::*;
use vstd::string::StringExecFns;

verus! {

#[derive(Debug, Clone, PartialEq)]
pub enum RustcastError {
    Network(NetworkError),
    Database(DatabaseError),
    Rss(RssError),
    Player(PlayerError),
    Ui(UiError),
}

#[derive(Debug, Clone, PartialEq)]
pub enum NetworkError {
    RequestFailed(String),
    InvalidUrl(String),
    ConnectionTimeout,
    InvalidResponse(String),
    FeedNotFound,
    ServerUnavailable,
}

#[derive(Debug, Clone, PartialEq)]
pub enum DatabaseError {
    ConnectionFailed(String),
    QueryFailed(String),
    DataNotFound(String),
    ConstraintViolation(String),
}

#[derive(Debug, Clone, PartialEq)]
pub enum RssError {
    ParseFailed(String),
    InvalidFeed(String),
    MissingRequiredField(String),
    UnsupportedFormat(String),
}

#[derive(Debug, Clone, PartialEq)]
pub enum PlayerError {
    OpenFailed(String),
    PlaybackFailed(String),
    SeekFailed(String),
    UnsupportedFormat(String),
}

#[derive(Debug, Clone, PartialEq)]
pub enum UiError {
    InvalidState(String),
    ComponentError(String),
}

pub type RustcastResult<T> = Result<T, RustcastError>;

impl RustcastError {
    pub fn network_invalid_url(url: &str) -> (r: Self)
        ensures
            r matches RustcastError::Network(NetworkError::InvalidUrl(u)) && u@ == url@,
    {
        RustcastError::Network(NetworkError::InvalidUrl(String::from_str(url)))
    }

    pub fn rss_missing_field(field: &str) -> (r: Self)
        ensures
            r matches RustcastError::Rss(RssError::MissingRequiredField(f)) && f@ == field@,
    {
        RustcastError::Rss(RssError::MissingRequiredField(String::from_str(field)))
    }

    pub fn player_open_failed(msg: &str) -> (r: Self)
        ensures
            r matches RustcastError::Player(PlayerError::OpenFailed(m)) && m@ == msg@,
    {
        RustcastError::Player(PlayerError::OpenFailed(String::from_str(msg)))
    }

    pub fn ui_invalid_state(msg: &str) -> (r: Self)
        ensures
            r matches RustcastError::Ui(UiError::InvalidState(m)) && m@ == msg@,
    {
        RustcastError::Ui(UiError::InvalidState(String::from_str(msg)))
    }

    /// Translate an error into the plain-language string shown to the user.
    pub fn user_friendly_message(&self) -> (r: String)
        ensures
            r@ == spec_user_message(*self),
    {
        match self {
            RustcastError::Network(NetworkError::RequestFailed(_)) => String::from_str(
                "Failed to connect to the podcast server. Please check your internet connection.",
            ),
            RustcastError::Network(NetworkError::InvalidUrl(_)) => String::from_str(
                "The podcast URL is invalid. Please check the URL and try again.",
            ),
            RustcastError::Network(NetworkError::ConnectionTimeout) => String::from_str(
                "Connection timed out. Please try again later.",
            ),
            RustcastError::Network(NetworkError::InvalidResponse(msg)) => String::from_str(
                "Network error: Invalid response: ",
            ).concat(msg.as_str()),
            RustcastError::Network(NetworkError::FeedNotFound) => String::from_str(
                "The podcast feed was not found on the server.",
            ),
            RustcastError::Network(NetworkError::ServerUnavailable) => String::from_str(
                "The podcast server is unavailable. Please try again later.",
            ),
            RustcastError::Database(DatabaseError::ConnectionFailed(_)) => String::from_str(
                "Database connection failed. Please restart the application.",
            ),
            RustcastError::Database(DatabaseError::QueryFailed(msg)) => String::from_str(
                "Database error: Database query failed: ",
            ).concat(msg.as_str()),
            RustcastError::Database(DatabaseError::DataNotFound(item)) => String::from_str(
                "Database error: Data not found: ",
            ).concat(item.as_str()),
            RustcastError::Database(DatabaseError::ConstraintViolation(msg)) => String::from_str(
                "Database error: Constraint violation: ",
            ).concat(msg.as_str()),
            RustcastError::Rss(RssError::ParseFailed(_)) => String::from_str(
                "Failed to parse the podcast feed. The feed may be malformed.",
            ),
            RustcastError::Rss(RssError::InvalidFeed(msg)) => String::from_str(
                "RSS error: Invalid RSS feed: ",
            ).concat(msg.as_str()),
            RustcastError::Rss(RssError::MissingRequiredField(field)) => String::from_str(
                "The podcast feed is missing required information: ",
            ).concat(field.as_str()),
            RustcastError::Rss(RssError::UnsupportedFormat(format)) => String::from_str(
                "RSS error: Unsupported format: ",
            ).concat(format.as_str()),
            RustcastError::Player(PlayerError::OpenFailed(_)) => String::from_str(
                "Failed to open the audio file. The file may be corrupted or in an unsupported format.",
            ),
            RustcastError::Player(PlayerError::PlaybackFailed(_)) => String::from_str(
                "Playback failed. Please try again.",
            ),
            RustcastError::Player(PlayerError::SeekFailed(msg)) => String::from_str(
                "Player error: Seek failed: ",
            ).concat(msg.as_str()),
            RustcastError::Player(PlayerError::UnsupportedFormat(format)) => String::from_str(
                "Player error: Unsupported format: ",
            ).concat(format.as_str()),
            RustcastError::Ui(UiError::InvalidState(msg)) => String::from_str(
                "UI error: Invalid UI state: ",
            ).concat(msg.as_str()),
            RustcastError::Ui(UiError::ComponentError(msg)) => String::from_str(
                "UI error: Component error: ",
            ).concat(msg.as_str()),
        }
    }
}

/// The message `user_friendly_message` owes for each error value.
pub open spec fn spec_user_message(e: RustcastError) -> Seq<char> {
    match e {
        RustcastError::Network(NetworkError::RequestFailed(_)) =>
            "Failed to connect to the podcast server. Please check your internet connection."@,
        RustcastError::Network(NetworkError::InvalidUrl(_)) =>
            "The podcast URL is invalid. Please check the URL and try again."@,
        RustcastError::Network(NetworkError::ConnectionTimeout) =>
            "Connection timed out. Please try again later."@,
        RustcastError::Network(NetworkError::InvalidResponse(msg)) =>
            "Network error: Invalid response: "@ + msg@,
        RustcastError::Network(NetworkError::FeedNotFound) =>
            "The podcast feed was not found on the server."@,
        RustcastError::Network(NetworkError::ServerUnavailable) =>
            "The podcast server is unavailable. Please try again later."@,
        RustcastError::Database(DatabaseError::ConnectionFailed(_)) =>
            "Database connection failed. Please restart the application."@,
        RustcastError::Database(DatabaseError::QueryFailed(msg)) =>
            "Database error: Database query failed: "@ + msg@,
        RustcastError::Database(DatabaseError::DataNotFound(item)) =>
            "Database error: Data not found: "@ + item@,
        RustcastError::Database(DatabaseError::ConstraintViolation(msg)) =>
            "Database error: Constraint violation: "@ + msg@,
        RustcastError::Rss(RssError::ParseFailed(_)) =>
            "Failed to parse the podcast feed. The feed may be malformed."@,
        RustcastError::Rss(RssError::InvalidFeed(msg)) =>
            "RSS error: Invalid RSS feed: "@ + msg@,
        RustcastError::Rss(RssError::MissingRequiredField(field)) =>
            "The podcast feed is missing required information: "@ + field@,
        RustcastError::Rss(RssError::UnsupportedFormat(format)) =>
            "RSS error: Unsupported format: "@ + format@,
        RustcastError::Player(PlayerError::OpenFailed(_)) =>
            "Failed to open the audio file. The file may be corrupted or in an unsupported format."@,
        RustcastError::Player(PlayerError::PlaybackFailed(_)) =>
            "Playback failed. Please try again."@,
        RustcastError::Player(PlayerError::SeekFailed(msg)) =>
            "Player error: Seek failed: "@ + msg@,
        RustcastError::Player(PlayerError::UnsupportedFormat(format)) =>
            "Player error: Unsupported format: "@ + format@,
        RustcastError::Ui(UiError::InvalidState(msg)) =>
            "UI error: Invalid UI state: "@ + msg@,
        RustcastError::Ui(UiError::ComponentError(msg)) =>
            "UI error: Component error: "@ + msg@,
    }
}

} // verus!
