use rustcast::error::{
    DatabaseError, NetworkError, PlayerError, RssError, RustcastError, UiError,
};
use rustcast::timefmt::{decimal_string, format_time};

#[test]
fn format_time_zero_reads_not_started() {
    assert_eq!(format_time(0), "Not started".to_string());
}

#[test]
fn format_time_under_an_hour_shows_minutes_and_seconds() {
    assert_eq!(format_time(59), "0:59".to_string());
    assert_eq!(format_time(61), "1:01".to_string());
    assert_eq!(format_time(600), "10:00".to_string());
}

#[test]
fn format_time_with_hours_pads_minutes_and_seconds() {
    assert_eq!(format_time(3661), "1:01:01".to_string());
    assert_eq!(format_time(7325), "2:02:05".to_string());
    assert_eq!(format_time(36_000), "10:00:00".to_string());
}

#[test]
fn decimal_string_renders_exact_digits() {
    assert_eq!(decimal_string(0), "0".to_string());
    assert_eq!(decimal_string(7), "7".to_string());
    assert_eq!(decimal_string(418), "418".to_string());
    assert_eq!(decimal_string(1_000_000), "1000000".to_string());
}

#[test]
fn constructors_build_the_named_variants() {
    assert_eq!(
        RustcastError::network_invalid_url("u"),
        RustcastError::Network(NetworkError::InvalidUrl("u".to_string()))
    );
    assert_eq!(
        RustcastError::rss_missing_field("title"),
        RustcastError::Rss(RssError::MissingRequiredField("title".to_string()))
    );
    assert_eq!(
        RustcastError::player_open_failed("codec"),
        RustcastError::Player(PlayerError::OpenFailed("codec".to_string()))
    );
    assert_eq!(
        RustcastError::ui_invalid_state("oops"),
        RustcastError::Ui(UiError::InvalidState("oops".to_string()))
    );
}

#[test]
fn user_message_for_common_failures() {
    let e = RustcastError::Network(NetworkError::RequestFailed("x".to_string()));
    assert_eq!(
        e.user_friendly_message(),
        "Failed to connect to the podcast server. Please check your internet connection."
    );
    let e = RustcastError::Network(NetworkError::ConnectionTimeout);
    assert_eq!(e.user_friendly_message(), "Connection timed out. Please try again later.");
    let e = RustcastError::Network(NetworkError::FeedNotFound);
    assert_eq!(e.user_friendly_message(), "The podcast feed was not found on the server.");
    let e = RustcastError::Network(NetworkError::ServerUnavailable);
    assert_eq!(
        e.user_friendly_message(),
        "The podcast server is unavailable. Please try again later."
    );
}

#[test]
fn user_message_keeps_field_detail() {
    let e = RustcastError::Rss(RssError::MissingRequiredField("title".to_string()));
    assert_eq!(
        e.user_friendly_message(),
        "The podcast feed is missing required information: title"
    );
    let e = RustcastError::Database(DatabaseError::QueryFailed("locked".to_string()));
    assert_eq!(
        e.user_friendly_message(),
        "Database error: Database query failed: locked"
    );
    let e = RustcastError::Ui(UiError::InvalidState("no episode".to_string()));
    assert_eq!(e.user_friendly_message(), "UI error: Invalid UI state: no episode");
}

#[test]
fn user_message_for_player_failures() {
    let e = RustcastError::Player(PlayerError::PlaybackFailed("x".to_string()));
    assert_eq!(e.user_friendly_message(), "Playback failed. Please try again.");
    let e = RustcastError::Player(PlayerError::OpenFailed("x".to_string()));
    assert_eq!(
        e.user_friendly_message(),
        "Failed to open the audio file. The file may be corrupted or in an unsupported format."
    );
}
