use rustcast::error::{NetworkError, RssError, RustcastError};
use rustcast::feed::{evaluate_fetch, parse_feed, validate_podcast_data, validate_podcast_url, FetchOutcome};

const FEED_XML: &str = r#"<?xml version="1.0" encoding="UTF-8"?>
<rss version="2.0"><channel><title>Show</title>
<item><title>Ep1</title><enclosure url="http://e/1.mp3" length="1" type="audio/mpeg"/><description>D1</description><guid>g1</guid><pubDate>Mon, 01 Jan 2024 00:00:00 GMT</pubDate></item>
<item><title>Ep2</title></item>
<item><title>Ep3</title><enclosure url="http://e/3.mp3" length="1" type="audio/mpeg"/></item>
</channel></rss>"#;

#[test]
fn validate_url_accepts_http_and_https() {
    assert!(validate_podcast_url("http://example.com/feed.xml").is_ok());
    assert!(validate_podcast_url("https://example.com/feed.xml").is_ok());
}

#[test]
fn validate_url_rejects_empty() {
    let err = validate_podcast_url("").unwrap_err();
    assert_eq!(
        err,
        RustcastError::Network(NetworkError::InvalidUrl("URL cannot be empty".to_string()))
    );
}

#[test]
fn validate_url_rejects_blank() {
    let err = validate_podcast_url("   ").unwrap_err();
    assert_eq!(
        err,
        RustcastError::Network(NetworkError::InvalidUrl("URL cannot be empty".to_string()))
    );
}

#[test]
fn validate_url_accepts_padded_url() {
    assert!(validate_podcast_url("  https://example.com/feed.xml  ").is_ok());
}

#[test]
fn validate_url_rejects_other_scheme() {
    let err = validate_podcast_url("ftp://example.com/feed.xml").unwrap_err();
    assert_eq!(
        err,
        RustcastError::Network(NetworkError::InvalidUrl(
            "URL must use HTTP or HTTPS protocol".to_string()
        ))
    );
}

#[test]
fn validate_url_rejects_garbage() {
    let err = validate_podcast_url("not a url at all").unwrap_err();
    assert_eq!(
        err,
        RustcastError::Network(NetworkError::InvalidUrl("Invalid URL format".to_string()))
    );
}

#[test]
fn validate_data_rejects_empty_title() {
    let err = validate_podcast_data("", "http://example.com", "d").unwrap_err();
    assert!(matches!(err, RustcastError::Rss(RssError::MissingRequiredField(_))));
}

#[test]
fn validate_data_rejects_blank_title() {
    let err = validate_podcast_data("   ", "http://example.com", "d").unwrap_err();
    assert_eq!(
        err,
        RustcastError::Rss(RssError::MissingRequiredField(
            "Podcast title cannot be empty".to_string()
        ))
    );
}

#[test]
fn validate_data_rejects_long_description() {
    let long = "x".repeat(2001);
    let err = validate_podcast_data("t", "http://example.com", &long).unwrap_err();
    assert_eq!(
        err,
        RustcastError::Rss(RssError::InvalidFeed(
            "Description is too long (max 2000 characters)".to_string()
        ))
    );
}

#[test]
fn validate_data_accepts_complete_fields() {
    assert!(validate_podcast_data("My Show", "https://example.com/rss", "about it").is_ok());
}

#[test]
fn evaluate_fetch_passes_body_through() {
    let r = evaluate_fetch(FetchOutcome::Body("<rss/>".to_string()));
    assert_eq!(r.unwrap(), "<rss/>".to_string());
}

#[test]
fn evaluate_fetch_maps_not_found() {
    let r = evaluate_fetch(FetchOutcome::Status(404));
    assert_eq!(r.unwrap_err(), RustcastError::Network(NetworkError::FeedNotFound));
}

#[test]
fn evaluate_fetch_maps_server_error() {
    let r = evaluate_fetch(FetchOutcome::Status(503));
    assert_eq!(r.unwrap_err(), RustcastError::Network(NetworkError::ServerUnavailable));
}

#[test]
fn evaluate_fetch_maps_other_status_with_code() {
    let r = evaluate_fetch(FetchOutcome::Status(418));
    assert_eq!(
        r.unwrap_err(),
        RustcastError::Network(NetworkError::RequestFailed("HTTP error 418".to_string()))
    );
}

#[test]
fn evaluate_fetch_maps_transport_detail() {
    let r = evaluate_fetch(FetchOutcome::Transport("dns failure".to_string()));
    assert_eq!(
        r.unwrap_err(),
        RustcastError::Network(NetworkError::RequestFailed("dns failure".to_string()))
    );
}

#[test]
fn evaluate_fetch_maps_body_read_failure() {
    let r = evaluate_fetch(FetchOutcome::BodyReadFailed("truncated".to_string()));
    assert_eq!(
        r.unwrap_err(),
        RustcastError::Network(NetworkError::InvalidResponse("truncated".to_string()))
    );
}

#[test]
fn parse_feed_rejects_empty_content() {
    let err = parse_feed("").unwrap_err();
    assert_eq!(
        err,
        RustcastError::Rss(RssError::InvalidFeed("Feed content is empty".to_string()))
    );
}

#[test]
fn parse_feed_rejects_garbage() {
    let err = parse_feed("this is not xml").unwrap_err();
    assert_eq!(
        err,
        RustcastError::Rss(RssError::InvalidFeed(
            "Feed content could not be parsed".to_string()
        ))
    );
}

#[test]
fn parse_feed_rejects_missing_title() {
    let xml = r#"<rss version="2.0"><channel><description>d</description></channel></rss>"#;
    let err = parse_feed(xml).unwrap_err();
    assert_eq!(
        err,
        RustcastError::Rss(RssError::MissingRequiredField("title".to_string()))
    );
}

#[test]
fn parse_feed_extracts_title_and_items() {
    let doc = parse_feed(FEED_XML).unwrap();
    assert_eq!(doc.title, "Show".to_string());
    assert_eq!(doc.items.len(), 3);
    assert_eq!(doc.items[0].title, Some("Ep1".to_string()));
    assert_eq!(doc.items[0].enclosure_url, Some("http://e/1.mp3".to_string()));
    assert_eq!(doc.items[0].description, Some("D1".to_string()));
    assert_eq!(doc.items[0].guid, Some("g1".to_string()));
    assert_eq!(
        doc.items[0].pub_date,
        Some("Mon, 01 Jan 2024 00:00:00 GMT".to_string())
    );
    assert_eq!(doc.items[1].title, Some("Ep2".to_string()));
    assert_eq!(doc.items[1].enclosure_url, None);
    assert_eq!(doc.items[2].enclosure_url, Some("http://e/3.mp3".to_string()));
    assert_eq!(doc.items[2].description, None);
}
