use rustcast::error::{RssError, RustcastError};
use rustcast::feed::RawFeedItem;
use rustcast::reconcile::{reconcile, record_from_item};

fn full_item(n: &str) -> RawFeedItem {
    RawFeedItem {
        title: Some(format!("Title {}", n)),
        enclosure_url: Some(format!("http://e/{}.mp3", n)),
        description: Some(format!("Desc {}", n)),
        guid: Some(format!("guid-{}", n)),
        pub_date: Some("Mon, 01 Jan 2024 00:00:00 GMT".to_string()),
    }
}

fn bare_item(link: Option<&str>, title: Option<&str>) -> RawFeedItem {
    RawFeedItem {
        title: title.map(str::to_string),
        enclosure_url: link.map(str::to_string),
        description: None,
        guid: None,
        pub_date: None,
    }
}

#[test]
fn record_rejects_missing_title() {
    let err = record_from_item(&bare_item(Some("http://e/1.mp3"), None)).unwrap_err();
    assert_eq!(
        err,
        RustcastError::Rss(RssError::MissingRequiredField("title".to_string()))
    );
}

#[test]
fn record_rejects_missing_enclosure() {
    let err = record_from_item(&bare_item(None, Some("Ep"))).unwrap_err();
    assert_eq!(
        err,
        RustcastError::Rss(RssError::MissingRequiredField("enclosure".to_string()))
    );
}

#[test]
fn record_keeps_fields_verbatim() {
    let rec = record_from_item(&full_item("1")).unwrap();
    assert_eq!(rec.title, "Title 1".to_string());
    assert_eq!(rec.link, "http://e/1.mp3".to_string());
    assert_eq!(rec.description, "Desc 1".to_string());
    assert_eq!(rec.guid, "guid-1".to_string());
    assert_eq!(rec.pub_date, "Mon, 01 Jan 2024 00:00:00 GMT".to_string());
}

#[test]
fn record_fills_documented_defaults() {
    let rec = record_from_item(&bare_item(Some("http://e/9.mp3"), Some("Ep 9"))).unwrap();
    assert_eq!(rec.description, "No description available".to_string());
    assert_eq!(rec.guid, "generated-http://e/9.mp3".to_string());
    assert_eq!(rec.pub_date, "Unknown".to_string());
}

#[test]
fn record_guid_fallback_is_deterministic() {
    let a = record_from_item(&bare_item(Some("http://e/9.mp3"), Some("Ep 9"))).unwrap();
    let b = record_from_item(&bare_item(Some("http://e/9.mp3"), Some("Ep 9"))).unwrap();
    assert_eq!(a.guid, b.guid);
}

#[test]
fn reconcile_drops_item_without_enclosure() {
    let items = vec![
        full_item("1"),
        bare_item(None, Some("broken")),
        full_item("3"),
    ];
    let (records, dropped) = reconcile(&items).unwrap();
    assert_eq!(records.len(), 2);
    assert_eq!(dropped, 1);
    assert_eq!(records[0].title, "Title 1".to_string());
    assert_eq!(records[1].title, "Title 3".to_string());
}

#[test]
fn reconcile_counts_each_kind_of_defect() {
    let items = vec![
        bare_item(Some("http://e/1.mp3"), None),
        bare_item(None, Some("no enclosure")),
        full_item("3"),
        bare_item(None, None),
    ];
    let (records, dropped) = reconcile(&items).unwrap();
    assert_eq!(records.len(), 1);
    assert_eq!(dropped, 3);
}

#[test]
fn reconcile_fails_when_nothing_valid_remains() {
    let items = vec![bare_item(None, Some("a")), bare_item(Some("http://e/x.mp3"), None)];
    let err = reconcile(&items).unwrap_err();
    assert_eq!(
        err,
        RustcastError::Rss(RssError::ParseFailed(
            "No valid episodes found in feed".to_string()
        ))
    );
}

#[test]
fn reconcile_fails_on_empty_batch() {
    let items: Vec<RawFeedItem> = Vec::new();
    assert!(reconcile(&items).is_err());
}
