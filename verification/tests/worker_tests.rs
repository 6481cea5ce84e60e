use rustcast::bridge::{AsyncAction, AsyncActionResult};
use rustcast::error::{NetworkError, RustcastError};
use rustcast::reconcile::EpisodeRecord;
use rustcast::store::Store;
use rustcast::worker::{handle_add_podcast, handle_refresh, handle_storage_action, refresh};

const FEED_XML: &str = r#"<?xml version="1.0" encoding="UTF-8"?>
<rss version="2.0"><channel><title>Show</title>
<item><title>Ep1</title><enclosure url="http://e/1.mp3" length="1" type="audio/mpeg"/></item>
<item><title>Ep2</title></item>
<item><title>Ep3</title><enclosure url="http://e/3.mp3" length="1" type="audio/mpeg"/></item>
</channel></rss>"#;

const ALL_INVALID_XML: &str = r#"<rss version="2.0"><channel><title>Show</title>
<item><title>NoEnclosure</title></item>
</channel></rss>"#;

fn seed_record(n: &str) -> EpisodeRecord {
    EpisodeRecord {
        title: format!("Old {}", n),
        link: format!("http://old/{}.mp3", n),
        description: "d".to_string(),
        guid: format!("g{}", n),
        pub_date: "Unknown".to_string(),
    }
}

fn seeded_store() -> Store {
    let mut store = Store::new();
    store.bulk_insert_episodes(&vec![seed_record("a"), seed_record("b")], 1).unwrap();
    store.bulk_insert_episodes(&vec![seed_record("z")], 2).unwrap();
    store
}

fn titles(rows: &[rustcast::store::EpisodeRow]) -> Vec<String> {
    rows.iter().map(|e| e.title.clone()).collect()
}

#[test]
fn refresh_success_replaces_and_returns_persisted_set() {
    let mut store = seeded_store();
    let (rows, failure) = refresh(&mut store, 1, Ok(FEED_XML.to_string()));
    assert!(failure.is_none());
    assert_eq!(titles(&rows), vec!["Ep1".to_string(), "Ep3".to_string()]);
    assert_eq!(titles(&store.list_episodes(1)), vec!["Ep1".to_string(), "Ep3".to_string()]);
    assert_eq!(titles(&store.list_episodes(2)), vec!["Old z".to_string()]);
}

#[test]
fn refresh_fetch_failure_preserves_prior_set() {
    let mut store = seeded_store();
    let before = titles(&store.list_episodes(1));
    let (rows, failure) = refresh(
        &mut store,
        1,
        Err(RustcastError::Network(NetworkError::RequestFailed("dns".to_string()))),
    );
    assert!(failure.is_some());
    assert_eq!(titles(&rows), before);
    assert_eq!(titles(&store.list_episodes(1)), before);
}

#[test]
fn refresh_server_unavailable_keeps_set_and_message_is_distinct() {
    let mut store = seeded_store();
    let before = titles(&store.list_episodes(1));
    let (rows, failure) = refresh(
        &mut store,
        1,
        Err(RustcastError::Network(NetworkError::ServerUnavailable)),
    );
    assert_eq!(titles(&rows), before);
    let unavailable_msg = failure.unwrap().user_friendly_message();
    let (_, empty_failure) = refresh(&mut store, 1, Ok("".to_string()));
    let empty_msg = empty_failure.unwrap().user_friendly_message();
    let (_, no_valid_failure) = refresh(&mut store, 1, Ok(ALL_INVALID_XML.to_string()));
    let no_valid_msg = no_valid_failure.unwrap().user_friendly_message();
    assert_ne!(unavailable_msg, empty_msg);
    assert_ne!(unavailable_msg, no_valid_msg);
}

#[test]
fn refresh_empty_body_degrades() {
    let mut store = seeded_store();
    let before = titles(&store.list_episodes(1));
    let (rows, failure) = refresh(&mut store, 1, Ok("".to_string()));
    assert!(failure.is_some());
    assert_eq!(titles(&rows), before);
    assert_eq!(titles(&store.list_episodes(1)), before);
}

#[test]
fn refresh_without_valid_episodes_degrades() {
    let mut store = seeded_store();
    let before = titles(&store.list_episodes(1));
    let (rows, failure) = refresh(&mut store, 1, Ok(ALL_INVALID_XML.to_string()));
    assert!(failure.is_some());
    assert_eq!(titles(&rows), before);
    assert_eq!(titles(&store.list_episodes(1)), before);
}

#[test]
fn handle_refresh_success_sends_one_update() {
    let mut store = seeded_store();
    let out = handle_refresh(&mut store, 1, Ok(FEED_XML.to_string()));
    assert_eq!(out.len(), 1);
    match &out[0] {
        AsyncActionResult::EpisodesUpdate(Some(rows)) => {
            assert_eq!(titles(rows), vec!["Ep1".to_string(), "Ep3".to_string()]);
        },
        other => panic!("unexpected message: {:?}", other),
    }
}

#[test]
fn handle_refresh_failure_sends_message_then_cached_set() {
    let mut store = seeded_store();
    let out = handle_refresh(
        &mut store,
        1,
        Err(RustcastError::Network(NetworkError::FeedNotFound)),
    );
    assert_eq!(out.len(), 2);
    assert!(matches!(&out[0], AsyncActionResult::UniversalResult(Some(_))));
    match &out[1] {
        AsyncActionResult::EpisodesUpdate(Some(rows)) => {
            assert_eq!(titles(rows), vec!["Old a".to_string(), "Old b".to_string()]);
        },
        other => panic!("unexpected message: {:?}", other),
    }
}

#[test]
fn refresh_empty_body_yields_invalid_feed_error() {
    let mut store = Store::new();
    let (_, failure) = refresh(&mut store, 1, Ok("".to_string()));
    assert_eq!(
        failure.unwrap(),
        RustcastError::Rss(rustcast::error::RssError::InvalidFeed(
            "Feed content is empty".to_string()
        ))
    );
}

#[test]
fn refresh_all_invalid_yields_no_valid_episodes_error() {
    let mut store = Store::new();
    let (_, failure) = refresh(&mut store, 1, Ok(ALL_INVALID_XML.to_string()));
    assert_eq!(
        failure.unwrap(),
        RustcastError::Rss(rustcast::error::RssError::ParseFailed(
            "No valid episodes found in feed".to_string()
        ))
    );
}

#[test]
fn handle_refresh_failure_message_is_the_users() {
    let mut store = Store::new();
    let out = handle_refresh(
        &mut store,
        1,
        Err(RustcastError::Network(NetworkError::FeedNotFound)),
    );
    assert_eq!(
        out[0],
        AsyncActionResult::UniversalResult(Some(
            "The podcast feed was not found on the server.".to_string()
        ))
    );
}

#[test]
fn handle_add_podcast_blank_title_message() {
    let mut store = Store::new();
    let out = handle_add_podcast(
        &mut store,
        "   ".to_string(),
        "http://example.com/rss".to_string(),
        "about".to_string(),
        Ok(FEED_XML.to_string()),
    );
    assert_eq!(
        out,
        vec![AsyncActionResult::AddPodcastResult(Some(
            "The podcast feed is missing required information: Podcast title cannot be empty"
                .to_string()
        ))]
    );
    assert!(store.list_podcasts().is_empty());
}

#[test]
fn handle_add_podcast_stores_after_validation() {
    let mut store = Store::new();
    let out = handle_add_podcast(
        &mut store,
        "Show".to_string(),
        "http://example.com/rss".to_string(),
        "about".to_string(),
        Ok(FEED_XML.to_string()),
    );
    assert_eq!(out, vec![AsyncActionResult::AddPodcastResult(None)]);
    let podcasts = store.list_podcasts();
    assert_eq!(podcasts.len(), 1);
    assert_eq!(podcasts[0].title, Some("Show".to_string()));
}

#[test]
fn handle_add_podcast_rejects_bad_data_without_storing() {
    let mut store = Store::new();
    let out = handle_add_podcast(
        &mut store,
        "".to_string(),
        "http://example.com/rss".to_string(),
        "about".to_string(),
        Ok(FEED_XML.to_string()),
    );
    assert!(matches!(&out[0], AsyncActionResult::AddPodcastResult(Some(_))));
    assert!(store.list_podcasts().is_empty());
}

#[test]
fn handle_add_podcast_rejects_unparsable_feed() {
    let mut store = Store::new();
    let out = handle_add_podcast(
        &mut store,
        "Show".to_string(),
        "http://example.com/rss".to_string(),
        "about".to_string(),
        Ok("not xml".to_string()),
    );
    assert!(matches!(&out[0], AsyncActionResult::AddPodcastResult(Some(_))));
    assert!(store.list_podcasts().is_empty());
}

#[test]
fn storage_save_is_silent_and_persists() {
    let mut store = Store::new();
    let out = handle_storage_action(
        &mut store,
        &AsyncAction::SaveEpisodeState(42_000, 5, "ep1".to_string()),
    );
    assert!(out.is_empty());
    assert_eq!(store.get_progress("ep1").unwrap().elapsed_ms, 42_000);
}

#[test]
fn storage_load_answers_saved_value() {
    let mut store = Store::new();
    store.upsert_progress("ep1", 5, 42_000);
    let out = handle_storage_action(&mut store, &AsyncAction::LoadEpisodeState("ep1".to_string()));
    assert_eq!(
        out,
        vec![AsyncActionResult::EpisodeStateUpdate("ep1".to_string(), 42_000)]
    );
}

#[test]
fn storage_load_answers_zero_when_never_played() {
    let mut store = Store::new();
    let out = handle_storage_action(&mut store, &AsyncAction::LoadEpisodeState("new".to_string()));
    assert_eq!(
        out,
        vec![AsyncActionResult::EpisodeStateUpdate("new".to_string(), 0)]
    );
}

#[test]
fn storage_get_all_states_projects_one_podcast() {
    let mut store = Store::new();
    store.upsert_progress("a", 1, 10);
    store.upsert_progress("b", 2, 20);
    let out = handle_storage_action(&mut store, &AsyncAction::GetAllEpisodeStates(1));
    assert_eq!(
        out,
        vec![AsyncActionResult::AllEpisodeStatesUpdate(Some(vec![("a".to_string(), 10)]))]
    );
}

#[test]
fn storage_get_podcasts_lists_all() {
    let mut store = Store::new();
    store
        .insert_podcast("A".to_string(), "http://a".to_string(), "d".to_string())
        .unwrap();
    let out = handle_storage_action(&mut store, &AsyncAction::GetPodcasts);
    match &out[0] {
        AsyncActionResult::PodcastsUpdate(Some(rows)) => {
            assert_eq!(rows.len(), 1);
            assert_eq!(rows[0].title, Some("A".to_string()));
        },
        other => panic!("unexpected message: {:?}", other),
    }
}
