use rustcast::bridge::{AsyncAction, Fifo};
use rustcast::error::{RustcastError, UiError};
use rustcast::session::{PlaybackSession, PlayerCommand, PlayerState, PodcastDialog};
use rustcast::store::{EpisodeRow, PodcastRow};

fn episode(id: i64, link: &str, title: &str) -> EpisodeRow {
    EpisodeRow {
        id,
        podcast_id: 1,
        title: title.to_string(),
        link: link.to_string(),
        description: "d".to_string(),
        guid: "g".to_string(),
        pub_date: "Unknown".to_string(),
    }
}

fn playing_session(link: &str) -> PlaybackSession {
    let mut session = PlaybackSession::new();
    session.podcast_id = Some(1);
    let eff = session.select_episode(&episode(1, link, "Ep"), 0);
    assert_eq!(eff.requests.len(), 1);
    let eff = session.apply_load_result(link, 0);
    assert_eq!(eff.player.len(), 3);
    assert_eq!(session.state, PlayerState::Playing);
    session
}

#[test]
fn select_new_episode_requests_load() {
    let mut session = PlaybackSession::new();
    session.podcast_id = Some(1);
    let eff = session.select_episode(&episode(1, "http://e/a.mp3", "A"), 0);
    assert_eq!(
        eff.requests,
        vec![AsyncAction::LoadEpisodeState("http://e/a.mp3".to_string())]
    );
    assert!(eff.player.is_empty());
    assert!(eff.notice.is_none());
}

#[test]
fn select_same_paused_episode_resumes_without_reload() {
    let mut session = playing_session("http://e/a.mp3");
    let eff = session.pause(7_000);
    assert_eq!(eff.player, vec![PlayerCommand::Pause]);
    assert_eq!(session.state, PlayerState::Paused);
    let eff = session.select_episode(&episode(1, "http://e/a.mp3", "A"), 7_000);
    assert!(eff.requests.is_empty());
    assert_eq!(eff.player, vec![PlayerCommand::Play]);
    assert_eq!(session.state, PlayerState::Playing);
}

#[test]
fn select_different_episode_saves_then_loads() {
    let mut session = playing_session("http://e/b.mp3");
    let eff = session.select_episode(&episode(2, "http://e/a.mp3", "A"), 30_000);
    assert_eq!(
        eff.requests,
        vec![
            AsyncAction::SaveEpisodeState(30_000, 1, "http://e/b.mp3".to_string()),
            AsyncAction::LoadEpisodeState("http://e/a.mp3".to_string()),
        ]
    );
    assert!(eff.notice.is_none());
    assert_eq!(session.saved_elapsed("http://e/b.mp3"), Some(30_000));
}

#[test]
fn select_episode_without_link_reports() {
    let mut session = PlaybackSession::new();
    session.podcast_id = Some(1);
    let eff = session.select_episode(&episode(1, "", "Broken"), 0);
    assert!(eff.requests.is_empty());
    assert!(matches!(
        eff.notice,
        Some(RustcastError::Ui(UiError::InvalidState(_)))
    ));
}

#[test]
fn pause_while_playing_saves_position() {
    let mut session = playing_session("http://e/a.mp3");
    let eff = session.pause(12_500);
    assert_eq!(eff.player, vec![PlayerCommand::Pause]);
    assert_eq!(
        eff.requests,
        vec![AsyncAction::SaveEpisodeState(12_500, 1, "http://e/a.mp3".to_string())]
    );
    assert_eq!(session.state, PlayerState::Paused);
    assert_eq!(session.saved_elapsed("http://e/a.mp3"), Some(12_500));
}

#[test]
fn pause_when_not_playing_is_a_no_op() {
    let mut session = PlaybackSession::new();
    let eff = session.pause(1_000);
    assert!(eff.player.is_empty());
    assert!(eff.requests.is_empty());
    assert!(eff.notice.is_none());
    assert_eq!(session.state, PlayerState::Paused);
}

#[test]
fn pause_without_episode_still_pauses_but_reports() {
    let mut session = PlaybackSession::new();
    session.state = PlayerState::Playing;
    let eff = session.pause(1_000);
    assert_eq!(eff.player, vec![PlayerCommand::Pause]);
    assert!(eff.requests.is_empty());
    assert!(matches!(
        eff.notice,
        Some(RustcastError::Ui(UiError::InvalidState(_)))
    ));
    assert_eq!(session.state, PlayerState::Paused);
}

#[test]
fn play_resumes_only_while_paused_with_episode() {
    let mut session = playing_session("http://e/a.mp3");
    session.pause(5_000);
    let eff = session.play();
    assert_eq!(eff.player, vec![PlayerCommand::Play]);
    assert_eq!(session.state, PlayerState::Playing);
    let mut empty = PlaybackSession::new();
    let eff = empty.play();
    assert!(eff.player.is_empty());
    assert_eq!(empty.state, PlayerState::Paused);
}

#[test]
fn tick_autosaves_after_interval() {
    let mut session = playing_session("http://e/a.mp3");
    let eff = session.tick(5_000, 4_800);
    assert_eq!(
        eff.requests,
        vec![AsyncAction::SaveEpisodeState(4_800, 1, "http://e/a.mp3".to_string())]
    );
    assert_eq!(session.last_save_ms, 5_000);
    assert_eq!(session.saved_elapsed("http://e/a.mp3"), Some(4_800));
}

#[test]
fn tick_does_nothing_before_interval() {
    let mut session = playing_session("http://e/a.mp3");
    session.last_save_ms = 2_000;
    let eff = session.tick(6_999, 4_800);
    assert!(eff.requests.is_empty());
    assert_eq!(session.last_save_ms, 2_000);
}

#[test]
fn tick_does_nothing_while_paused() {
    let mut session = playing_session("http://e/a.mp3");
    session.pause(1_000);
    let eff = session.tick(60_000, 2_000);
    assert!(eff.requests.is_empty());
}

#[test]
fn load_result_for_current_episode_opens_seeks_plays() {
    let mut session = PlaybackSession::new();
    session.podcast_id = Some(1);
    session.select_episode(&episode(1, "http://e/a.mp3", "A"), 0);
    let eff = session.apply_load_result("http://e/a.mp3", 42_000);
    assert_eq!(
        eff.player,
        vec![
            PlayerCommand::OpenMedia("http://e/a.mp3".to_string()),
            PlayerCommand::Seek(42_000),
            PlayerCommand::Play,
        ]
    );
    assert_eq!(session.state, PlayerState::Playing);
}

#[test]
fn stale_load_result_is_discarded() {
    let mut session = PlaybackSession::new();
    session.podcast_id = Some(1);
    session.select_episode(&episode(1, "http://e/a.mp3", "A"), 0);
    session.select_episode(&episode(2, "http://e/b.mp3", "B"), 0);
    let eff = session.apply_load_result("http://e/a.mp3", 42_000);
    assert!(eff.player.is_empty());
    assert!(eff.notice.is_none());
    assert_ne!(session.state, PlayerState::Playing);
}

#[test]
fn load_result_without_episode_reports() {
    let mut session = PlaybackSession::new();
    let eff = session.apply_load_result("http://e/a.mp3", 1_000);
    assert!(eff.player.is_empty());
    assert!(matches!(
        eff.notice,
        Some(RustcastError::Ui(UiError::InvalidState(_)))
    ));
}

#[test]
fn states_update_fills_the_cache() {
    let mut session = PlaybackSession::new();
    session.apply_states_update(&vec![
        ("a".to_string(), 10),
        ("b".to_string(), 20),
        ("a".to_string(), 30),
    ]);
    assert_eq!(session.saved_elapsed("a"), Some(30));
    assert_eq!(session.saved_elapsed("b"), Some(20));
    assert_eq!(session.saved_elapsed("c"), None);
}

#[test]
fn shutdown_emits_final_save() {
    let mut session = playing_session("http://e/a.mp3");
    let req = session.shutdown(9_000);
    assert_eq!(
        req,
        Some(AsyncAction::SaveEpisodeState(9_000, 1, "http://e/a.mp3".to_string()))
    );
    session.pause(9_000);
    assert!(session.shutdown(9_000).is_some());
}

#[test]
fn shutdown_without_episode_sends_nothing() {
    let session = PlaybackSession::new();
    assert!(session.shutdown(9_000).is_none());
}

#[test]
fn select_podcast_with_complete_data_requests_episodes_and_states() {
    let mut session = PlaybackSession::new();
    let podcast = PodcastRow {
        id: 4,
        title: Some("Show".to_string()),
        link: Some("http://example.com/rss".to_string()),
        description: Some("d".to_string()),
    };
    let eff = session.select_podcast(&podcast);
    assert_eq!(
        eff.requests,
        vec![
            AsyncAction::GetEpisodes("http://example.com/rss".to_string(), 4),
            AsyncAction::GetAllEpisodeStates(4),
        ]
    );
    assert_eq!(session.podcast_id, Some(4));
    assert!(eff.notice.is_none());
}

#[test]
fn select_podcast_with_incomplete_data_reports() {
    let mut session = PlaybackSession::new();
    let podcast = PodcastRow { id: 4, title: Some("Show".to_string()), link: None, description: None };
    let eff = session.select_podcast(&podcast);
    assert!(eff.requests.is_empty());
    assert!(matches!(
        eff.notice,
        Some(RustcastError::Ui(UiError::InvalidState(_)))
    ));
    assert_eq!(session.podcast_id, None);
}

#[test]
fn podcast_dialog_default_is_empty() {
    let dialog = PodcastDialog::default();
    assert_eq!(dialog.title, "".to_string());
    assert_eq!(dialog.link, "".to_string());
    assert_eq!(dialog.description, "".to_string());
}

#[test]
fn fifo_preserves_order_and_empties() {
    let mut queue: Fifo<AsyncAction> = Fifo::new();
    assert!(queue.poll().is_none());
    queue.push(AsyncAction::GetPodcasts);
    queue.push(AsyncAction::GetAllEpisodeStates(1));
    queue.push(AsyncAction::LoadEpisodeState("a".to_string()));
    assert_eq!(queue.len(), 3);
    assert_eq!(queue.poll(), Some(AsyncAction::GetPodcasts));
    assert_eq!(queue.poll(), Some(AsyncAction::GetAllEpisodeStates(1)));
    assert_eq!(queue.poll(), Some(AsyncAction::LoadEpisodeState("a".to_string())));
    assert!(queue.poll().is_none());
}
