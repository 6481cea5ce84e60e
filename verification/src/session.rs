//! The playback coordinator: the state machine owning which episode is
//! current and whether it plays, the in-memory cache of saved positions,
//! and the transitions that emit player commands and worker requests.
//!
//! Episodes are compared by link, the stable identity that survives the
//! wholesale replacement of the episode table on refresh. A save or load is
//! attempted only with a non-empty link; otherwise the operation is
//! abandoned and reported, never attempted with an invalid key.

use vstd::prelude::*;
use vstd::string::StringExecFns;

use crate::bridge::AsyncAction;
use crate::error::{RustcastError, UiError};
use crate::store::{EpisodeRow, PodcastRow};
use crate::text::str_eq;

verus! {

/// The state of the opaque audio player.
#[derive(Debug, Clone, Copy, PartialEq, Eq, Structural)]
pub enum PlayerState {
    /// Freshly opened, nothing selected yet.
    Open,
    Playing,
    Paused,
}

/// A command for the opaque audio player, carried out by the UI thread.
#[derive(Debug, PartialEq)]
pub enum PlayerCommand {
    /// Open the media at this URL.
    OpenMedia(String),
    Play,
    Pause,
    /// Seek to this position, in milliseconds.
    Seek(u64),
}

/// The episode the session currently points at.
#[derive(Debug, PartialEq)]
pub struct CurrentEpisode {
    pub title: String,
    pub link: String,
}

/// The text fields of the add-podcast dialog.
#[derive(Debug, PartialEq, Clone)]
pub struct PodcastDialog {
    pub title: String,
    pub link: String,
    pub description: String,
}

impl Default for PodcastDialog {
    /// An empty dialog.
    fn default() -> (r: Self)
        ensures
            r.title@.len() == 0 && r.link@.len() == 0 && r.description@.len() == 0,
    {
        PodcastDialog { title: String::new(), link: String::new(), description: String::new() }
    }
}

/// Whether some cache entry carries this link.
pub open spec fn cache_has(entries: Seq<(Seq<char>, u64)>, link: Seq<char>) -> bool {
    exists|j: int| 0 <= j < entries.len() && entries[j].0 == link
}

/// The index of the entry carrying this link (meaningful under
/// `cache_has`).
pub open spec fn cache_index(entries: Seq<(Seq<char>, u64)>, link: Seq<char>) -> int {
    choose|j: int| 0 <= j < entries.len() && entries[j].0 == link
}

/// At most one cache entry per link.
pub open spec fn cache_wf(entries: Seq<(Seq<char>, u64)>) -> bool {
    forall|i: int, j: int| 0 <= i < j < entries.len() ==> entries[i].0 != entries[j].0
}

/// What a cache write does: overwrite the entry with this link, or append
/// one.
pub open spec fn spec_cache_set(
    entries: Seq<(Seq<char>, u64)>,
    link: Seq<char>,
    elapsed_ms: u64,
) -> Seq<(Seq<char>, u64)> {
    if cache_has(entries, link) {
        entries.update(cache_index(entries, link), (link, elapsed_ms))
    } else {
        entries.push((link, elapsed_ms))
    }
}

/// What a cache read returns.
pub open spec fn spec_cache_get(entries: Seq<(Seq<char>, u64)>, link: Seq<char>) -> Option<u64> {
    if cache_has(entries, link) {
        Some(entries[cache_index(entries, link)].1)
    } else {
        None
    }
}

/// The cumulative effect of writing a list of pairs into an empty cache,
/// first pair first.
pub open spec fn spec_cache_load(pairs: Seq<(Seq<char>, u64)>) -> Seq<(Seq<char>, u64)>
    decreases pairs.len(),
{
    if pairs.len() == 0 {
        Seq::empty()
    } else {
        spec_cache_set(spec_cache_load(pairs.drop_last()), pairs.last().0, pairs.last().1)
    }
}

/// The in-memory map from episode link to last known elapsed milliseconds,
/// kept for immediate display while the durable write is in flight.
pub struct StateCache {
    entries: Vec<(String, u64)>,
}

impl StateCache {
    /// The cached `(link, elapsed)` pairs.
    pub closed spec fn view(self) -> Seq<(Seq<char>, u64)> {
        self.entries@.map_values(|p: (String, u64)| (p.0@, p.1))
    }

    /// Uniqueness of the cached links.
    pub closed spec fn wf(self) -> bool {
        cache_wf(self@)
    }

    /// What well-formedness guarantees: at most one entry per link.
    pub proof fn lemma_wf_unique(self)
        requires
            self.wf(),
        ensures
            cache_wf(self@),
    {
    }

    /// An empty cache.
    pub fn new() -> (r: StateCache)
        ensures
            r.wf(),
            r@ == Seq::<(Seq<char>, u64)>::empty(),
    {
        let r = StateCache { entries: Vec::new() };
        proof {
            assert(r@ =~= Seq::<(Seq<char>, u64)>::empty());
        }
        r
    }

    /// Remember the elapsed time for a link, overwriting any earlier value.
    pub fn set(&mut self, link: &str, elapsed_ms: u64)
        requires
            old(self).wf(),
        ensures
            final(self).wf(),
            final(self)@ == spec_cache_set(old(self)@, link@, elapsed_ms),
    {
        let ghost entries = self@;
        let mut i: usize = 0;
        while i < self.entries.len()
            invariant
                i <= self.entries.len(),
                *self == *old(self),
                old(self).wf(),
                entries == old(self)@,
                cache_wf(entries),
                self.entries@.map_values(|p: (String, u64)| (p.0@, p.1)) == entries,
                forall|j: int| 0 <= j < i ==> entries[j].0 != link@,
            decreases self.entries.len() - i,
        {
            if str_eq(self.entries[i].0.as_str(), link) {
                proof {
                    assert(entries[i as int].0 == link@);
                    assert(cache_has(entries, link@));
                    let j = cache_index(entries, link@);
                    assert(0 <= j < entries.len() && entries[j].0 == link@);
                    if j != i as int {
                        assert(entries[j].0 != entries[i as int].0);
                    }
                }
                self.entries[i].1 = elapsed_ms;
                proof {
                    assert(self@ =~= spec_cache_set(entries, link@, elapsed_ms));
                    assert forall|a: int, b: int| 0 <= a < b < self@.len() implies self@[a].0
                        != self@[b].0 by {
                        assert(self@[a].0 == entries[a].0);
                        assert(self@[b].0 == entries[b].0);
                    }
                }
                return ;
            }
            i = i + 1;
        }
        proof {
            assert(!cache_has(entries, link@));
        }
        self.entries.push((String::from_str(link), elapsed_ms));
        proof {
            assert(self@ =~= spec_cache_set(entries, link@, elapsed_ms));
            assert forall|a: int, b: int| 0 <= a < b < self@.len() implies self@[a].0
                != self@[b].0 by {
                assert(self@[a].0 == entries[a].0);
                if b < entries.len() {
                    assert(self@[b].0 == entries[b].0);
                } else {
                    assert(self@[b].0 == link@);
                }
            }
        }
    }

    /// The remembered elapsed time for a link, if any.
    pub fn get(&self, link: &str) -> (r: Option<u64>)
        requires
            self.wf(),
        ensures
            r == spec_cache_get(self@, link@),
    {
        let ghost entries = self@;
        let mut i: usize = 0;
        while i < self.entries.len()
            invariant
                i <= self.entries.len(),
                entries == self@,
                cache_wf(entries),
                self.entries@.map_values(|p: (String, u64)| (p.0@, p.1)) == entries,
                forall|j: int| 0 <= j < i ==> entries[j].0 != link@,
            decreases self.entries.len() - i,
        {
            if str_eq(self.entries[i].0.as_str(), link) {
                proof {
                    assert(entries[i as int].0 == link@);
                    assert(cache_has(entries, link@));
                    let j = cache_index(entries, link@);
                    assert(0 <= j < entries.len() && entries[j].0 == link@);
                    if j != i as int {
                        assert(entries[j].0 != entries[i as int].0);
                    }
                }
                return Some(self.entries[i].1);
            }
            i = i + 1;
        }
        proof {
            assert(!cache_has(entries, link@));
        }
        None
    }
}

/// What one transition asks of the outside: commands for the player,
/// requests for the worker, and at most one user-facing notice.
#[derive(Debug)]
pub struct TransitionEffect {
    pub player: Vec<PlayerCommand>,
    pub requests: Vec<AsyncAction>,
    pub notice: Option<RustcastError>,
}

/// Whether the episode with this link is the one currently selected.
pub open spec fn same_episode(cur: Option<CurrentEpisode>, link: Seq<char>) -> bool {
    cur matches Some(c) && c.link@ == link
}

/// The playback session: owned by the UI thread, mutated only through the
/// transitions below.
pub struct PlaybackSession {
    pub podcast_id: Option<i64>,
    pub current_episode: Option<CurrentEpisode>,
    pub state: PlayerState,
    pub cache: StateCache,
    pub last_save_ms: u64,
}

impl PlaybackSession {
    /// The session's invariant: the cache keys are unique.
    pub open spec fn wf(self) -> bool {
        self.cache.wf()
    }

    /// A fresh session: nothing selected, player paused, empty cache.
    pub fn new() -> (r: PlaybackSession)
        ensures
            r.wf(),
            r.podcast_id is None,
            r.current_episode is None,
            r.state == PlayerState::Paused,
            r.cache@ == Seq::<(Seq<char>, u64)>::empty(),
            r.last_save_ms == 0,
    {
        PlaybackSession {
            podcast_id: None,
            current_episode: None,
            state: PlayerState::Paused,
            cache: StateCache::new(),
            last_save_ms: 0,
        }
    }

    /// Select a podcast: with complete data the session points at it and
    /// asks the worker for its episodes and saved states; with incomplete
    /// data nothing changes and the user is told.
    pub fn select_podcast(&mut self, podcast: &PodcastRow) -> (eff: TransitionEffect)
        requires
            old(self).wf(),
        ensures
            final(self).wf(),
            eff.player@.len() == 0,
            ({
                let complete = podcast@.title is Some && podcast@.link is Some
                    && podcast@.description is Some;
                &&& complete ==> {
                    &&& final(self).podcast_id == Some(podcast.id)
                    &&& final(self).current_episode == old(self).current_episode
                    &&& final(self).state == old(self).state
                    &&& final(self).cache == old(self).cache
                    &&& final(self).last_save_ms == old(self).last_save_ms
                    &&& eff.notice is None
                    &&& eff.requests@.len() == 2
                    &&& (eff.requests@[0] matches AsyncAction::GetEpisodes(l, p) && l@
                        == podcast@.link.unwrap() && p == podcast.id)
                    &&& (eff.requests@[1] matches AsyncAction::GetAllEpisodeStates(p) && p
                        == podcast.id)
                }
                &&& !complete ==> {
                    &&& *final(self) == *old(self)
                    &&& eff.requests@.len() == 0
                    &&& (eff.notice matches Some(e) && e matches RustcastError::Ui(
                        UiError::InvalidState(m),
                    ) && m@ == "This podcast has incomplete data and cannot be loaded."@)
                }
            }),
    {
        let mut requests: Vec<AsyncAction> = Vec::new();
        match (&podcast.title, &podcast.link, &podcast.description) {
            (Some(_), Some(link), Some(_)) => {
                requests.push(AsyncAction::GetEpisodes(link.clone(), podcast.id));
                requests.push(AsyncAction::GetAllEpisodeStates(podcast.id));
                self.podcast_id = Some(podcast.id);
                TransitionEffect { player: Vec::new(), requests, notice: None }
            },
            _ => TransitionEffect {
                player: Vec::new(),
                requests,
                notice: Some(
                    RustcastError::ui_invalid_state(
                        "This podcast has incomplete data and cannot be loaded.",
                    ),
                ),
            },
        }
    }

    /// Select an episode. Selecting the episode already current while
    /// paused resumes in place, with no request to the worker. Selecting a
    /// different episode first asks the worker to save the previous
    /// episode's position, then to load the new episode's saved state —
    /// exactly in that order.
    pub fn select_episode(&mut self, episode: &EpisodeRow, position_ms: u64) -> (eff:
        TransitionEffect)
        requires
            old(self).wf(),
        ensures
            final(self).wf(),
            final(self).podcast_id == old(self).podcast_id,
            final(self).last_save_ms == old(self).last_save_ms,
            ({
                let resumed = same_episode(old(self).current_episode, episode.link@)
                    && old(self).state == PlayerState::Paused;
                let must_save = !resumed && old(self).podcast_id is Some && (old(
                    self,
                ).current_episode matches Some(c) && c.link@.len() > 0);
                &&& resumed ==> {
                    &&& final(self).state == PlayerState::Playing
                    &&& final(self).current_episode == old(self).current_episode
                    &&& final(self).cache == old(self).cache
                    &&& eff.player@ == seq![PlayerCommand::Play]
                    &&& eff.requests@.len() == 0
                    &&& eff.notice is None
                }
                &&& !resumed ==> {
                    &&& final(self).state == old(self).state
                    &&& (final(self).current_episode matches Some(n) && n.link@ == episode.link@
                        && n.title@ == episode.title@)
                    &&& eff.player@.len() == 0
                    &&& (must_save ==> {
                        let c = old(self).current_episode.unwrap();
                        &&& final(self).cache@ == spec_cache_set(
                            old(self).cache@,
                            c.link@,
                            position_ms,
                        )
                        &&& eff.requests@.len() == (if episode.link@.len() > 0 {
                            2int
                        } else {
                            1int
                        })
                        &&& (eff.requests@[0] matches AsyncAction::SaveEpisodeState(e, p, l) && e
                            == position_ms && p == old(self).podcast_id.unwrap() && l@ == c.link@)
                        &&& (episode.link@.len() > 0 ==> (eff.requests@[1]
                            matches AsyncAction::LoadEpisodeState(l) && l@ == episode.link@))
                    })
                    &&& (!must_save ==> {
                        &&& final(self).cache == old(self).cache
                        &&& eff.requests@.len() == (if episode.link@.len() > 0 {
                            1int
                        } else {
                            0int
                        })
                        &&& (episode.link@.len() > 0 ==> (eff.requests@[0]
                            matches AsyncAction::LoadEpisodeState(l) && l@ == episode.link@))
                    })
                    &&& (episode.link@.len() > 0 ==> eff.notice is None)
                    &&& (episode.link@.len() == 0 ==> (eff.notice matches Some(e) && e
                        matches RustcastError::Ui(UiError::InvalidState(m)) && m@
                        == "episode link is missing"@))
                }
            }),
    {
        let mut requests: Vec<AsyncAction> = Vec::new();
        let same = match &self.current_episode {
            Some(c) => str_eq(c.link.as_str(), episode.link.as_str()),
            None => false,
        };
        if same && self.state == PlayerState::Paused {
            self.state = PlayerState::Playing;
            let mut player: Vec<PlayerCommand> = Vec::new();
            player.push(PlayerCommand::Play);
            proof {
                assert(player@ =~= seq![PlayerCommand::Play]);
            }
            return TransitionEffect { player, requests, notice: None };
        }
        if let Some(pid) = self.podcast_id {
            let prev_link = match &self.current_episode {
                Some(c) => {
                    if c.link.as_str().is_empty() {
                        None
                    } else {
                        Some(c.link.clone())
                    }
                },
                None => None,
            };
            if let Some(prev) = prev_link {
                self.cache.set(prev.as_str(), position_ms);
                requests.push(AsyncAction::SaveEpisodeState(position_ms, pid, prev));
            }
        }
        self.current_episode = Some(
            CurrentEpisode { title: episode.title.clone(), link: episode.link.clone() },
        );
        let notice = if episode.link.as_str().is_empty() {
            Some(RustcastError::ui_invalid_state("episode link is missing"))
        } else {
            requests.push(AsyncAction::LoadEpisodeState(episode.link.clone()));
            None
        };
        TransitionEffect { player: Vec::new(), requests, notice }
    }

    /// Pause playback: the player pauses and the state becomes `Paused`
    /// whatever else holds; the position is cached and a save requested
    /// only when podcast, episode and link are all present, otherwise the
    /// incomplete data is reported without rolling back the pause.
    pub fn pause(&mut self, position_ms: u64) -> (eff: TransitionEffect)
        requires
            old(self).wf(),
        ensures
            final(self).wf(),
            old(self).state != PlayerState::Playing ==> (*final(self) == *old(self)
                && eff.player@.len() == 0 && eff.requests@.len() == 0 && eff.notice is None),
            old(self).state == PlayerState::Playing ==> {
                let complete = old(self).podcast_id is Some && (old(self).current_episode
                    matches Some(c) && c.link@.len() > 0);
                &&& final(self).state == PlayerState::Paused
                &&& final(self).podcast_id == old(self).podcast_id
                &&& final(self).current_episode == old(self).current_episode
                &&& final(self).last_save_ms == old(self).last_save_ms
                &&& eff.player@ == seq![PlayerCommand::Pause]
                &&& (complete ==> {
                    let c = old(self).current_episode.unwrap();
                    &&& final(self).cache@ == spec_cache_set(
                        old(self).cache@,
                        c.link@,
                        position_ms,
                    )
                    &&& eff.requests@.len() == 1
                    &&& (eff.requests@[0] matches AsyncAction::SaveEpisodeState(e, p, l) && e
                        == position_ms && p == old(self).podcast_id.unwrap() && l@ == c.link@)
                    &&& eff.notice is None
                })
                &&& (!complete ==> {
                    &&& final(self).cache == old(self).cache
                    &&& eff.requests@.len() == 0
                    &&& (eff.notice matches Some(e) && e matches RustcastError::Ui(
                        UiError::InvalidState(m),
                    ) && m@ == "episode data incomplete"@)
                })
            },
    {
        if !matches!(self.state, PlayerState::Playing) {
            return TransitionEffect { player: Vec::new(), requests: Vec::new(), notice: None };
        }
        self.state = PlayerState::Paused;
        let mut player: Vec<PlayerCommand> = Vec::new();
        player.push(PlayerCommand::Pause);
        proof {
            assert(player@ =~= seq![PlayerCommand::Pause]);
        }
        let mut requests: Vec<AsyncAction> = Vec::new();
        let mut notice: Option<RustcastError> = None;
        let mut saved = false;
        if let Some(pid) = self.podcast_id {
            let link = match &self.current_episode {
                Some(c) => {
                    if c.link.as_str().is_empty() {
                        None
                    } else {
                        Some(c.link.clone())
                    }
                },
                None => None,
            };
            if let Some(l) = link {
                self.cache.set(l.as_str(), position_ms);
                requests.push(AsyncAction::SaveEpisodeState(position_ms, pid, l));
                saved = true;
            }
        }
        if !saved {
            notice = Some(RustcastError::ui_invalid_state("episode data incomplete"));
        }
        TransitionEffect { player, requests, notice }
    }

    /// Resume playback while paused with an episode current: the player
    /// continues from its position, nothing is reloaded and nothing is
    /// asked of the worker. In any other state nothing happens.
    pub fn play(&mut self) -> (eff: TransitionEffect)
        requires
            old(self).wf(),
        ensures
            final(self).wf(),
            eff.requests@.len() == 0,
            eff.notice is None,
            ({
                let resumes = old(self).state == PlayerState::Paused && old(self).current_episode
                    is Some;
                &&& resumes ==> {
                    &&& final(self).state == PlayerState::Playing
                    &&& final(self).podcast_id == old(self).podcast_id
                    &&& final(self).current_episode == old(self).current_episode
                    &&& final(self).cache == old(self).cache
                    &&& final(self).last_save_ms == old(self).last_save_ms
                    &&& eff.player@ == seq![PlayerCommand::Play]
                }
                &&& !resumes ==> (*final(self) == *old(self) && eff.player@.len() == 0)
            }),
    {
        if matches!(self.state, PlayerState::Paused) && self.current_episode.is_some() {
            self.state = PlayerState::Playing;
            let mut player: Vec<PlayerCommand> = Vec::new();
            player.push(PlayerCommand::Play);
            proof {
                assert(player@ =~= seq![PlayerCommand::Play]);
            }
            TransitionEffect { player, requests: Vec::new(), notice: None }
        } else {
            TransitionEffect { player: Vec::new(), requests: Vec::new(), notice: None }
        }
    }

    /// The periodic autosave: while playing, once five seconds have passed
    /// since the last save and podcast, episode and link are present, the
    /// position is cached and a save requested; otherwise nothing happens.
    pub fn tick(&mut self, now_ms: u64, position_ms: u64) -> (eff: TransitionEffect)
        requires
            old(self).wf(),
        ensures
            final(self).wf(),
            eff.player@.len() == 0,
            eff.notice is None,
            ({
                let due = old(self).state == PlayerState::Playing && now_ms as int >= old(
                    self,
                ).last_save_ms as int + 5000;
                let complete = old(self).podcast_id is Some && (old(self).current_episode
                    matches Some(c) && c.link@.len() > 0);
                &&& (due && complete) ==> {
                    let c = old(self).current_episode.unwrap();
                    &&& final(self).cache@ == spec_cache_set(
                        old(self).cache@,
                        c.link@,
                        position_ms,
                    )
                    &&& final(self).last_save_ms == now_ms
                    &&& final(self).state == old(self).state
                    &&& final(self).podcast_id == old(self).podcast_id
                    &&& final(self).current_episode == old(self).current_episode
                    &&& eff.requests@.len() == 1
                    &&& (eff.requests@[0] matches AsyncAction::SaveEpisodeState(e, p, l) && e
                        == position_ms && p == old(self).podcast_id.unwrap() && l@ == c.link@)
                }
                &&& !(due && complete) ==> (*final(self) == *old(self) && eff.requests@.len()
                    == 0)
            }),
    {
        let mut requests: Vec<AsyncAction> = Vec::new();
        if matches!(self.state, PlayerState::Playing) && now_ms >= self.last_save_ms && now_ms
            - self.last_save_ms >= 5000 {
            if let Some(pid) = self.podcast_id {
                let link = match &self.current_episode {
                    Some(c) => {
                        if c.link.as_str().is_empty() {
                            None
                        } else {
                            Some(c.link.clone())
                        }
                    },
                    None => None,
                };
                if let Some(l) = link {
                    self.cache.set(l.as_str(), position_ms);
                    requests.push(AsyncAction::SaveEpisodeState(position_ms, pid, l));
                    self.last_save_ms = now_ms;
                }
            }
        }
        TransitionEffect { player: Vec::new(), requests, notice: None }
    }

    /// Apply the worker's answer to a load-state request: a result for an
    /// episode that is no longer current is discarded; for the current one
    /// the player opens the media, seeks to the saved position and plays.
    pub fn apply_load_result(&mut self, link: &str, elapsed_ms: u64) -> (eff: TransitionEffect)
        requires
            old(self).wf(),
        ensures
            final(self).wf(),
            eff.requests@.len() == 0,
            old(self).current_episode is None ==> (*final(self) == *old(self) && eff.player@.len()
                == 0 && (eff.notice matches Some(e) && e matches RustcastError::Ui(
                UiError::InvalidState(m),
            ) && m@ == "No episode selected for playback."@)),
            (old(self).current_episode matches Some(c) && c.link@.len() == 0) ==> (*final(self)
                == *old(self) && eff.player@.len() == 0 && (eff.notice matches Some(e) && e
                matches RustcastError::Ui(UiError::InvalidState(m)) && m@
                == "Episode link is missing or invalid."@)),
            (old(self).current_episode matches Some(c) && c.link@.len() > 0 && c.link@ != link@)
                ==> (*final(self) == *old(self) && eff.player@.len() == 0 && eff.notice is None),
            (old(self).current_episode matches Some(c) && c.link@.len() > 0 && c.link@ == link@)
                ==> {
                &&& final(self).state == PlayerState::Playing
                &&& final(self).podcast_id == old(self).podcast_id
                &&& final(self).current_episode == old(self).current_episode
                &&& final(self).cache == old(self).cache
                &&& final(self).last_save_ms == old(self).last_save_ms
                &&& eff.notice is None
                &&& eff.player@.len() == 3
                &&& (eff.player@[0] matches PlayerCommand::OpenMedia(l) && l@ == link@)
                &&& eff.player@[1] == PlayerCommand::Seek(elapsed_ms)
                &&& eff.player@[2] == PlayerCommand::Play
            },
    {
        let cur_link = match &self.current_episode {
            Some(c) => {
                if c.link.as_str().is_empty() {
                    return TransitionEffect {
                        player: Vec::new(),
                        requests: Vec::new(),
                        notice: Some(
                            RustcastError::ui_invalid_state("Episode link is missing or invalid."),
                        ),
                    };
                }
                c.link.clone()
            },
            None => {
                return TransitionEffect {
                    player: Vec::new(),
                    requests: Vec::new(),
                    notice: Some(
                        RustcastError::ui_invalid_state("No episode selected for playback."),
                    ),
                };
            },
        };
        if !str_eq(cur_link.as_str(), link) {
            return TransitionEffect { player: Vec::new(), requests: Vec::new(), notice: None };
        }
        self.state = PlayerState::Playing;
        let mut player: Vec<PlayerCommand> = Vec::new();
        player.push(PlayerCommand::OpenMedia(String::from_str(link)));
        player.push(PlayerCommand::Seek(elapsed_ms));
        player.push(PlayerCommand::Play);
        TransitionEffect { player, requests: Vec::new(), notice: None }
    }

    /// Replace the cache wholesale with the pairs the worker read from the
    /// store, first pair first.
    pub fn apply_states_update(&mut self, states: &Vec<(String, u64)>)
        requires
            old(self).wf(),
        ensures
            final(self).wf(),
            final(self).cache@ == spec_cache_load(
                states@.map_values(|p: (String, u64)| (p.0@, p.1)),
            ),
            final(self).podcast_id == old(self).podcast_id,
            final(self).current_episode == old(self).current_episode,
            final(self).state == old(self).state,
            final(self).last_save_ms == old(self).last_save_ms,
    {
        let ghost pairs = states@.map_values(|p: (String, u64)| (p.0@, p.1));
        let mut cache = StateCache::new();
        let mut i: usize = 0;
        while i < states.len()
            invariant
                i <= states.len(),
                pairs == states@.map_values(|p: (String, u64)| (p.0@, p.1)),
                cache.wf(),
                cache@ == spec_cache_load(pairs.take(i as int)),
            decreases states.len() - i,
        {
            proof {
                assert(pairs.take(i + 1).drop_last() =~= pairs.take(i as int));
                assert(pairs.take(i + 1).last() == pairs[i as int]);
            }
            cache.set(states[i].0.as_str(), states[i].1);
            i = i + 1;
        }
        proof {
            assert(pairs.take(i as int) =~= pairs);
        }
        self.cache = cache;
    }

    /// The cached position for a link, for display.
    pub fn saved_elapsed(&self, link: &str) -> (r: Option<u64>)
        requires
            self.wf(),
        ensures
            r == spec_cache_get(self.cache@, link@),
    {
        self.cache.get(link)
    }

    /// The best-effort final save on shutdown: owed exactly when the player
    /// was started and podcast, episode and link are present.
    pub fn shutdown(&self, position_ms: u64) -> (r: Option<AsyncAction>)
        ensures
            ({
                let wants_save = (self.state == PlayerState::Playing || self.state
                    == PlayerState::Paused) && self.podcast_id is Some && (self.current_episode
                    matches Some(c) && c.link@.len() > 0);
                &&& wants_save ==> (r matches Some(a) && a matches AsyncAction::SaveEpisodeState(
                    e,
                    p,
                    l,
                ) && e == position_ms && p == self.podcast_id.unwrap() && l@
                    == self.current_episode.unwrap().link@)
                &&& !wants_save ==> r is None
            }),
    {
        if matches!(self.state, PlayerState::Playing) || matches!(self.state, PlayerState::Paused) {
            if let Some(pid) = self.podcast_id {
                if let Some(c) = &self.current_episode {
                    if !c.link.as_str().is_empty() {
                        return Some(
                            AsyncAction::SaveEpisodeState(position_ms, pid, c.link.clone()),
                        );
                    }
                }
            }
        }
        None
    }
}

} // verus!
