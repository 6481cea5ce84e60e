//! The bridge between the single-threaded UI loop and the background
//! worker: the request and result messages the two sides exchange, and an
//! ordered queue that carries them without loss or reordering.

use vstd::prelude::*;

use crate::store::{EpisodeRow, PodcastRow};

verus! {

/// A request the UI side hands to the worker.
#[derive(Debug, PartialEq)]
pub enum AsyncAction {
    /// Validate and store a podcast: title, feed URL, description.
    AddPodcast(String, String, String),
    /// Read all stored podcasts.
    GetPodcasts,
    /// Refresh a podcast's episodes from its feed URL, then read them back.
    GetEpisodes(String, i64),
    /// Persist playback progress: elapsed milliseconds, podcast id, link.
    SaveEpisodeState(u64, i64, String),
    /// Read the saved progress for one episode link.
    LoadEpisodeState(String),
    /// Read every saved progress row of one podcast.
    GetAllEpisodeStates(i64),
}

/// A result the worker hands back to the UI side.
#[derive(Debug, PartialEq)]
pub enum AsyncActionResult {
    /// The stored podcasts, or nothing when reading them failed.
    PodcastsUpdate(Option<Vec<PodcastRow>>),
    /// The episodes now stored for the requested podcast.
    EpisodesUpdate(Option<Vec<EpisodeRow>>),
    /// An error message when adding a podcast failed; nothing on success.
    AddPodcastResult(Option<String>),
    /// An error message of no particular request.
    UniversalResult(Option<String>),
    /// The saved elapsed milliseconds for the episode with this link.
    EpisodeStateUpdate(String, u64),
    /// Every `(link, elapsed)` pair of the requested podcast.
    AllEpisodeStatesUpdate(Option<Vec<(String, u64)>>),
}

/// A first-in-first-out queue: what is pushed comes out in push order, one
/// element per poll, and nothing is lost.
pub struct Fifo<T> {
    items: Vec<T>,
}

impl<T> Fifo<T> {
    /// The queued elements, oldest first.
    pub closed spec fn view(self) -> Seq<T> {
        self.items@
    }

    /// An empty queue.
    pub fn new() -> (r: Fifo<T>)
        ensures
            r@ == Seq::<T>::empty(),
    {
        Fifo { items: Vec::new() }
    }

    /// How many elements are queued.
    pub fn len(&self) -> (r: usize)
        ensures
            r == self@.len(),
    {
        self.items.len()
    }

    /// Append an element at the back.
    pub fn push(&mut self, value: T)
        ensures
            final(self)@ == old(self)@.push(value),
    {
        self.items.push(value);
    }

    /// Remove and return the oldest element; nothing when the queue is
    /// empty.
    pub fn poll(&mut self) -> (r: Option<T>)
        ensures
            old(self)@.len() == 0 ==> r is None && final(self)@ == old(self)@,
            old(self)@.len() > 0 ==> (r matches Some(v) && v == old(self)@[0] && final(self)@
                == old(self)@.remove(0)),
    {
        if self.items.len() == 0 {
            None
        } else {
            Some(self.items.remove(0))
        }
    }
}

} // verus!
