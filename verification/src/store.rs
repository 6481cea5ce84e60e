//! The in-memory model of the relational store: podcast rows with assigned
//! ids, episode rows replaced wholesale on refresh, and progress rows keyed
//! uniquely by episode link with insert-or-update semantics.

use vstd::prelude::*;
use vstd::string::StringExecFns;

use crate::error::{DatabaseError, RustcastError, RustcastResult};
use crate::reconcile::{EpisodeRecord, RecordModel};
use crate::text::str_eq;

verus! {

/// A stored podcast. Fields other than the id are nullable, as in the
/// backing schema.
#[derive(Debug, PartialEq)]
pub struct PodcastRow {
    pub id: i64,
    pub title: Option<String>,
    pub link: Option<String>,
    pub description: Option<String>,
}

/// The mathematical value of a `PodcastRow`.
pub struct PodcastModel {
    pub id: int,
    pub title: Option<Seq<char>>,
    pub link: Option<Seq<char>>,
    pub description: Option<Seq<char>>,
}

impl View for PodcastRow {
    type V = PodcastModel;

    open spec fn view(&self) -> PodcastModel {
        PodcastModel {
            id: self.id as int,
            title: crate::feed::opt_chars(self.title),
            link: crate::feed::opt_chars(self.link),
            description: crate::feed::opt_chars(self.description),
        }
    }
}

impl Clone for PodcastRow {
    fn clone(&self) -> (r: Self)
        ensures
            r == *self,
    {
        PodcastRow {
            id: self.id,
            title: match &self.title {
                Some(t) => Some(t.clone()),
                None => None,
            },
            link: match &self.link {
                Some(l) => Some(l.clone()),
                None => None,
            },
            description: match &self.description {
                Some(d) => Some(d.clone()),
                None => None,
            },
        }
    }
}

/// A stored episode: a record plus its assigned id and owning podcast.
#[derive(Debug, PartialEq)]
pub struct EpisodeRow {
    pub id: i64,
    pub podcast_id: i64,
    pub title: String,
    pub link: String,
    pub description: String,
    pub guid: String,
    pub pub_date: String,
}

/// The mathematical value of an `EpisodeRow`.
pub struct EpisodeModel {
    pub id: int,
    pub podcast_id: int,
    pub title: Seq<char>,
    pub link: Seq<char>,
    pub description: Seq<char>,
    pub guid: Seq<char>,
    pub pub_date: Seq<char>,
}

impl View for EpisodeRow {
    type V = EpisodeModel;

    open spec fn view(&self) -> EpisodeModel {
        EpisodeModel {
            id: self.id as int,
            podcast_id: self.podcast_id as int,
            title: self.title@,
            link: self.link@,
            description: self.description@,
            guid: self.guid@,
            pub_date: self.pub_date@,
        }
    }
}

impl Clone for EpisodeRow {
    fn clone(&self) -> (r: Self)
        ensures
            r == *self,
    {
        EpisodeRow {
            id: self.id,
            podcast_id: self.podcast_id,
            title: self.title.clone(),
            link: self.link.clone(),
            description: self.description.clone(),
            guid: self.guid.clone(),
            pub_date: self.pub_date.clone(),
        }
    }
}

/// A stored progress row: playback position and finished flag for one
/// episode link.
#[derive(Debug, PartialEq)]
pub struct ProgressRow {
    pub podcast_id: i64,
    pub link: String,
    pub elapsed_ms: u64,
    pub finished: bool,
}

/// The mathematical value of a `ProgressRow`.
pub struct ProgressModel {
    pub podcast_id: int,
    pub link: Seq<char>,
    pub elapsed_ms: u64,
    pub finished: bool,
}

impl View for ProgressRow {
    type V = ProgressModel;

    open spec fn view(&self) -> ProgressModel {
        ProgressModel {
            podcast_id: self.podcast_id as int,
            link: self.link@,
            elapsed_ms: self.elapsed_ms,
            finished: self.finished,
        }
    }
}

/// Playback progress handed back to callers.
#[derive(Debug, Clone, Copy, PartialEq, Eq, Structural)]
pub struct Progress {
    pub elapsed_ms: u64,
    pub finished: bool,
}

/// Whether some row carries this link.
pub open spec fn pm_has(rows: Seq<ProgressModel>, link: Seq<char>) -> bool {
    exists|j: int| 0 <= j < rows.len() && rows[j].link == link
}

/// The index of the row carrying this link (meaningful under `pm_has`).
pub open spec fn pm_index(rows: Seq<ProgressModel>, link: Seq<char>) -> int {
    choose|j: int| 0 <= j < rows.len() && rows[j].link == link
}

/// At most one progress row per link: the store's key invariant.
pub open spec fn pm_wf(rows: Seq<ProgressModel>) -> bool {
    forall|i: int, j: int| 0 <= i < j < rows.len() ==> rows[i].link != rows[j].link
}

/// What an upsert does: update the elapsed time of the row with this link,
/// or append a fresh unfinished row when none carries it.
pub open spec fn spec_upsert(
    rows: Seq<ProgressModel>,
    link: Seq<char>,
    podcast_id: int,
    elapsed_ms: u64,
) -> Seq<ProgressModel> {
    if pm_has(rows, link) {
        let j = pm_index(rows, link);
        rows.update(
            j,
            ProgressModel {
                podcast_id: rows[j].podcast_id,
                link: rows[j].link,
                elapsed_ms,
                finished: rows[j].finished,
            },
        )
    } else {
        rows.push(ProgressModel { podcast_id, link, elapsed_ms, finished: false })
    }
}

/// The `(link, elapsed)` pairs of the rows belonging to one podcast, in row
/// order.
pub open spec fn pm_project(rows: Seq<ProgressModel>, podcast_id: int) -> Seq<(Seq<char>, u64)>
    decreases rows.len(),
{
    if rows.len() == 0 {
        Seq::empty()
    } else {
        let rest = pm_project(rows.drop_last(), podcast_id);
        if rows.last().podcast_id == podcast_id {
            rest.push((rows.last().link, rows.last().elapsed_ms))
        } else {
            rest
        }
    }
}

/// The episode rows of one podcast, in row order.
pub open spec fn em_for(rows: Seq<EpisodeModel>, podcast_id: int) -> Seq<EpisodeModel> {
    rows.filter(|e: EpisodeModel| e.podcast_id == podcast_id)
}

/// The episode rows of every other podcast, in row order.
pub open spec fn em_without(rows: Seq<EpisodeModel>, podcast_id: int) -> Seq<EpisodeModel> {
    rows.filter(|e: EpisodeModel| e.podcast_id != podcast_id)
}

/// The episode row a record becomes under a given id and owner.
pub open spec fn em_from_record(rec: RecordModel, id: int, podcast_id: int) -> EpisodeModel {
    EpisodeModel {
        id,
        podcast_id,
        title: rec.title,
        link: rec.link,
        description: rec.description,
        guid: rec.guid,
        pub_date: rec.pub_date,
    }
}

/// The rows a bulk insert appends: consecutive ids from `first_id` on.
pub open spec fn em_inserted(records: Seq<RecordModel>, first_id: int, podcast_id: int) -> Seq<
    EpisodeModel,
> {
    Seq::new(records.len(), |k: int| em_from_record(records[k], first_id + k, podcast_id))
}

proof fn lemma_filter_push<A>(s: Seq<A>, x: A, pred: spec_fn(A) -> bool)
    ensures
        s.push(x).filter(pred) == if pred(x) {
            s.filter(pred).push(x)
        } else {
            s.filter(pred)
        },
{
    reveal_with_fuel(Seq::filter, 2);
    assert(s.push(x).drop_last() =~= s);
    assert(s.push(x).filter(pred) == if pred(x) {
        s.filter(pred).push(x)
    } else {
        s.filter(pred)
    });
}

/// The in-memory relational store the worker owns.
pub struct Store {
    podcasts: Vec<PodcastRow>,
    episodes: Vec<EpisodeRow>,
    progress: Vec<ProgressRow>,
    next_podcast_id: i64,
    next_episode_id: i64,
}

impl Store {
    /// The stored podcast rows, as values.
    pub closed spec fn podcasts_view(self) -> Seq<PodcastModel> {
        self.podcasts@.map_values(|r: PodcastRow| r@)
    }

    /// The stored episode rows, as values.
    pub closed spec fn episodes_view(self) -> Seq<EpisodeModel> {
        self.episodes@.map_values(|r: EpisodeRow| r@)
    }

    /// The stored progress rows, as values.
    pub closed spec fn progress_view(self) -> Seq<ProgressModel> {
        self.progress@.map_values(|r: ProgressRow| r@)
    }

    /// The id the next inserted episode will receive.
    pub closed spec fn spec_next_episode_id(self) -> int {
        self.next_episode_id as int
    }

    /// The id the next inserted podcast will receive.
    pub closed spec fn spec_next_podcast_id(self) -> int {
        self.next_podcast_id as int
    }

    /// Well-formedness: progress links are unique and id counters start at
    /// one.
    pub closed spec fn wf(self) -> bool {
        &&& pm_wf(self.progress_view())
        &&& 1 <= self.next_podcast_id
        &&& 1 <= self.next_episode_id
    }

    /// What well-formedness guarantees of the progress table: at most one
    /// row per link.
    pub proof fn lemma_wf_progress_unique(self)
        requires
            self.wf(),
        ensures
            pm_wf(self.progress_view()),
    {
    }

    /// A fresh, empty store.
    pub fn new() -> (r: Store)
        ensures
            r.wf(),
            r.podcasts_view() == Seq::<PodcastModel>::empty(),
            r.episodes_view() == Seq::<EpisodeModel>::empty(),
            r.progress_view() == Seq::<ProgressModel>::empty(),
            r.spec_next_podcast_id() == 1,
            r.spec_next_episode_id() == 1,
    {
        let r = Store {
            podcasts: Vec::new(),
            episodes: Vec::new(),
            progress: Vec::new(),
            next_podcast_id: 1,
            next_episode_id: 1,
        };
        proof {
            assert(r.podcasts_view() =~= Seq::<PodcastModel>::empty());
            assert(r.episodes_view() =~= Seq::<EpisodeModel>::empty());
            assert(r.progress_view() =~= Seq::<ProgressModel>::empty());
        }
        r
    }

    /// Insert a podcast with the given fields, returning its assigned id.
    pub fn insert_podcast(&mut self, title: String, link: String, description: String) -> (r:
        RustcastResult<i64>)
        requires
            old(self).wf(),
        ensures
            final(self).wf(),
            r is Ok <==> old(self).spec_next_podcast_id() < i64::MAX,
            r matches Ok(id) ==> {
                &&& id == old(self).spec_next_podcast_id()
                &&& final(self).podcasts_view() == old(self).podcasts_view().push(
                    PodcastModel {
                        id: id as int,
                        title: Some(title@),
                        link: Some(link@),
                        description: Some(description@),
                    },
                )
                &&& final(self).spec_next_podcast_id() == old(self).spec_next_podcast_id() + 1
            },
            r is Err ==> *final(self) == *old(self),
            r matches Err(e) ==> (e matches RustcastError::Database(
                DatabaseError::ConstraintViolation(m),
            ) && m@ == "podcast id space exhausted"@),
            final(self).episodes_view() == old(self).episodes_view(),
            final(self).progress_view() == old(self).progress_view(),
            final(self).spec_next_episode_id() == old(self).spec_next_episode_id(),
    {
        if self.next_podcast_id == i64::MAX {
            return Err(RustcastError::Database(DatabaseError::ConstraintViolation(
                String::from_str("podcast id space exhausted"),
            )));
        }
        let id = self.next_podcast_id;
        self.podcasts.push(
            PodcastRow { id, title: Some(title), link: Some(link), description: Some(description) },
        );
        self.next_podcast_id = self.next_podcast_id + 1;
        proof {
            assert(self.podcasts_view() =~= old(self).podcasts_view().push(
                self.podcasts@.last()@,
            ));
        }
        Ok(id)
    }

    /// All stored podcasts, in insertion order.
    pub fn list_podcasts(&self) -> (r: Vec<PodcastRow>)
        ensures
            r@.map_values(|p: PodcastRow| p@) == self.podcasts_view(),
    {
        let mut out: Vec<PodcastRow> = Vec::new();
        let mut i: usize = 0;
        while i < self.podcasts.len()
            invariant
                i <= self.podcasts.len(),
                out@.map_values(|p: PodcastRow| p@) == self.podcasts_view().take(i as int),
            decreases self.podcasts.len() - i,
        {
            out.push(self.podcasts[i].clone());
            proof {
                assert(out@.map_values(|p: PodcastRow| p@) =~= self.podcasts_view().take(
                    i as int,
                ).push(self.podcasts@[i as int]@));
                assert(self.podcasts_view().take(i + 1) =~= self.podcasts_view().take(
                    i as int,
                ).push(self.podcasts_view()[i as int]));
            }
            i = i + 1;
        }
        proof {
            assert(self.podcasts_view().take(i as int) =~= self.podcasts_view());
        }
        out
    }

    /// The stored episodes of one podcast, in row order.
    pub fn list_episodes(&self, podcast_id: i64) -> (r: Vec<EpisodeRow>)
        ensures
            r@.map_values(|e: EpisodeRow| e@) == em_for(self.episodes_view(), podcast_id as int),
    {
        let mut out: Vec<EpisodeRow> = Vec::new();
        let mut i: usize = 0;
        while i < self.episodes.len()
            invariant
                i <= self.episodes.len(),
                out@.map_values(|e: EpisodeRow| e@) == em_for(
                    self.episodes_view().take(i as int),
                    podcast_id as int,
                ),
            decreases self.episodes.len() - i,
        {
            proof {
                lemma_filter_push(
                    self.episodes_view().take(i as int),
                    self.episodes_view()[i as int],
                    |e: EpisodeModel| e.podcast_id == podcast_id as int,
                );
                assert(self.episodes_view().take(i + 1) =~= self.episodes_view().take(
                    i as int,
                ).push(self.episodes_view()[i as int]));
            }
            if self.episodes[i].podcast_id == podcast_id {
                out.push(self.episodes[i].clone());
                proof {
                    assert(out@.map_values(|e: EpisodeRow| e@) =~= out@.drop_last().map_values(
                        |e: EpisodeRow| e@,
                    ).push(out@.last()@));
                }
            }
            i = i + 1;
        }
        proof {
            assert(self.episodes_view().take(i as int) =~= self.episodes_view());
        }
        out
    }

    /// Delete every episode of one podcast; the other podcasts' rows keep
    /// their order.
    pub fn delete_episodes(&mut self, podcast_id: i64)
        requires
            old(self).wf(),
        ensures
            final(self).wf(),
            final(self).episodes_view() == em_without(
                old(self).episodes_view(),
                podcast_id as int,
            ),
            final(self).podcasts_view() == old(self).podcasts_view(),
            final(self).progress_view() == old(self).progress_view(),
            final(self).spec_next_episode_id() == old(self).spec_next_episode_id(),
            final(self).spec_next_podcast_id() == old(self).spec_next_podcast_id(),
    {
        let ghost all = self.episodes_view();
        let mut kept: Vec<EpisodeRow> = Vec::new();
        let mut i: usize = 0;
        while i < self.episodes.len()
            invariant
                i <= self.episodes.len(),
                all == self.episodes_view(),
                self.episodes@.map_values(|e: EpisodeRow| e@) == all,
                kept@.map_values(|e: EpisodeRow| e@) == em_without(
                    all.take(i as int),
                    podcast_id as int,
                ),
            decreases self.episodes.len() - i,
        {
            proof {
                lemma_filter_push(
                    all.take(i as int),
                    all[i as int],
                    |e: EpisodeModel| e.podcast_id != podcast_id as int,
                );
                assert(all.take(i + 1) =~= all.take(i as int).push(all[i as int]));
            }
            if self.episodes[i].podcast_id != podcast_id {
                kept.push(self.episodes[i].clone());
                proof {
                    assert(kept@.map_values(|e: EpisodeRow| e@) =~= kept@.drop_last().map_values(
                        |e: EpisodeRow| e@,
                    ).push(kept@.last()@));
                }
            }
            i = i + 1;
        }
        proof {
            assert(all.take(i as int) =~= all);
        }
        self.episodes = kept;
    }

    /// Append the given records as episodes of one podcast, assigning
    /// consecutive ids; fails only when the id space would overflow, and
    /// then changes nothing.
    pub fn bulk_insert_episodes(&mut self, records: &Vec<EpisodeRecord>, podcast_id: i64) -> (r:
        RustcastResult<()>)
        requires
            old(self).wf(),
        ensures
            final(self).wf(),
            r is Ok <==> old(self).spec_next_episode_id() + records@.len() <= i64::MAX,
            r is Ok ==> {
                &&& final(self).episodes_view() == old(self).episodes_view() + em_inserted(
                    records@.map_values(|rec: EpisodeRecord| rec@),
                    old(self).spec_next_episode_id(),
                    podcast_id as int,
                )
                &&& final(self).spec_next_episode_id() == old(self).spec_next_episode_id()
                    + records@.len()
            },
            r is Err ==> *final(self) == *old(self),
            r matches Err(e) ==> (e matches RustcastError::Database(
                DatabaseError::ConstraintViolation(m),
            ) && m@ == "episode id space exhausted"@),
            final(self).podcasts_view() == old(self).podcasts_view(),
            final(self).progress_view() == old(self).progress_view(),
            final(self).spec_next_podcast_id() == old(self).spec_next_podcast_id(),
    {
        if records.len() as u64 > (i64::MAX - self.next_episode_id) as u64 {
            return Err(RustcastError::Database(DatabaseError::ConstraintViolation(
                String::from_str("episode id space exhausted"),
            )));
        }
        let ghost old_view = self.episodes_view();
        let ghost n0 = self.next_episode_id as int;
        let ghost recs = records@.map_values(|rec: EpisodeRecord| rec@);
        let ghost oldself = *self;
        let mut i: usize = 0;
        while i < records.len()
            invariant
                i <= records.len(),
                recs == records@.map_values(|rec: EpisodeRecord| rec@),
                n0 + records@.len() <= i64::MAX,
                1 <= n0,
                self.next_episode_id as int == n0 + i,
                self.episodes_view() == old_view + em_inserted(
                    recs.take(i as int),
                    n0,
                    podcast_id as int,
                ),
                self.podcasts == oldself.podcasts,
                self.progress == oldself.progress,
                self.next_podcast_id == oldself.next_podcast_id,
            decreases records.len() - i,
        {
            let rec = records[i].clone();
            let row = EpisodeRow {
                id: self.next_episode_id,
                podcast_id,
                title: rec.title,
                link: rec.link,
                description: rec.description,
                guid: rec.guid,
                pub_date: rec.pub_date,
            };
            let ghost prev = self.episodes_view();
            let ghost rowm = row@;
            self.episodes.push(row);
            self.next_episode_id = self.next_episode_id + 1;
            proof {
                assert(recs.take(i + 1) =~= recs.take(i as int).push(recs[i as int]));
                assert(recs[i as int] == records@[i as int]@);
                assert(rowm == em_from_record(recs[i as int], n0 + i, podcast_id as int));
                assert(self.episodes_view() =~= prev.push(rowm));
                assert(em_inserted(recs.take(i + 1), n0, podcast_id as int) =~= em_inserted(
                    recs.take(i as int),
                    n0,
                    podcast_id as int,
                ).push(em_from_record(recs[i as int], n0 + i, podcast_id as int)));
                assert(self.episodes_view() =~= old_view + em_inserted(
                    recs.take(i + 1),
                    n0,
                    podcast_id as int,
                ));
            }
            i = i + 1;
        }
        proof {
            assert(recs.take(i as int) =~= recs);
        }
        Ok(())
    }

    /// Replace the episode set of one podcast by the given records, as one
    /// atomic step: on failure the store is unchanged.
    pub fn replace_episodes(&mut self, podcast_id: i64, records: &Vec<EpisodeRecord>) -> (r:
        RustcastResult<()>)
        requires
            old(self).wf(),
        ensures
            final(self).wf(),
            r is Ok <==> old(self).spec_next_episode_id() + records@.len() <= i64::MAX,
            r is Ok ==> {
                &&& final(self).episodes_view() == em_without(
                    old(self).episodes_view(),
                    podcast_id as int,
                ) + em_inserted(
                    records@.map_values(|rec: EpisodeRecord| rec@),
                    old(self).spec_next_episode_id(),
                    podcast_id as int,
                )
                &&& final(self).spec_next_episode_id() == old(self).spec_next_episode_id()
                    + records@.len()
            },
            r is Err ==> *final(self) == *old(self),
            r matches Err(e) ==> (e matches RustcastError::Database(
                DatabaseError::ConstraintViolation(m),
            ) && m@ == "episode id space exhausted"@),
            final(self).podcasts_view() == old(self).podcasts_view(),
            final(self).progress_view() == old(self).progress_view(),
            final(self).spec_next_podcast_id() == old(self).spec_next_podcast_id(),
    {
        if records.len() as u64 > (i64::MAX - self.next_episode_id) as u64 {
            return Err(RustcastError::Database(DatabaseError::ConstraintViolation(
                String::from_str("episode id space exhausted"),
            )));
        }
        self.delete_episodes(podcast_id);
        match self.bulk_insert_episodes(records, podcast_id) {
            Ok(()) => Ok(()),
            Err(e) => {
                proof {
                    assert(false);
                }
                Err(e)
            },
        }
    }

    /// Insert a progress row for this link, or update the elapsed time of
    /// the existing one: never a second row for the same link.
    pub fn upsert_progress(&mut self, link: &str, podcast_id: i64, elapsed_ms: u64)
        requires
            old(self).wf(),
        ensures
            final(self).wf(),
            final(self).progress_view() == spec_upsert(
                old(self).progress_view(),
                link@,
                podcast_id as int,
                elapsed_ms,
            ),
            final(self).podcasts_view() == old(self).podcasts_view(),
            final(self).episodes_view() == old(self).episodes_view(),
            final(self).spec_next_episode_id() == old(self).spec_next_episode_id(),
            final(self).spec_next_podcast_id() == old(self).spec_next_podcast_id(),
    {
        let ghost rows = self.progress_view();
        let mut i: usize = 0;
        while i < self.progress.len()
            invariant
                i <= self.progress.len(),
                *self == *old(self),
                old(self).wf(),
                rows == old(self).progress_view(),
                pm_wf(rows),
                self.progress@.map_values(|p: ProgressRow| p@) == rows,
                forall|j: int| 0 <= j < i ==> rows[j].link != link@,
            decreases self.progress.len() - i,
        {
            if str_eq(self.progress[i].link.as_str(), link) {
                proof {
                    assert(rows[i as int].link == link@);
                    assert(pm_has(rows, link@));
                    let j = pm_index(rows, link@);
                    assert(0 <= j < rows.len() && rows[j].link == link@);
                    if j != i as int {
                        assert(rows[j].link != rows[i as int].link);
                    }
                    assert(j == i as int);
                }
                self.progress[i].elapsed_ms = elapsed_ms;
                proof {
                    assert(self.progress_view() =~= spec_upsert(
                        rows,
                        link@,
                        podcast_id as int,
                        elapsed_ms,
                    ));
                    assert forall|a: int, b: int|
                        0 <= a < b < self.progress_view().len() implies self.progress_view()[a].link
                        != self.progress_view()[b].link by {
                        assert(self.progress_view()[a].link == rows[a].link);
                        assert(self.progress_view()[b].link == rows[b].link);
                    }
                }
                return ;
            }
            i = i + 1;
        }
        proof {
            assert forall|j: int| 0 <= j < rows.len() implies rows[j].link != link@ by {}
            assert(!pm_has(rows, link@));
        }
        self.progress.push(
            ProgressRow { podcast_id, link: String::from_str(link), elapsed_ms, finished: false },
        );
        proof {
            assert(self.progress_view() =~= spec_upsert(
                rows,
                link@,
                podcast_id as int,
                elapsed_ms,
            ));
            assert forall|a: int, b: int|
                0 <= a < b < self.progress_view().len() implies self.progress_view()[a].link
                != self.progress_view()[b].link by {
                if b < rows.len() {
                    assert(self.progress_view()[a].link == rows[a].link);
                    assert(self.progress_view()[b].link == rows[b].link);
                } else {
                    assert(self.progress_view()[a].link == rows[a].link);
                    assert(self.progress_view()[b].link == link@);
                }
            }
        }
    }

    /// The saved progress for a link; absent means the episode was never
    /// played.
    pub fn get_progress(&self, link: &str) -> (r: Option<Progress>)
        requires
            self.wf(),
        ensures
            r is Some <==> pm_has(self.progress_view(), link@),
            r matches Some(p) ==> {
                let rows = self.progress_view();
                let j = pm_index(rows, link@);
                p.elapsed_ms == rows[j].elapsed_ms && p.finished == rows[j].finished
            },
    {
        let ghost rows = self.progress_view();
        let mut i: usize = 0;
        while i < self.progress.len()
            invariant
                i <= self.progress.len(),
                rows == self.progress_view(),
                pm_wf(rows),
                forall|j: int| 0 <= j < i ==> rows[j].link != link@,
            decreases self.progress.len() - i,
        {
            if str_eq(self.progress[i].link.as_str(), link) {
                proof {
                    assert(rows[i as int].link == link@);
                    assert(pm_has(rows, link@));
                    let j = pm_index(rows, link@);
                    assert(0 <= j < rows.len() && rows[j].link == link@);
                    if j != i as int {
                        assert(rows[j].link != rows[i as int].link);
                    }
                }
                return Some(
                    Progress {
                        elapsed_ms: self.progress[i].elapsed_ms,
                        finished: self.progress[i].finished,
                    },
                );
            }
            i = i + 1;
        }
        proof {
            assert(!pm_has(rows, link@));
        }
        None
    }

    /// The `(link, elapsed)` pairs of one podcast's progress rows, used to
    /// hydrate the episode list without one query per row.
    pub fn list_progress(&self, podcast_id: i64) -> (r: Vec<(String, u64)>)
        ensures
            r@.map_values(|p: (String, u64)| (p.0@, p.1)) == pm_project(
                self.progress_view(),
                podcast_id as int,
            ),
    {
        let ghost rows = self.progress_view();
        let mut out: Vec<(String, u64)> = Vec::new();
        let mut i: usize = 0;
        while i < self.progress.len()
            invariant
                i <= self.progress.len(),
                rows == self.progress_view(),
                self.progress@.map_values(|p: ProgressRow| p@) == rows,
                out@.map_values(|p: (String, u64)| (p.0@, p.1)) == pm_project(
                    rows.take(i as int),
                    podcast_id as int,
                ),
            decreases self.progress.len() - i,
        {
            proof {
                assert(rows.take(i + 1).drop_last() =~= rows.take(i as int));
                assert(rows.take(i + 1).last() == rows[i as int]);
            }
            if self.progress[i].podcast_id == podcast_id {
                out.push((self.progress[i].link.clone(), self.progress[i].elapsed_ms));
                proof {
                    assert(out@.map_values(|p: (String, u64)| (p.0@, p.1)) =~= out@.drop_last()
                        .map_values(|p: (String, u64)| (p.0@, p.1)).push(
                        (out@.last().0@, out@.last().1),
                    ));
                }
            }
            i = i + 1;
        }
        proof {
            assert(rows.take(i as int) =~= rows);
        }
        out
    }
}

/// Facts about one upsert: the link is present afterwards, holds the new
/// elapsed time, rows for other links are untouched, and uniqueness is
/// preserved.
pub proof fn lemma_upsert_properties(
    rows: Seq<ProgressModel>,
    link: Seq<char>,
    podcast_id: int,
    elapsed_ms: u64,
)
    requires
        pm_wf(rows),
    ensures
        ({
            let out = spec_upsert(rows, link, podcast_id, elapsed_ms);
            &&& pm_wf(out)
            &&& pm_has(out, link)
            &&& out[pm_index(out, link)].elapsed_ms == elapsed_ms
            &&& out[pm_index(out, link)].link == link
            &&& forall|j: int|
                0 <= j < rows.len() && rows[j].link != link ==> out[j] == rows[j]
            &&& out.len() == if pm_has(rows, link) {
                rows.len()
            } else {
                rows.len() + 1
            }
        }),
{
    let out = spec_upsert(rows, link, podcast_id, elapsed_ms);
    if pm_has(rows, link) {
        let j = pm_index(rows, link);
        assert(0 <= j < rows.len() && rows[j].link == link);
        assert(pm_has(out, link)) by {
            assert(out[j].link == link);
        }
        let k = pm_index(out, link);
        assert(0 <= k < out.len() && out[k].link == link);
        if k != j {
            assert(out[k] == rows[k]);
            assert(rows[k].link == rows[j].link);
        }
        assert(k == j);
    } else {
        assert(out.last().link == link);
        assert(pm_has(out, link)) by {
            assert(out[out.len() - 1].link == link);
        }
        let k = pm_index(out, link);
        assert(0 <= k < out.len() && out[k].link == link);
        if k < rows.len() {
            assert(rows[k].link == link);
            assert(pm_has(rows, link));
        }
        assert(k == out.len() - 1);
        assert forall|a: int, b: int| 0 <= a < b < out.len() implies out[a].link != out[b].link by {
            if b < rows.len() {
                assert(out[a] == rows[a] && out[b] == rows[b]);
            } else {
                assert(out[a] == rows[a]);
                assert(!(rows[a].link == link)) by {
                    if rows[a].link == link {
                        assert(pm_has(rows, link));
                    }
                }
            }
        }
    }
}

/// Law: upserting progress for one link twice leaves exactly one row for
/// that link, and it holds the elapsed time of the second upsert.
pub proof fn lemma_upsert_twice_converges(
    rows: Seq<ProgressModel>,
    link: Seq<char>,
    podcast_id: int,
    first_ms: u64,
    second_ms: u64,
)
    requires
        pm_wf(rows),
    ensures
        ({
            let once = spec_upsert(rows, link, podcast_id, first_ms);
            let twice = spec_upsert(once, link, podcast_id, second_ms);
            &&& pm_wf(twice)
            &&& pm_has(twice, link)
            &&& twice[pm_index(twice, link)].elapsed_ms == second_ms
            &&& forall|j: int|
                0 <= j < twice.len() && j != pm_index(twice, link) ==> twice[j].link != link
            &&& twice.len() == if pm_has(rows, link) {
                rows.len()
            } else {
                rows.len() + 1
            }
        }),
{
    let once = spec_upsert(rows, link, podcast_id, first_ms);
    let twice = spec_upsert(once, link, podcast_id, second_ms);
    lemma_upsert_properties(rows, link, podcast_id, first_ms);
    lemma_upsert_properties(once, link, podcast_id, second_ms);
    let k = pm_index(twice, link);
    assert forall|j: int| 0 <= j < twice.len() && j != k implies twice[j].link != link by {
        if twice[j].link == link {
            assert(0 <= k < twice.len() && twice[k].link == link);
            if j < k {
                assert(twice[j].link != twice[k].link);
            } else {
                assert(twice[k].link != twice[j].link);
            }
        }
    }
}

} // verus!
