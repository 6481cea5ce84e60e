//! The worker side of the bridge: the refresh orchestrator and the handling
//! of the requests the UI enqueues, over the store the worker owns. The
//! worker processes one request at a time; nothing here blocks the UI.

use vstd::prelude::*;
use vstd::string::StringExecFns;

use crate::bridge::{AsyncAction, AsyncActionResult};
use crate::error::{spec_user_message, DatabaseError, RssError, RustcastError, RustcastResult};
use crate::feed::{feed_parse, parse_feed, spec_podcast_data_ok, spec_url_ok, ItemModel};
use crate::reconcile::{item_valid, reconcile, record_of, spec_reconcile, EpisodeRecord};
use crate::store::{
    em_for, em_from_record, em_inserted, em_without, pm_project, spec_upsert, EpisodeModel,
    EpisodeRow, Store,
};
use crate::text::is_blank;

verus! {

/// A fetched body refreshes a podcast when it parses as a feed with a title
/// and at least one valid item.
pub open spec fn spec_refresh_ok(body: Seq<char>) -> bool {
    feed_parse(body) matches Some(doc) && body.len() > 0 && doc.title.len() > 0
        && spec_reconcile(doc.items).len() > 0
}

proof fn lemma_filter_all_true<A>(s: Seq<A>, pred: spec_fn(A) -> bool)
    requires
        forall|i: int| 0 <= i < s.len() ==> pred(#[trigger] s[i]),
    ensures
        s.filter(pred) == s,
    decreases s.len(),
{
    reveal_with_fuel(Seq::filter, 2);
    if s.len() == 0 {
        assert(s.filter(pred) =~= s);
    } else {
        lemma_filter_all_true(s.drop_last(), pred);
        assert(s.filter(pred) =~= s);
    }
}

proof fn lemma_filter_all_false<A>(s: Seq<A>, pred: spec_fn(A) -> bool)
    requires
        forall|i: int| 0 <= i < s.len() ==> !pred(#[trigger] s[i]),
    ensures
        s.filter(pred) == Seq::<A>::empty(),
    decreases s.len(),
{
    reveal_with_fuel(Seq::filter, 2);
    if s.len() == 0 {
        assert(s.filter(pred) =~= Seq::<A>::empty());
    } else {
        lemma_filter_all_false(s.drop_last(), pred);
        assert(s.filter(pred) =~= Seq::<A>::empty());
    }
}

/// Law: after a replacement, the podcast's episode set is exactly the
/// inserted rows — no residue of the prior set — and the other podcasts'
/// rows are exactly what they were.
pub proof fn lemma_refresh_replaces(
    old_rows: Seq<EpisodeModel>,
    records: Seq<crate::reconcile::RecordModel>,
    first_id: int,
    podcast_id: int,
)
    ensures
        em_for(
            em_without(old_rows, podcast_id) + em_inserted(records, first_id, podcast_id),
            podcast_id,
        ) == em_inserted(records, first_id, podcast_id),
        em_without(
            em_without(old_rows, podcast_id) + em_inserted(records, first_id, podcast_id),
            podcast_id,
        ) == em_without(old_rows, podcast_id),
{
    broadcast use vstd::seq_lib::group_seq_lib_default;

    let keep = |e: EpisodeModel| e.podcast_id == podcast_id;
    let others = |e: EpisodeModel| e.podcast_id != podcast_id;
    let kept = old_rows.filter(others);
    let inserted = em_inserted(records, first_id, podcast_id);
    Seq::filter_distributes_over_add(kept, inserted, keep);
    Seq::filter_distributes_over_add(kept, inserted, others);
    assert forall|i: int| 0 <= i < kept.len() implies !keep(#[trigger] kept[i]) by {
        old_rows.lemma_filter_pred(others, i);
    }
    assert forall|i: int| 0 <= i < kept.len() implies others(#[trigger] kept[i]) by {
        old_rows.lemma_filter_pred(others, i);
    }
    lemma_filter_all_false(kept, keep);
    lemma_filter_all_true(kept, others);
    assert forall|i: int| 0 <= i < inserted.len() implies keep(#[trigger] inserted[i])
        && !others(inserted[i]) by {}
    lemma_filter_all_true(inserted, keep);
    lemma_filter_all_false(inserted, others);
    assert(em_for(kept + inserted, podcast_id) =~= inserted);
    assert(em_without(kept + inserted, podcast_id) =~= kept);
}

/// Law: a batch whose items all carry a title and an enclosure URL is kept
/// whole. Reconciliation yields exactly one record per item, with that
/// item's fields, and inserting the records stores one row per item under
/// the given podcast with consecutive ids.
pub proof fn lemma_all_valid_batch_inserts_exactly(
    items: Seq<ItemModel>,
    first_id: int,
    podcast_id: int,
)
    requires
        items.len() > 0,
        forall|i: int| 0 <= i < items.len() ==> item_valid(#[trigger] items[i]),
    ensures
        spec_reconcile(items).len() == items.len(),
        forall|k: int|
            0 <= k < items.len() ==> #[trigger] spec_reconcile(items)[k] == record_of(items[k]),
        em_inserted(spec_reconcile(items), first_id, podcast_id).len() == items.len(),
        forall|k: int|
            0 <= k < items.len() ==> #[trigger] em_inserted(
                spec_reconcile(items),
                first_id,
                podcast_id,
            )[k] == em_from_record(record_of(items[k]), first_id + k, podcast_id),
{
    lemma_filter_all_true(items, |it: ItemModel| item_valid(it));
}

/// The records a successful refresh of this body persists.
pub open spec fn refresh_records(body: Seq<char>) -> Seq<crate::reconcile::RecordModel> {
    spec_reconcile(feed_parse(body).unwrap().items)
}

/// The error a refresh of this body owes at each step where it can fail:
/// empty body, unparsable text, missing feed title, nothing valid to keep,
/// or an exhausted id space.
pub open spec fn spec_refresh_error(
    failure: Option<RustcastError>,
    body: Seq<char>,
    next_id: int,
) -> bool {
    &&& (body.len() == 0 ==> (failure matches Some(e) && e matches RustcastError::Rss(
        RssError::InvalidFeed(m),
    ) && m@ == "Feed content is empty"@))
    &&& (body.len() > 0 && feed_parse(body) is None ==> (failure matches Some(e) && e
        matches RustcastError::Rss(RssError::InvalidFeed(m)) && m@
        == "Feed content could not be parsed"@))
    &&& (body.len() > 0 && (feed_parse(body) matches Some(doc) && doc.title.len() == 0) ==> (
    failure matches Some(e) && e matches RustcastError::Rss(RssError::MissingRequiredField(f))
        && f@ == "title"@))
    &&& (body.len() > 0 && (feed_parse(body) matches Some(doc) && doc.title.len() > 0
        && spec_reconcile(doc.items).len() == 0) ==> (failure matches Some(e) && e
        matches RustcastError::Rss(RssError::ParseFailed(m)) && m@
        == "No valid episodes found in feed"@))
    &&& (spec_refresh_ok(body) && next_id + refresh_records(body).len() > i64::MAX ==> (failure
        matches Some(e) && e matches RustcastError::Database(DatabaseError::ConstraintViolation(m))
        && m@ == "episode id space exhausted"@))
}

/// The user message of the step at which a refresh of this body fails;
/// meaningful only when one of them does.
pub open spec fn spec_refresh_failure_message(body: Seq<char>, next_id: int) -> Seq<char> {
    if body.len() == 0 {
        "RSS error: Invalid RSS feed: "@ + "Feed content is empty"@
    } else if feed_parse(body) is None {
        "RSS error: Invalid RSS feed: "@ + "Feed content could not be parsed"@
    } else if feed_parse(body).unwrap().title.len() == 0 {
        "The podcast feed is missing required information: "@ + "title"@
    } else if spec_reconcile(feed_parse(body).unwrap().items).len() == 0 {
        "Failed to parse the podcast feed. The feed may be malformed."@
    } else {
        "Database error: Constraint violation: "@ + "episode id space exhausted"@
    }
}

fn refresh_body(store: &mut Store, podcast_id: i64, body: String) -> (r: (
    Vec<EpisodeRow>,
    Option<RustcastError>,
))
    requires
        old(store).wf(),
    ensures
        final(store).wf(),
        final(store).podcasts_view() == old(store).podcasts_view(),
        final(store).progress_view() == old(store).progress_view(),
        r.0@.map_values(|e: EpisodeRow| e@) == em_for(
            final(store).episodes_view(),
            podcast_id as int,
        ),
        spec_refresh_error(r.1, body@, old(store).spec_next_episode_id()),
        ({
            let ok = spec_refresh_ok(body@) && old(store).spec_next_episode_id()
                + refresh_records(body@).len() <= i64::MAX;
            &&& !ok ==> (*final(store) == *old(store) && r.1 is Some)
            &&& ok ==> {
                &&& r.1 is None
                &&& final(store).episodes_view() == em_without(
                    old(store).episodes_view(),
                    podcast_id as int,
                ) + em_inserted(
                    refresh_records(body@),
                    old(store).spec_next_episode_id(),
                    podcast_id as int,
                )
                &&& r.0@.map_values(|e: EpisodeRow| e@) == em_inserted(
                    refresh_records(body@),
                    old(store).spec_next_episode_id(),
                    podcast_id as int,
                )
            }
        }),
{
    let doc = match parse_feed(body.as_str()) {
        Ok(d) => d,
        Err(e) => {
            return (store.list_episodes(podcast_id), Some(e));
        },
    };
    let (records, _dropped) = match reconcile(&doc.items) {
        Ok(p) => p,
        Err(e) => {
            proof {
                assert(feed_parse(body@) == Some(doc@));
            }
            return (store.list_episodes(podcast_id), Some(e));
        },
    };
    proof {
        assert(feed_parse(body@) == Some(doc@));
        assert(refresh_records(body@) == records@.map_values(|rec: EpisodeRecord| rec@));
    }
    match store.replace_episodes(podcast_id, &records) {
        Ok(()) => {},
        Err(e) => {
            return (store.list_episodes(podcast_id), Some(e));
        },
    }
    proof {
        lemma_refresh_replaces(
            old(store).episodes_view(),
            records@.map_values(|rec: EpisodeRecord| rec@),
            old(store).spec_next_episode_id(),
            podcast_id as int,
        );
    }
    (store.list_episodes(podcast_id), None)
}

/// Refresh one podcast's episodes from a fetched feed body: parse,
/// reconcile, replace the stored set atomically, and hand back the set now
/// persisted. On any failure the store is untouched and the prior persisted
/// set is returned beside the error, so the caller never loses its list.
pub fn refresh(store: &mut Store, podcast_id: i64, fetched: RustcastResult<String>) -> (r: (
    Vec<EpisodeRow>,
    Option<RustcastError>,
))
    requires
        old(store).wf(),
    ensures
        final(store).wf(),
        final(store).podcasts_view() == old(store).podcasts_view(),
        final(store).progress_view() == old(store).progress_view(),
        r.0@.map_values(|e: EpisodeRow| e@) == em_for(
            final(store).episodes_view(),
            podcast_id as int,
        ),
        r.1 is Some ==> *final(store) == *old(store),
        fetched matches Err(e) ==> r.1 == Some(e),
        fetched matches Ok(body) ==> {
            let ok = spec_refresh_ok(body@) && old(store).spec_next_episode_id()
                + refresh_records(body@).len() <= i64::MAX;
            &&& spec_refresh_error(r.1, body@, old(store).spec_next_episode_id())
            &&& !ok ==> r.1 is Some
            &&& ok ==> {
                &&& r.1 is None
                &&& final(store).episodes_view() == em_without(
                    old(store).episodes_view(),
                    podcast_id as int,
                ) + em_inserted(
                    refresh_records(body@),
                    old(store).spec_next_episode_id(),
                    podcast_id as int,
                )
                &&& r.0@.map_values(|e: EpisodeRow| e@) == em_inserted(
                    refresh_records(body@),
                    old(store).spec_next_episode_id(),
                    podcast_id as int,
                )
            }
        },
{
    match fetched {
        Ok(body) => refresh_body(store, podcast_id, body),
        Err(e) => (store.list_episodes(podcast_id), Some(e)),
    }
}

/// Handle a refresh request as the worker does: on success one message with
/// the fresh episode set; on failure the error's plain-language message
/// followed by the cached set, so the UI still has something to show.
#[verifier::rlimit(50)]
pub fn handle_refresh(store: &mut Store, podcast_id: i64, fetched: RustcastResult<String>) -> (out:
    Vec<AsyncActionResult>)
    requires
        old(store).wf(),
    ensures
        final(store).wf(),
        final(store).podcasts_view() == old(store).podcasts_view(),
        final(store).progress_view() == old(store).progress_view(),
        ({
            let ok = fetched matches Ok(body) && spec_refresh_ok(body@) && old(
                store,
            ).spec_next_episode_id() + refresh_records(body@).len() <= i64::MAX;
            &&& ok ==> {
                &&& out@.len() == 1
                &&& (out@[0] matches AsyncActionResult::EpisodesUpdate(Some(v)) && v@.map_values(
                    |e: EpisodeRow| e@,
                ) == em_for(final(store).episodes_view(), podcast_id as int))
                &&& final(store).episodes_view() == em_without(
                    old(store).episodes_view(),
                    podcast_id as int,
                ) + em_inserted(
                    refresh_records(fetched.unwrap()@),
                    old(store).spec_next_episode_id(),
                    podcast_id as int,
                )
            }
            &&& !ok ==> {
                &&& *final(store) == *old(store)
                &&& out@.len() == 2
                &&& (fetched matches Err(e) ==> (out@[0]
                    matches AsyncActionResult::UniversalResult(Some(m)) && m@
                    == spec_user_message(e)))
                &&& (fetched matches Ok(body) ==> (out@[0]
                    matches AsyncActionResult::UniversalResult(Some(m)) && m@
                    == spec_refresh_failure_message(body@, old(store).spec_next_episode_id())))
                &&& (out@[1] matches AsyncActionResult::EpisodesUpdate(Some(v)) && v@.map_values(
                    |e: EpisodeRow| e@,
                ) == em_for(old(store).episodes_view(), podcast_id as int))
            }
        }),
{
    let (episodes, failure) = refresh(store, podcast_id, fetched);
    let mut out: Vec<AsyncActionResult> = Vec::new();
    match failure {
        None => {
            out.push(AsyncActionResult::EpisodesUpdate(Some(episodes)));
        },
        Some(e) => {
            out.push(AsyncActionResult::UniversalResult(Some(e.user_friendly_message())));
            out.push(AsyncActionResult::EpisodesUpdate(Some(episodes)));
        },
    }
    out
}

/// A single add-podcast reply carrying this failure text.
pub open spec fn spec_add_reply(out: Seq<AsyncActionResult>, text: Seq<char>) -> bool {
    out.len() == 1 && (out[0] matches AsyncActionResult::AddPodcastResult(Some(m)) && m@ == text)
}

/// Handle an add-podcast request as the worker does: the fields are
/// validated, the fetched feed must parse with a title, and only then is
/// the podcast stored; the single reply carries the failing step's user
/// message, or nothing on success.
#[verifier::rlimit(50)]
pub fn handle_add_podcast(
    store: &mut Store,
    title: String,
    link: String,
    description: String,
    fetched: RustcastResult<String>,
) -> (out: Vec<AsyncActionResult>)
    requires
        old(store).wf(),
    ensures
        final(store).wf(),
        final(store).episodes_view() == old(store).episodes_view(),
        final(store).progress_view() == old(store).progress_view(),
        out@.len() == 1,
        ({
            let ok = spec_podcast_data_ok(title@, link@, description@) && (fetched
                matches Ok(body) && body@.len() > 0 && (feed_parse(body@) matches Some(doc)
                && doc.title.len() > 0)) && old(store).spec_next_podcast_id() < i64::MAX;
            &&& ok ==> {
                &&& (out@[0] matches AsyncActionResult::AddPodcastResult(None))
                &&& final(store).podcasts_view() == old(store).podcasts_view().push(
                    crate::store::PodcastModel {
                        id: old(store).spec_next_podcast_id(),
                        title: Some(title@),
                        link: Some(link@),
                        description: Some(description@),
                    },
                )
            }
            &&& !ok ==> {
                &&& *final(store) == *old(store)
                &&& (out@[0] matches AsyncActionResult::AddPodcastResult(Some(_)))
            }
            &&& (is_blank(title@) ==> spec_add_reply(
                out@,
                "The podcast feed is missing required information: "@
                    + "Podcast title cannot be empty"@,
            ))
            &&& (!is_blank(title@) && !spec_url_ok(link@) ==> spec_add_reply(
                out@,
                "The podcast URL is invalid. Please check the URL and try again."@,
            ))
            &&& (!is_blank(title@) && spec_url_ok(link@) && description@.len() > 2000
                ==> spec_add_reply(
                out@,
                "RSS error: Invalid RSS feed: "@
                    + "Description is too long (max 2000 characters)"@,
            ))
            &&& (spec_podcast_data_ok(title@, link@, description@) ==> {
                &&& (fetched matches Err(e) ==> spec_add_reply(out@, spec_user_message(e)))
                &&& (fetched matches Ok(body) ==> {
                    &&& (body@.len() == 0 ==> spec_add_reply(
                        out@,
                        "RSS error: Invalid RSS feed: "@ + "Feed content is empty"@,
                    ))
                    &&& (body@.len() > 0 && feed_parse(body@) is None ==> spec_add_reply(
                        out@,
                        "RSS error: Invalid RSS feed: "@ + "Feed content could not be parsed"@,
                    ))
                    &&& (body@.len() > 0 && (feed_parse(body@) matches Some(doc)
                        && doc.title.len() == 0) ==> spec_add_reply(
                        out@,
                        "The podcast feed is missing required information: "@ + "title"@,
                    ))
                    &&& (body@.len() > 0 && (feed_parse(body@) matches Some(doc)
                        && doc.title.len() > 0) && old(store).spec_next_podcast_id() == i64::MAX
                        ==> spec_add_reply(
                        out@,
                        "Database error: Constraint violation: "@ + "podcast id space exhausted"@,
                    ))
                })
            })
        }),
{
    let mut out: Vec<AsyncActionResult> = Vec::new();
    match crate::feed::validate_podcast_data(title.as_str(), link.as_str(), description.as_str()) {
        Ok(()) => {},
        Err(e) => {
            out.push(AsyncActionResult::AddPodcastResult(Some(e.user_friendly_message())));
            return out;
        },
    }
    let body = match fetched {
        Ok(b) => b,
        Err(e) => {
            out.push(AsyncActionResult::AddPodcastResult(Some(e.user_friendly_message())));
            return out;
        },
    };
    match parse_feed(body.as_str()) {
        Ok(_) => {},
        Err(e) => {
            out.push(AsyncActionResult::AddPodcastResult(Some(e.user_friendly_message())));
            return out;
        },
    }
    match store.insert_podcast(title, link, description) {
        Ok(_) => {
            out.push(AsyncActionResult::AddPodcastResult(None));
        },
        Err(e) => {
            out.push(AsyncActionResult::AddPodcastResult(Some(e.user_friendly_message())));
        },
    }
    out
}

/// Handle the requests that touch only the store: reading podcasts, saving
/// and loading progress, and reading all of one podcast's progress rows. A
/// load that finds nothing saved answers with zero elapsed time, meaning
/// "never played".
pub fn handle_storage_action(store: &mut Store, action: &AsyncAction) -> (out: Vec<
    AsyncActionResult,
>)
    requires
        old(store).wf(),
        !(action matches AsyncAction::GetEpisodes(_, _)),
        !(action matches AsyncAction::AddPodcast(_, _, _)),
    ensures
        final(store).wf(),
        final(store).episodes_view() == old(store).episodes_view(),
        final(store).podcasts_view() == old(store).podcasts_view(),
        action matches AsyncAction::GetPodcasts ==> {
            &&& final(store).progress_view() == old(store).progress_view()
            &&& out@.len() == 1
            &&& (out@[0] matches AsyncActionResult::PodcastsUpdate(Some(v)) && v@.map_values(
                |p: crate::store::PodcastRow| p@,
            ) == old(store).podcasts_view())
        },
        action matches AsyncAction::SaveEpisodeState(elapsed_ms, pid, l) ==> {
            &&& final(store).progress_view() == spec_upsert(
                old(store).progress_view(),
                l@,
                *pid as int,
                *elapsed_ms,
            )
            &&& out@.len() == 0
        },
        action matches AsyncAction::LoadEpisodeState(l) ==> {
            &&& final(store).progress_view() == old(store).progress_view()
            &&& out@.len() == 1
            &&& (out@[0] matches AsyncActionResult::EpisodeStateUpdate(l2, e) && l2@ == l@ && e
                == (if crate::store::pm_has(old(store).progress_view(), l@) {
                old(store).progress_view()[crate::store::pm_index(
                    old(store).progress_view(),
                    l@,
                )].elapsed_ms
            } else {
                0u64
            }))
        },
        action matches AsyncAction::GetAllEpisodeStates(pid) ==> {
            &&& final(store).progress_view() == old(store).progress_view()
            &&& out@.len() == 1
            &&& (out@[0] matches AsyncActionResult::AllEpisodeStatesUpdate(Some(v))
                && v@.map_values(|p: (String, u64)| (p.0@, p.1)) == pm_project(
                old(store).progress_view(),
                *pid as int,
            ))
        },
{
    let mut out: Vec<AsyncActionResult> = Vec::new();
    match action {
        AsyncAction::GetPodcasts => {
            out.push(AsyncActionResult::PodcastsUpdate(Some(store.list_podcasts())));
        },
        AsyncAction::SaveEpisodeState(elapsed_ms, pid, l) => {
            store.upsert_progress(l.as_str(), *pid, *elapsed_ms);
        },
        AsyncAction::LoadEpisodeState(l) => {
            let elapsed = match store.get_progress(l.as_str()) {
                Some(p) => p.elapsed_ms,
                None => 0,
            };
            out.push(AsyncActionResult::EpisodeStateUpdate(l.clone(), elapsed));
        },
        AsyncAction::GetAllEpisodeStates(pid) => {
            out.push(AsyncActionResult::AllEpisodeStatesUpdate(Some(store.list_progress(*pid))));
        },
        _ => {},
    }
    out
}

} // verus!
