//! Reconciliation of raw feed items into storable episode records: an item
//! must carry a title and an enclosure URL; the other fields receive fixed
//! defaults. Defective items are dropped and counted, never failing the
//! batch unless nothing valid remains.

use vstd::prelude::*;
use vstd::string::StringExecFns;

use crate::error::{RssError, RustcastError, RustcastResult};
use crate::feed::{ItemModel, RawFeedItem};

verus! {

/// An episode as it is stored: every field present, defaults filled in.
#[derive(Debug, PartialEq)]
pub struct EpisodeRecord {
    pub title: String,
    pub link: String,
    pub description: String,
    pub guid: String,
    pub pub_date: String,
}

/// The mathematical value of an `EpisodeRecord`.
pub struct RecordModel {
    pub title: Seq<char>,
    pub link: Seq<char>,
    pub description: Seq<char>,
    pub guid: Seq<char>,
    pub pub_date: Seq<char>,
}

impl View for EpisodeRecord {
    type V = RecordModel;

    open spec fn view(&self) -> RecordModel {
        RecordModel {
            title: self.title@,
            link: self.link@,
            description: self.description@,
            guid: self.guid@,
            pub_date: self.pub_date@,
        }
    }
}

impl Clone for EpisodeRecord {
    fn clone(&self) -> (r: Self)
        ensures
            r == *self,
    {
        EpisodeRecord {
            title: self.title.clone(),
            link: self.link.clone(),
            description: self.description.clone(),
            guid: self.guid.clone(),
            pub_date: self.pub_date.clone(),
        }
    }
}

/// An item can become a record exactly when it has a title and an enclosure
/// URL.
pub open spec fn item_valid(it: ItemModel) -> bool {
    it.title is Some && it.enclosure_url is Some
}

/// The record a valid item becomes: title and link verbatim, a placeholder
/// description, a guid derived from the link, and an "Unknown" publish date
/// where those are absent.
pub open spec fn record_of(it: ItemModel) -> RecordModel
    recommends
        item_valid(it),
{
    RecordModel {
        title: it.title.unwrap(),
        link: it.enclosure_url.unwrap(),
        description: match it.description {
            Some(d) => d,
            None => "No description available"@,
        },
        guid: match it.guid {
            Some(g) => g,
            None => "generated-"@ + it.enclosure_url.unwrap(),
        },
        pub_date: match it.pub_date {
            Some(p) => p,
            None => "Unknown"@,
        },
    }
}

/// The records reconciliation keeps, in feed order.
pub open spec fn spec_reconcile(items: Seq<ItemModel>) -> Seq<RecordModel> {
    items.filter(|it: ItemModel| item_valid(it)).map_values(|it: ItemModel| record_of(it))
}

/// How many items reconciliation drops.
pub open spec fn spec_dropped(items: Seq<ItemModel>) -> int {
    items.len() - spec_reconcile(items).len()
}

/// Convert one raw item, requiring a title and an enclosure URL and filling
/// the documented defaults for the other fields.
pub fn record_from_item(item: &RawFeedItem) -> (r: RustcastResult<EpisodeRecord>)
    ensures
        r is Ok <==> item_valid(item@),
        r matches Ok(rec) ==> rec@ == record_of(item@),
        item@.title is None ==> (r matches Err(e)
            && e matches RustcastError::Rss(RssError::MissingRequiredField(f))
            && f@ == "title"@),
        item@.title is Some && item@.enclosure_url is None ==> (r matches Err(e)
            && e matches RustcastError::Rss(RssError::MissingRequiredField(f))
            && f@ == "enclosure"@),
{
    let title = match &item.title {
        Some(t) => t.clone(),
        None => {
            return Err(RustcastError::rss_missing_field("title"));
        },
    };
    let link = match &item.enclosure_url {
        Some(l) => l.clone(),
        None => {
            return Err(RustcastError::rss_missing_field("enclosure"));
        },
    };
    let description = match &item.description {
        Some(d) => d.clone(),
        None => String::from_str("No description available"),
    };
    let guid = match &item.guid {
        Some(g) => g.clone(),
        None => String::from_str("generated-").concat(link.as_str()),
    };
    let pub_date = match &item.pub_date {
        Some(p) => p.clone(),
        None => String::from_str("Unknown"),
    };
    Ok(EpisodeRecord { title, link, description, guid, pub_date })
}

proof fn lemma_reconcile_push(s: Seq<ItemModel>, x: ItemModel)
    ensures
        item_valid(x) ==> spec_reconcile(s.push(x)) == spec_reconcile(s).push(record_of(x)),
        !item_valid(x) ==> spec_reconcile(s.push(x)) == spec_reconcile(s),
{
    reveal_with_fuel(Seq::filter, 2);
    let pred = |it: ItemModel| item_valid(it);
    let f = |it: ItemModel| record_of(it);
    assert(s.push(x).drop_last() =~= s);
    assert(s.push(x).last() == x);
    assert(s.push(x).filter(pred) == if pred(x) {
        s.filter(pred).push(x)
    } else {
        s.filter(pred)
    });
    if pred(x) {
        assert(s.filter(pred).push(x).map_values(f) =~= s.filter(pred).map_values(f).push(f(x)));
    }
}

/// Convert a batch of raw items: defective items are dropped and counted;
/// the batch fails only when no valid item remains.
pub fn reconcile(items: &Vec<RawFeedItem>) -> (r: RustcastResult<(Vec<EpisodeRecord>, usize)>)
    ensures
        ({
            let models = items@.map_values(|i: RawFeedItem| i@);
            &&& spec_reconcile(models).len() > 0 ==> (r matches Ok(p)
                && p.0@.map_values(|rec: EpisodeRecord| rec@) == spec_reconcile(models)
                && p.1 == spec_dropped(models))
            &&& spec_reconcile(models).len() == 0 ==> (r matches Err(e)
                && e matches RustcastError::Rss(RssError::ParseFailed(m))
                && m@ == "No valid episodes found in feed"@)
        }),
{
    let ghost models = items@.map_values(|i: RawFeedItem| i@);
    let mut valid: Vec<EpisodeRecord> = Vec::new();
    let mut dropped: usize = 0;
    let mut i: usize = 0;
    while i < items.len()
        invariant
            i <= items.len(),
            models == items@.map_values(|it: RawFeedItem| it@),
            valid@.map_values(|rec: EpisodeRecord| rec@) == spec_reconcile(models.take(i as int)),
            dropped + valid@.len() == i,
        decreases items.len() - i,
    {
        proof {
            assert(models.take(i + 1).drop_last() =~= models.take(i as int));
            assert(models.take(i + 1) =~= models.take(i as int).push(models[i as int]));
            lemma_reconcile_push(models.take(i as int), models[i as int]);
            assert(models[i as int] == items@[i as int]@);
        }
        match record_from_item(&items[i]) {
            Ok(rec) => {
                valid.push(rec);
                proof {
                    assert(valid@.map_values(|r2: EpisodeRecord| r2@) =~= valid@.drop_last()
                        .map_values(|r2: EpisodeRecord| r2@).push(valid@.last()@));
                }
            },
            Err(_) => {
                dropped = dropped + 1;
            },
        }
        i = i + 1;
    }
    proof {
        assert(models.take(i as int) =~= models);
    }
    if valid.len() == 0 {
        return Err(RustcastError::Rss(RssError::ParseFailed(String::from_str(
            "No valid episodes found in feed",
        ))));
    }
    Ok((valid, dropped))
}

/// Law: reconciliation keeps exactly the valid items, one record each, with
/// the item's title and enclosure URL preserved verbatim.
pub proof fn lemma_reconcile_keeps_valid_fields(items: Seq<ItemModel>)
    ensures
        spec_reconcile(items).len() == items.filter(|it: ItemModel| item_valid(it)).len(),
        forall|j: int|
            0 <= j < spec_reconcile(items).len() ==> {
                let kept = items.filter(|it: ItemModel| item_valid(it));
                &&& item_valid(kept[j])
                &&& (#[trigger] spec_reconcile(items)[j]).title == kept[j].title.unwrap()
                &&& spec_reconcile(items)[j].link == kept[j].enclosure_url.unwrap()
            },
{
    let pred = |it: ItemModel| item_valid(it);
    let kept = items.filter(pred);
    assert forall|j: int| 0 <= j < spec_reconcile(items).len() implies {
        &&& item_valid(kept[j])
        &&& (#[trigger] spec_reconcile(items)[j]).title == kept[j].title.unwrap()
        &&& spec_reconcile(items)[j].link == kept[j].enclosure_url.unwrap()
    } by {
        items.lemma_filter_pred(pred, j);
        assert(spec_reconcile(items)[j] == record_of(kept[j]));
    }
}

/// Law: every item is either kept or dropped; nothing valid is ever dropped,
/// and the whole batch is dropped exactly when no item is valid.
pub proof fn lemma_reconcile_drops_invalid(items: Seq<ItemModel>)
    ensures
        spec_reconcile(items).len() + items.filter(|it: ItemModel| !item_valid(it)).len()
            == items.len(),
        spec_dropped(items) == items.filter(|it: ItemModel| !item_valid(it)).len(),
        spec_reconcile(items).len() == 0 <==> (forall|j: int|
            0 <= j < items.len() ==> !item_valid(#[trigger] items[j])),
    decreases items.len(),
{
    reveal_with_fuel(Seq::filter, 2);
    let pred = |it: ItemModel| item_valid(it);
    let negpred = |it: ItemModel| !item_valid(it);
    if items.len() == 0 {
        assert(items.filter(pred) =~= Seq::<ItemModel>::empty());
        assert(items.filter(negpred) =~= Seq::<ItemModel>::empty());
    } else {
        let s = items.drop_last();
        let x = items.last();
        lemma_reconcile_drops_invalid(s);
        assert(items.filter(pred) == if pred(x) {
            s.filter(pred).push(x)
        } else {
            s.filter(pred)
        });
        assert(items.filter(negpred) == if negpred(x) {
            s.filter(negpred).push(x)
        } else {
            s.filter(negpred)
        });
        assert forall|j: int| 0 <= j < s.len() implies s[j] == items[j] by {}
        if spec_reconcile(items).len() == 0 {
            assert(!item_valid(x));
            assert(forall|j: int| 0 <= j < items.len() ==> !item_valid(#[trigger] items[j]));
        }
    }
}

} // verus!
