//! The proceedings feed: its entries, and the choice of the new ones.

use vstd::prelude::*;
use crate::time::{parse_rfc2822, rfc2822_timestamp, Timestamp};

verus! {

/// One entry of the feed, as the feed gives it: each field may be absent.
#[derive(Debug, PartialEq, Eq)]
pub struct FeedEntry {
    pub title: Option<String>,
    pub link: Option<String>,
    pub description: Option<String>,
    pub pub_date: Option<String>,
}

/// Why a feed could not be read.
#[derive(Debug, PartialEq, Eq)]
pub enum FeedError {
    /// The document is no feed.
    Parse,
}

/// The entries that the rss crate reads from a feed document, in document
/// order; `None` where it rejects the document.
pub uninterp spec fn feed_entries_of(content: Seq<u8>) -> Option<Seq<FeedEntry>>;

/// The views of an optional list of entries.
pub open spec fn opt_entries(r: Option<Vec<FeedEntry>>) -> Option<Seq<FeedEntry>> {
    match r {
        Some(v) => Some(v@),
        None => None,
    }
}

impl FeedEntry {
    /// When the entry was published; `None` where the date is missing or
    /// cannot be read.
    pub open spec fn published(self) -> Option<Timestamp> {
        match self.pub_date {
            Some(d) => rfc2822_timestamp(d@),
            None => None,
        }
    }

    /// The entry was published strictly after `since`.
    pub open spec fn newer_than(self, since: Timestamp) -> bool {
        match self.published() {
            Some(t) => t.after(since),
            None => false,
        }
    }

    /// A copy of the entry.
    pub fn copy(&self) -> (r: FeedEntry)
        ensures
            r == *self,
    {
        FeedEntry {
            title: copy_opt(&self.title),
            link: copy_opt(&self.link),
            description: copy_opt(&self.description),
            pub_date: copy_opt(&self.pub_date),
        }
    }

    /// Whether the entry was published strictly after `since`.
    pub fn is_newer_than(&self, since: &Timestamp) -> (r: bool)
        ensures
            r == self.newer_than(*since),
    {
        match &self.pub_date {
            Some(d) => match parse_rfc2822(d.as_str()) {
                Some(t) => t.is_after(since),
                None => false,
            },
            None => false,
        }
    }
}

/// A copy of an optional string.
pub fn copy_opt(s: &Option<String>) -> (r: Option<String>)
    ensures
        r == *s,
{
    match s {
        Some(t) => Some(t.clone()),
        None => None,
    }
}

/// The test that an entry is newer than `since`.
pub open spec fn newer(since: Timestamp) -> spec_fn(FeedEntry) -> bool {
    |e: FeedEntry| e.newer_than(since)
}

/// The entries of `all` published strictly after `since`, in their order.
pub open spec fn new_entries(all: Seq<FeedEntry>, since: Timestamp) -> Seq<FeedEntry> {
    all.filter(newer(since))
}

/// Calls `rss::Channel::read_from` and `Channel::items`, and copies the
/// title, link, description and publication date of each item. Trusted: the
/// result is the named list of entries, `None` on a read error.
#[verifier::external_body]
fn read_feed(content: &[u8]) -> (r: Option<Vec<FeedEntry>>)
    ensures
        opt_entries(r) == feed_entries_of(content@),
{
    let channel = rss::Channel::read_from(content).ok()?;
    Some(
        channel.items().iter().map(|i| FeedEntry {
            title: i.title().map(String::from),
            link: i.link().map(String::from),
            description: i.description().map(String::from),
            pub_date: i.pub_date().map(String::from),
        }).collect(),
    )
}

/// Keeps the entries published strictly after `since`, in feed order.
/// Entries without a readable date are dropped.
pub fn select_new_entries(all: &Vec<FeedEntry>, since: &Timestamp) -> (r: Vec<FeedEntry>)
    ensures
        r@ == new_entries(all@, *since),
{
    let mut out: Vec<FeedEntry> = Vec::new();
    let mut i: usize = 0;
    proof {
        assert(all@.take(0) =~= Seq::<FeedEntry>::empty());
        assert(out@ =~= new_entries(all@.take(0), *since));
    }
    while i < all.len()
        invariant
            i <= all.len(),
            out@ == new_entries(all@.take(i as int), *since),
        decreases all.len() - i,
    {
        proof {
            let prefix = all@.take(i as int);
            assert(all@.take(i + 1) =~= prefix.push(all@[i as int]));
            prefix.lemma_filter_push(all@[i as int], newer(*since));
        }
        if all[i].is_newer_than(since) {
            out.push(all[i].copy());
        }
        i += 1;
    }
    proof {
        assert(all@.take(all.len() as int) =~= all@);
    }
    out
}

/// Reads a feed document and keeps the entries published strictly after
/// `date`, in feed order.
pub fn get_feed(content: &[u8], date: &Timestamp) -> (r: Result<Vec<FeedEntry>, FeedError>)
    ensures
        match feed_entries_of(content@) {
            Some(all) => r.is_ok() && r.unwrap()@ == new_entries(all, *date),
            None => r == Err::<Vec<FeedEntry>, FeedError>(FeedError::Parse),
        },
{
    match read_feed(content) {
        Some(all) => Ok(select_new_entries(&all, date)),
        None => Err(FeedError::Parse),
    }
}

/// What is kept of a feed: only entries of the feed that are newer than
/// `since`, and every such entry.
pub proof fn lemma_new_entries(all: Seq<FeedEntry>, since: Timestamp)
    ensures
        forall|i: int|
            0 <= i < new_entries(all, since).len() ==> {
                &&& (#[trigger] new_entries(all, since)[i]).newer_than(since)
                &&& all.contains(new_entries(all, since)[i])
            },
        forall|i: int|
            0 <= i < all.len() && (#[trigger] all[i]).newer_than(since) ==> new_entries(
                all,
                since,
            ).contains(all[i]),
{
    let kept = new_entries(all, since);
    assert forall|i: int| 0 <= i < kept.len() implies {
        &&& (#[trigger] kept[i]).newer_than(since)
        &&& all.contains(kept[i])
    } by {
        all.lemma_filter_pred(newer(since), i);
        assert(kept.contains(kept[i]));
        all.lemma_filter_contains_rev(newer(since), kept[i]);
    }
    assert forall|i: int| 0 <= i < all.len() && (#[trigger] all[i]).newer_than(since) implies kept.contains(
        all[i],
    ) by {
        all.lemma_filter_contains(newer(since), i);
    }
}

/// Feed order is kept: what is kept of a feed with one more entry at its
/// end is what was kept before, with that entry at its end where it is newer
/// than `since`.
pub proof fn lemma_new_entries_in_order(all: Seq<FeedEntry>, last: FeedEntry, since: Timestamp)
    ensures
        new_entries(all.push(last), since) == if last.newer_than(since) {
            new_entries(all, since).push(last)
        } else {
            new_entries(all, since)
        },
        new_entries(Seq::empty(), since) == Seq::<FeedEntry>::empty(),
{
    all.lemma_filter_push(last, newer(since));
    assert(new_entries(Seq::empty(), since) =~= Seq::<FeedEntry>::empty()) by {
        Seq::<FeedEntry>::empty().lemma_filter_len(newer(since));
    }
}

} // verus!
