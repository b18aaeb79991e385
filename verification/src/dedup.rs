//! The queue's suppression of duplicates, and what it makes of a plan that
//! is published again.

use vstd::prelude::*;
use crate::feed::{new_entries, FeedEntry};
use crate::memos::{memo_dedup_id, publish_plan, shout_dedup_id, MessageView};
use crate::producer::{lemma_cursor_after_cycle, run, Cycle, Outcome};
use crate::text::{decimal_text, lemma_decimal_injective};

verus! {

/// A queue that drops what it has seen: the deduplication ids it has taken,
/// and the messages it has delivered, in order.
pub struct Queue {
    pub seen: Set<Seq<char>>,
    pub delivered: Seq<MessageView>,
}

/// The queue after one message is published: unchanged where the
/// message's id was seen before.
pub open spec fn accept(q: Queue, m: MessageView) -> Queue {
    if q.seen.contains(m.dedup_id) {
        q
    } else {
        Queue { seen: q.seen.insert(m.dedup_id), delivered: q.delivered.push(m) }
    }
}

/// The queue after a row of messages is published in order.
pub open spec fn accept_all(q: Queue, batch: Seq<MessageView>) -> Queue
    decreases batch.len(),
{
    if batch.len() == 0 {
        q
    } else {
        accept(accept_all(q, batch.drop_last()), batch.last())
    }
}

/// No two messages of the row have the same deduplication id.
pub open spec fn distinct_ids(batch: Seq<MessageView>) -> bool {
    forall|i: int, j: int|
        0 <= i < j < batch.len() ==> (#[trigger] batch[i]).dedup_id != (#[trigger] batch[j]).dedup_id
}

/// The queue has seen no id of the row.
pub open spec fn unseen(q: Queue, batch: Seq<MessageView>) -> bool {
    forall|i: int| 0 <= i < batch.len() ==> !q.seen.contains((#[trigger] batch[i]).dedup_id)
}

/// Two texts behind the same prefix are equal where the whole texts are.
pub proof fn lemma_same_prefix(prefix: Seq<char>, a: Seq<char>, b: Seq<char>)
    requires
        prefix + a == prefix + b,
    ensures
        a == b,
{
    assert((prefix + a).subrange(prefix.len() as int, (prefix + a).len() as int) =~= a);
    assert((prefix + b).subrange(prefix.len() as int, (prefix + b).len() as int) =~= b);
}

/// Announcements made with different tokens have different ids.
pub proof fn lemma_memo_id_by_token(t1: int, t2: int)
    requires
        memo_dedup_id(t1) == memo_dedup_id(t2),
    ensures
        t1 == t2,
{
    lemma_same_prefix("memo_dedup_"@, decimal_text(t1), decimal_text(t2));
    lemma_decimal_injective(t1, t2);
}

/// Under one token, shouts at different places have different ids.
pub proof fn lemma_shout_id_by_index(token: int, i: int, j: int)
    requires
        shout_dedup_id(token, i) == shout_dedup_id(token, j),
    ensures
        i == j,
{
    lemma_same_prefix("shout_dedup_"@ + decimal_text(token) + "_"@, decimal_text(i), decimal_text(j));
    lemma_decimal_injective(i, j);
}

/// The id of an announcement is the id of no shout.
pub proof fn lemma_memo_id_is_no_shout_id(t1: int, t2: int, index: int)
    ensures
        memo_dedup_id(t1) != shout_dedup_id(t2, index),
{
    reveal_strlit("memo_dedup_");
    reveal_strlit("shout_dedup_");
    assert(memo_dedup_id(t1)[0] == 'm');
    assert(shout_dedup_id(t2, index)[0] == 's');
}

/// The messages planned for one proceeding have pairwise different ids.
pub proof fn lemma_plan_ids_distinct(entry: FeedEntry, shouts: Seq<Seq<char>>, token: int)
    ensures
        distinct_ids(publish_plan(entry, shouts, token)),
{
    let plan = publish_plan(entry, shouts, token);
    assert forall|i: int, j: int| 0 <= i < j < plan.len() implies (#[trigger] plan[i]).dedup_id != (
    #[trigger] plan[j]).dedup_id by {
        assert(plan[j].dedup_id == shout_dedup_id(token, j - 1));
        if i == 0 {
            lemma_memo_id_is_no_shout_id(token, token, j - 1);
        } else {
            assert(plan[i].dedup_id == shout_dedup_id(token, i - 1));
            if plan[i].dedup_id == plan[j].dedup_id {
                lemma_shout_id_by_index(token, i - 1, j - 1);
            }
        }
    }
}

/// Publishing keeps what the queue has seen, and sees every id of the row.
pub proof fn lemma_accept_all_sees(q: Queue, batch: Seq<MessageView>)
    ensures
        forall|id: Seq<char>| q.seen.contains(id) ==> accept_all(q, batch).seen.contains(id),
        forall|i: int|
            0 <= i < batch.len() ==> accept_all(q, batch).seen.contains((#[trigger] batch[i]).dedup_id),
    decreases batch.len(),
{
    if batch.len() > 0 {
        lemma_accept_all_sees(q, batch.drop_last());
        assert forall|i: int| 0 <= i < batch.len() implies accept_all(q, batch).seen.contains(
            (#[trigger] batch[i]).dedup_id,
        ) by {
            if i < batch.len() - 1 {
                assert(batch.drop_last()[i] == batch[i]);
            }
        }
    }
}

/// Publishing a row of which the queue has seen every id changes nothing.
pub proof fn lemma_accept_all_seen(q: Queue, batch: Seq<MessageView>)
    requires
        forall|i: int| 0 <= i < batch.len() ==> q.seen.contains((#[trigger] batch[i]).dedup_id),
    ensures
        accept_all(q, batch) == q,
    decreases batch.len(),
{
    if batch.len() > 0 {
        assert forall|i: int| 0 <= i < batch.drop_last().len() implies q.seen.contains(
            (#[trigger] batch.drop_last()[i]).dedup_id,
        ) by {
            assert(batch.drop_last()[i] == batch[i]);
        }
        lemma_accept_all_seen(q, batch.drop_last());
        assert(q.seen.contains(batch[batch.len() - 1].dedup_id));
    }
}

/// Publishing two rows one after the other is publishing them as one.
pub proof fn lemma_accept_all_split(q: Queue, a: Seq<MessageView>, b: Seq<MessageView>)
    ensures
        accept_all(q, a + b) == accept_all(accept_all(q, a), b),
    decreases b.len(),
{
    if b.len() == 0 {
        assert(a + b =~= a);
    } else {
        lemma_accept_all_split(q, a, b.drop_last());
        assert((a + b).drop_last() =~= a + b.drop_last());
        assert((a + b).last() == b.last());
    }
}

/// Publishing again changes nothing: where a cycle broke off after the
/// first `sent` messages of a row and the whole row is published again, the
/// queue ends as if the row had been published once, in full.
pub proof fn lemma_republish_is_idempotent(q: Queue, batch: Seq<MessageView>, sent: int)
    requires
        0 <= sent <= batch.len(),
    ensures
        accept_all(accept_all(q, batch.take(sent)), batch) == accept_all(q, batch),
{
    let head = batch.take(sent);
    let tail = batch.skip(sent);
    let partly = accept_all(q, head);
    assert(head + tail =~= batch);
    lemma_accept_all_sees(q, head);
    lemma_accept_all_seen(partly, head);
    lemma_accept_all_split(partly, head, tail);
    lemma_accept_all_split(q, head, tail);
}

/// Nothing is lost: a row with pairwise different ids, none of them seen
/// before, is delivered whole and in order.
pub proof fn lemma_fresh_batch_delivered(q: Queue, batch: Seq<MessageView>)
    requires
        distinct_ids(batch),
        unseen(q, batch),
    ensures
        accept_all(q, batch).delivered == q.delivered + batch,
        forall|id: Seq<char>|
            accept_all(q, batch).seen.contains(id) ==> q.seen.contains(id) || exists|i: int|
                0 <= i < batch.len() && (#[trigger] batch[i]).dedup_id == id,
    decreases batch.len(),
{
    if batch.len() == 0 {
        assert(q.delivered + batch =~= q.delivered);
    } else {
        let front = batch.drop_last();
        assert forall|i: int, j: int| 0 <= i < j < front.len() implies (#[trigger] front[i]).dedup_id
            != (#[trigger] front[j]).dedup_id by {
            assert(front[i] == batch[i] && front[j] == batch[j]);
        }
        assert forall|i: int| 0 <= i < front.len() implies !q.seen.contains(
            (#[trigger] front[i]).dedup_id,
        ) by {
            assert(front[i] == batch[i]);
        }
        lemma_fresh_batch_delivered(q, front);
        let before = accept_all(q, front);
        let last = batch[batch.len() - 1];
        if before.seen.contains(last.dedup_id) {
            assert(!q.seen.contains(last.dedup_id));
            let i = choose|i: int| 0 <= i < front.len() && (#[trigger] front[i]).dedup_id == last.dedup_id;
            assert(front[i] == batch[i]);
            assert(false);
        }
        assert(q.delivered + front.push(last) =~= (q.delivered + front).push(last));
        assert(front.push(last) =~= batch);
        assert forall|id: Seq<char>| accept_all(q, batch).seen.contains(id) implies q.seen.contains(
            id,
        ) || exists|i: int| 0 <= i < batch.len() && (#[trigger] batch[i]).dedup_id == id by {
            if id == last.dedup_id {
                assert(batch[batch.len() - 1].dedup_id == id);
            } else if !q.seen.contains(id) {
                let i = choose|i: int| 0 <= i < front.len() && (#[trigger] front[i]).dedup_id == id;
                assert(batch[i].dedup_id == id);
            }
        }
    }
}

/// The messages planned for one proceeding are all delivered, in order,
/// by a queue that has seen none of their ids.
pub proof fn lemma_plan_delivered(q: Queue, entry: FeedEntry, shouts: Seq<Seq<char>>, token: int)
    requires
        unseen(q, publish_plan(entry, shouts, token)),
    ensures
        accept_all(q, publish_plan(entry, shouts, token)).delivered == q.delivered + publish_plan(
            entry,
            shouts,
            token,
        ),
{
    lemma_plan_ids_distinct(entry, shouts, token);
    lemma_fresh_batch_delivered(q, publish_plan(entry, shouts, token));
}

/// A cycle run again after a failed one does what the failed one set out
/// to do, and no more: the cursor has not moved, so the same entries of the
/// same feed are chosen; and where a proceeding is planned again with the
/// same token, the queue ends as if its messages had been published once,
/// however many of them the failed cycle had sent.
pub proof fn lemma_rerun_after_failure(
    c: Cycle,
    outcomes: Seq<Outcome>,
    feed: Seq<FeedEntry>,
    q: Queue,
    entry: FeedEntry,
    shouts: Seq<Seq<char>>,
    token: int,
    sent: int,
)
    requires
        run(c, outcomes).phase is Failed,
        0 <= sent <= publish_plan(entry, shouts, token).len(),
    ensures
        new_entries(feed, run(c, outcomes).cursor) == new_entries(feed, c.cursor),
        accept_all(
            accept_all(q, publish_plan(entry, shouts, token).take(sent)),
            publish_plan(entry, shouts, token),
        ) == accept_all(q, publish_plan(entry, shouts, token)),
{
    lemma_cursor_after_cycle(c, outcomes);
    lemma_republish_is_idempotent(q, publish_plan(entry, shouts, token), sent);
}

} // verus!
