//! Properties of the engine that relate several fetches or several writes.
use vstd::prelude::*;

use crate::engine::{cursor_after, planned_writes, sync_ops, write_ops, RepoOpView};
use crate::envelope::Envelope;

verus! {

/// Identifiers strictly ascending, each above `cursor`: what the message
/// source hands out for a fetch from `cursor`.
pub open spec fn ascending_above(cursor: int, ids: Seq<int>) -> bool {
    &&& forall|i: int| 0 <= i < ids.len() ==> cursor < #[trigger] ids[i]
    &&& forall|i: int, j: int| 0 <= i < j < ids.len() ==> ids[i] < ids[j]
}

/// Each batch, an empty one standing for a failed fetch, as the source hands
/// it out for the cursor that the earlier batches left.
pub open spec fn fetched_in_order(cursor: int, batches: Seq<Seq<int>>) -> bool
    decreases batches.len(),
{
    batches.len() > 0 ==> {
        &&& ascending_above(cursor, batches[0])
        &&& fetched_in_order(cursor_after(cursor, batches[0]), batches.drop_first())
    }
}

/// The cursor after the batches, one after the other.
pub open spec fn cursor_after_batches(cursor: int, batches: Seq<Seq<int>>) -> int
    decreases batches.len(),
{
    if batches.len() == 0 {
        cursor
    } else {
        cursor_after_batches(cursor_after(cursor, batches[0]), batches.drop_first())
    }
}

/// The largest of `start` and the identifiers.
pub open spec fn max_of(start: int, ids: Seq<int>) -> int
    decreases ids.len(),
{
    if ids.len() == 0 {
        start
    } else {
        let m = max_of(start, ids.drop_last());
        if ids.last() > m {
            ids.last()
        } else {
            m
        }
    }
}

/// The largest of `start` and every identifier of every batch.
pub open spec fn max_seen(start: int, batches: Seq<Seq<int>>) -> int
    decreases batches.len(),
{
    if batches.len() == 0 {
        start
    } else {
        max_seen(max_of(start, batches[0]), batches.drop_first())
    }
}

proof fn lemma_last_is_max(cursor: int, ids: Seq<int>)
    requires
        ascending_above(cursor, ids),
    ensures
        max_of(cursor, ids) == cursor_after(cursor, ids),
    decreases ids.len(),
{
    if ids.len() > 0 {
        let rest = ids.drop_last();
        assert(ascending_above(cursor, rest));
        lemma_last_is_max(cursor, rest);
        if rest.len() > 0 {
            assert(rest.last() == ids[ids.len() - 2]);
        }
    }
}

/// After any run of fetches, each batch ascending and above the cursor it was
/// fetched from, the cursor is the largest identifier seen so far (or the
/// starting cursor when none was), whether or not any envelope was relevant.
pub proof fn lemma_cursor_is_max_seen(cursor: int, batches: Seq<Seq<int>>)
    requires
        fetched_in_order(cursor, batches),
    ensures
        cursor_after_batches(cursor, batches) == max_seen(cursor, batches),
    decreases batches.len(),
{
    if batches.len() > 0 {
        lemma_last_is_max(cursor, batches[0]);
        lemma_cursor_is_max_seen(cursor_after(cursor, batches[0]), batches.drop_first());
    }
}

/// The artifact store after the writes, in order: each identifier names one
/// file, and a later write of it replaces the earlier content.
pub open spec fn apply_writes(store: Map<i64, Seq<char>>, writes: Seq<(i64, Seq<char>)>) -> Map<
    i64,
    Seq<char>,
>
    decreases writes.len(),
{
    if writes.len() == 0 {
        store
    } else {
        apply_writes(store, writes.drop_last()).insert(writes.last().0, writes.last().1)
    }
}

proof fn lemma_apply_is_union(store: Map<i64, Seq<char>>, writes: Seq<(i64, Seq<char>)>)
    ensures
        apply_writes(store, writes) == store.union_prefer_right(apply_writes(Map::empty(), writes)),
    decreases writes.len(),
{
    if writes.len() == 0 {
        assert(store.union_prefer_right(Map::empty()) =~= store);
    } else {
        lemma_apply_is_union(store, writes.drop_last());
        lemma_apply_is_union(Map::empty(), writes.drop_last());
        assert(Map::<i64, Seq<char>>::empty().union_prefer_right(
            apply_writes(Map::empty(), writes.drop_last()),
        ) =~= apply_writes(Map::empty(), writes.drop_last()));
        assert(apply_writes(store, writes) =~= store.union_prefer_right(
            apply_writes(Map::empty(), writes),
        ));
    }
}

/// Writing the same artifacts a second time, as after a restart that
/// recovered the same cursor, leaves the store as the first time did: the
/// same files with the same contents.
pub proof fn lemma_writes_idempotent(store: Map<i64, Seq<char>>, writes: Seq<(i64, Seq<char>)>)
    ensures
        apply_writes(apply_writes(store, writes), writes) == apply_writes(store, writes),
{
    let w = apply_writes(Map::empty(), writes);
    lemma_apply_is_union(store, writes);
    lemma_apply_is_union(apply_writes(store, writes), writes);
    assert(store.union_prefer_right(w).union_prefer_right(w) =~= store.union_prefer_right(w));
}

/// The repository work of a batch opens with its only pull and closes with
/// its only push, and every relevant envelope of the batch is written in
/// between, in batch order.
pub proof fn lemma_one_pull_one_push(batch: Seq<Envelope>, channel: i64)
    ensures
        ({
            let ops = sync_ops(planned_writes(batch, channel));
            &&& ops[0] == RepoOpView::Pull
            &&& ops.last() == RepoOpView::Push
            &&& forall|i: int| 0 < i < ops.len() ==> !(#[trigger] ops[i] is Pull)
            &&& forall|i: int| 0 <= i < ops.len() - 1 ==> !(#[trigger] ops[i] is Push)
            &&& ops.subrange(1, ops.len() - 1) == write_ops(planned_writes(batch, channel))
        }),
{
    let w = write_ops(planned_writes(batch, channel));
    let ops = sync_ops(planned_writes(batch, channel));
    assert(ops.subrange(1, ops.len() - 1) =~= w);
    assert forall|i: int| 0 < i < ops.len() implies !(#[trigger] ops[i] is Pull) by {
        if i < ops.len() - 1 {
            assert(ops[i] == w[i - 1]);
        }
    }
    assert forall|i: int| 0 <= i < ops.len() - 1 implies !(#[trigger] ops[i] is Push) by {
        if i > 0 {
            assert(ops[i] == w[i - 1]);
        }
    }
}

/// An empty fetch leaves the cursor where it was and calls for no
/// repository work: no pull, no write, no push.
pub proof fn lemma_empty_fetch_is_idle(cursor: int, channel: i64)
    ensures
        cursor_after(cursor, Seq::<int>::empty()) == cursor,
        planned_writes(Seq::<Envelope>::empty(), channel).len() == 0,
{
}

} // verus!
