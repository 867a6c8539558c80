//! The synchronization engine: from each fetch outcome to the cursor that
//! follows and the repository work that the batch calls for.
use vstd::prelude::*;

use crate::envelope::{canonical, is_relevant, primary_message, relevant, Envelope};

verus! {

/// Why a fetch brought no envelopes. Each is transient: the loop waits and
/// asks again with the same cursor.
pub enum TransportError {
    /// The request did not complete.
    Unreachable,
    /// The source answered with a status outside 200..=299.
    Status(u16),
    /// The source reported a logical failure.
    Rejected,
    /// The response body was not a well-formed answer.
    Malformed,
}

/// Decides what a response of the message source amounts to: `body` is the
/// decoded answer, its success flag and its envelopes, or `None` when the
/// body did not decode.
pub fn updates_from_response(status: u16, body: Option<(bool, Vec<Envelope>)>) -> (r: Result<
    Vec<Envelope>,
    TransportError,
>)
    ensures
        !(200 <= status <= 299) ==> r == Err::<Vec<Envelope>, _>(TransportError::Status(status)),
        200 <= status <= 299 ==> r == match body {
            None => Err(TransportError::Malformed),
            Some((ok, envs)) => if ok {
                Ok(envs)
            } else {
                Err(TransportError::Rejected)
            },
        },
{
    if !(200 <= status && status <= 299) {
        return Err(TransportError::Status(status));
    }
    match body {
        None => Err(TransportError::Malformed),
        Some((ok, envs)) => if ok {
            Ok(envs)
        } else {
            Err(TransportError::Rejected)
        },
    }
}

/// A file to persist: the artifact `<id>.json` holding `payload`.
pub struct Artifact {
    pub id: i64,
    pub payload: String,
}

/// One operation on the local clone of the repository.
pub enum RepoOp {
    /// Pull the remote into the clone.
    Pull,
    /// Write an artifact, replacing any file of the same name.
    Write(Artifact),
    /// Add all changes, commit them and push.
    Push,
}

pub enum RepoOpView {
    Pull,
    Write(i64, Seq<char>),
    Push,
}

impl View for RepoOp {
    type V = RepoOpView;

    open spec fn view(&self) -> RepoOpView {
        match self {
            RepoOp::Pull => RepoOpView::Pull,
            RepoOp::Write(a) => RepoOpView::Write(a.id, a.payload@),
            RepoOp::Push => RepoOpView::Push,
        }
    }
}

/// What the loop does after a fetch.
pub enum Plan {
    /// The fetch failed: wait the fixed delay, then fetch again.
    RetryLater,
    /// Nothing to persist: fetch again.
    Idle,
    /// Run these operations in order; the first failure is fatal.
    Sync(Vec<RepoOp>),
}

/// The identifiers of a batch, in order.
pub open spec fn batch_ids(batch: Seq<Envelope>) -> Seq<int> {
    batch.map_values(|e: Envelope| e.id as int)
}

/// The cursor after a successful fetch: the last identifier of the batch, or
/// the old cursor when the batch is empty.
pub open spec fn cursor_after(cursor: int, ids: Seq<int>) -> int {
    if ids.len() == 0 {
        cursor
    } else {
        ids.last()
    }
}

/// The artifacts that a batch calls for: the canonical payload of each
/// relevant envelope, in batch order.
pub open spec fn planned_writes(batch: Seq<Envelope>, channel: i64) -> Seq<(i64, Seq<char>)>
    decreases batch.len(),
{
    if batch.len() == 0 {
        Seq::empty()
    } else {
        let prev = planned_writes(batch.drop_last(), channel);
        if relevant(batch.last(), channel) {
            prev.push((batch.last().id, canonical(batch.last())->0@))
        } else {
            prev
        }
    }
}

pub open spec fn write_ops(writes: Seq<(i64, Seq<char>)>) -> Seq<RepoOpView> {
    writes.map_values(|w: (i64, Seq<char>)| RepoOpView::Write(w.0, w.1))
}

/// One pull, then the writes in order, then one push.
pub open spec fn sync_ops(writes: Seq<(i64, Seq<char>)>) -> Seq<RepoOpView> {
    seq![RepoOpView::Pull] + write_ops(writes) + seq![RepoOpView::Push]
}

pub open spec fn ops_view(ops: Seq<RepoOp>) -> Seq<RepoOpView> {
    ops.map_values(|o: RepoOp| o@)
}

/// The plan that a successful fetch of `batch` calls for.
pub open spec fn plan_matches(p: Plan, batch: Seq<Envelope>, channel: i64) -> bool {
    if planned_writes(batch, channel).len() == 0 {
        p is Idle
    } else {
        p matches Plan::Sync(ops) && ops_view(ops@) == sync_ops(planned_writes(batch, channel))
    }
}

/// The state that the loop carries from one fetch to the next.
pub struct SyncEngine {
    /// The highest identifier fetched so far, or -1.
    pub cursor: i64,
    /// The channel whose messages are persisted.
    pub channel_id: i64,
}

impl SyncEngine {
    pub fn new(cursor: i64, channel_id: i64) -> (r: SyncEngine)
        ensures
            r.cursor == cursor,
            r.channel_id == channel_id,
    {
        SyncEngine { cursor, channel_id }
    }

    /// The offset of the next fetch: one past the cursor, or `None` when no
    /// identifier can follow it.
    pub fn next_offset(&self) -> (r: Option<i64>)
        ensures
            self.cursor < i64::MAX ==> r == Some((self.cursor + 1) as i64),
            self.cursor == i64::MAX ==> r is None,
    {
        if self.cursor < i64::MAX {
            Some(self.cursor + 1)
        } else {
            None
        }
    }

    /// Takes the outcome of one fetch: advances the cursor past every
    /// envelope of a batch, relevant or not, and plans the repository work.
    pub fn on_fetch(&mut self, outcome: Result<Vec<Envelope>, TransportError>) -> (r: Plan)
        ensures
            final(self).channel_id == old(self).channel_id,
            outcome is Err ==> r is RetryLater && final(self).cursor == old(self).cursor,
            outcome matches Ok(batch) ==> final(self).cursor == cursor_after(
                old(self).cursor as int,
                batch_ids(batch@),
            ) && plan_matches(r, batch@, old(self).channel_id),
    {
        match outcome {
            Err(_) => Plan::RetryLater,
            Ok(batch) => {
                if batch.len() > 0 {
                    self.cursor = batch[batch.len() - 1].id;
                }
                plan_batch(&batch, self.channel_id)
            },
        }
    }
}

/// The repository work for one batch: `Idle` when no envelope is relevant,
/// else one pull, a write of each relevant envelope in order, and one push.
pub fn plan_batch(batch: &Vec<Envelope>, channel: i64) -> (r: Plan)
    ensures
        plan_matches(r, batch@, channel),
{
    let mut ops: Vec<RepoOp> = Vec::new();
    ops.push(RepoOp::Pull);
    let mut i: usize = 0;
    while i < batch.len()
        invariant
            i <= batch@.len(),
            ops_view(ops@) == seq![RepoOpView::Pull] + write_ops(
                planned_writes(batch@.subrange(0, i as int), channel),
            ),
        decreases batch@.len() - i,
    {
        let ghost sub = batch@.subrange(0, i + 1);
        proof {
            assert(sub.drop_last() =~= batch@.subrange(0, i as int));
            assert(sub.last() == batch@[i as int]);
        }
        if is_relevant(&batch[i], channel) {
            match primary_message(&batch[i]) {
                Some(payload) => {
                    let ghost before = ops@;
                    ops.push(RepoOp::Write(Artifact { id: batch[i].id, payload }));
                    proof {
                        assert(ops@ =~= before.push(ops@.last()));
                        assert(ops_view(ops@) =~= ops_view(before).push(ops@.last()@));
                        assert(write_ops(planned_writes(sub, channel)) =~= write_ops(
                            planned_writes(batch@.subrange(0, i as int), channel),
                        ).push(RepoOpView::Write(batch@[i as int].id, canonical(batch@[i as int])->0@)));
                    }
                },
                None => {},
            }
        }
        i = i + 1;
    }
    assert(batch@.subrange(0, i as int) =~= batch@);
    if ops.len() == 1 {
        assert(write_ops(planned_writes(batch@, channel)).len() == 0);
        Plan::Idle
    } else {
        let ghost before = ops@;
        ops.push(RepoOp::Push);
        proof {
            assert(ops@ =~= before.push(RepoOp::Push));
            assert(ops_view(ops@) =~= ops_view(before).push(RepoOpView::Push));
            assert(ops_view(ops@) =~= sync_ops(planned_writes(batch@, channel)));
        }
        Plan::Sync(ops)
    }
}

} // verus!

verus! {

/// The progress of one batch's repository work: the operations run one at a
/// time, in order, and the first failure halts the run for good.
pub struct SyncRun {
    ops: Vec<RepoOp>,
    done: usize,
    halted: bool,
}

impl SyncRun {
    pub closed spec fn ops(&self) -> Seq<RepoOpView> {
        ops_view(self.ops@)
    }

    /// How many operations have succeeded.
    pub closed spec fn done(&self) -> nat {
        self.done as nat
    }

    pub closed spec fn is_halted(&self) -> bool {
        self.halted
    }

    pub closed spec fn wf(&self) -> bool {
        self.done <= self.ops@.len()
    }

    pub fn new(ops: Vec<RepoOp>) -> (r: SyncRun)
        ensures
            r.wf(),
            r.ops() == ops_view(ops@),
            r.done() == 0,
            !r.is_halted(),
    {
        SyncRun { ops, done: 0, halted: false }
    }

    /// The operation to perform now; `None` once all have succeeded or one
    /// has failed.
    pub fn current(&self) -> (r: Option<&RepoOp>)
        requires
            self.wf(),
        ensures
            self.is_halted() || self.done() == self.ops().len() ==> r is None,
            !self.is_halted() && self.done() < self.ops().len() ==> (r matches Some(op) && op@
                == self.ops()[self.done() as int]),
    {
        if self.halted || self.done >= self.ops.len() {
            None
        } else {
            Some(&self.ops[self.done])
        }
    }

    /// Records whether the current operation succeeded: success moves on to
    /// the next one, failure halts the run.
    pub fn record(&mut self, succeeded: bool)
        requires
            old(self).wf(),
            !old(self).is_halted(),
            old(self).done() < old(self).ops().len(),
        ensures
            final(self).wf(),
            final(self).ops() == old(self).ops(),
            succeeded ==> final(self).done() == old(self).done() + 1 && !final(self).is_halted(),
            !succeeded ==> final(self).done() == old(self).done() && final(self).is_halted(),
    {
        let n = self.ops.len();
        assert(self.ops().len() == n);
        if succeeded {
            self.done = self.done + 1;
        } else {
            self.halted = true;
        }
    }

    /// Whether every operation has succeeded.
    pub fn finished(&self) -> (r: bool)
        requires
            self.wf(),
        ensures
            r == (!self.is_halted() && self.done() == self.ops().len()),
    {
        !self.halted && self.done == self.ops.len()
    }
}

} // verus!
