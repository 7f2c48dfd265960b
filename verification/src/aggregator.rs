//! The fan-in: one shard worker per shard, all feeding one bounded queue,
//! drained by one consumer.
//!
//! The concurrent run itself — one task per shard plus the consumer — is
//! the binary's; each task exclusively owns its `ShardWorker` and shares
//! only the queue, so pollers contend over nothing but queue room.  What
//! each task decides at an iteration boundary is here, verified: how a
//! fetched batch becomes a pending push, when a pending push is accepted
//! or delayed, what the consumer renders or drops, and when everything
//! winds down.  One worker's failure is its own: no function here touches
//! more than one worker, so the others keep polling.

use vstd::prelude::*;

use crate::config::StartPolicy;
use crate::error::Error;
use crate::kinesis::spec_fetch_step;
use crate::kinesis::spec_observe_cancellation;
use crate::kinesis::run_poller;
use crate::kinesis::KinesisShardIterator;
use crate::printer::spec_rendered;
use crate::printer::RecordsPrinter;
use crate::queue::OutputQueue;
use crate::records::RecordBatch;

verus! {

/// One shard's side of the fan-in: its poller, plus at most one batch
/// fetched but not yet accepted by the queue (the backpressure slot).
#[derive(Debug)]
pub struct ShardWorker {
    pub poller: KinesisShardIterator,
    pub pending: Option<RecordBatch>,
}

/// Builds exactly one worker per shard, every one starting without a
/// token, all from the same validated start policy.
pub fn build_workers(
    stream_name: &str,
    shard_ids: &Vec<String>,
    policy: &StartPolicy,
    region: &str,
) -> (r: Vec<ShardWorker>)
    ensures
        r@.len() == shard_ids@.len(),
        forall|i: int|
            0 <= i < r@.len() ==> {
                let w = #[trigger] r@[i];
                &&& w.pending is None
                &&& w.poller.state is NeedToken
                &&& w.poller.wf()
                &&& w.poller.request.stream_name@ == stream_name@
                &&& w.poller.request.shard_id@ == shard_ids@[i]@
                &&& w.poller.request.region@ == region@
            },
{
    let mut out: Vec<ShardWorker> = Vec::new();
    let n = shard_ids.len();
    let mut i: usize = 0;
    while i < n
        invariant
            i <= n,
            n == shard_ids@.len(),
            out@.len() == i,
            forall|j: int|
                0 <= j < i ==> {
                    let w = #[trigger] out@[j];
                    &&& w.pending is None
                    &&& w.poller.state is NeedToken
                    &&& w.poller.wf()
                    &&& w.poller.request.stream_name@ == stream_name@
                    &&& w.poller.request.shard_id@ == shard_ids@[j]@
                    &&& w.poller.request.region@ == region@
                },
        decreases n - i,
    {
        let poller = KinesisShardIterator::from_policy(
            stream_name,
            shard_ids[i].as_str(),
            policy,
            region,
        );
        out.push(ShardWorker { poller, pending: None });
        i = i + 1;
    }
    out
}

/// Where a worker's pending slot and the queue stand after one push
/// attempt: a pending batch moves to the back of a queue with room; a
/// full queue keeps it pending, unharmed.
pub open spec fn spec_flush(
    pending: Option<RecordBatch>,
    buffered: Seq<RecordBatch>,
    capacity: nat,
) -> (Option<RecordBatch>, Seq<RecordBatch>) {
    match pending {
        Some(b) => if buffered.len() < capacity {
            (None, buffered.push(b))
        } else {
            (pending, buffered)
        },
        None => (pending, buffered),
    }
}

/// Tries to move the worker's pending batch into the queue.  Whether it
/// goes through depends on queue room alone — never on another worker —
/// and a full queue only delays it: the batch stays pending, no error.
pub fn flush_pending(w: &mut ShardWorker, queue: &mut OutputQueue) -> (pushed: bool)
    requires
        old(queue).wf(),
        !old(queue).closed,
    ensures
        final(queue).wf(),
        final(queue).capacity == old(queue).capacity,
        final(queue).closed == old(queue).closed,
        final(w).poller == old(w).poller,
        (final(w).pending, final(queue).items@) == spec_flush(
            old(w).pending,
            old(queue).items@,
            old(queue).capacity as nat,
        ),
        pushed == (old(w).pending is Some && !old(queue).spec_is_full()),
{
    let mut taken: Option<RecordBatch> = None;
    std::mem::swap(&mut taken, &mut w.pending);
    match taken {
        Some(b) => {
            match queue.try_push(b) {
                Ok(()) => true,
                Err(b) => {
                    w.pending = Some(b);
                    false
                },
            }
        },
        None => false,
    }
}

/// Digests one fetch outcome into the worker: a successful batch becomes
/// the pending push and the poller's token advances (or its shard
/// closes); a failure ends this poller alone, the error handed back.
pub fn accept_fetch(w: &mut ShardWorker, outcome: Result<RecordBatch, Error>) -> (r: Result<
    (),
    Error,
>)
    requires
        old(w).poller.state is HaveToken,
        old(w).pending is None,
    ensures
        final(w).poller.request == old(w).poller.request,
        outcome matches Ok(b) ==> final(w).poller.state == spec_fetch_step(b) && final(w).pending
            == Some(b) && r is Ok,
        outcome matches Err(e) ==> final(w).poller.state is Failed && final(w).pending is None && (
        r matches Err(e2) && e2 == e),
{
    match w.poller.apply_fetch(outcome) {
        Ok(b) => {
            w.pending = Some(b);
            Ok(())
        },
        Err(e) => Err(e),
    }
}

/// Digests the worker's token resolution: a token starts its fetch loop;
/// a failure ends this poller alone, the error handed back.
pub fn accept_resolution(w: &mut ShardWorker, outcome: Result<String, Error>) -> (r: Result<
    (),
    Error,
>)
    requires
        old(w).poller.state is NeedToken,
    ensures
        final(w).poller.request == old(w).poller.request,
        final(w).pending == old(w).pending,
        outcome matches Ok(t) ==> final(w).poller.state == crate::kinesis::PollerState::HaveToken(t)
            && r is Ok,
        outcome matches Err(e) ==> final(w).poller.state is Failed && (r matches Err(e2) && e2
            == e),
{
    w.poller.apply_resolution(outcome)
}

/// Lets the worker observe cancellation: the poller stops before any new
/// tick, and a batch still pending is abandoned — nothing more is pushed
/// after the signal.
pub fn observe_cancel(w: &mut ShardWorker)
    ensures
        final(w).poller.request == old(w).poller.request,
        final(w).poller.state == spec_observe_cancellation(old(w).poller.state),
        final(w).pending is None,
{
    w.poller.observe_cancellation();
    w.pending = None;
}

/// Whether a dequeued batch reaches the renderer: only one that carries
/// records.  An empty batch carries no information worth displaying and
/// is dropped silently, by design.
pub open spec fn spec_should_render(b: RecordBatch) -> bool {
    b.records@.len() > 0
}

/// One consumer iteration: takes the oldest buffered batch and renders it
/// if it has records.  `None`: nothing was buffered.  `Some(None)`: a
/// batch was dequeued and dropped as empty.  `Some(Some(text))`: the
/// dequeued batch rendered with the printer's fixed choice.
pub fn consume_step(queue: &mut OutputQueue, printer: &RecordsPrinter) -> (r: Option<
    Option<String>,
>)
    requires
        old(queue).wf(),
    ensures
        final(queue).wf(),
        final(queue).capacity == old(queue).capacity,
        final(queue).closed == old(queue).closed,
        old(queue).items@.len() == 0 ==> r is None && final(queue).items@ == old(queue).items@,
        old(queue).items@.len() > 0 ==> {
            let b = old(queue).items@[0];
            &&& final(queue).items@ == old(queue).items@.drop_first()
            &&& (r matches Some(inner) && {
                &&& !spec_should_render(b) ==> inner is None
                &&& spec_should_render(b) ==> (inner matches Some(s) && s@ == spec_rendered(
                    b.records@,
                    printer.is_verbose,
                    printer.data_format,
                ))
            })
        },
{
    match queue.pop() {
        Some(b) => {
            if b.records.len() > 0 {
                Some(Some(printer.print(b.records.as_slice())))
            } else {
                Some(None)
            }
        },
        None => None,
    }
}

/// Whether the consumer loop is done: the queue is drained, and either
/// cancellation was signalled or every poller has exited and the queue
/// was closed behind them.
pub fn consumer_done(queue: &OutputQueue, stopping: bool) -> (r: bool)
    ensures
        r == (queue.items@.len() == 0 && (stopping || queue.closed)),
{
    queue.is_empty() && (stopping || queue.is_closed())
}

/// The batches the consumer delivers by popping until the queue is empty,
/// oldest first.
pub open spec fn spec_drained(buffered: Seq<RecordBatch>) -> Seq<RecordBatch>
    decreases buffered.len(),
{
    if buffered.len() == 0 {
        Seq::empty()
    } else {
        seq![buffered[0]] + spec_drained(buffered.drop_first())
    }
}

/// A zero-record batch with a next token still advances its poller's
/// token, and nothing of it reaches the renderer downstream.
pub proof fn lemma_zero_record_batch_advances_silently(b: RecordBatch, t2: String)
    requires
        b.records@.len() == 0,
        b.next_token == Some(t2),
    ensures
        spec_fetch_step(b) == crate::kinesis::PollerState::HaveToken(t2),
        !spec_should_render(b),
{
}

/// Two pollers feeding the same queue never block each other while it has
/// room: the first push is accepted whatever the other worker holds; a
/// second push behind it is accepted exactly while room remains, and a
/// full queue only delays it — the batch stays pending, no error — until
/// one consumer pop makes room.
pub proof fn lemma_fan_in_backpressure(
    a: RecordBatch,
    b: RecordBatch,
    buffered: Seq<RecordBatch>,
    capacity: nat,
)
    requires
        buffered.len() < capacity,
    ensures
        spec_flush(Some(a), buffered, capacity) == (None::<RecordBatch>, buffered.push(a)),
        buffered.len() + 1 < capacity ==> spec_flush(Some(b), buffered.push(a), capacity) == (
            None::<RecordBatch>,
            buffered.push(a).push(b),
        ),
        buffered.len() + 1 == capacity ==> spec_flush(Some(b), buffered.push(a), capacity) == (
            Some(b),
            buffered.push(a),
        ),
        buffered.len() + 1 == capacity ==> spec_flush(
            Some(b),
            buffered.push(a).drop_first(),
            capacity,
        ) == (None::<RecordBatch>, buffered.push(a).drop_first().push(b)),
{
}

/// Draining hands over exactly the buffered batches, in order: nothing
/// already buffered is lost, nothing is reordered.
pub proof fn lemma_drain_delivers_all(buffered: Seq<RecordBatch>)
    ensures
        spec_drained(buffered) == buffered,
    decreases buffered.len(),
{
    if buffered.len() == 0 {
        assert(spec_drained(buffered) =~= buffered);
    } else {
        lemma_drain_delivers_all(buffered.drop_first());
        assert(spec_drained(buffered) =~= buffered);
    }
}

/// Cancellation, observed at the next iteration boundary of every loop,
/// stops every poller — each is terminal afterwards and emits no further
/// batch — while the consumer still drains every batch already buffered.
pub proof fn lemma_cancellation_stops_all_and_drains(
    states: Seq<crate::kinesis::PollerState>,
    buffered: Seq<RecordBatch>,
)
    ensures
        forall|i: int|
            0 <= i < states.len() ==> (#[trigger] spec_observe_cancellation(
                states[i],
            )).is_terminal(),
        forall|i: int, more: Seq<RecordBatch>|
            0 <= i < states.len() ==> #[trigger] run_poller(
                spec_observe_cancellation(states[i]),
                more,
            ).1 == Seq::<RecordBatch>::empty(),
        spec_drained(buffered) == buffered,
{
    assert forall|i: int, more: Seq<RecordBatch>|
        0 <= i < states.len() implies #[trigger] run_poller(
        spec_observe_cancellation(states[i]),
        more,
    ).1 == Seq::<RecordBatch>::empty() by {
        crate::kinesis::lemma_terminal_poller_emits_nothing(
            spec_observe_cancellation(states[i]),
            more,
        );
    }
    lemma_drain_delivers_all(buffered);
}

} // verus!
