//! The output queue: one bounded FIFO of record batches, shared by every
//! shard poller (producers) and the one consumer loop.
//!
//! Its capacity is fixed when the tailer starts, proportional to the shard
//! count, so a burst from one shard cannot starve the others' buffering.
//! A push to a full queue is not an error: the batch is handed back and
//! the producer waits — backpressure that delays that shard's next tick.
//! The queue is closed only after every poller has exited; the consumer
//! stops at an empty, closed queue.

use vstd::prelude::*;

use crate::records::RecordBatch;

verus! {

/// How many batches the queue buffers for each polled shard.
pub const BATCHES_PER_SHARD: usize = 1000;

/// The queue capacity for a given shard count.
pub fn capacity_for_shards(shard_count: usize) -> (r: usize)
    requires
        shard_count as int <= usize::MAX as int / BATCHES_PER_SHARD as int,
    ensures
        r == BATCHES_PER_SHARD * shard_count,
{
    BATCHES_PER_SHARD * shard_count
}

/// The bounded FIFO between the pollers and the consumer.
#[derive(Debug)]
pub struct OutputQueue {
    /// Buffered batches, oldest first.
    pub items: Vec<RecordBatch>,
    /// The fixed bound on how many batches may be buffered.
    pub capacity: usize,
    /// Set once every producer is gone; nothing is pushed after it.
    pub closed: bool,
}

impl OutputQueue {
    /// The queue never buffers beyond its capacity.
    pub open spec fn wf(&self) -> bool {
        self.items@.len() <= self.capacity
    }

    /// Whether a push would have to wait.
    pub open spec fn spec_is_full(&self) -> bool {
        self.items@.len() == self.capacity
    }

    /// An empty, open queue with the given fixed capacity.
    pub fn new(capacity: usize) -> (r: Self)
        ensures
            r.wf(),
            r.items@ == Seq::<RecordBatch>::empty(),
            r.capacity == capacity,
            !r.closed,
    {
        OutputQueue { items: Vec::new(), capacity, closed: false }
    }

    /// How many batches are buffered.
    pub fn len(&self) -> (r: usize)
        ensures
            r == self.items@.len(),
    {
        self.items.len()
    }

    /// Whether the consumer would find nothing buffered.
    pub fn is_empty(&self) -> (r: bool)
        ensures
            r == (self.items@.len() == 0),
    {
        self.items.len() == 0
    }

    /// Whether a push would have to wait.
    pub fn is_full(&self) -> (r: bool)
        ensures
            r == self.spec_is_full(),
    {
        self.items.len() == self.capacity
    }

    /// Whether the queue was closed after the last producer exited.
    pub fn is_closed(&self) -> (r: bool)
        ensures
            r == self.closed,
    {
        self.closed
    }

    /// Offers one batch.  A queue with room takes it at the back; a full
    /// queue hands it back unchanged — the producer is delayed, never
    /// failed, and no batch is lost.
    pub fn try_push(&mut self, b: RecordBatch) -> (r: Result<(), RecordBatch>)
        requires
            old(self).wf(),
            !old(self).closed,
        ensures
            final(self).wf(),
            final(self).capacity == old(self).capacity,
            final(self).closed == old(self).closed,
            !old(self).spec_is_full() ==> r is Ok && final(self).items@ == old(self).items@.push(b),
            old(self).spec_is_full() ==> (r matches Err(b2) && b2 == b) && final(self).items@ == old(
                self,
            ).items@,
    {
        if self.items.len() == self.capacity {
            Err(b)
        } else {
            self.items.push(b);
            Ok(())
        }
    }

    /// Takes the oldest buffered batch, if any: batches leave in exactly
    /// the order their producers' pushes were accepted.
    pub fn pop(&mut self) -> (r: Option<RecordBatch>)
        requires
            old(self).wf(),
        ensures
            final(self).wf(),
            final(self).capacity == old(self).capacity,
            final(self).closed == old(self).closed,
            old(self).items@.len() == 0 ==> r is None && final(self).items@ == old(self).items@,
            old(self).items@.len() > 0 ==> (r matches Some(b) && b == old(self).items@[0])
                && final(self).items@ == old(self).items@.drop_first(),
    {
        if self.items.len() == 0 {
            None
        } else {
            let b = self.items.remove(0);
            proof {
                assert(self.items@ =~= old(self).items@.drop_first());
            }
            Some(b)
        }
    }

    /// Closes the queue; called once, after every poller has exited.
    /// What is already buffered stays to be drained.
    pub fn close(&mut self)
        requires
            old(self).wf(),
        ensures
            final(self).wf(),
            final(self).items@ == old(self).items@,
            final(self).capacity == old(self).capacity,
            final(self).closed,
    {
        self.closed = true;
    }
}

} // verus!
