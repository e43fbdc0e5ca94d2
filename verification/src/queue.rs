//! Bounded FIFO queue of ranging samples.
//!
//! The engine pushes raw time-of-flight samples here; an averaging consumer
//! drains it. Capacity is fixed at 20. The real producer suspends when the
//! queue is full, so the verified enqueue demands free space, and `try_push`
//! reports fullness instead of blocking.

use vstd::prelude::*;

verus! {

/// Number of samples the queue can hold.
pub const SAMPLE_QUEUE_CAPACITY: usize = 20;

/// Fixed-capacity FIFO of 64-bit ranging samples, oldest first.
pub struct SampleQueue {
    items: Vec<u64>,
}

impl View for SampleQueue {
    type V = Seq<u64>;

    closed spec fn view(&self) -> Seq<u64> {
        self.items@
    }
}

impl SampleQueue {
    /// A queue never holds more samples than its capacity.
    pub closed spec fn well_formed(self) -> bool {
        self.items@.len() <= SAMPLE_QUEUE_CAPACITY
    }

    /// Creates an empty queue.
    pub fn new() -> (q: SampleQueue)
        ensures
            q@ == Seq::<u64>::empty(),
            q.well_formed(),
    {
        SampleQueue { items: Vec::new() }
    }

    /// Number of queued samples.
    pub fn len(&self) -> (n: usize)
        ensures
            n == self@.len(),
    {
        self.items.len()
    }

    /// Whether the queue has reached its capacity.
    pub fn is_full(&self) -> (full: bool)
        requires
            self.well_formed(),
        ensures
            full <==> self@.len() == SAMPLE_QUEUE_CAPACITY,
    {
        self.items.len() == SAMPLE_QUEUE_CAPACITY
    }

    /// Whether the queue holds no samples.
    pub fn is_empty(&self) -> (empty: bool)
        ensures
            empty <==> self@.len() == 0,
    {
        self.items.len() == 0
    }

    /// Enqueues a sample. The caller must have secured free space; the
    /// unverified producer suspends instead when the queue is full.
    pub fn push(&mut self, sample: u64)
        requires
            old(self).well_formed(),
            old(self)@.len() < SAMPLE_QUEUE_CAPACITY,
        ensures
            final(self).well_formed(),
            final(self)@ == old(self)@.push(sample),
    {
        self.items.push(sample);
    }

    /// Enqueues a sample when there is room and reports whether it did.
    pub fn try_push(&mut self, sample: u64) -> (pushed: bool)
        requires
            old(self).well_formed(),
        ensures
            final(self).well_formed(),
            pushed <==> old(self)@.len() < SAMPLE_QUEUE_CAPACITY,
            pushed ==> final(self)@ == old(self)@.push(sample),
            !pushed ==> final(self)@ == old(self)@,
    {
        if self.items.len() < SAMPLE_QUEUE_CAPACITY {
            self.items.push(sample);
            true
        } else {
            false
        }
    }

    /// Dequeues the oldest sample, if any.
    pub fn pop(&mut self) -> (sample: Option<u64>)
        requires
            old(self).well_formed(),
        ensures
            final(self).well_formed(),
            old(self)@.len() == 0 ==> sample is None && final(self)@ == old(self)@,
            old(self)@.len() > 0 ==> sample == Some(old(self)@[0]) && final(self)@ == old(
                self,
            )@.skip(1),
    {
        if self.items.len() > 0 {
            let s = self.items.remove(0);
            proof {
                assert(self.items@ =~= old(self).items@.skip(1));
            }
            Some(s)
        } else {
            None
        }
    }
}

} // verus!
