//! The way from the thread on which the system delivers audio to the
//! capture task: a queue with a fixed number of places.
//!
//! The delivering side must never wait. A chunk that finds the queue full is
//! dropped; what is in the queue keeps its order.

use std::collections::VecDeque;
use vstd::prelude::*;

verus! {

/// What the capture task finds when it has waited for a chunk.
#[derive(Debug, Clone, Copy, PartialEq, Eq, Structural)]
pub enum ReceiveOutcome {
    /// A chunk has arrived.
    Chunk,
    /// No chunk came within the wait.
    TimedOut,
    /// The stream has ended; no chunk will come.
    Disconnected,
}

/// What the capture task does next.
#[derive(Debug, Clone, Copy, PartialEq, Eq, Structural)]
pub enum LoopStep {
    /// Convert the chunk and take it into the buffer.
    ProcessChunk,
    /// Go round again: look for the stop signal, then wait for a chunk.
    Continue,
    /// Leave the loop and release the stream.
    Exit,
}

/// What the capture task does next. A stop signal is looked for before
/// anything else; a wait that timed out is no error.
pub open spec fn spec_loop_step(stop_signalled: bool, outcome: ReceiveOutcome) -> LoopStep {
    if stop_signalled {
        LoopStep::Exit
    } else {
        match outcome {
            ReceiveOutcome::Chunk => LoopStep::ProcessChunk,
            ReceiveOutcome::TimedOut => LoopStep::Continue,
            ReceiveOutcome::Disconnected => LoopStep::Exit,
        }
    }
}

/// What the capture task does next.
pub fn loop_step(stop_signalled: bool, outcome: ReceiveOutcome) -> (r: LoopStep)
    ensures
        r == spec_loop_step(stop_signalled, outcome),
{
    if stop_signalled {
        LoopStep::Exit
    } else {
        match outcome {
            ReceiveOutcome::Chunk => LoopStep::ProcessChunk,
            ReceiveOutcome::TimedOut => LoopStep::Continue,
            ReceiveOutcome::Disconnected => LoopStep::Exit,
        }
    }
}

/// The handle by which a stream is released. However often it is asked,
/// the stream is released once.
#[derive(Debug)]
pub struct StopHandle {
    stopped: bool,
}

impl View for StopHandle {
    type V = bool;

    /// Whether the stream has been released.
    closed spec fn view(&self) -> bool {
        self.stopped
    }
}

impl StopHandle {
    /// The handle of a live stream.
    pub fn new() -> (r: Self)
        ensures
            !r@,
    {
        StopHandle { stopped: false }
    }

    /// Whether the stream has been released.
    pub fn is_stopped(&self) -> (r: bool)
        ensures
            r == self@,
    {
        self.stopped
    }

    /// Asks to release the stream. Returns `true` on the first call only:
    /// the caller then releases what the platform holds. Every later call
    /// returns `false` and changes nothing.
    pub fn stop(&mut self) -> (r: bool)
        ensures
            final(self)@,
            r == !old(self)@,
    {
        if self.stopped {
            false
        } else {
            self.stopped = true;
            true
        }
    }
}

/// Chunks on their way to the capture task, oldest first.
pub struct DeliveryQueue {
    chunks: VecDeque<Vec<u32>>,
    capacity: usize,
    dropped: u64,
}

/// What a [`DeliveryQueue`] holds.
pub struct DeliveryModel {
    /// The chunks that wait, oldest first.
    pub chunks: Seq<Seq<u32>>,
    /// The number of places.
    pub capacity: nat,
    /// How many chunks were dropped (it stops counting at the largest value
    /// of its type).
    pub dropped: u64,
}

impl View for DeliveryQueue {
    type V = DeliveryModel;

    closed spec fn view(&self) -> DeliveryModel {
        DeliveryModel {
            chunks: Seq::new(self.chunks@.len(), |i: int| self.chunks@[i]@),
            capacity: self.capacity as nat,
            dropped: self.dropped,
        }
    }
}

/// The queue after a chunk was offered: the chunk at its end where a place
/// was free, else one more chunk dropped.
pub open spec fn after_offer(q: DeliveryModel, chunk: Seq<u32>) -> DeliveryModel {
    if q.chunks.len() < q.capacity {
        DeliveryModel { chunks: q.chunks.push(chunk), ..q }
    } else {
        DeliveryModel {
            dropped: if q.dropped < u64::MAX {
                (q.dropped + 1) as u64
            } else {
                q.dropped
            },
            ..q
        }
    }
}

impl DeliveryQueue {
    /// No more chunks wait than there are places.
    pub closed spec fn wf(&self) -> bool {
        self.chunks@.len() <= self.capacity
    }

    /// An empty queue with `capacity` places.
    pub fn new(capacity: usize) -> (r: Self)
        ensures
            r.wf(),
            r@.chunks == Seq::<Seq<u32>>::empty(),
            r@.capacity == capacity,
            r@.dropped == 0,
    {
        let r = DeliveryQueue { chunks: VecDeque::new(), capacity, dropped: 0 };
        assert(r@.chunks =~= Seq::<Seq<u32>>::empty());
        r
    }

    /// Number of chunks that wait.
    pub fn len(&self) -> (r: usize)
        ensures
            r == self@.chunks.len(),
    {
        self.chunks.len()
    }

    /// How many chunks were dropped.
    pub fn dropped(&self) -> (r: u64)
        ensures
            r == self@.dropped,
    {
        self.dropped
    }

    /// Offers a chunk. Returns whether it was taken; a chunk that finds the
    /// queue full is dropped, and the caller goes on at once either way.
    pub fn offer(&mut self, chunk: Vec<u32>) -> (r: bool)
        requires
            old(self).wf(),
        ensures
            final(self).wf(),
            r == (old(self)@.chunks.len() < old(self)@.capacity),
            final(self)@ == after_offer(old(self)@, chunk@),
    {
        if self.chunks.len() < self.capacity {
            let ghost before = self@.chunks;
            self.chunks.push_back(chunk);
            assert(self@.chunks =~= before.push(chunk@));
            true
        } else {
            if self.dropped < u64::MAX {
                self.dropped = self.dropped + 1;
            }
            false
        }
    }

    /// Takes the oldest chunk, if any waits.
    pub fn take(&mut self) -> (r: Option<Vec<u32>>)
        requires
            old(self).wf(),
        ensures
            final(self).wf(),
            final(self)@.capacity == old(self)@.capacity,
            final(self)@.dropped == old(self)@.dropped,
            match r {
                Some(chunk) => old(self)@.chunks.len() > 0 && chunk@ == old(self)@.chunks[0]
                    && final(self)@.chunks == old(self)@.chunks.subrange(
                    1,
                    old(self)@.chunks.len() as int,
                ),
                None => old(self)@.chunks.len() == 0 && final(self)@.chunks == old(self)@.chunks,
            },
    {
        let ghost before = self@.chunks;
        let r = self.chunks.pop_front();
        proof {
            if r is Some {
                assert(self@.chunks =~= before.subrange(1, before.len() as int));
            } else {
                assert(self@.chunks =~= before);
            }
        }
        r
    }
}

/// What a wait for a chunk has found: a chunk where one waits, whether or
/// not the stream has ended meanwhile; else the end of the stream where it
/// has ended, and a wait that timed out where it has not.
pub open spec fn spec_receive_outcome(waiting: nat, disconnected: bool) -> ReceiveOutcome {
    if waiting > 0 {
        ReceiveOutcome::Chunk
    } else if disconnected {
        ReceiveOutcome::Disconnected
    } else {
        ReceiveOutcome::TimedOut
    }
}

impl DeliveryQueue {
    /// What a wait for a chunk has found, with the oldest chunk where one
    /// waits. `disconnected` says whether the stream has ended. What was
    /// delivered before the end still arrives, in its order.
    pub fn receive(&mut self, disconnected: bool) -> (r: (ReceiveOutcome, Option<Vec<u32>>))
        requires
            old(self).wf(),
        ensures
            final(self).wf(),
            final(self)@.capacity == old(self)@.capacity,
            final(self)@.dropped == old(self)@.dropped,
            r.0 == spec_receive_outcome(old(self)@.chunks.len(), disconnected),
            match r.1 {
                Some(chunk) => old(self)@.chunks.len() > 0 && chunk@ == old(self)@.chunks[0]
                    && final(self)@.chunks == old(self)@.chunks.subrange(
                    1,
                    old(self)@.chunks.len() as int,
                ),
                None => old(self)@.chunks.len() == 0 && final(self)@.chunks == old(self)@.chunks,
            },
    {
        match self.take() {
            Some(chunk) => (ReceiveOutcome::Chunk, Some(chunk)),
            None => if disconnected {
                (ReceiveOutcome::Disconnected, None)
            } else {
                (ReceiveOutcome::TimedOut, None)
            },
        }
    }
}

/// Chunks arrive in the order in which they were taken in: whatever is
/// offered to a queue that waits with `n` chunks comes out after exactly
/// those `n`, and a dropped chunk changes nothing for the others.
pub proof fn lemma_delivery_keeps_order(q: DeliveryModel, chunk: Seq<u32>)
    ensures
        after_offer(q, chunk).chunks.len() >= q.chunks.len(),
        forall|i: int| 0 <= i < q.chunks.len() ==> after_offer(q, chunk).chunks[i] == q.chunks[i],
        q.chunks.len() < q.capacity ==> after_offer(q, chunk).chunks.last() == chunk,
        q.chunks.len() >= q.capacity ==> after_offer(q, chunk).chunks == q.chunks,
{
}

} // verus!
