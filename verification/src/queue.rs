//! The bounded symbol queue between the text side and the audio side.
//!
//! The storage is `heapless::spsc::Queue`, a statically sized ring buffer.
//! Its contents are modelled as a sequence, oldest entry first; the queue's
//! operations are stated over that sequence.

use vstd::prelude::*;
use crate::symbol::SymbolState;

verus! {

/// The number of entries the queue can hold.
pub const QUEUE_CAPACITY: usize = 256;

/// The ring buffer of the `heapless` crate, `spsc::Queue` with room for
/// `QUEUE_CAPACITY` entries. Its fields are not visible to the verifier.
#[verifier::external_body]
pub struct Ring {
    cells: heapless::spsc::Queue<SymbolState, heapless::consts::U256>,
}

/// The entries that a ring holds, oldest first.
pub uninterp spec fn ring_entries(ring: Ring) -> Seq<SymbolState>;

/// `heapless::spsc::Queue::new`: the new ring is empty.
#[verifier::external_body]
fn ring_new() -> (ring: Ring)
    ensures
        ring_entries(ring) == Seq::<SymbolState>::empty(),
{
    Ring { cells: heapless::spsc::Queue::new() }
}

/// `heapless::spsc::Queue::enqueue`: with fewer than `QUEUE_CAPACITY` entries
/// the item becomes the newest entry; otherwise the ring is left as it was and
/// the item is handed back. The call does not panic.
#[verifier::external_body]
fn ring_enqueue(ring: &mut Ring, state: SymbolState) -> (outcome: Result<(), SymbolState>)
    ensures
        outcome == (if ring_entries(*old(ring)).len() < QUEUE_CAPACITY {
            Ok(())
        } else {
            Err(state)
        }),
        ring_entries(*final(ring)) == (if ring_entries(*old(ring)).len() < QUEUE_CAPACITY {
            ring_entries(*old(ring)).push(state)
        } else {
            ring_entries(*old(ring))
        }),
    no_unwind
{
    ring.cells.enqueue(state)
}

/// `heapless::spsc::Queue::dequeue`: the oldest entry leaves the ring and is
/// returned; an empty ring is left as it was and gives `None`. The call does
/// not panic.
#[verifier::external_body]
fn ring_dequeue(ring: &mut Ring) -> (front: Option<SymbolState>)
    ensures
        front == (if ring_entries(*old(ring)).len() > 0 {
            Some(ring_entries(*old(ring)).first())
        } else {
            None
        }),
        ring_entries(*final(ring)) == (if ring_entries(*old(ring)).len() > 0 {
            ring_entries(*old(ring)).drop_first()
        } else {
            ring_entries(*old(ring))
        }),
    no_unwind
{
    ring.cells.dequeue()
}

/// `heapless::spsc::Queue::len`: the number of entries in the ring.
#[verifier::external_body]
fn ring_len(ring: &Ring) -> (count: usize)
    ensures
        count == ring_entries(*ring).len(),
{
    ring.cells.len()
}

/// The entries after an attempt to add `state`: appended while there is
/// room, dropped when the queue is full.
pub open spec fn enqueued(entries: Seq<SymbolState>, state: SymbolState) -> Seq<SymbolState> {
    if entries.len() < QUEUE_CAPACITY {
        entries.push(state)
    } else {
        entries
    }
}

/// The entries after an attempt to take one: the oldest is gone.
pub open spec fn dequeued(entries: Seq<SymbolState>) -> Seq<SymbolState> {
    if entries.len() > 0 {
        entries.drop_first()
    } else {
        entries
    }
}

/// The entry that an attempt to take one yields.
pub open spec fn front(entries: Seq<SymbolState>) -> Option<SymbolState> {
    if entries.len() > 0 {
        Some(entries.first())
    } else {
        None
    }
}

/// The queue was full: the symbol was not stored.
#[derive(Clone, Copy, Debug, PartialEq, Eq, Structural)]
pub struct Full;

/// A first-in first-out queue of at most `QUEUE_CAPACITY` symbol states.
///
/// Neither operation blocks. A full queue refuses the new entry, which the
/// caller may drop: a lost tick shortens one tone or gap by one unit.
pub struct SymbolQueue {
    ring: Ring,
}

impl View for SymbolQueue {
    type V = Seq<SymbolState>;

    closed spec fn view(&self) -> Seq<SymbolState> {
        ring_entries(self.ring)
    }
}

impl SymbolQueue {
    #[verifier::type_invariant]
    spec fn within_capacity(self) -> bool {
        ring_entries(self.ring).len() <= QUEUE_CAPACITY
    }

    /// An empty queue.
    pub fn new() -> (queue: Self)
        ensures
            queue@ == Seq::<SymbolState>::empty(),
    {
        SymbolQueue { ring: ring_new() }
    }

    /// Adds `state` as the newest entry, or reports `Full` and stores nothing.
    pub fn enqueue(&mut self, state: SymbolState) -> (outcome: Result<(), Full>)
        ensures
            final(self)@ == enqueued(old(self)@, state),
            outcome.is_ok() <==> old(self)@.len() < QUEUE_CAPACITY,
            final(self)@.len() <= QUEUE_CAPACITY,
    {
        proof {
            use_type_invariant(&*self);
        }
        match ring_enqueue(&mut self.ring, state) {
            Ok(()) => Ok(()),
            Err(_) => Err(Full),
        }
    }

    /// Takes the oldest entry, or returns `None` from an empty queue.
    pub fn dequeue(&mut self) -> (taken: Option<SymbolState>)
        ensures
            taken == front(old(self)@),
            final(self)@ == dequeued(old(self)@),
            final(self)@.len() <= QUEUE_CAPACITY,
    {
        proof {
            use_type_invariant(&*self);
        }
        ring_dequeue(&mut self.ring)
    }

    /// The number of entries waiting.
    pub fn len(&self) -> (count: usize)
        ensures
            count == self@.len(),
            count <= QUEUE_CAPACITY,
    {
        proof {
            use_type_invariant(self);
        }
        ring_len(&self.ring)
    }

    /// Whether no entry is waiting.
    pub fn is_empty(&self) -> (empty: bool)
        ensures
            empty <==> self@.len() == 0,
    {
        self.len() == 0
    }
}

/// One call on the queue, by the producer or by the consumer.
#[derive(Clone, Copy, Debug, PartialEq, Eq, Structural)]
pub enum QueueOp {
    Enqueue(SymbolState),
    Dequeue,
}

/// The entries left after the calls `ops`, made in order on a queue that
/// held `start`.
pub open spec fn entries_after(start: Seq<SymbolState>, ops: Seq<QueueOp>) -> Seq<SymbolState>
    decreases ops.len(),
{
    if ops.len() == 0 {
        start
    } else {
        let before = entries_after(start, ops.drop_last());
        match ops.last() {
            QueueOp::Enqueue(state) => enqueued(before, state),
            QueueOp::Dequeue => dequeued(before),
        }
    }
}

/// The states that the calls `ops` stored, in the order of the calls.
pub open spec fn accepted_by(start: Seq<SymbolState>, ops: Seq<QueueOp>) -> Seq<SymbolState>
    decreases ops.len(),
{
    if ops.len() == 0 {
        Seq::empty()
    } else {
        let earlier = accepted_by(start, ops.drop_last());
        match ops.last() {
            QueueOp::Enqueue(state) => if entries_after(start, ops.drop_last()).len()
                < QUEUE_CAPACITY {
                earlier.push(state)
            } else {
                earlier
            },
            QueueOp::Dequeue => earlier,
        }
    }
}

/// The states that the calls `ops` took out, in the order of the calls.
pub open spec fn delivered_by(start: Seq<SymbolState>, ops: Seq<QueueOp>) -> Seq<SymbolState>
    decreases ops.len(),
{
    if ops.len() == 0 {
        Seq::empty()
    } else {
        let earlier = delivered_by(start, ops.drop_last());
        match ops.last() {
            QueueOp::Enqueue(state) => earlier,
            QueueOp::Dequeue => match front(entries_after(start, ops.drop_last())) {
                Some(state) => earlier.push(state),
                None => earlier,
            },
        }
    }
}

/// First in, first out: however enqueues and dequeues interleave, what was
/// taken out, followed by what still waits, is what the queue held at the
/// start followed by what was stored, in the same order. The queue never
/// holds more than `QUEUE_CAPACITY` entries.
pub proof fn lemma_fifo(start: Seq<SymbolState>, ops: Seq<QueueOp>)
    requires
        start.len() <= QUEUE_CAPACITY,
    ensures
        delivered_by(start, ops) + entries_after(start, ops) == start + accepted_by(start, ops),
        entries_after(start, ops).len() <= QUEUE_CAPACITY,
    decreases ops.len(),
{
    if ops.len() == 0 {
        assert(delivered_by(start, ops) + entries_after(start, ops) =~= start + accepted_by(
            start,
            ops,
        ));
    } else {
        lemma_fifo(start, ops.drop_last());
        let before = entries_after(start, ops.drop_last());
        let stored = accepted_by(start, ops.drop_last());
        let taken = delivered_by(start, ops.drop_last());
        assert(taken + before == start + stored);
        match ops.last() {
            QueueOp::Enqueue(state) => {
                if before.len() < QUEUE_CAPACITY {
                    assert(taken + before.push(state) =~= (taken + before).push(state));
                    assert(start + stored.push(state) =~= (start + stored).push(state));
                }
            },
            QueueOp::Dequeue => {
                if before.len() > 0 {
                    assert(taken.push(before.first()) + before.drop_first() =~= taken + before);
                }
            },
        }
    }
}

} // verus!
