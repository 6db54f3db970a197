//! Fixed-capacity single-producer/single-consumer byte queue.
//!
//! The only shared-memory primitive of the system: a ring buffer of raw
//! bytes with a read cursor and a count. The producer side runs in one
//! execution context (say, an interrupt handler) and the consumer side in
//! another (the main loop); neither index is written by both sides. Both
//! operations are non-blocking: a push on a full queue fails without side
//! effects (backpressure, not an error), a pop on an empty queue returns
//! nothing.

use vstd::prelude::*;

verus! {

/// Capacity of every byte queue in the system.
pub const QUEUE_CAPACITY: usize = 64;

/// Index into the backing store, reduced modulo the capacity.
/// Arguments stay below twice the capacity, so one subtraction suffices.
spec fn wrap(i: int) -> int {
    if i < QUEUE_CAPACITY {
        i
    } else {
        i - QUEUE_CAPACITY
    }
}

/// Ring buffer of bytes: a backing store of `QUEUE_CAPACITY` bytes, the
/// index of the oldest byte, and the number of queued bytes.
pub struct ByteQueue {
    buf: Vec<u8>,
    head: usize,
    count: usize,
}

impl View for ByteQueue {
    type V = Seq<u8>;

    /// The queued bytes, oldest first.
    closed spec fn view(&self) -> Seq<u8> {
        Seq::new(self.count as nat, |i: int| self.buf[wrap(self.head + i)])
    }
}

impl ByteQueue {
    /// Structural invariant: the backing store has exactly the capacity,
    /// the read cursor is in range, and the count never exceeds the
    /// capacity.
    pub closed spec fn wf(&self) -> bool {
        &&& self.buf.len() == QUEUE_CAPACITY
        &&& self.head < QUEUE_CAPACITY
        &&& self.count <= QUEUE_CAPACITY
    }

    /// A well-formed queue never holds more than the capacity.
    pub proof fn lemma_len_bounded(&self)
        requires
            self.wf(),
        ensures
            self@.len() <= QUEUE_CAPACITY,
    {
    }

    /// An empty queue.
    pub fn new() -> (q: ByteQueue)
        ensures
            q.wf(),
            q@ == Seq::<u8>::empty(),
    {
        let q = ByteQueue { buf: vec![0u8; QUEUE_CAPACITY], head: 0, count: 0 };
        proof {
            assert(q@ =~= Seq::<u8>::empty());
        }
        q
    }

    /// Number of queued bytes.
    pub fn len(&self) -> (n: usize)
        requires
            self.wf(),
        ensures
            n == self@.len(),
    {
        self.count
    }

    /// Stores the byte at the write end iff the queue is not full; a push
    /// on a full queue fails with no side effects.
    pub fn try_push(&mut self, byte: u8) -> (ok: bool)
        requires
            old(self).wf(),
        ensures
            final(self).wf(),
            old(self)@.len() < QUEUE_CAPACITY ==> ok && final(self)@ == old(self)@.push(byte),
            old(self)@.len() >= QUEUE_CAPACITY ==> !ok && final(self)@ == old(self)@,
    {
        if self.count == QUEUE_CAPACITY {
            false
        } else {
            let idx = if self.head + self.count < QUEUE_CAPACITY {
                self.head + self.count
            } else {
                self.head + self.count - QUEUE_CAPACITY
            };
            self.buf[idx] = byte;
            self.count = self.count + 1;
            proof {
                assert(self@ =~= old(self)@.push(byte));
            }
            true
        }
    }

    /// Removes and returns the oldest byte iff the queue is not empty.
    pub fn try_pop(&mut self) -> (r: Option<u8>)
        requires
            old(self).wf(),
        ensures
            final(self).wf(),
            old(self)@.len() > 0 ==> r == Some(old(self)@[0]) && final(self)@ == old(self)@.drop_first(),
            old(self)@.len() == 0 ==> r is None && final(self)@ == old(self)@,
    {
        if self.count == 0 {
            None
        } else {
            let b = self.buf[self.head];
            self.head = if self.head + 1 < QUEUE_CAPACITY {
                self.head + 1
            } else {
                0
            };
            self.count = self.count - 1;
            proof {
                assert(self@ =~= old(self)@.drop_first());
            }
            Some(b)
        }
    }
}

/// One call in a history of queue operations: a `try_push` of a byte, or a
/// `try_pop`. On a single-core target the producer's and the consumer's
/// calls interleave into one such history.
pub enum QueueOp {
    Push(u8),
    Pop,
}

/// Queue contents after a history of operations, starting from the empty
/// queue, under the `try_push` / `try_pop` contracts: a push appends iff
/// there is room, a pop removes the oldest byte iff one is present.
pub open spec fn contents_after(ops: Seq<QueueOp>) -> Seq<u8>
    decreases ops.len(),
{
    if ops.len() == 0 {
        Seq::empty()
    } else {
        let prev = contents_after(ops.drop_last());
        match ops.last() {
            QueueOp::Push(b) => if prev.len() < QUEUE_CAPACITY {
                prev.push(b)
            } else {
                prev
            },
            QueueOp::Pop => if prev.len() > 0 {
                prev.drop_first()
            } else {
                prev
            },
        }
    }
}

/// The bytes whose push was accepted, in push order.
pub open spec fn accepted_after(ops: Seq<QueueOp>) -> Seq<u8>
    decreases ops.len(),
{
    if ops.len() == 0 {
        Seq::empty()
    } else {
        let acc = accepted_after(ops.drop_last());
        match ops.last() {
            QueueOp::Push(b) => if contents_after(ops.drop_last()).len() < QUEUE_CAPACITY {
                acc.push(b)
            } else {
                acc
            },
            QueueOp::Pop => acc,
        }
    }
}

/// The bytes returned by pops, in pop order.
pub open spec fn popped_after(ops: Seq<QueueOp>) -> Seq<u8>
    decreases ops.len(),
{
    if ops.len() == 0 {
        Seq::empty()
    } else {
        let popped = popped_after(ops.drop_last());
        match ops.last() {
            QueueOp::Push(_) => popped,
            QueueOp::Pop => if contents_after(ops.drop_last()).len() > 0 {
                popped.push(contents_after(ops.drop_last())[0])
            } else {
                popped
            },
        }
    }
}

/// Law: over every history of `try_push` / `try_pop` calls the queue count
/// never exceeds the capacity, and the bytes returned by pops are exactly
/// the accepted pushed bytes, in first-in-first-out order: what was popped,
/// followed by what is still queued, is the accepted push history, so every
/// pop returns the oldest byte not yet popped.
pub proof fn lemma_queue_fifo(ops: Seq<QueueOp>)
    ensures
        contents_after(ops).len() <= QUEUE_CAPACITY,
        popped_after(ops) + contents_after(ops) == accepted_after(ops),
        popped_after(ops) == accepted_after(ops).take(popped_after(ops).len() as int),
    decreases ops.len(),
{
    if ops.len() == 0 {
        assert(popped_after(ops) + contents_after(ops) =~= accepted_after(ops));
        assert(popped_after(ops) =~= accepted_after(ops).take(popped_after(ops).len() as int));
    } else {
        let prev = ops.drop_last();
        lemma_queue_fifo(prev);
        match ops.last() {
            QueueOp::Push(b) => {
                if contents_after(prev).len() < QUEUE_CAPACITY {
                    assert(popped_after(ops) + contents_after(ops)
                        =~= (popped_after(prev) + contents_after(prev)).push(b));
                } else {
                    assert(popped_after(ops) + contents_after(ops)
                        =~= popped_after(prev) + contents_after(prev));
                }
            },
            QueueOp::Pop => {
                if contents_after(prev).len() > 0 {
                    assert(popped_after(ops) + contents_after(ops)
                        =~= popped_after(prev) + contents_after(prev));
                }
            },
        }
        assert(popped_after(ops) =~= accepted_after(ops).take(popped_after(ops).len() as int));
    }
}

} // verus!
