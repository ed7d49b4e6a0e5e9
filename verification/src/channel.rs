//! Single-producer, single-consumer message queues.
//!
//! Each stage of the pipeline talks to the next over exactly one of these:
//! sends append at the tail, receives take the head, so a single producer's
//! messages reach the single consumer in send order. Sends never block and
//! never fail; a receive on an empty queue reports that nothing is pending.

use vstd::prelude::*;

verus! {

/// A first-in-first-out queue; its view is the sequence of queued messages,
/// head first.
pub struct Fifo<T> {
    items: Vec<T>,
}

impl<T> View for Fifo<T> {
    type V = Seq<T>;

    closed spec fn view(&self) -> Seq<T> {
        self.items@
    }
}

impl<T> Fifo<T> {
    /// An empty queue.
    pub fn new() -> (q: Fifo<T>)
        ensures
            q@ == Seq::<T>::empty(),
    {
        Fifo { items: Vec::new() }
    }

    /// Number of messages waiting.
    pub fn len(&self) -> (n: usize)
        ensures
            n == self@.len(),
    {
        self.items.len()
    }

    /// Whether nothing is waiting.
    pub fn is_empty(&self) -> (r: bool)
        ensures
            r == (self@.len() == 0),
    {
        self.items.len() == 0
    }

    /// Enqueue a message at the tail. Fire-and-forget: it cannot fail.
    pub fn send(&mut self, value: T)
        ensures
            final(self)@ == old(self)@.push(value),
    {
        self.items.push(value);
    }

    /// Dequeue the head message, or report an empty queue.
    pub fn try_recv(&mut self) -> (r: Option<T>)
        ensures
            old(self)@.len() == 0 ==> r is None && final(self)@ == old(self)@,
            old(self)@.len() > 0 ==> r == Some(old(self)@[0]) && final(self)@ == old(self)@.drop_first(),
    {
        if self.items.len() == 0 {
            None
        } else {
            let v = self.items.remove(0);
            proof {
                assert(self@ =~= old(self)@.drop_first());
            }
            Some(v)
        }
    }
}

/// The queue contents after a producer has sent every message of `xs`, in
/// order, onto a queue that held `q`.
pub open spec fn sent_all<T>(q: Seq<T>, xs: Seq<T>) -> Seq<T>
    decreases xs.len(),
{
    if xs.len() == 0 {
        q
    } else {
        sent_all(q.push(xs[0]), xs.drop_first())
    }
}

/// Channel FIFO law: sending `xs` appends it unchanged behind what the queue
/// already held. Together with `try_recv`, which always hands out the head
/// and keeps the rest in place, a single producer's messages are received in
/// exactly their send order.
pub proof fn lemma_channel_fifo<T>(q: Seq<T>, xs: Seq<T>)
    ensures
        sent_all(q, xs) == q + xs,
    decreases xs.len(),
{
    if xs.len() == 0 {
        assert(sent_all(q, xs) =~= q + xs);
    } else {
        lemma_channel_fifo(q.push(xs[0]), xs.drop_first());
        assert(q.push(xs[0]) + xs.drop_first() =~= q + xs);
    }
}

} // verus!
