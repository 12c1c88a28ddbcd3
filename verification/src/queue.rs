//! The FIFO hand-off queue: the sole intra-process primitive that carries
//! messages between the application and the worker loops.  The queue's
//! order is its contract; the blocking shell that parks a consumer while
//! the queue is empty is synchronization around these operations and lives
//! with the thread plumbing outside the library.

use vstd::prelude::*;
use std::collections::VecDeque;

verus! {

broadcast use vstd::std_specs::vecdeque::group_vec_dequeue_axioms;

/// An unbounded first-in-first-out queue.
pub struct FifoQueue<T> {
    items: VecDeque<T>,
}

impl<T> View for FifoQueue<T> {
    type V = Seq<T>;

    closed spec fn view(&self) -> Seq<T> {
        self.items@
    }
}

impl<T> FifoQueue<T> {
    /// An empty queue.
    pub fn new() -> (r: FifoQueue<T>)
        ensures
            r@ == Seq::<T>::empty(),
    {
        FifoQueue { items: VecDeque::new() }
    }

    /// Appends an item at the back.
    pub fn en_q(&mut self, t: T)
        ensures
            final(self)@ == old(self)@.push(t),
    {
        self.items.push_back(t);
    }

    /// Removes and returns the front item; `None` when the queue is empty,
    /// which leaves the queue unchanged.
    pub fn de_q(&mut self) -> (r: Option<T>)
        ensures
            old(self)@.len() == 0 ==> r is None && final(self)@ == old(self)@,
            old(self)@.len() > 0 ==> r == Some(old(self)@[0]) && final(self)@ == old(self)@.skip(1),
    {
        let r = self.items.pop_front();
        proof {
            if old(self)@.len() > 0 {
                assert(final(self)@ =~= old(self)@.skip(1));
            }
        }
        r
    }

    /// The number of items queued right now.
    pub fn len(&self) -> (r: usize)
        ensures
            r == self@.len(),
    {
        self.items.len()
    }

    /// Whether the queue holds no item.
    pub fn is_empty(&self) -> (r: bool)
        ensures
            r == (self@.len() == 0),
    {
        self.items.len() == 0
    }

    /// Dequeues everything: the returned items are exactly the queue's
    /// contents, in the order they were enqueued.
    pub fn drain(&mut self) -> (r: Vec<T>)
        ensures
            r@ == old(self)@,
            final(self)@ == Seq::<T>::empty(),
    {
        let mut out: Vec<T> = Vec::new();
        loop
            invariant
                out@ + self@ == old(self)@,
            ensures
                self@.len() == 0,
                out@ + self@ == old(self)@,
            decreases self@.len(),
        {
            match self.de_q() {
                Some(t) => {
                    out.push(t);
                    proof {
                        assert(out@ + self@ =~= old(self)@);
                    }
                },
                None => {
                    break;
                },
            }
        }
        proof {
            assert(out@ =~= old(self)@);
        }
        out
    }
}

/// The FIFO law: starting from contents `s`, each dequeue returns the front
/// and leaves the rest, so after `k` dequeues the state is `s.skip(k)` and
/// the `k`-th dequeue returns `s[k]`.  Items enqueued by one producer in a
/// total order are therefore dequeued in that same order.
pub proof fn lemma_fifo_order<T>(s: Seq<T>, k: int)
    requires
        0 <= k < s.len(),
    ensures
        s.skip(k).len() == s.len() - k,
        s.skip(k)[0] == s[k],
        s.skip(k).skip(1) == s.skip(k + 1),
{
    assert(s.skip(k).skip(1) =~= s.skip(k + 1));
}

} // verus!
