//! The worker pool's bookkeeping: a fixed worker count chosen at
//! construction, a run flag, the shared FIFO of pending work, and the count
//! of items currently being handled.  Its invariant is the bounded
//! concurrency the pool promises: the handlers active at any instant never
//! outnumber the workers.  The threads that animate the pool live outside
//! the library and drive these operations.

use vstd::prelude::*;
use crate::queue::FifoQueue;

verus! {

/// What a worker pool looks like to a specification.
pub struct PoolView<T> {
    /// Whether the pool still accepts and hands out work.
    pub running: bool,
    /// The fixed number of workers.
    pub nthreads: int,
    /// How many items are being handled right now.
    pub active: int,
    /// The work items posted and not yet handed out, oldest first.
    pub pending: Seq<T>,
}

/// A fixed-size pool of workers draining one shared FIFO of work items.
pub struct WorkerPool<T> {
    running: bool,
    nthreads: usize,
    active: usize,
    pending: FifoQueue<T>,
}

impl<T> View for WorkerPool<T> {
    type V = PoolView<T>;

    closed spec fn view(&self) -> PoolView<T> {
        PoolView {
            running: self.running,
            nthreads: self.nthreads as int,
            active: self.active as int,
            pending: self.pending@,
        }
    }
}

impl<T> WorkerPool<T> {
    /// Bounded concurrency: the items being handled never outnumber the
    /// workers.  Every operation preserves this.
    pub open spec fn wf(&self) -> bool {
        0 <= self@.active <= self@.nthreads
    }

    /// A running pool of `nt` workers with nothing posted and nothing
    /// active.
    pub fn new(nt: usize) -> (r: WorkerPool<T>)
        ensures
            r.wf(),
            r@.running,
            r@.nthreads == nt,
            r@.active == 0,
            r@.pending == Seq::<T>::empty(),
    {
        WorkerPool { running: true, nthreads: nt, active: 0, pending: FifoQueue::new() }
    }

    /// Posts a work item: it joins the back of the pending FIFO.
    pub fn post(&mut self, t: T)
        requires
            old(self).wf(),
        ensures
            final(self).wf(),
            final(self)@.pending == old(self)@.pending.push(t),
            final(self)@.running == old(self)@.running,
            final(self)@.nthreads == old(self)@.nthreads,
            final(self)@.active == old(self)@.active,
    {
        self.pending.en_q(t);
    }

    /// Signals the workers to stop: no more work is handed out.
    pub fn stop(&mut self)
        requires
            old(self).wf(),
        ensures
            final(self).wf(),
            !final(self)@.running,
            final(self)@.pending == old(self)@.pending,
            final(self)@.nthreads == old(self)@.nthreads,
            final(self)@.active == old(self)@.active,
    {
        self.running = false;
    }

    /// Whether the pool still hands out work.
    pub fn is_running(&self) -> (r: bool)
        ensures
            r == self@.running,
    {
        self.running
    }

    /// How many items are being handled right now; never more than the
    /// worker count.
    pub fn active_count(&self) -> (r: usize)
        requires
            self.wf(),
        ensures
            r == self@.active,
            r <= self@.nthreads,
    {
        self.active
    }

    /// A worker asks for work.  It receives the oldest pending item and
    /// counts as active while it handles it; it receives nothing when the
    /// pool is stopped, when every worker is already busy, or when nothing
    /// is pending.
    pub fn begin_work(&mut self) -> (r: Option<T>)
        requires
            old(self).wf(),
        ensures
            final(self).wf(),
            final(self)@.running == old(self)@.running,
            final(self)@.nthreads == old(self)@.nthreads,
            old(self)@.running && old(self)@.active < old(self)@.nthreads && old(
                self,
            )@.pending.len() > 0 ==> r == Some(old(self)@.pending[0]) && final(self)@.pending == old(
                self,
            )@.pending.skip(1) && final(self)@.active == old(self)@.active + 1,
            !(old(self)@.running && old(self)@.active < old(self)@.nthreads && old(
                self,
            )@.pending.len() > 0) ==> r is None && final(self)@.pending == old(self)@.pending
                && final(self)@.active == old(self)@.active,
    {
        if self.running && self.active < self.nthreads && !self.pending.is_empty() {
            let item = self.pending.de_q();
            self.active = self.active + 1;
            item
        } else {
            None
        }
    }

    /// A worker reports its item handled and returns to the pool; with no
    /// active item the call changes nothing.
    pub fn finish_work(&mut self)
        requires
            old(self).wf(),
        ensures
            final(self).wf(),
            final(self)@.running == old(self)@.running,
            final(self)@.nthreads == old(self)@.nthreads,
            final(self)@.pending == old(self)@.pending,
            old(self)@.active > 0 ==> final(self)@.active == old(self)@.active - 1,
            old(self)@.active == 0 ==> final(self)@.active == 0,
    {
        if self.active > 0 {
            self.active = self.active - 1;
        }
    }
}

} // verus!
