use vstd::prelude::*;

verus! {

/// A FIFO queue of payloads paired with at most one pending waiter: the
/// cooperative primitive that hands asynchronous occurrences (input,
/// backend, client I/O) into the single-threaded dispatch loop.
///
/// The waiter is an opaque wake handle chosen by the surrounding
/// executor; the executor maps handles to real wake targets and performs
/// the wakes this type's contracts hand back. At most one suspended
/// waiter is supported at a time: registering a second one overwrites
/// the first, a documented limitation of the design.
pub struct AsyncQueue<T> {
    /// Queued elements, front first.
    pub items: Vec<T>,
    /// The wake handle of the one pending waiter, if any.
    pub waiter: Option<u64>,
}

/// The outcome of one poll of the suspension point: either the front
/// element was ready, or the caller suspended and its wake handle is now
/// the queue's registered waiter.
pub struct AsyncQueuePop<T> {
    pub ready: Option<T>,
}

impl<T> Default for AsyncQueue<T> {
    fn default() -> (r: Self)
        ensures
            r.items@ == Seq::<T>::empty(),
            r.waiter is None,
    {
        AsyncQueue::new()
    }
}

impl<T> AsyncQueue<T> {
    pub fn new() -> (r: Self)
        ensures
            r.items@ == Seq::<T>::empty(),
            r.waiter is None,
    {
        AsyncQueue { items: Vec::new(), waiter: None }
    }

    /// Enqueues at the back and hands back the pending waiter's handle,
    /// cleared, so the executor can wake it.
    pub fn push(&mut self, t: T) -> (wake: Option<u64>)
        ensures
            final(self).items@ == old(self).items@.push(t),
            final(self).waiter is None,
            wake == old(self).waiter,
    {
        self.items.push(t);
        let wake = self.waiter;
        self.waiter = None;
        wake
    }

    /// Removes and returns the front element if present; never blocks and
    /// never touches the waiter.
    pub fn try_pop(&mut self) -> (r: Option<T>)
        ensures
            final(self).waiter == old(self).waiter,
            if old(self).items@.len() > 0 {
                r matches Some(t) && t == old(self).items@[0] && final(self).items@ == old(self).items@.drop_first()
            } else {
                r is None && final(self).items@ == old(self).items@
            },
    {
        if self.items.len() == 0 {
            return None;
        }
        let t = self.items.remove(0);
        assert(self.items@ =~= old(self).items@.drop_first());
        Some(t)
    }

    /// One poll of the suspension point: returns the front element when
    /// one is already queued, otherwise registers `waker` (overwriting any
    /// previously registered waiter) and reports the suspension.
    pub fn pop(&mut self, waker: u64) -> (r: AsyncQueuePop<T>)
        ensures
            if old(self).items@.len() > 0 {
                r.ready matches Some(t) && t == old(self).items@[0] && final(self).items@ == old(self).items@.drop_first() && final(self).waiter == old(self).waiter
            } else {
                r.ready is None && final(self).items@ == old(self).items@ && final(self).waiter
                    == Some(waker)
            },
    {
        match self.try_pop() {
            Some(t) => AsyncQueuePop { ready: Some(t) },
            None => {
                self.waiter = Some(waker);
                AsyncQueuePop { ready: None }
            },
        }
    }

    /// Empties the queue and drops the pending waiter without waking it,
    /// used on shutdown to avoid spurious wakes after teardown.
    pub fn clear(&mut self)
        ensures
            final(self).items@ == Seq::<T>::empty(),
            final(self).waiter is None,
    {
        self.items.clear();
        self.waiter = None;
    }
}

} // verus!
