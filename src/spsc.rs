//! The bounded lock-free queue that backs the shared ring buffer.
//!
//! The storage is `heapless::spsc::Queue`; every operation on it that the
//! transport performs is a wrapper below, whose contract is stated over
//! `queue_items`, the sequence of values the queue holds, front first.

use vstd::prelude::*;

verus! {

/// Number of values the shared ring holds at once.
pub const RING_CAPACITY: usize = 1024;

/// The heapless queue in use: a `Queue<T, N>` keeps one of its `N` slots
/// free, so it is declared with one slot more than `RING_CAPACITY`.
#[verifier::external_body]
pub struct SpscQueue {
    inner: heapless::spsc::Queue<u64, 1025>,
}

/// The values held by the queue, from the front (next to leave) to the back.
pub uninterp spec fn queue_items(q: SpscQueue) -> Seq<u64>;

impl SpscQueue {
    /// Relies on `heapless::spsc::Queue::new`: a new queue is empty.
    #[verifier::external_body]
    pub(crate) fn new() -> (r: SpscQueue)
        ensures
            queue_items(r) == Seq::<u64>::empty(),
    {
        SpscQueue { inner: heapless::spsc::Queue::new() }
    }

    /// Relies on `heapless::spsc::QueueInner::enqueue`: the item goes to the
    /// back unless the queue already holds `capacity()` items (here
    /// `RING_CAPACITY`), in which case it is handed back and nothing changes.
    #[verifier::external_body]
    pub(crate) fn enqueue(&mut self, item: u64) -> (r: Result<(), u64>)
        ensures
            queue_items(*old(self)).len() < RING_CAPACITY ==> r is Ok
                && queue_items(*final(self)) == queue_items(*old(self)).push(item),
            queue_items(*old(self)).len() >= RING_CAPACITY ==> r is Err && r->Err_0 == item
                && queue_items(*final(self)) == queue_items(*old(self)),
            queue_items(*final(self)).len() <= RING_CAPACITY,
    {
        self.inner.enqueue(item)
    }

    /// Relies on `heapless::spsc::QueueInner::dequeue`: the front item leaves,
    /// or `None` when the queue is empty.
    #[verifier::external_body]
    pub(crate) fn dequeue(&mut self) -> (r: Option<u64>)
        ensures
            queue_items(*old(self)).len() == 0 ==> r == None::<u64>
                && queue_items(*final(self)) == queue_items(*old(self)),
            queue_items(*old(self)).len() > 0 ==> r == Some(queue_items(*old(self))[0])
                && queue_items(*final(self)) == queue_items(*old(self)).drop_first(),
    {
        self.inner.dequeue()
    }

    /// Relies on `heapless::spsc::QueueInner::len`: the number of items held.
    #[verifier::external_body]
    pub(crate) fn len(&self) -> (r: usize)
        ensures
            r == queue_items(*self).len(),
    {
        self.inner.len()
    }
}

} // verus!
