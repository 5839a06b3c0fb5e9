//! The shared-memory single-producer/single-consumer transport.
//!
//! `UninitRingBuffer` is the shared segment: a bounded queue of 64-bit
//! records that both cores reach. It starts unusable; one reset empties it,
//! after which each end can be acquired exactly once. The producer and
//! consumer handles are those one-time capabilities: they own no memory and
//! act on the segment they are handed. A second reset or a second
//! acquisition is reported as an error instead of being left undefined.

use vstd::prelude::*;
use crate::spsc::{SpscQueue, queue_items, RING_CAPACITY};
use crate::signal::{
    CrossCoreSignal, SignalWaiter, next_generation, observe, triggered, lemma_coalesced_wakeup,
};

verus! {

/// A misuse of the transport's one-time protocol steps.
#[derive(Debug, Clone, Copy, PartialEq, Eq, Structural)]
pub enum RingError {
    /// The segment was used before its one reset.
    NotReset,
    /// The segment was reset a second time.
    AlreadyReset,
    /// This end of the segment was already handed out.
    AlreadyAcquired,
}

/// Whether a send into a ring holding `q` is accepted.
pub open spec fn send_accepted(q: Seq<u64>) -> bool {
    q.len() < RING_CAPACITY
}

/// The ring contents after sending `v` into a ring holding `q`: the value
/// joins the back, or nothing changes when the ring is full.
pub open spec fn after_send(q: Seq<u64>, v: u64) -> Seq<u64> {
    if send_accepted(q) {
        q.push(v)
    } else {
        q
    }
}

/// The value a receive takes from a ring holding `q`: the front one, if any.
pub open spec fn recv_value(q: Seq<u64>) -> Option<u64> {
    if q.len() > 0 {
        Some(q[0])
    } else {
        None
    }
}

/// The ring contents after a receive from a ring holding `q`.
pub open spec fn after_recv(q: Seq<u64>) -> Seq<u64> {
    if q.len() > 0 {
        q.drop_first()
    } else {
        q
    }
}

/// The shared ring-buffer segment.
pub struct UninitRingBuffer {
    queue: SpscQueue,
    reset_done: bool,
    producer_taken: bool,
    consumer_taken: bool,
}

impl View for UninitRingBuffer {
    type V = Seq<u64>;

    /// The records in the ring, oldest first.
    closed spec fn view(&self) -> Seq<u64> {
        queue_items(self.queue)
    }
}

impl UninitRingBuffer {
    /// Whether the one reset of this boot has happened.
    pub closed spec fn is_reset(&self) -> bool {
        self.reset_done
    }

    /// Whether the producer end was handed out.
    pub closed spec fn producer_acquired(&self) -> bool {
        self.producer_taken
    }

    /// Whether the consumer end was handed out.
    pub closed spec fn consumer_acquired(&self) -> bool {
        self.consumer_taken
    }

    /// A segment that has not been reset: nothing may use it yet.
    pub fn new() -> (r: UninitRingBuffer)
        ensures
            !r.is_reset(),
            !r.producer_acquired(),
            !r.consumer_acquired(),
    {
        UninitRingBuffer {
            queue: SpscQueue::new(),
            reset_done: false,
            producer_taken: false,
            consumer_taken: false,
        }
    }

    /// The producer side's one reset per boot: the ring becomes empty.
    pub fn reset(&mut self) -> (r: Result<(), RingError>)
        ensures
            old(self).is_reset() ==> r == Err::<(), RingError>(RingError::AlreadyReset)
                && *final(self) == *old(self),
            !old(self).is_reset() ==> r is Ok && final(self)@ == Seq::<u64>::empty()
                && final(self).is_reset(),
            final(self).producer_acquired() == old(self).producer_acquired(),
            final(self).consumer_acquired() == old(self).consumer_acquired(),
    {
        if self.reset_done {
            return Err(RingError::AlreadyReset);
        }
        self.queue = SpscQueue::new();
        self.reset_done = true;
        Ok(())
    }

    /// The number of records in the ring.
    pub fn len(&self) -> (r: usize)
        ensures
            r == self@.len(),
    {
        self.queue.len()
    }

    /// Hands out the producer end, once, after the reset.
    pub fn get_sender(&mut self) -> (r: Result<RingBufferProducer, RingError>)
        ensures
            !old(self).is_reset() ==> r == Err::<RingBufferProducer, RingError>(
                RingError::NotReset,
            ),
            old(self).is_reset() && old(self).producer_acquired() ==> r
                == Err::<RingBufferProducer, RingError>(RingError::AlreadyAcquired),
            old(self).is_reset() && !old(self).producer_acquired() ==> r is Ok,
            r is Ok ==> final(self).producer_acquired(),
            r is Err ==> *final(self) == *old(self),
            final(self)@ == old(self)@,
            final(self).is_reset() == old(self).is_reset(),
            final(self).consumer_acquired() == old(self).consumer_acquired(),
    {
        if !self.reset_done {
            return Err(RingError::NotReset);
        }
        if self.producer_taken {
            return Err(RingError::AlreadyAcquired);
        }
        self.producer_taken = true;
        Ok(RingBufferProducer { _capability: () })
    }

    /// Hands out the consumer end, once, after the reset, with a waiter that
    /// has observed nothing yet.
    pub fn get_receiver(&mut self) -> (r: Result<RingBufferConsumer, RingError>)
        ensures
            !old(self).is_reset() ==> r == Err::<RingBufferConsumer, RingError>(
                RingError::NotReset,
            ),
            old(self).is_reset() && old(self).consumer_acquired() ==> r
                == Err::<RingBufferConsumer, RingError>(RingError::AlreadyAcquired),
            old(self).is_reset() && !old(self).consumer_acquired() ==> r is Ok
                && r->Ok_0.seen() == 0,
            r is Ok ==> final(self).consumer_acquired(),
            r is Err ==> *final(self) == *old(self),
            final(self)@ == old(self)@,
            final(self).is_reset() == old(self).is_reset(),
            final(self).producer_acquired() == old(self).producer_acquired(),
    {
        self.get_receiver_with_signal(SignalWaiter::new())
    }

    /// Hands out the consumer end, once, after the reset, woken through the
    /// given waiter.
    pub fn get_receiver_with_signal(&mut self, signal: SignalWaiter) -> (r: Result<
        RingBufferConsumer,
        RingError,
    >)
        ensures
            !old(self).is_reset() ==> r == Err::<RingBufferConsumer, RingError>(
                RingError::NotReset,
            ),
            old(self).is_reset() && old(self).consumer_acquired() ==> r
                == Err::<RingBufferConsumer, RingError>(RingError::AlreadyAcquired),
            old(self).is_reset() && !old(self).consumer_acquired() ==> r is Ok
                && r->Ok_0.seen() == signal.seen(),
            r is Ok ==> final(self).consumer_acquired(),
            r is Err ==> *final(self) == *old(self),
            final(self)@ == old(self)@,
            final(self).is_reset() == old(self).is_reset(),
            final(self).producer_acquired() == old(self).producer_acquired(),
    {
        if !self.reset_done {
            return Err(RingError::NotReset);
        }
        if self.consumer_taken {
            return Err(RingError::AlreadyAcquired);
        }
        self.consumer_taken = true;
        Ok(RingBufferConsumer { waiter: signal })
    }
}

/// The write-only end of the ring.
pub struct RingBufferProducer {
    _capability: (),
}

impl RingBufferProducer {
    /// Enqueues one record and, when it was accepted, triggers the signal
    /// that wakes the consumer. A full ring hands the record back unchanged:
    /// there is no blocking and no overwriting.
    pub fn send(&mut self, ring: &mut UninitRingBuffer, signal: &mut CrossCoreSignal, value: u64)
        -> (r: Result<(), u64>)
        ensures
            final(ring)@ == after_send(old(ring)@, value),
            send_accepted(old(ring)@) ==> r is Ok
                && final(signal).generation() == next_generation(old(signal).generation()),
            !send_accepted(old(ring)@) ==> r == Err::<(), u64>(value)
                && *final(signal) == *old(signal),
            final(ring).is_reset() == old(ring).is_reset(),
            final(ring).producer_acquired() == old(ring).producer_acquired(),
            final(ring).consumer_acquired() == old(ring).consumer_acquired(),
    {
        let res = ring.queue.enqueue(value);
        if res.is_ok() {
            signal.trigger();
        }
        res
    }
}

/// The read-only end of the ring, with the waiter it sleeps on.
pub struct RingBufferConsumer {
    waiter: SignalWaiter,
}

impl RingBufferConsumer {
    /// The signal generation this consumer observed last.
    pub closed spec fn seen(&self) -> u64 {
        self.waiter.seen()
    }

    /// One turn of the receive loop. It first marks the signal's current
    /// state observed, then looks at the real occupancy: the front record
    /// when there is one, else `None`, meaning "suspend until the signal
    /// changes, then call again". Because the observation comes before the
    /// look, a record sent after an empty look always raises a fresh change.
    /// The signal never decides what is returned: only the ring does.
    pub fn recv(&mut self, ring: &mut UninitRingBuffer, signal: &CrossCoreSignal) -> (r: Option<
        u64,
    >)
        ensures
            r == recv_value(old(ring)@),
            final(ring)@ == after_recv(old(ring)@),
            final(self).seen() == observe(old(self).seen(), signal.generation()).1,
            final(ring).is_reset() == old(ring).is_reset(),
            final(ring).producer_acquired() == old(ring).producer_acquired(),
            final(ring).consumer_acquired() == old(ring).consumer_acquired(),
    {
        let _ = self.waiter.changed(signal);
        self.try_recv(ring)
    }

    /// Takes the front record if there is one, without touching the signal.
    pub fn try_recv(&mut self, ring: &mut UninitRingBuffer) -> (r: Option<u64>)
        ensures
            r == recv_value(old(ring)@),
            final(ring)@ == after_recv(old(ring)@),
            final(self).seen() == old(self).seen(),
            final(ring).is_reset() == old(ring).is_reset(),
            final(ring).producer_acquired() == old(ring).producer_acquired(),
            final(ring).consumer_acquired() == old(ring).consumer_acquired(),
    {
        ring.queue.dequeue()
    }

    /// Whether the signal changed since this consumer last looked, that is,
    /// whether a suspended `recv` should run again.
    pub fn should_wake(&self, signal: &CrossCoreSignal) -> (r: bool)
        ensures
            r == observe(self.seen(), signal.generation()).0,
    {
        self.waiter.pending(signal)
    }
}

/// One step of a run of the transport, as both ends see it.
pub enum RingOp {
    /// The producer sends a record.
    Send(u64),
    /// The consumer takes a turn of its receive loop.
    Recv,
    /// The signal fires, whether or not anything was sent.
    Trigger,
}

/// What a run of the transport has done so far.
pub struct RingTrace {
    /// The records in the ring now.
    pub queue: Seq<u64>,
    /// The records whose send was accepted, in order.
    pub accepted: Seq<u64>,
    /// The records handed back to the producer, in order.
    pub rejected: Seq<u64>,
    /// The records the consumer took, in order.
    pub received: Seq<u64>,
}

/// A run that has not started, on a ring holding `q`.
pub open spec fn start(q: Seq<u64>) -> RingTrace {
    RingTrace {
        queue: q,
        accepted: Seq::empty(),
        rejected: Seq::empty(),
        received: Seq::empty(),
    }
}

/// One step, as `RingBufferProducer::send` and `RingBufferConsumer::recv`
/// perform it.
pub open spec fn apply_op(t: RingTrace, op: RingOp) -> RingTrace {
    match op {
        RingOp::Send(v) => if send_accepted(t.queue) {
            RingTrace { queue: after_send(t.queue, v), accepted: t.accepted.push(v), ..t }
        } else {
            RingTrace { queue: after_send(t.queue, v), rejected: t.rejected.push(v), ..t }
        },
        RingOp::Recv => match recv_value(t.queue) {
            Some(v) => RingTrace { queue: after_recv(t.queue), received: t.received.push(v), ..t },
            None => RingTrace { queue: after_recv(t.queue), ..t },
        },
        RingOp::Trigger => t,
    }
}

/// A sequence of steps, in order.
pub open spec fn run_ops(t: RingTrace, ops: Seq<RingOp>) -> RingTrace
    decreases ops.len(),
{
    if ops.len() == 0 {
        t
    } else {
        apply_op(run_ops(t, ops.drop_last()), ops.last())
    }
}

/// The records the producer tried to send in `ops`, in order.
pub open spec fn sent_values(ops: Seq<RingOp>) -> Seq<u64>
    decreases ops.len(),
{
    if ops.len() == 0 {
        Seq::empty()
    } else {
        match ops.last() {
            RingOp::Send(v) => sent_values(ops.drop_last()).push(v),
            _ => sent_values(ops.drop_last()),
        }
    }
}

/// `n` receive turns in a row.
pub open spec fn recv_ops(n: nat) -> Seq<RingOp> {
    Seq::new(n, |i: int| RingOp::Recv)
}

/// One send of each value, in order.
pub open spec fn send_ops(vs: Seq<u64>) -> Seq<RingOp> {
    vs.map_values(|v: u64| RingOp::Send(v))
}

/// Nothing is lost, duplicated or reordered: what was in the ring followed
/// by every accepted record equals what was received followed by what is
/// still in the ring; every attempted send is either accepted or rejected,
/// in order; and the ring never holds more than its capacity.
pub proof fn lemma_ring_conservation(t: RingTrace, ops: Seq<RingOp>)
    requires
        t.queue.len() <= RING_CAPACITY,
    ensures
        t.queue + run_ops(t, ops).accepted.subrange(
            t.accepted.len() as int,
            run_ops(t, ops).accepted.len() as int,
        ) =~= run_ops(t, ops).received.subrange(
            t.received.len() as int,
            run_ops(t, ops).received.len() as int,
        ) + run_ops(t, ops).queue,
        run_ops(t, ops).accepted.subrange(0, t.accepted.len() as int) == t.accepted,
        run_ops(t, ops).received.subrange(0, t.received.len() as int) == t.received,
        run_ops(t, ops).rejected.subrange(0, t.rejected.len() as int) == t.rejected,
        run_ops(t, ops).accepted.len() >= t.accepted.len(),
        run_ops(t, ops).received.len() >= t.received.len(),
        run_ops(t, ops).rejected.len() >= t.rejected.len(),
        (run_ops(t, ops).accepted.len() - t.accepted.len()) + (run_ops(t, ops).rejected.len()
            - t.rejected.len()) == sent_values(ops).len(),
        run_ops(t, ops).rejected.len() == t.rejected.len() ==> run_ops(t, ops).accepted
            =~= t.accepted + sent_values(ops),
        run_ops(t, ops).queue.len() <= RING_CAPACITY,
    decreases ops.len(),
{
    if ops.len() > 0 {
        lemma_ring_conservation(t, ops.drop_last());
        let p = run_ops(t, ops.drop_last());
        let a0 = t.accepted.len() as int;
        let r0 = t.received.len() as int;
        let pa = p.accepted.subrange(a0, p.accepted.len() as int);
        let pr = p.received.subrange(r0, p.received.len() as int);
        assert(t.queue + pa =~= pr + p.queue);
        match ops.last() {
            RingOp::Send(v) => {
                if send_accepted(p.queue) {
                    let n = run_ops(t, ops);
                    assert(n.accepted.subrange(a0, n.accepted.len() as int) =~= pa.push(v));
                    assert(t.queue + pa.push(v) =~= (t.queue + pa).push(v));
                    assert(n.accepted.subrange(0, a0) =~= p.accepted.subrange(0, a0));
                } else {
                    let n = run_ops(t, ops);
                    assert(n.rejected.subrange(0, t.rejected.len() as int) =~= p.rejected.subrange(
                        0,
                        t.rejected.len() as int,
                    ));
                }
            },
            RingOp::Recv => {
                if p.queue.len() > 0 {
                    let n = run_ops(t, ops);
                    let v = p.queue[0];
                    assert(n.received.subrange(r0, n.received.len() as int) =~= pr.push(v));
                    assert(pr + p.queue =~= pr.push(v) + p.queue.drop_first());
                    assert(n.received.subrange(0, r0) =~= p.received.subrange(0, r0));
                }
            },
            RingOp::Trigger => {},
        }
    }
}

/// First in, first out: on a ring that starts empty, as long as no send is
/// rejected, the consumer receives exactly the records sent, in the order
/// sent, and the ring holds the rest of them, whatever the interleaving of
/// sends, receives and triggers.
pub proof fn lemma_fifo(ops: Seq<RingOp>)
    ensures
        run_ops(start(Seq::empty()), ops).rejected.len() == 0 ==> {
            let t = run_ops(start(Seq::empty()), ops);
            &&& t.received == sent_values(ops).subrange(0, t.received.len() as int)
            &&& t.queue == sent_values(ops).subrange(
                t.received.len() as int,
                sent_values(ops).len() as int,
            )
        },
{
    let t0 = start(Seq::<u64>::empty());
    lemma_ring_conservation(t0, ops);
    let t = run_ops(t0, ops);
    if t.rejected.len() == 0 {
        assert(t.accepted.subrange(0, t.accepted.len() as int) =~= t.accepted);
        assert(t.received.subrange(0, t.received.len() as int) =~= t.received);
        assert(t.accepted =~= sent_values(ops));
        assert(Seq::<u64>::empty() + t.accepted =~= t.accepted);
        assert(t.received + t.queue == sent_values(ops));
        assert(t.received =~= (t.received + t.queue).subrange(0, t.received.len() as int));
        assert(t.queue =~= (t.received + t.queue).subrange(
            t.received.len() as int,
            (t.received + t.queue).len() as int,
        ));
    }
}

/// No spurious read: whatever the interleaving of triggers, the consumer
/// only ever receives records that were in the ring or were sent and
/// accepted, front first: never more records than those, and never one
/// before its send.
pub proof fn lemma_no_spurious_read(q: Seq<u64>, ops: Seq<RingOp>)
    requires
        q.len() <= RING_CAPACITY,
    ensures
        run_ops(start(q), ops).received.len() <= q.len() + run_ops(start(q), ops).accepted.len(),
        run_ops(start(q), ops).received == (q + run_ops(start(q), ops).accepted).subrange(
            0,
            run_ops(start(q), ops).received.len() as int,
        ),
{
    let t0 = start(q);
    lemma_ring_conservation(t0, ops);
    let t = run_ops(t0, ops);
    assert(t.accepted.subrange(0, t.accepted.len() as int) =~= t.accepted);
    assert(t.received.subrange(0, t.received.len() as int) =~= t.received);
    assert(q + t.accepted == t.received + t.queue);
    assert(t.received =~= (t.received + t.queue).subrange(0, t.received.len() as int));
}

/// Sends into a ring with room for all of them are all accepted.
pub proof fn lemma_send_all(t: RingTrace, vs: Seq<u64>)
    requires
        t.queue.len() + vs.len() <= RING_CAPACITY,
    ensures
        run_ops(t, send_ops(vs)) == (RingTrace {
            queue: t.queue + vs,
            accepted: t.accepted + vs,
            ..t
        }),
    decreases vs.len(),
{
    if vs.len() == 0 {
        assert(send_ops(vs) =~= Seq::<RingOp>::empty());
        assert(t.queue + vs =~= t.queue);
        assert(t.accepted + vs =~= t.accepted);
    } else {
        assert(send_ops(vs).drop_last() =~= send_ops(vs.drop_last()));
        lemma_send_all(t, vs.drop_last());
        assert((t.queue + vs.drop_last()).push(vs.last()) =~= t.queue + vs);
        assert((t.accepted + vs.drop_last()).push(vs.last()) =~= t.accepted + vs);
    }
}

/// `n` receive turns on a ring holding at least `n` records take its first
/// `n` records, in order.
pub proof fn lemma_recv_all(t: RingTrace, n: nat)
    requires
        n <= t.queue.len(),
    ensures
        run_ops(t, recv_ops(n)) == (RingTrace {
            queue: t.queue.subrange(n as int, t.queue.len() as int),
            received: t.received + t.queue.subrange(0, n as int),
            ..t
        }),
    decreases n,
{
    if n == 0 {
        assert(recv_ops(n) =~= Seq::<RingOp>::empty());
        assert(t.queue.subrange(0, t.queue.len() as int) =~= t.queue);
        assert(t.received + t.queue.subrange(0, 0) =~= t.received);
    } else {
        assert(recv_ops(n).drop_last() =~= recv_ops((n - 1) as nat));
        lemma_recv_all(t, (n - 1) as nat);
        let q = t.queue;
        assert(q.subrange(n - 1, q.len() as int).drop_first() =~= q.subrange(n as int, q.len() as int));
        assert((t.received + q.subrange(0, n - 1)).push(q[n - 1]) =~= t.received + q.subrange(0, n as int));
    }
}

/// Capacity: after as many accepted sends as the ring holds, with no
/// receive in between, one more send is handed back and leaves the ring
/// unchanged, and draining the ring then yields exactly the records first
/// sent, in order.
pub proof fn lemma_capacity(vs: Seq<u64>, x: u64)
    requires
        vs.len() == RING_CAPACITY,
    ensures
        ({
            let filled = run_ops(start(Seq::empty()), send_ops(vs));
            let over = apply_op(filled, RingOp::Send(x));
            let drained = run_ops(over, recv_ops(RING_CAPACITY as nat));
            &&& filled.queue == vs
            &&& filled.rejected.len() == 0
            &&& !send_accepted(filled.queue)
            &&& over.queue == vs
            &&& over.rejected == seq![x]
            &&& drained.received == vs
            &&& drained.queue.len() == 0
        }),
{
    let t0 = start(Seq::<u64>::empty());
    lemma_send_all(t0, vs);
    let filled = run_ops(t0, send_ops(vs));
    assert(filled.queue =~= vs);
    let over = apply_op(filled, RingOp::Send(x));
    assert(over.rejected =~= seq![x]);
    lemma_recv_all(over, RING_CAPACITY as nat);
    assert(vs.subrange(0, RING_CAPACITY as int) =~= vs);
    assert(Seq::<u64>::empty() + vs =~= vs);
}

/// Coalescing, end to end: when a consumer has caught up with the signal
/// and the producer then makes one or more accepted sends (each of which
/// triggers the signal once) with no receive in between, the consumer wakes
/// exactly once, and the occupancy it then finds holds every one of those
/// records, after the ones already there, in order.
pub proof fn lemma_coalesced_sends(q: Seq<u64>, vs: Seq<u64>, seen: u64, g: u64)
    requires
        q.len() + vs.len() <= RING_CAPACITY,
        vs.len() >= 1,
        seen <= g,
        g < u64::MAX,
    ensures
        observe(seen, triggered(g, vs.len())).0,
        !observe(observe(seen, triggered(g, vs.len())).1, triggered(g, vs.len())).0,
        run_ops(start(q), send_ops(vs)).queue == q + vs,
        run_ops(start(q), send_ops(vs)).rejected.len() == 0,
{
    lemma_coalesced_wakeup(seen, g, vs.len());
    lemma_send_all(start(q), vs);
}

/// No lost wakeup: a receive turn that finds the ring empty leaves its
/// consumer caught up with the signal, so the trigger of any send accepted
/// afterwards wakes it.
pub proof fn lemma_no_lost_wakeup(seen: u64, g: u64)
    requires
        seen <= g,
        g < u64::MAX,
    ensures
        observe(seen, g).1 == g,
        observe(observe(seen, g).1, next_generation(g)).0,
{
}

} // verus!
