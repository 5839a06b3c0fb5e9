//! Coalesced "something changed" notification between cores.
//!
//! The published state is the generation counter of an `embassy_sync` watch
//! channel: every trigger raises it by one, and each waiter remembers the
//! generation it saw last. Any number of triggers between two observations
//! collapse into one wakeup, and a wakeup carries no payload: the receiver
//! must re-derive the truth (for instance the queue occupancy) itself.

use vstd::prelude::*;

verus! {

/// Holds the `embassy_sync::watch::Watch` whose message id is the published
/// generation. The watch is kept behind this opaque struct because its own
/// declaration (generic over an outside mutex trait) is refused.
#[verifier::external_body]
pub struct WatchCell {
    watch: embassy_sync::watch::Watch<
        embassy_sync::blocking_mutex::raw::CriticalSectionRawMutex,
        (),
        4,
    >,
}

/// How many times the watch has been published to since it was made.
pub uninterp spec fn watch_generation(w: WatchCell) -> u64;

impl WatchCell {
    /// Relies on `embassy_sync::watch::Watch::new`: a new watch starts at
    /// message id 0.
    #[verifier::external_body]
    pub(crate) fn new() -> (r: WatchCell)
        ensures
            watch_generation(r) == 0,
    {
        WatchCell { watch: embassy_sync::watch::Watch::new() }
    }

    /// Relies on `embassy_sync::watch::Sender::send`: it stores the value and
    /// raises the message id by one (an overflowing id would panic, hence the
    /// bound).
    #[verifier::external_body]
    pub(crate) fn publish(&mut self)
        requires
            watch_generation(*old(self)) < u64::MAX,
        ensures
            watch_generation(*final(self)) == watch_generation(*old(self)) + 1,
    {
        self.watch.sender().send(())
    }

    /// Relies on `embassy_sync::watch::Watch::get_msg_id`: the current
    /// message id.
    #[verifier::external_body]
    pub(crate) fn message_id(&self) -> (r: u64)
        ensures
            r == watch_generation(*self),
    {
        self.watch.get_msg_id()
    }
}

/// The generation after one more trigger. The counter stops at its largest
/// value instead of wrapping, so a later generation is never mistaken for an
/// earlier one.
pub open spec fn next_generation(g: u64) -> u64 {
    if g < u64::MAX {
        (g + 1) as u64
    } else {
        g
    }
}

/// The generation after `k` triggers starting from `g`.
pub open spec fn triggered(g: u64, k: nat) -> u64
    decreases k,
{
    if k == 0 {
        g
    } else {
        next_generation(triggered(g, (k - 1) as nat))
    }
}

/// One observation by a waiter that last saw `seen` of a signal now at `g`:
/// whether it wakes, and what it has seen afterwards.
pub open spec fn observe(seen: u64, g: u64) -> (bool, u64) {
    if g > seen {
        (true, g)
    } else {
        (false, seen)
    }
}

/// A hardware-backed, payload-less notification, as seen by software.
pub struct CrossCoreSignal {
    cell: WatchCell,
}

impl CrossCoreSignal {
    /// The number of triggers published so far (saturating).
    pub closed spec fn generation(&self) -> u64 {
        watch_generation(self.cell)
    }

    /// A signal that has never fired.
    pub fn new() -> (r: CrossCoreSignal)
        ensures
            r.generation() == 0,
    {
        CrossCoreSignal { cell: WatchCell::new() }
    }

    /// Raises the event. Always succeeds; bursts collapse.
    pub fn trigger(&mut self)
        ensures
            final(self).generation() == next_generation(old(self).generation()),
    {
        if self.cell.message_id() < u64::MAX {
            self.cell.publish();
        }
    }

    /// The current generation, for waiters and for the boot handshake.
    pub fn current_generation(&self) -> (r: u64)
        ensures
            r == self.generation(),
    {
        self.cell.message_id()
    }
}

/// One local subscriber of a `CrossCoreSignal`: it remembers the generation
/// it observed last, so several waiters on one core each see a change
/// independently.
pub struct SignalWaiter {
    seen: u64,
}

impl SignalWaiter {
    /// The generation this waiter observed last.
    pub closed spec fn seen(&self) -> u64 {
        self.seen
    }

    /// A waiter that has observed nothing yet: any trigger already raised
    /// counts as a change.
    pub fn new() -> (r: SignalWaiter)
        ensures
            r.seen() == 0,
    {
        SignalWaiter { seen: 0 }
    }

    /// A waiter that treats everything raised so far as already observed.
    pub fn subscribe(signal: &CrossCoreSignal) -> (r: SignalWaiter)
        ensures
            r.seen() == signal.generation(),
    {
        SignalWaiter { seen: signal.current_generation() }
    }

    /// Whether the signal changed since this waiter's last observation,
    /// without marking it observed.
    pub fn pending(&self, signal: &CrossCoreSignal) -> (r: bool)
        ensures
            r == observe(self.seen(), signal.generation()).0,
    {
        signal.current_generation() > self.seen
    }

    /// The non-suspending form of `wait`: reports whether the signal changed
    /// since the last observation and marks the current state observed.
    pub fn changed(&mut self, signal: &CrossCoreSignal) -> (r: bool)
        ensures
            (r, final(self).seen()) == observe(old(self).seen(), signal.generation()),
    {
        let g = signal.current_generation();
        if g > self.seen {
            self.seen = g;
            true
        } else {
            false
        }
    }
}

/// Triggers only move the generation forward.
pub proof fn lemma_triggered_monotone(g: u64, k: nat)
    ensures
        g <= triggered(g, k),
        g < u64::MAX && k >= 1 ==> g < triggered(g, k),
    decreases k,
{
    if k > 0 {
        lemma_triggered_monotone(g, (k - 1) as nat);
    }
}

/// Coalescing: a waiter that has caught up with a signal, after any number
/// (one or more) of triggers with no observation in between, wakes exactly
/// once: its first observation reports a change and the next one does not.
/// (A counter that has reached its largest value never moves again, so the
/// signal must not be saturated to start with.)
pub proof fn lemma_coalesced_wakeup(seen: u64, g: u64, k: nat)
    requires
        seen <= g,
        g < u64::MAX,
        k >= 1,
    ensures
        observe(seen, triggered(g, k)).0,
        observe(seen, triggered(g, k)).1 == triggered(g, k),
        !observe(observe(seen, triggered(g, k)).1, triggered(g, k)).0,
{
    lemma_triggered_monotone(g, k);
}

} // verus!
