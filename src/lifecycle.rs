//! The ordered boot handshake between the two cores.
//!
//! The primary core walks one track, one step at a time and never back:
//! grant the shared memory, hold the peer, reset its side of the transport,
//! release the peer, then accept the peer's "ready" signal. Each step is
//! only taken from the stage the previous one left, so the grant and the
//! transport reset always come before the release, and a ready signal is
//! only accepted when it was raised after the release. A step out of order
//! is reported as its own fault kind. The peer walks the short track
//! reset, booted (on release), operational (after signalling ready).

use vstd::prelude::*;
use crate::region::{MemoryRegionGuard, RegionError};
use crate::ring_buffer::{UninitRingBuffer, RingError};
use crate::signal::{CrossCoreSignal, next_generation};

verus! {

/// Where the primary core is in the handshake.
#[derive(Debug, Clone, Copy, PartialEq, Eq, Structural)]
pub enum BootStage {
    Boot,
    MemoryGranted,
    PeerHeld,
    TransportReset,
    PeerReleased,
    Operational,
}

/// Whether the peer core is held in reset or running.
#[derive(Debug, Clone, Copy, PartialEq, Eq, Structural)]
pub enum CoreBootState {
    Held,
    Released,
}

/// The steps of the primary track.
#[derive(Debug, Clone, Copy, PartialEq, Eq, Structural)]
pub enum BootAction {
    GrantMemory,
    HoldPeer,
    ResetTransport,
    ReleasePeer,
    AcceptReady,
}

/// A failed step of the primary track.
#[derive(Debug, Clone, Copy, PartialEq, Eq, Structural)]
pub enum LifecycleError {
    /// The step was attempted from a stage that does not allow it.
    OutOfOrder { attempted: BootAction, stage: BootStage },
    /// The memory grant was rejected.
    Region(RegionError),
    /// The transport reset was rejected.
    Transport(RingError),
}

/// The steps of the primary track, in the only order they may happen.
pub open spec fn handshake_order() -> Seq<BootAction> {
    seq![
        BootAction::GrantMemory,
        BootAction::HoldPeer,
        BootAction::ResetTransport,
        BootAction::ReleasePeer,
        BootAction::AcceptReady,
    ]
}

/// How many steps lie behind a stage.
pub open spec fn stage_rank(s: BootStage) -> nat {
    match s {
        BootStage::Boot => 0,
        BootStage::MemoryGranted => 1,
        BootStage::PeerHeld => 2,
        BootStage::TransportReset => 3,
        BootStage::PeerReleased => 4,
        BootStage::Operational => 5,
    }
}

/// The step a stage waits for, if any.
pub open spec fn expected_action(s: BootStage) -> Option<BootAction> {
    match s {
        BootStage::Boot => Some(BootAction::GrantMemory),
        BootStage::MemoryGranted => Some(BootAction::HoldPeer),
        BootStage::PeerHeld => Some(BootAction::ResetTransport),
        BootStage::TransportReset => Some(BootAction::ReleasePeer),
        BootStage::PeerReleased => Some(BootAction::AcceptReady),
        BootStage::Operational => None,
    }
}

/// The stage a successful step leads to.
pub open spec fn next_stage(s: BootStage) -> BootStage {
    match s {
        BootStage::Boot => BootStage::MemoryGranted,
        BootStage::MemoryGranted => BootStage::PeerHeld,
        BootStage::PeerHeld => BootStage::TransportReset,
        BootStage::TransportReset => BootStage::PeerReleased,
        BootStage::PeerReleased => BootStage::Operational,
        BootStage::Operational => BootStage::Operational,
    }
}

/// The stage after attempting `a` from `s`, where `ok` says whether the
/// collaborator the step relies on (the region table, the ring, the ready
/// signal) let it through.
pub open spec fn attempt(s: BootStage, a: BootAction, ok: bool) -> BootStage {
    if expected_action(s) == Some(a) && ok {
        next_stage(s)
    } else {
        s
    }
}

/// The peer is released exactly from the release step on.
pub open spec fn peer_state_at(s: BootStage) -> CoreBootState {
    if stage_rank(s) >= 4 {
        CoreBootState::Released
    } else {
        CoreBootState::Held
    }
}

/// The primary core's side of the handshake.
pub struct CoreLifecycleController {
    stage: BootStage,
    release_generation: u64,
}

impl CoreLifecycleController {
    /// The current stage.
    pub closed spec fn stage(&self) -> BootStage {
        self.stage
    }

    /// The ready signal's generation when the peer was released.
    pub closed spec fn release_generation(&self) -> u64 {
        self.release_generation
    }

    /// A controller at the start of a boot cycle.
    pub fn new() -> (r: CoreLifecycleController)
        ensures
            r.stage() == BootStage::Boot,
    {
        CoreLifecycleController { stage: BootStage::Boot, release_generation: 0 }
    }

    /// The stage, for callers.
    pub fn current_stage(&self) -> (r: BootStage)
        ensures
            r == self.stage(),
    {
        self.stage
    }

    /// Whether the peer is held or released.
    pub fn peer_state(&self) -> (r: CoreBootState)
        ensures
            r == peer_state_at(self.stage()),
    {
        match self.stage {
            BootStage::PeerReleased | BootStage::Operational => CoreBootState::Released,
            _ => CoreBootState::Held,
        }
    }

    /// The step to take next, or `None` once operational.
    pub fn next_action(&self) -> (r: Option<BootAction>)
        ensures
            r == expected_action(self.stage()),
    {
        match self.stage {
            BootStage::Boot => Some(BootAction::GrantMemory),
            BootStage::MemoryGranted => Some(BootAction::HoldPeer),
            BootStage::PeerHeld => Some(BootAction::ResetTransport),
            BootStage::TransportReset => Some(BootAction::ReleasePeer),
            BootStage::PeerReleased => Some(BootAction::AcceptReady),
            BootStage::Operational => None,
        }
    }

    /// Grants the peer access to `[start, start + len)`; the first step.
    pub fn grant_memory(&mut self, guard: &mut MemoryRegionGuard, start: u64, len: u64) -> (r:
        Result<(), LifecycleError>)
        requires
            old(guard).wf(),
        ensures
            final(guard).wf(),
            final(self).stage() == attempt(old(self).stage(), BootAction::GrantMemory, r is Ok),
            final(self).release_generation() == old(self).release_generation(),
            old(self).stage() != BootStage::Boot ==> r == Err::<(), LifecycleError>(
                LifecycleError::OutOfOrder {
                    attempted: BootAction::GrantMemory,
                    stage: old(self).stage(),
                },
            ) && *final(guard) == *old(guard),
            old(self).stage() == BootStage::Boot ==> {
                &&& (old(guard).base() <= start && start + len <= old(guard).end()) <==> r is Ok
                &&& r is Err ==> r == Err::<(), LifecycleError>(
                    LifecycleError::Region(RegionError::OutOfBounds),
                ) && *final(guard) == *old(guard)
                &&& r is Ok ==> final(guard).cells() == old(guard).cells_after_grant(
                    start as nat,
                    (start + len) as nat,
                ) && final(guard).base() == old(guard).base()
                    && final(guard).cell_size() == old(guard).cell_size()
            },
    {
        if self.stage != BootStage::Boot {
            return Err(
                LifecycleError::OutOfOrder { attempted: BootAction::GrantMemory, stage: self.stage },
            );
        }
        match guard.grant_shared_access(start, len) {
            Ok(()) => {
                self.stage = BootStage::MemoryGranted;
                Ok(())
            },
            Err(e) => Err(LifecycleError::Region(e)),
        }
    }

    /// Holds the peer core in reset; the second step.
    pub fn hold_peer(&mut self) -> (r: Result<(), LifecycleError>)
        ensures
            final(self).stage() == attempt(old(self).stage(), BootAction::HoldPeer, r is Ok),
            final(self).release_generation() == old(self).release_generation(),
            old(self).stage() == BootStage::MemoryGranted <==> r is Ok,
            r is Err ==> r == Err::<(), LifecycleError>(
                LifecycleError::OutOfOrder { attempted: BootAction::HoldPeer, stage: old(self).stage() },
            ),
    {
        if self.stage != BootStage::MemoryGranted {
            return Err(
                LifecycleError::OutOfOrder { attempted: BootAction::HoldPeer, stage: self.stage },
            );
        }
        self.stage = BootStage::PeerHeld;
        Ok(())
    }

    /// Resets this core's side of the transport; the third step.
    pub fn reset_transport(&mut self, ring: &mut UninitRingBuffer) -> (r: Result<(), LifecycleError>)
        ensures
            final(self).stage() == attempt(old(self).stage(), BootAction::ResetTransport, r is Ok),
            final(self).release_generation() == old(self).release_generation(),
            old(self).stage() != BootStage::PeerHeld ==> r == Err::<(), LifecycleError>(
                LifecycleError::OutOfOrder {
                    attempted: BootAction::ResetTransport,
                    stage: old(self).stage(),
                },
            ) && *final(ring) == *old(ring),
            old(self).stage() == BootStage::PeerHeld ==> {
                &&& !old(ring).is_reset() <==> r is Ok
                &&& r is Err ==> r == Err::<(), LifecycleError>(
                    LifecycleError::Transport(RingError::AlreadyReset),
                ) && *final(ring) == *old(ring)
                &&& r is Ok ==> final(ring)@ == Seq::<u64>::empty() && final(ring).is_reset()
                &&& final(ring).producer_acquired() == old(ring).producer_acquired()
                &&& final(ring).consumer_acquired() == old(ring).consumer_acquired()
            },
    {
        if self.stage != BootStage::PeerHeld {
            return Err(
                LifecycleError::OutOfOrder { attempted: BootAction::ResetTransport, stage: self.stage },
            );
        }
        match ring.reset() {
            Ok(()) => {
                self.stage = BootStage::TransportReset;
                Ok(())
            },
            Err(e) => Err(LifecycleError::Transport(e)),
        }
    }

    /// Releases the peer core; the fourth step. The ready signal's current
    /// generation is remembered, so that only a later trigger counts as the
    /// peer's "ready".
    pub fn release_peer(&mut self, ready: &CrossCoreSignal) -> (r: Result<(), LifecycleError>)
        ensures
            final(self).stage() == attempt(old(self).stage(), BootAction::ReleasePeer, r is Ok),
            old(self).stage() == BootStage::TransportReset <==> r is Ok,
            r is Ok ==> final(self).release_generation() == ready.generation(),
            r is Err ==> r == Err::<(), LifecycleError>(
                LifecycleError::OutOfOrder {
                    attempted: BootAction::ReleasePeer,
                    stage: old(self).stage(),
                },
            ) && final(self).release_generation() == old(self).release_generation(),
    {
        if self.stage != BootStage::TransportReset {
            return Err(
                LifecycleError::OutOfOrder { attempted: BootAction::ReleasePeer, stage: self.stage },
            );
        }
        self.release_generation = ready.current_generation();
        self.stage = BootStage::PeerReleased;
        Ok(())
    }

    /// Checks for the peer's ready signal; the last step. `Ok(true)` when
    /// the signal fired after the release (the handshake is complete),
    /// `Ok(false)` when it has not yet (wait for the signal and ask again).
    /// Before the release no ready signal is accepted.
    pub fn accept_ready(&mut self, ready: &CrossCoreSignal) -> (r: Result<bool, LifecycleError>)
        ensures
            final(self).stage() == attempt(
                old(self).stage(),
                BootAction::AcceptReady,
                r == Ok::<bool, LifecycleError>(true),
            ),
            final(self).release_generation() == old(self).release_generation(),
            old(self).stage() != BootStage::PeerReleased ==> r == Err::<bool, LifecycleError>(
                LifecycleError::OutOfOrder {
                    attempted: BootAction::AcceptReady,
                    stage: old(self).stage(),
                },
            ),
            old(self).stage() == BootStage::PeerReleased ==> r == Ok::<bool, LifecycleError>(
                ready.generation() > old(self).release_generation(),
            ),
    {
        if self.stage != BootStage::PeerReleased {
            return Err(
                LifecycleError::OutOfOrder { attempted: BootAction::AcceptReady, stage: self.stage },
            );
        }
        if ready.current_generation() > self.release_generation {
            self.stage = BootStage::Operational;
            Ok(true)
        } else {
            Ok(false)
        }
    }
}

/// Where the peer core is in the handshake.
#[derive(Debug, Clone, Copy, PartialEq, Eq, Structural)]
pub enum PeerStage {
    Reset,
    Booted,
    Operational,
}

/// The peer core's side of the handshake.
pub struct PeerLifecycle {
    stage: PeerStage,
}

impl PeerLifecycle {
    /// The current stage.
    pub closed spec fn stage(&self) -> PeerStage {
        self.stage
    }

    /// A peer held in reset.
    pub fn new() -> (r: PeerLifecycle)
        ensures
            r.stage() == PeerStage::Reset,
    {
        PeerLifecycle { stage: PeerStage::Reset }
    }

    /// The stage, for callers.
    pub fn current_stage(&self) -> (r: PeerStage)
        ensures
            r == self.stage(),
    {
        self.stage
    }

    /// The peer starts running once released. Any other stage is reported
    /// back unchanged.
    pub fn on_release(&mut self) -> (r: Result<(), PeerStage>)
        ensures
            old(self).stage() == PeerStage::Reset ==> r is Ok && final(self).stage()
                == PeerStage::Booted,
            old(self).stage() != PeerStage::Reset ==> r == Err::<(), PeerStage>(old(self).stage())
                && final(self).stage() == old(self).stage(),
    {
        if self.stage != PeerStage::Reset {
            return Err(self.stage);
        }
        self.stage = PeerStage::Booted;
        Ok(())
    }

    /// A booted peer reports readiness by triggering the ready signal, and
    /// is then operational. Any other stage is reported back, and nothing is
    /// triggered.
    pub fn signal_ready(&mut self, ready: &mut CrossCoreSignal) -> (r: Result<(), PeerStage>)
        ensures
            old(self).stage() == PeerStage::Booted ==> r is Ok && final(self).stage()
                == PeerStage::Operational && final(ready).generation() == next_generation(
                old(ready).generation(),
            ),
            old(self).stage() != PeerStage::Booted ==> r == Err::<(), PeerStage>(old(self).stage())
                && final(self).stage() == old(self).stage() && *final(ready) == *old(ready),
    {
        if self.stage != PeerStage::Booted {
            return Err(self.stage);
        }
        ready.trigger();
        self.stage = PeerStage::Operational;
        Ok(())
    }
}

/// The steps a run of the primary track has completed, and where it stands.
pub struct BootTrace {
    pub stage: BootStage,
    pub completed: Seq<BootAction>,
}

/// One attempted step, as the controller's methods perform it: `ok` says
/// whether the collaborator let it through.
pub open spec fn boot_step(t: BootTrace, a: BootAction, ok: bool) -> BootTrace {
    if attempt(t.stage, a, ok) != t.stage {
        BootTrace { stage: attempt(t.stage, a, ok), completed: t.completed.push(a) }
    } else {
        t
    }
}

/// A sequence of attempted steps from the start of a boot cycle, in order.
pub open spec fn run_boot(attempts: Seq<(BootAction, bool)>) -> BootTrace
    decreases attempts.len(),
{
    if attempts.len() == 0 {
        BootTrace { stage: BootStage::Boot, completed: Seq::empty() }
    } else {
        let (a, ok) = attempts.last();
        boot_step(run_boot(attempts.drop_last()), a, ok)
    }
}

/// Handshake ordering: whatever steps are attempted, in whatever order and
/// with whatever outcomes, the steps that succeed are always a prefix of
/// grant, hold, reset, release, accept-ready. So the peer is never released
/// before the memory grant and the transport reset, the ready signal is
/// never accepted before the release, and the peer counts as released
/// exactly when the release step is among them.
pub proof fn lemma_handshake_order(attempts: Seq<(BootAction, bool)>)
    ensures
        ({
            let t = run_boot(attempts);
            &&& t.completed.len() <= handshake_order().len()
            &&& t.completed == handshake_order().subrange(0, t.completed.len() as int)
            &&& stage_rank(t.stage) == t.completed.len()
            &&& (peer_state_at(t.stage) == CoreBootState::Released) == t.completed.contains(
                BootAction::ReleasePeer,
            )
        }),
    decreases attempts.len(),
{
    if attempts.len() > 0 {
        lemma_handshake_order(attempts.drop_last());
        let p = run_boot(attempts.drop_last());
        let t = run_boot(attempts);
        let o = handshake_order();
        if t.completed.len() > p.completed.len() {
            assert(t.completed =~= o.subrange(0, t.completed.len() as int));
        }
    }
    let t = run_boot(attempts);
    let o = handshake_order();
    if peer_state_at(t.stage) == CoreBootState::Released {
        assert(t.completed[3] == BootAction::ReleasePeer);
    } else {
        assert forall|i: int| 0 <= i < t.completed.len() implies t.completed[i]
            != BootAction::ReleasePeer by {
            assert(t.completed[i] == o[i]);
        }
    }
}

} // verus!
