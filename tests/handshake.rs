use ipc_common::lifecycle::{
    BootAction, BootStage, CoreBootState, CoreLifecycleController, LifecycleError, PeerLifecycle,
    PeerStage,
};
use ipc_common::region::{MemoryRegionGuard, RegionError, RegionPermissions};
use ipc_common::ring_buffer::{RingError, UninitRingBuffer};
use ipc_common::signal::CrossCoreSignal;

const SHARED: RegionPermissions = RegionPermissions { read: true, write: true, lock: false };
const CLOSED: RegionPermissions = RegionPermissions { read: false, write: false, lock: false };

fn guard() -> MemoryRegionGuard {
    MemoryRegionGuard::new(0x2000_0000, 0x2000, 64).unwrap()
}

#[test]
fn grant_opens_exactly_the_covering_cells() {
    let mut g = guard();
    assert_eq!(g.cell_count(), 64);
    // from the middle of cell 2 to the first byte of cell 4
    g.grant_shared_access(0x2000_5000, 0x3001).unwrap();
    for i in 0..64 {
        let expected = if (2..=4).contains(&i) { SHARED } else { CLOSED };
        assert_eq!(g.cell(i), expected, "cell {i}");
    }
}

#[test]
fn grant_of_whole_window() {
    let mut g = guard();
    g.grant_shared_access(0x2000_0000, 0x2000 * 64).unwrap();
    for i in 0..64 {
        assert_eq!(g.cell(i), SHARED);
    }
}

#[test]
fn empty_grant_changes_nothing() {
    let mut g = guard();
    g.grant_shared_access(0x2000_4000, 0).unwrap();
    for i in 0..64 {
        assert_eq!(g.cell(i), CLOSED);
    }
}

#[test]
fn grant_outside_window_is_rejected() {
    let mut g = guard();
    assert_eq!(g.grant_shared_access(0x1fff_ffff, 2), Err(RegionError::OutOfBounds));
    assert_eq!(g.grant_shared_access(0x2007_ffff, 2), Err(RegionError::OutOfBounds));
    assert_eq!(g.grant_shared_access(0x2000_0000, u64::MAX), Err(RegionError::OutOfBounds));
    for i in 0..64 {
        assert_eq!(g.cell(i), CLOSED);
    }
}

#[test]
fn invalid_layouts_are_rejected() {
    assert!(matches!(MemoryRegionGuard::new(0, 0, 4), Err(RegionError::InvalidLayout)));
    assert!(matches!(MemoryRegionGuard::new(u64::MAX - 10, 8, 2), Err(RegionError::InvalidLayout)));
    assert!(MemoryRegionGuard::new(u64::MAX - 16, 8, 2).is_ok());
}

#[test]
fn handshake_in_order() {
    let mut ctl = CoreLifecycleController::new();
    let mut g = guard();
    let mut ring = UninitRingBuffer::new();
    let mut ready = CrossCoreSignal::new();
    let mut peer = PeerLifecycle::new();

    assert_eq!(ctl.next_action(), Some(BootAction::GrantMemory));
    ctl.grant_memory(&mut g, 0x2000_0000, 0x4000).unwrap();
    assert_eq!(g.cell(0), SHARED);
    assert_eq!(g.cell(1), SHARED);
    assert_eq!(g.cell(2), CLOSED);
    assert_eq!(ctl.peer_state(), CoreBootState::Held);
    ctl.hold_peer().unwrap();
    ctl.reset_transport(&mut ring).unwrap();
    assert!(ring.get_sender().is_ok());
    assert_eq!(ctl.peer_state(), CoreBootState::Held);
    ctl.release_peer(&ready).unwrap();
    assert_eq!(ctl.peer_state(), CoreBootState::Released);
    peer.on_release().unwrap();
    assert_eq!(peer.current_stage(), PeerStage::Booted);
    assert_eq!(ctl.accept_ready(&ready), Ok(false));
    peer.signal_ready(&mut ready).unwrap();
    assert_eq!(peer.current_stage(), PeerStage::Operational);
    assert_eq!(ctl.accept_ready(&ready), Ok(true));
    assert_eq!(ctl.current_stage(), BootStage::Operational);
    assert_eq!(ctl.next_action(), None);
}

#[test]
fn release_before_grant_is_refused() {
    let mut ctl = CoreLifecycleController::new();
    let ready = CrossCoreSignal::new();
    assert_eq!(
        ctl.release_peer(&ready),
        Err(LifecycleError::OutOfOrder { attempted: BootAction::ReleasePeer, stage: BootStage::Boot })
    );
    assert_eq!(ctl.peer_state(), CoreBootState::Held);
    assert_eq!(ctl.current_stage(), BootStage::Boot);
}

#[test]
fn release_before_transport_reset_is_refused() {
    let mut ctl = CoreLifecycleController::new();
    let mut g = guard();
    let ready = CrossCoreSignal::new();
    ctl.grant_memory(&mut g, 0x2000_0000, 0x2000).unwrap();
    ctl.hold_peer().unwrap();
    assert_eq!(
        ctl.release_peer(&ready),
        Err(LifecycleError::OutOfOrder {
            attempted: BootAction::ReleasePeer,
            stage: BootStage::PeerHeld
        })
    );
    assert_eq!(ctl.peer_state(), CoreBootState::Held);
}

#[test]
fn ready_before_release_is_not_accepted() {
    let mut ctl = CoreLifecycleController::new();
    let mut ready = CrossCoreSignal::new();
    ready.trigger();
    assert_eq!(
        ctl.accept_ready(&ready),
        Err(LifecycleError::OutOfOrder { attempted: BootAction::AcceptReady, stage: BootStage::Boot })
    );
}

#[test]
fn stale_ready_signal_is_ignored_after_release() {
    let mut ctl = CoreLifecycleController::new();
    let mut g = guard();
    let mut ring = UninitRingBuffer::new();
    let mut ready = CrossCoreSignal::new();
    ready.trigger();
    ctl.grant_memory(&mut g, 0x2000_0000, 0x2000).unwrap();
    ctl.hold_peer().unwrap();
    ctl.reset_transport(&mut ring).unwrap();
    ctl.release_peer(&ready).unwrap();
    assert_eq!(ctl.accept_ready(&ready), Ok(false));
    ready.trigger();
    assert_eq!(ctl.accept_ready(&ready), Ok(true));
}

#[test]
fn failed_grant_keeps_stage() {
    let mut ctl = CoreLifecycleController::new();
    let mut g = guard();
    assert_eq!(
        ctl.grant_memory(&mut g, 0x1000_0000, 16),
        Err(LifecycleError::Region(RegionError::OutOfBounds))
    );
    assert_eq!(ctl.current_stage(), BootStage::Boot);
    assert_eq!(ctl.hold_peer(), Err(LifecycleError::OutOfOrder {
        attempted: BootAction::HoldPeer,
        stage: BootStage::Boot
    }));
}

#[test]
fn transport_already_reset_is_reported() {
    let mut ctl = CoreLifecycleController::new();
    let mut g = guard();
    let mut ring = UninitRingBuffer::new();
    ring.reset().unwrap();
    ctl.grant_memory(&mut g, 0x2000_0000, 0x2000).unwrap();
    ctl.hold_peer().unwrap();
    assert_eq!(
        ctl.reset_transport(&mut ring),
        Err(LifecycleError::Transport(RingError::AlreadyReset))
    );
    assert_eq!(ctl.current_stage(), BootStage::PeerHeld);
}

#[test]
fn grant_twice_is_out_of_order() {
    let mut ctl = CoreLifecycleController::new();
    let mut g = guard();
    ctl.grant_memory(&mut g, 0x2000_0000, 0x2000).unwrap();
    assert_eq!(
        ctl.grant_memory(&mut g, 0x2000_2000, 0x2000),
        Err(LifecycleError::OutOfOrder {
            attempted: BootAction::GrantMemory,
            stage: BootStage::MemoryGranted
        })
    );
    assert_eq!(g.cell(1), CLOSED);
}

#[test]
fn peer_track_out_of_order() {
    let mut peer = PeerLifecycle::new();
    let mut ready = CrossCoreSignal::new();
    assert_eq!(peer.signal_ready(&mut ready), Err(PeerStage::Reset));
    assert_eq!(ready.current_generation(), 0);
    peer.on_release().unwrap();
    assert_eq!(peer.on_release(), Err(PeerStage::Booted));
    peer.signal_ready(&mut ready).unwrap();
    assert_eq!(ready.current_generation(), 1);
    assert_eq!(peer.signal_ready(&mut ready), Err(PeerStage::Operational));
}
