use ipc_common::ring_buffer::{RingBufferConsumer, RingBufferProducer, RingError, UninitRingBuffer};
use ipc_common::signal::{CrossCoreSignal, SignalWaiter};
use ipc_common::spsc::RING_CAPACITY;

fn ready_ring() -> (UninitRingBuffer, RingBufferProducer, RingBufferConsumer, CrossCoreSignal) {
    let mut ring = UninitRingBuffer::new();
    ring.reset().unwrap();
    let producer = ring.get_sender().unwrap();
    let consumer = ring.get_receiver().unwrap();
    (ring, producer, consumer, CrossCoreSignal::new())
}

#[test]
fn scenario_three_values_in_order() {
    let (mut ring, mut producer, mut consumer, mut signal) = ready_ring();
    for v in [1u64, 2, 3] {
        assert_eq!(producer.send(&mut ring, &mut signal, v), Ok(()));
        signal.trigger();
    }
    assert_eq!(consumer.recv(&mut ring, &signal), Some(1));
    assert_eq!(consumer.recv(&mut ring, &signal), Some(2));
    assert_eq!(consumer.recv(&mut ring, &signal), Some(3));
    assert_eq!(consumer.recv(&mut ring, &signal), None);
}

#[test]
fn scenario_three_values_interleaved_triggers() {
    let (mut ring, mut producer, mut consumer, mut signal) = ready_ring();
    signal.trigger();
    assert_eq!(consumer.recv(&mut ring, &signal), None);
    producer.send(&mut ring, &mut signal, 1).unwrap();
    signal.trigger();
    signal.trigger();
    assert_eq!(consumer.recv(&mut ring, &signal), Some(1));
    producer.send(&mut ring, &mut signal, 2).unwrap();
    producer.send(&mut ring, &mut signal, 3).unwrap();
    assert_eq!(consumer.recv(&mut ring, &signal), Some(2));
    assert_eq!(consumer.recv(&mut ring, &signal), Some(3));
}

#[test]
fn scenario_full_buffer_rejects_and_keeps_contents() {
    let (mut ring, mut producer, mut consumer, mut signal) = ready_ring();
    assert_eq!(RING_CAPACITY, 1024);
    for v in 0..1024u64 {
        assert_eq!(producer.send(&mut ring, &mut signal, v * 7 + 1), Ok(()));
    }
    assert_eq!(ring.len(), 1024);
    let before = signal.current_generation();
    assert_eq!(producer.send(&mut ring, &mut signal, 99_999), Err(99_999));
    assert_eq!(signal.current_generation(), before);
    assert_eq!(ring.len(), 1024);
    for v in 0..1024u64 {
        assert_eq!(consumer.recv(&mut ring, &signal), Some(v * 7 + 1));
    }
    assert_eq!(consumer.recv(&mut ring, &signal), None);
    assert_eq!(ring.len(), 0);
}

#[test]
fn fifo_order_with_wraparound() {
    let (mut ring, mut producer, mut consumer, mut signal) = ready_ring();
    let mut next_out = 0u64;
    for round in 0..3u64 {
        for i in 0..1000u64 {
            producer.send(&mut ring, &mut signal, round * 1000 + i).unwrap();
        }
        for _ in 0..1000 {
            assert_eq!(consumer.try_recv(&mut ring), Some(next_out));
            next_out += 1;
        }
    }
    assert_eq!(consumer.try_recv(&mut ring), None);
}

#[test]
fn trigger_without_send_reads_nothing() {
    let (mut ring, _producer, mut consumer, mut signal) = ready_ring();
    for _ in 0..5 {
        signal.trigger();
        assert!(consumer.should_wake(&signal));
        assert_eq!(consumer.recv(&mut ring, &signal), None);
        assert!(!consumer.should_wake(&signal));
    }
}

#[test]
fn send_raises_a_wakeup_after_empty_look() {
    let (mut ring, mut producer, mut consumer, mut signal) = ready_ring();
    assert_eq!(consumer.recv(&mut ring, &signal), None);
    assert!(!consumer.should_wake(&signal));
    producer.send(&mut ring, &mut signal, 42).unwrap();
    assert!(consumer.should_wake(&signal));
    assert_eq!(consumer.recv(&mut ring, &signal), Some(42));
}

#[test]
fn coalesced_triggers_wake_once() {
    let mut signal = CrossCoreSignal::new();
    let mut waiter = SignalWaiter::subscribe(&signal);
    assert!(!waiter.changed(&signal));
    for _ in 0..7 {
        signal.trigger();
    }
    assert_eq!(signal.current_generation(), 7);
    assert!(waiter.changed(&signal));
    assert!(!waiter.changed(&signal));
}

#[test]
fn coalesced_sends_all_visible_after_one_wakeup() {
    let (mut ring, mut producer, mut consumer, mut signal) = ready_ring();
    for v in 10..15u64 {
        producer.send(&mut ring, &mut signal, v).unwrap();
    }
    assert!(consumer.should_wake(&signal));
    for v in 10..15u64 {
        assert_eq!(consumer.recv(&mut ring, &signal), Some(v));
    }
    assert!(!consumer.should_wake(&signal));
}

#[test]
fn waiters_fan_out_independently() {
    let mut signal = CrossCoreSignal::new();
    let mut first = SignalWaiter::new();
    let mut second = SignalWaiter::new();
    signal.trigger();
    assert!(first.changed(&signal));
    signal.trigger();
    assert!(first.changed(&signal));
    assert!(second.pending(&signal));
    assert!(second.changed(&signal));
    assert!(!second.changed(&signal));
}

#[test]
fn new_waiter_sees_earlier_trigger() {
    let mut signal = CrossCoreSignal::new();
    signal.trigger();
    let mut waiter = SignalWaiter::new();
    assert!(waiter.changed(&signal));
    let mut late = SignalWaiter::subscribe(&signal);
    assert!(!late.changed(&signal));
}

#[test]
fn acquisition_before_reset_fails() {
    let mut ring = UninitRingBuffer::new();
    assert!(matches!(ring.get_sender(), Err(RingError::NotReset)));
    assert!(matches!(ring.get_receiver(), Err(RingError::NotReset)));
}

#[test]
fn second_reset_fails() {
    let mut ring = UninitRingBuffer::new();
    assert_eq!(ring.reset(), Ok(()));
    assert_eq!(ring.reset(), Err(RingError::AlreadyReset));
}

#[test]
fn second_acquisition_fails() {
    let mut ring = UninitRingBuffer::new();
    ring.reset().unwrap();
    assert!(ring.get_sender().is_ok());
    assert!(matches!(ring.get_sender(), Err(RingError::AlreadyAcquired)));
    let waiter = SignalWaiter::new();
    assert!(ring.get_receiver_with_signal(waiter).is_ok());
    assert!(matches!(ring.get_receiver(), Err(RingError::AlreadyAcquired)));
}

#[test]
fn consumer_with_caught_up_waiter_does_not_wake_for_old_triggers() {
    let mut signal = CrossCoreSignal::new();
    signal.trigger();
    let mut ring = UninitRingBuffer::new();
    ring.reset().unwrap();
    let consumer = ring.get_receiver_with_signal(SignalWaiter::subscribe(&signal)).unwrap();
    assert!(!consumer.should_wake(&signal));
    signal.trigger();
    assert!(consumer.should_wake(&signal));
}
