use ringbus::channel::Channel;
use ringbus::errors::TryRecvError;
use std::sync::Arc;

#[test]
fn in_order_no_loss_within_capacity() {
    // A subscriber created before the broadcasts and never lagging receives
    // exactly the published sequence, in order.
    let mut ch: Channel<u64> = Channel::new(4, 0);
    assert!(ch.broadcast(10).is_ok());
    assert!(ch.broadcast(20).is_ok());
    assert!(ch.broadcast(30).is_ok());
    assert_eq!(*ch.try_recv(0).unwrap(), 10);
    assert_eq!(*ch.try_recv(0).unwrap(), 20);
    assert_eq!(*ch.try_recv(0).unwrap(), 30);
    assert_eq!(ch.try_recv(0).unwrap_err(), TryRecvError::Empty);
}

#[test]
fn lag_skips_to_oldest_retained() {
    // Five broadcasts into a two-slot buffer: the first receive yields the
    // value published at index 5 - 2 = 3, silently skipping the overwritten
    // ones; no error, no panic.
    let mut ch: Channel<u64> = Channel::new(2, 0);
    for v in [10, 20, 30, 40, 50] {
        assert!(ch.broadcast(v).is_ok());
    }
    assert_eq!(*ch.try_recv(0).unwrap(), 40);
    assert_eq!(*ch.try_recv(0).unwrap(), 50);
    assert_eq!(ch.try_recv(0).unwrap_err(), TryRecvError::Empty);
}

#[test]
fn scenario_two_slots_three_values() {
    let mut ch: Channel<u64> = Channel::new(2, 0);
    assert!(ch.broadcast(1).is_ok());
    assert!(ch.broadcast(2).is_ok());
    assert!(ch.broadcast(3).is_ok());
    assert_eq!(*ch.try_recv(0).unwrap(), 2);
    assert_eq!(*ch.try_recv(0).unwrap(), 3);
    assert_eq!(ch.try_recv(0).unwrap_err(), TryRecvError::Empty);
}

#[test]
fn round_trip_is_zero_copy() {
    // Two subscribers receive handles to the very same allocation: the value
    // is shared, not copied, and its contents are what was broadcast.
    let mut ch: Channel<String> = Channel::new(2, 0);
    let clone_id = ch.clone_subscriber(0, 1);
    assert!(ch.broadcast(String::from("payload")).is_ok());
    let a = ch.try_recv(0).unwrap();
    let b = ch.try_recv(clone_id).unwrap();
    assert!(Arc::ptr_eq(&a, &b));
    assert_eq!(*a, "payload");
}

#[test]
fn try_recv_on_empty_is_idempotent() {
    let mut ch: Channel<u64> = Channel::new(3, 0);
    assert_eq!(ch.try_recv(0).unwrap_err(), TryRecvError::Empty);
    assert_eq!(ch.try_recv(0).unwrap_err(), TryRecvError::Empty);
    assert_eq!(ch.try_recv(0).unwrap_err(), TryRecvError::Empty);
    // The cursor never advanced: the next published value is received.
    assert!(ch.broadcast(7).is_ok());
    assert_eq!(*ch.try_recv(0).unwrap(), 7);
    assert_eq!(ch.try_recv(0).unwrap_err(), TryRecvError::Empty);
}

#[test]
fn registered_sleeper_is_woken_by_broadcast() {
    // The sequential heart of the blocking receive: a poll finds nothing,
    // the subscriber registers its context, and the publisher's wake pass
    // after the next broadcast carries exactly that handle.
    let mut ch: Channel<u64> = Channel::new(2, 0);
    assert_eq!(ch.try_recv(0).unwrap_err(), TryRecvError::Empty);
    ch.register(0, 7);
    assert!(ch.broadcast(99).is_ok());
    let woken = ch.wake_all();
    assert!(woken.contains(&7));
    assert_eq!(*ch.try_recv(0).unwrap(), 99);
}

#[test]
fn publisher_drop_wakes_and_disconnects() {
    // A subscriber parked while the publisher goes away: the final wake pass
    // still carries its handle, and the re-poll reports disconnection.
    let mut ch: Channel<u64> = Channel::new(2, 0);
    ch.register(0, 3);
    ch.drop_publisher();
    let woken = ch.wake_all();
    assert!(woken.contains(&3));
    assert_eq!(ch.try_recv(0).unwrap_err(), TryRecvError::Disconnected);
}

#[test]
fn buffered_values_drain_before_disconnect() {
    let mut ch: Channel<u64> = Channel::new(2, 0);
    assert!(ch.broadcast(5).is_ok());
    assert!(ch.broadcast(6).is_ok());
    ch.drop_publisher();
    assert_eq!(*ch.try_recv(0).unwrap(), 5);
    assert_eq!(*ch.try_recv(0).unwrap(), 6);
    assert_eq!(ch.try_recv(0).unwrap_err(), TryRecvError::Disconnected);
}

#[test]
fn broadcast_without_subscribers_returns_value() {
    let mut ch: Channel<u64> = Channel::new(2, 0);
    ch.drop_subscriber(0);
    let err = ch.broadcast(42).unwrap_err();
    assert_eq!(err.0, 42);
    // Nothing was published: a later subscriber-less broadcast fails alike.
    let err = ch.broadcast(43).unwrap_err();
    assert_eq!(err.0, 43);
}

#[test]
fn clones_receive_independently() {
    let mut ch: Channel<u64> = Channel::new(4, 0);
    assert!(ch.broadcast(1).is_ok());
    // The clone starts exactly where the source stands, so it also sees the
    // value the source has not read yet.
    let clone_id = ch.clone_subscriber(0, 1);
    assert!(ch.broadcast(2).is_ok());
    assert_eq!(*ch.try_recv(0).unwrap(), 1);
    assert_eq!(*ch.try_recv(0).unwrap(), 2);
    assert_eq!(ch.try_recv(0).unwrap_err(), TryRecvError::Empty);
    assert_eq!(*ch.try_recv(clone_id).unwrap(), 1);
    assert_eq!(*ch.try_recv(clone_id).unwrap(), 2);
    assert_eq!(ch.try_recv(clone_id).unwrap_err(), TryRecvError::Empty);
}

#[test]
fn clones_lag_independently() {
    let mut ch: Channel<u64> = Channel::new(2, 0);
    let clone_id = ch.clone_subscriber(0, 1);
    for v in [1, 2, 3, 4] {
        assert!(ch.broadcast(v).is_ok());
        // The original keeps up; the clone never reads until the end.
        assert_eq!(*ch.try_recv(0).unwrap(), v);
    }
    assert_eq!(*ch.try_recv(clone_id).unwrap(), 3);
    assert_eq!(*ch.try_recv(clone_id).unwrap(), 4);
    assert_eq!(ch.try_recv(clone_id).unwrap_err(), TryRecvError::Empty);
}

#[test]
fn wake_list_is_live_subscribers_in_order() {
    let mut ch: Channel<u64> = Channel::new(2, 10);
    let s1 = ch.clone_subscriber(0, 11);
    let s2 = ch.clone_subscriber(0, 12);
    assert_eq!(ch.wake_all(), vec![10, 11, 12]);
    ch.drop_subscriber(s1);
    assert_eq!(ch.wake_all(), vec![10, 12]);
    ch.register(s2, 99);
    assert_eq!(ch.wake_all(), vec![10, 99]);
}

#[test]
fn capacity_one_keeps_latest() {
    let mut ch: Channel<u64> = Channel::new(1, 0);
    assert!(ch.broadcast(1).is_ok());
    assert!(ch.broadcast(2).is_ok());
    assert_eq!(*ch.try_recv(0).unwrap(), 2);
    assert_eq!(ch.try_recv(0).unwrap_err(), TryRecvError::Empty);
}
