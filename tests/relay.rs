use native_bridge::queue::{DeliveryQueue, QueueClosed, Receive};
use native_bridge::relay::{Relay, SendOutcome};

fn msg(s: &str) -> Receive {
    Receive::Message(s.to_string())
}

#[test]
fn register_delivers_test_message_first() {
    let mut relay = Relay::new();
    let d = relay.register_callback();
    assert_eq!(d, 0);
    assert_eq!(relay.current(), Some(0));
    assert_eq!(relay.receive(d), msg("Hello callback!"));
    assert_eq!(relay.receive(d), Receive::Empty);
}

#[test]
fn register_returns_before_delivery() {
    let mut relay = Relay::new();
    let d = relay.register_callback();
    // the registration is complete while its test message still waits
    assert_eq!(relay.dispatcher_count(), 1);
    assert_eq!(relay.receive(d), msg("Hello callback!"));
}

#[test]
fn same_thread_sends_arrive_in_order() {
    let mut relay = Relay::new();
    let d = relay.register_callback();
    assert_eq!(relay.receive(d), msg("Hello callback!"));
    assert_eq!(relay.send("m1".to_string()), SendOutcome::Queued(d));
    assert_eq!(relay.send("m2".to_string()), SendOutcome::Queued(d));
    assert_eq!(relay.receive(d), msg("m1"));
    assert_eq!(relay.receive(d), msg("m2"));
    assert_eq!(relay.receive(d), Receive::Empty);
}

#[test]
fn many_messages_each_delivered_once_in_order() {
    let mut relay = Relay::new();
    let d = relay.register();
    for i in 0..50 {
        assert_eq!(relay.send(format!("msg {}", i)), SendOutcome::Queued(d));
    }
    for i in 0..50 {
        assert_eq!(relay.receive(d), msg(&format!("msg {}", i)));
    }
    assert_eq!(relay.receive(d), Receive::Empty);
}

#[test]
fn send_before_registration_is_a_no_op() {
    let mut relay = Relay::new();
    assert_eq!(relay.send("lost".to_string()), SendOutcome::NoCallback);
    assert_eq!(relay.send("lost again".to_string()), SendOutcome::NoCallback);
    assert_eq!(relay.current(), None);
    assert_eq!(relay.dispatcher_count(), 0);
    let d = relay.register();
    assert_eq!(relay.receive(d), Receive::Empty);
}

#[test]
fn reregistration_routes_to_newest_only() {
    let mut relay = Relay::new();
    let first = relay.register_callback();
    let second = relay.register_callback();
    assert_eq!((first, second), (0, 1));
    assert_eq!(relay.send("x".to_string()), SendOutcome::Queued(second));
    // the first dispatcher drains what it already had, then stops
    assert_eq!(relay.receive(first), msg("Hello callback!"));
    assert_eq!(relay.receive(first), Receive::Closed);
    assert_eq!(relay.receive(second), msg("Hello callback!"));
    assert_eq!(relay.receive(second), msg("x"));
    assert_eq!(relay.receive(second), Receive::Empty);
}

#[test]
fn orphaned_dispatcher_keeps_pending_messages() {
    let mut relay = Relay::new();
    let first = relay.register();
    relay.send("a".to_string());
    relay.send("b".to_string());
    let second = relay.register();
    relay.send("c".to_string());
    assert_eq!(relay.receive(first), msg("a"));
    assert_eq!(relay.receive(first), msg("b"));
    assert_eq!(relay.receive(first), Receive::Closed);
    assert_eq!(relay.receive(first), Receive::Closed);
    assert_eq!(relay.receive(second), msg("c"));
}

#[test]
fn queue_is_fifo_and_refuses_after_close() {
    let mut q = DeliveryQueue::new();
    assert!(q.is_open());
    assert_eq!(q.len(), 0);
    assert_eq!(q.receive(), Receive::Empty);
    assert_eq!(q.send("one".to_string()), Ok(()));
    assert_eq!(q.send("two".to_string()), Ok(()));
    assert_eq!(q.len(), 2);
    q.close();
    assert!(!q.is_open());
    assert_eq!(q.send("three".to_string()), Err(QueueClosed));
    assert_eq!(q.receive(), msg("one"));
    assert_eq!(q.receive(), msg("two"));
    assert_eq!(q.receive(), Receive::Closed);
}
