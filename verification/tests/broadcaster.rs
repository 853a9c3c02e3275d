use blazing_ws::broadcaster::{count_addressed, Broadcaster, TOPIC_CAPACITY};
use blazing_ws::channel::{RecvOutcome, SendOutcome};

const C1: u128 = 0x0000_0001_0000_0000_0000_0000_0000_00c1;
const C2: u128 = 0x0000_0002_0000_0000_0000_0000_0000_00c2;

#[test]
fn publish_reaches_every_caught_up_subscriber() {
    let mut broadcaster: Broadcaster<String> = Broadcaster::new();
    let mut a = broadcaster.subscribe(C1);
    let mut b = broadcaster.subscribe(C1);
    let mut c = broadcaster.subscribe(C1);
    assert_eq!(broadcaster.broadcast(C1, "hello".to_string()), 3);
    assert_eq!(a.try_recv(), RecvOutcome::Message("hello".to_string()));
    assert_eq!(b.try_recv(), RecvOutcome::Message("hello".to_string()));
    assert_eq!(c.try_recv(), RecvOutcome::Message("hello".to_string()));
    assert_eq!(a.try_recv(), RecvOutcome::Empty);
    assert_eq!(b.try_recv(), RecvOutcome::Empty);
    assert_eq!(c.try_recv(), RecvOutcome::Empty);
}

#[test]
fn publish_to_unknown_key_addresses_nobody() {
    let broadcaster: Broadcaster<u64> = Broadcaster::new();
    assert_eq!(broadcaster.broadcast(C1, 7), 0);
    assert!(!broadcaster.has_topic(C1));
    assert_eq!(broadcaster.topic_count(), 0);
}

#[test]
fn publish_after_last_subscriber_left_addresses_nobody() {
    let mut broadcaster: Broadcaster<u64> = Broadcaster::new();
    let subscription = broadcaster.subscribe(C1);
    drop(subscription);
    assert_eq!(broadcaster.broadcast(C1, 7), 0);
    assert!(broadcaster.has_topic(C1));
    let mut late = broadcaster.subscribe(C1);
    assert_eq!(late.try_recv(), RecvOutcome::Empty);
    assert_eq!(broadcaster.broadcast(C1, 8), 1);
    assert_eq!(late.try_recv(), RecvOutcome::Message(8));
}

#[test]
fn two_first_subscriptions_share_one_channel() {
    let mut broadcaster: Broadcaster<u64> = Broadcaster::new();
    let mut first = broadcaster.subscribe(C1);
    let mut second = broadcaster.subscribe(C1);
    assert_eq!(broadcaster.topic_count(), 1);
    assert_eq!(first.topic(), C1);
    assert_eq!(second.topic(), C1);
    assert_eq!(broadcaster.broadcast(C1, 42), 2);
    assert_eq!(first.try_recv(), RecvOutcome::Message(42));
    assert_eq!(second.try_recv(), RecvOutcome::Message(42));
}

#[test]
fn topics_are_independent() {
    let mut broadcaster: Broadcaster<u64> = Broadcaster::new();
    let mut one = broadcaster.subscribe(C1);
    let mut two = broadcaster.subscribe(C2);
    assert_eq!(broadcaster.topic_count(), 2);
    assert_eq!(broadcaster.broadcast(C2, 5), 1);
    assert_eq!(one.try_recv(), RecvOutcome::Empty);
    assert_eq!(two.try_recv(), RecvOutcome::Message(5));
}

#[test]
fn subscriber_sees_publishes_in_order() {
    let mut broadcaster: Broadcaster<u64> = Broadcaster::new();
    let mut subscription = broadcaster.subscribe(C1);
    for n in 0..10u64 {
        assert_eq!(broadcaster.broadcast(C1, n), 1);
    }
    for n in 0..10u64 {
        assert_eq!(subscription.try_recv(), RecvOutcome::Message(n));
    }
    assert_eq!(subscription.try_recv(), RecvOutcome::Empty);
}

#[test]
fn subscriber_misses_what_was_published_before_it_came() {
    let mut broadcaster: Broadcaster<u64> = Broadcaster::new();
    let mut early = broadcaster.subscribe(C1);
    assert_eq!(broadcaster.broadcast(C1, 1), 1);
    let mut late = broadcaster.subscribe(C1);
    assert_eq!(broadcaster.broadcast(C1, 2), 2);
    assert_eq!(early.try_recv(), RecvOutcome::Message(1));
    assert_eq!(early.try_recv(), RecvOutcome::Message(2));
    assert_eq!(late.try_recv(), RecvOutcome::Message(2));
    assert_eq!(late.try_recv(), RecvOutcome::Empty);
}

#[test]
fn slow_subscriber_loses_oldest_and_keeps_newest() {
    assert_eq!(TOPIC_CAPACITY, 100);
    let mut broadcaster: Broadcaster<u64> = Broadcaster::new();
    let mut slow = broadcaster.subscribe(C1);
    let mut fast = broadcaster.subscribe(C1);
    for n in 0..200u64 {
        assert_eq!(broadcaster.broadcast(C1, n), 2);
        assert_eq!(fast.try_recv(), RecvOutcome::Message(n));
    }
    // A channel holds 128 messages, the capacity rounded up to a power of two.
    assert_eq!(slow.try_recv(), RecvOutcome::Lagged(72));
    for n in 72..200u64 {
        assert_eq!(slow.try_recv(), RecvOutcome::Message(n));
    }
    assert_eq!(slow.try_recv(), RecvOutcome::Empty);
    assert_eq!(broadcaster.broadcast(C1, 200), 2);
    assert_eq!(slow.try_recv(), RecvOutcome::Message(200));
}

#[test]
fn subscriber_that_keeps_up_with_a_full_buffer_loses_nothing() {
    let mut broadcaster: Broadcaster<u64> = Broadcaster::new();
    let mut subscription = broadcaster.subscribe(C1);
    for n in 0..128u64 {
        broadcaster.broadcast(C1, n);
    }
    for n in 0..128u64 {
        assert_eq!(subscription.try_recv(), RecvOutcome::Message(n));
    }
    assert_eq!(subscription.try_recv(), RecvOutcome::Empty);
}

#[test]
fn subscribe_all_keeps_the_order_of_keys() {
    let mut broadcaster: Broadcaster<u64> = Broadcaster::new();
    let keys = vec![C2, C1, C2];
    let mut subscriptions = broadcaster.subscribe_all(&keys);
    assert_eq!(subscriptions.len(), 3);
    assert_eq!(subscriptions[0].topic(), C2);
    assert_eq!(subscriptions[1].topic(), C1);
    assert_eq!(subscriptions[2].topic(), C2);
    assert_eq!(broadcaster.topic_count(), 2);
    assert_eq!(broadcaster.broadcast(C2, 9), 2);
    assert_eq!(subscriptions[0].try_recv(), RecvOutcome::Message(9));
    assert_eq!(subscriptions[1].try_recv(), RecvOutcome::Empty);
    assert_eq!(subscriptions[2].try_recv(), RecvOutcome::Message(9));
}

#[test]
fn subscribe_all_of_nothing_changes_nothing() {
    let mut broadcaster: Broadcaster<u64> = Broadcaster::new();
    let subscriptions = broadcaster.subscribe_all(&Vec::new());
    assert!(subscriptions.is_empty());
    assert_eq!(broadcaster.topic_count(), 0);
}

#[test]
fn addressed_count_of_each_send_outcome() {
    assert_eq!(count_addressed(SendOutcome::<u64>::Delivered(4)), 4);
    assert_eq!(count_addressed(SendOutcome::NoReceivers(11u64)), 0);
}
