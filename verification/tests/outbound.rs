use blazing_ws::broadcaster::Broadcaster;
use blazing_ws::channel::RecvOutcome;
use blazing_ws::outbound::{ready_messages, OutboundPump, OutboundStep, POLL_INTERVAL_MS};

const C1: u128 = 0xc1;
const C2: u128 = 0xc2;
const C3: u128 = 0xc3;

#[test]
fn idle_round_finds_every_subscription_empty() {
    let mut broadcaster: Broadcaster<u64> = Broadcaster::new();
    let mut pump = OutboundPump::new(broadcaster.subscribe_all(&vec![C1, C2]));
    assert_eq!(pump.subscription_count(), 2);
    assert_eq!(pump.poll(), vec![RecvOutcome::Empty, RecvOutcome::Empty]);
}

#[test]
fn round_reads_each_subscription_once_in_order() {
    let mut broadcaster: Broadcaster<u64> = Broadcaster::new();
    let mut pump = OutboundPump::new(broadcaster.subscribe_all(&vec![C1, C2, C3]));
    broadcaster.broadcast(C3, 30);
    broadcaster.broadcast(C1, 10);
    broadcaster.broadcast(C1, 11);
    assert_eq!(
        pump.poll(),
        vec![RecvOutcome::Message(10), RecvOutcome::Empty, RecvOutcome::Message(30)]
    );
    assert_eq!(pump.poll(), vec![RecvOutcome::Message(11), RecvOutcome::Empty, RecvOutcome::Empty]);
    assert_eq!(pump.poll(), vec![RecvOutcome::Empty, RecvOutcome::Empty, RecvOutcome::Empty]);
    assert_eq!(pump.subscription_count(), 3);
}

#[test]
fn opened_pump_reads_the_keys_it_was_opened_for() {
    let mut broadcaster: Broadcaster<u64> = Broadcaster::new();
    let mut pump = OutboundPump::open(&mut broadcaster, &vec![C2, C1]);
    assert_eq!(pump.subscription_count(), 2);
    assert_eq!(broadcaster.topic_count(), 2);
    assert!(broadcaster.has_topic(C1));
    assert!(broadcaster.has_topic(C2));
    assert_eq!(broadcaster.broadcast(C1, 1), 1);
    assert_eq!(pump.poll(), vec![RecvOutcome::Empty, RecvOutcome::Message(1)]);
}

#[test]
fn pump_without_subscriptions_reads_nothing() {
    let mut pump: OutboundPump<u64> = OutboundPump::new(Vec::new());
    assert_eq!(pump.subscription_count(), 0);
    assert_eq!(pump.poll(), Vec::new());
}

#[test]
fn lagging_subscription_reports_its_loss_then_resumes() {
    let mut broadcaster: Broadcaster<u64> = Broadcaster::new();
    let mut pump = OutboundPump::new(broadcaster.subscribe_all(&vec![C1]));
    for n in 0..130u64 {
        broadcaster.broadcast(C1, n);
    }
    assert_eq!(pump.poll(), vec![RecvOutcome::Lagged(2)]);
    assert_eq!(pump.poll(), vec![RecvOutcome::Message(2)]);
    assert_eq!(pump.poll(), vec![RecvOutcome::Message(3)]);
}

#[test]
fn ready_messages_keeps_messages_in_order() {
    let outcomes = vec![
        RecvOutcome::Empty,
        RecvOutcome::Message(1u64),
        RecvOutcome::Lagged(4),
        RecvOutcome::Message(2),
        RecvOutcome::Closed,
        RecvOutcome::Message(3),
    ];
    assert_eq!(ready_messages(outcomes), vec![1, 2, 3]);
}

#[test]
fn ready_messages_of_an_idle_round_is_empty() {
    let outcomes: Vec<RecvOutcome<u64>> =
        vec![RecvOutcome::Empty, RecvOutcome::Closed, RecvOutcome::Lagged(1)];
    assert_eq!(ready_messages(outcomes), Vec::<u64>::new());
    assert_eq!(ready_messages(Vec::<RecvOutcome<u64>>::new()), Vec::<u64>::new());
}

#[test]
fn idle_round_makes_the_pump_wait() {
    assert_eq!(POLL_INTERVAL_MS, 10);
    assert_eq!(OutboundPump::<u64>::after_round(0, false), OutboundStep::Wait { millis: 10 });
}

#[test]
fn busy_round_makes_the_pump_read_again_at_once() {
    assert_eq!(OutboundPump::<u64>::after_round(1, false), OutboundStep::PollAgain);
    assert_eq!(OutboundPump::<u64>::after_round(7, false), OutboundStep::PollAgain);
}

#[test]
fn failed_write_ends_the_pump() {
    assert_eq!(OutboundPump::<u64>::after_round(0, true), OutboundStep::Stop);
    assert_eq!(OutboundPump::<u64>::after_round(3, true), OutboundStep::Stop);
}
