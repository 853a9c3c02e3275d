use blazing_ws::broadcaster::Broadcaster;
use blazing_ws::channel::RecvOutcome;
use blazing_ws::inbound::{
    DropReason, FrameAction, FrameEvent, InboundStep, MessageHandler, TransportRead,
};
use blazing_ws::session::WebSocketService;

const C1: u128 = 0xc1;

/// A protocol of plain texts that accepts what is at most eight bytes long.
struct ShortTexts;

impl MessageHandler for ShortTexts {
    type Message = String;
    type Rejection = usize;

    fn verdict(&self, message: &String) -> Result<(), usize> {
        if message.len() <= 8 {
            Ok(())
        } else {
            Err(message.len())
        }
    }

    fn validate_message(&self, message: &String) -> Result<(), usize> {
        self.verdict(message)
    }
}

type Event = FrameEvent<String, String>;
type Action = FrameAction<String, usize, String>;

fn step(event: Event, broadcaster: &Broadcaster<String>) -> Action {
    WebSocketService::handle_incoming_message(event, broadcaster, &ShortTexts)
}

#[test]
fn text_frames_are_handled() {
    assert_eq!(
        WebSocketService::on_read(TransportRead::Text { text: "{}".to_string() }),
        InboundStep::Handle { text: "{}".to_string() }
    );
}

#[test]
fn other_frames_are_skipped() {
    assert_eq!(WebSocketService::on_read(TransportRead::Other), InboundStep::Skip);
}

#[test]
fn closed_or_failed_transport_ends_the_pump() {
    assert_eq!(WebSocketService::on_read(TransportRead::Closed), InboundStep::Stop);
    assert_eq!(WebSocketService::on_read(TransportRead::Failed), InboundStep::Stop);
}

#[test]
fn undecodable_frame_is_discarded() {
    let broadcaster = Broadcaster::new();
    assert_eq!(
        step(FrameEvent::Received { decoded: None }, &broadcaster),
        FrameAction::Discard { reason: DropReason::Undecodable }
    );
}

#[test]
fn accepted_frame_goes_to_dispatch() {
    let broadcaster = Broadcaster::new();
    assert_eq!(
        step(FrameEvent::Received { decoded: Some("12345678".to_string()) }, &broadcaster),
        FrameAction::Dispatch { message: "12345678".to_string() }
    );
}

#[test]
fn rejected_frame_is_discarded_with_its_rejection() {
    let mut broadcaster = Broadcaster::new();
    let mut subscription = broadcaster.subscribe(C1);
    assert_eq!(
        step(FrameEvent::Received { decoded: Some("123456789".to_string()) }, &broadcaster),
        FrameAction::Discard { reason: DropReason::Invalid(9) }
    );
    assert_eq!(subscription.try_recv(), RecvOutcome::Empty);
}

#[test]
fn failed_dispatch_is_discarded_with_its_error() {
    let mut broadcaster = Broadcaster::new();
    let mut subscription = broadcaster.subscribe(C1);
    assert_eq!(
        step(FrameEvent::Dispatched { outcome: Err("forbidden".to_string()) }, &broadcaster),
        FrameAction::Discard { reason: DropReason::DispatchFailed("forbidden".to_string()) }
    );
    assert_eq!(subscription.try_recv(), RecvOutcome::Empty);
}

#[test]
fn dispatch_without_event_finishes_the_frame() {
    let mut broadcaster = Broadcaster::new();
    let mut subscription = broadcaster.subscribe(C1);
    assert_eq!(step(FrameEvent::Dispatched { outcome: Ok(None) }, &broadcaster), FrameAction::Finished);
    assert_eq!(subscription.try_recv(), RecvOutcome::Empty);
}

#[test]
fn dispatched_event_is_published_to_the_subscribers_of_its_key() {
    let mut broadcaster = Broadcaster::new();
    let mut one = broadcaster.subscribe(C1);
    let mut two = broadcaster.subscribe(C1);
    assert_eq!(
        step(FrameEvent::Dispatched { outcome: Ok(Some((C1, "event".to_string()))) }, &broadcaster),
        FrameAction::Published { key: C1, addressed: 2 }
    );
    assert_eq!(one.try_recv(), RecvOutcome::Message("event".to_string()));
    assert_eq!(two.try_recv(), RecvOutcome::Message("event".to_string()));
}

#[test]
fn event_for_a_key_without_channel_addresses_nobody() {
    let mut broadcaster = Broadcaster::new();
    let mut elsewhere = broadcaster.subscribe(C1);
    assert_eq!(
        step(FrameEvent::Dispatched { outcome: Ok(Some((0xc2, "event".to_string()))) }, &broadcaster),
        FrameAction::Published { key: 0xc2, addressed: 0 }
    );
    assert_eq!(elsewhere.try_recv(), RecvOutcome::Empty);
    assert!(!broadcaster.has_topic(0xc2));
}
