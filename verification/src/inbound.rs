//! The inbound pump: what to do with each read from the transport, and
//! the path of one text frame from decoding to publication.
//!
//! A frame that cannot be decoded, is not acceptable or fails in dispatch
//! is dropped by itself. Nothing that happens to a frame ends the pump;
//! only the transport does.

use crate::broadcaster::Broadcaster;
use crate::session::WebSocketService;
use vstd::prelude::*;

verus! {

/// What one read from the transport brought.
#[derive(Debug, Clone, PartialEq, Eq)]
pub enum TransportRead {
    /// A text frame.
    Text { text: String },
    /// A frame of any other kind.
    Other,
    /// The peer closed the transport.
    Closed,
    /// Reading failed.
    Failed,
}

/// What the inbound pump does after a read.
#[derive(Debug, Clone, PartialEq, Eq)]
pub enum InboundStep {
    /// Decode this text and take it through the frame path.
    Handle { text: String },
    /// Read the next frame.
    Skip,
    /// End the pump.
    Stop,
}

/// The part of a connection's protocol that the engine calls by itself:
/// the check a decoded message has to pass before it is dispatched. The
/// hooks that do outside work (authentication, connect and disconnect,
/// subscription resolution, dispatch) reach the engine as events.
pub trait MessageHandler {
    /// The messages of the protocol, inbound and outbound.
    type Message;

    /// Why a message is not acceptable.
    type Rejection;

    /// The verdict on `message`.
    spec fn verdict(&self, message: &Self::Message) -> Result<(), Self::Rejection>;

    /// Says whether `message` may be dispatched.
    fn validate_message(&self, message: &Self::Message) -> (verdict: Result<(), Self::Rejection>)
        ensures
            verdict == self.verdict(message),
    ;
}

/// Why a frame was dropped.
#[derive(Debug, Clone, PartialEq, Eq)]
pub enum DropReason<R, E> {
    /// The text is no message of the protocol.
    Undecodable,
    /// The handler's validation did not accept the message.
    Invalid(R),
    /// The handler's dispatch failed.
    DispatchFailed(E),
}

/// What the driver reports while it takes one text frame along its path.
#[derive(Debug, PartialEq, Eq)]
pub enum FrameEvent<M, E> {
    /// The text was decoded, or could not be.
    Received { decoded: Option<M> },
    /// The handler's dispatch returned: the event to publish with its key,
    /// nothing, or a failure.
    Dispatched { outcome: Result<Option<(u128, M)>, E> },
}

/// What the engine answers along the path of a frame.
#[derive(Debug, Clone, PartialEq, Eq)]
pub enum FrameAction<M, R, E> {
    /// The message is acceptable: hand it to the handler's dispatch.
    Dispatch { message: M },
    /// The event was published under `key`; `addressed` subscribers were
    /// addressed.
    Published { key: u128, addressed: usize },
    /// Dispatch led to no event; the frame is done.
    Finished,
    /// The frame is dropped; the pump goes on.
    Discard { reason: DropReason<R, E> },
}

/// What the inbound pump does after `read`: text is handled, other frames
/// are skipped, and the pump ends exactly when the transport is closed or
/// failed.
pub open spec fn read_step(read: TransportRead) -> InboundStep {
    match read {
        TransportRead::Text { text } => InboundStep::Handle { text },
        TransportRead::Other => InboundStep::Skip,
        TransportRead::Closed => InboundStep::Stop,
        TransportRead::Failed => InboundStep::Stop,
    }
}

/// Whether `action` is a right answer to `event`, with `verdict` what the
/// handler says of a decoded message and `topics` the keys that have a
/// channel. Every answer but a publication is determined by the event and
/// the verdict. A publication goes out under the key that dispatch
/// returned, and addresses nobody when that key has no channel.
pub open spec fn answers<M, R, E>(
    event: FrameEvent<M, E>,
    verdict: spec_fn(M) -> Result<(), R>,
    topics: Set<u128>,
    action: FrameAction<M, R, E>,
) -> bool {
    match event {
        FrameEvent::Received { decoded: None } => action == (FrameAction::<M, R, E>::Discard {
            reason: DropReason::Undecodable,
        }),
        FrameEvent::Received { decoded: Some(message) } => match verdict(message) {
            Ok(_) => action == (FrameAction::<M, R, E>::Dispatch { message }),
            Err(rejection) => action == (FrameAction::<M, R, E>::Discard {
                reason: DropReason::Invalid(rejection),
            }),
        },
        FrameEvent::Dispatched { outcome: Ok(Some((key, message))) } => {
            &&& action is Published
            &&& action->key == key
            &&& !topics.contains(key) ==> action->addressed == 0
        },
        FrameEvent::Dispatched { outcome: Ok(None) } => action == FrameAction::<M, R, E>::Finished,
        FrameEvent::Dispatched { outcome: Err(error) } => action == (FrameAction::<
            M,
            R,
            E,
        >::Discard { reason: DropReason::DispatchFailed(error) }),
    }
}

impl WebSocketService {
    /// Decides what the inbound pump does after a read.
    pub fn on_read(read: TransportRead) -> (step: InboundStep)
        ensures
            step == read_step(read),
    {
        match read {
            TransportRead::Text { text } => InboundStep::Handle { text },
            TransportRead::Other => InboundStep::Skip,
            TransportRead::Closed => InboundStep::Stop,
            TransportRead::Failed => InboundStep::Stop,
        }
    }

    /// Takes a frame one step along its path: a decoded message is
    /// validated by `handler` and goes on to dispatch if it is acceptable;
    /// what dispatch returned is published on `broadcasts`. The registry is
    /// not changed.
    pub fn handle_incoming_message<H: MessageHandler, E>(
        event: FrameEvent<H::Message, E>,
        broadcasts: &Broadcaster<H::Message>,
        handler: &H,
    ) -> (action: FrameAction<H::Message, H::Rejection, E>) where H::Message: Clone
        ensures
            answers(
                event,
                |message: H::Message| handler.verdict(&message),
                broadcasts@.dom(),
                action,
            ),
    {
        match event {
            FrameEvent::Received { decoded } => match decoded {
                Some(message) => match handler.validate_message(&message) {
                    Ok(_) => FrameAction::Dispatch { message },
                    Err(rejection) => FrameAction::Discard {
                        reason: DropReason::Invalid(rejection),
                    },
                },
                None => FrameAction::Discard { reason: DropReason::Undecodable },
            },
            FrameEvent::Dispatched { outcome } => match outcome {
                Ok(Some((key, message))) => {
                    let addressed = broadcasts.broadcast(key, message);
                    FrameAction::Published { key, addressed }
                },
                Ok(None) => FrameAction::Finished,
                Err(error) => FrameAction::Discard { reason: DropReason::DispatchFailed(error) },
            },
        }
    }
}

/// The inbound pump ends on a read if and only if the transport was closed
/// or reading failed. A frame of whatever content never ends it.
pub proof fn law_only_the_transport_stops_inbound(read: TransportRead)
    ensures
        read_step(read) is Stop <==> (read is Closed || read is Failed),
{
}

/// A failure on the path of a frame stays with that frame: a text that
/// cannot be decoded, a message that is not acceptable and a dispatch
/// that fails are each discarded, and an event is published only for a
/// dispatch that returned one. A message is handed to dispatch only if the
/// handler accepts it.
pub proof fn law_frame_failures_are_isolated<M, R, E>(
    event: FrameEvent<M, E>,
    verdict: spec_fn(M) -> Result<(), R>,
    topics: Set<u128>,
    action: FrameAction<M, R, E>,
)
    requires
        answers(event, verdict, topics, action),
    ensures
        (event matches FrameEvent::Received { decoded: None }) ==> action is Discard,
        (event matches FrameEvent::Received { decoded: Some(m) } && verdict(m) is Err)
            ==> action is Discard,
        (event matches FrameEvent::Dispatched { outcome: Err(_) }) ==> action is Discard,
        action is Published ==> (event matches FrameEvent::Dispatched { outcome: Ok(Some(_)) }),
        action is Dispatch ==> (event matches FrameEvent::Received { decoded: Some(m) } && verdict(
            m,
        ) is Ok && action->message == m),
{
}

} // verus!
