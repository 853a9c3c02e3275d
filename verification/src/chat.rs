//! The chat binding of the engine: the wire envelope, what content is
//! acceptable, and what each inbound message leads to.
//!
//! Persistence is not done here. Dispatching a new message is split at the
//! two calls to the store: [`ChatMessageHandler::on_message`] says what to
//! ask first, [`ChatMessageHandler::after_access`] turns the answer into the
//! row to insert, and [`ChatMessageHandler::after_persist`] turns the stored
//! message into the event to publish.

use crate::inbound::MessageHandler;
use crate::message::{Message, NewMessage, SendMessageRequest};
use crate::text::{blank, is_blank, same_text};
use vstd::prelude::*;
use vstd::utf8::encode_utf8;

verus! {

/// The longest content a new message may carry, in bytes of its UTF-8 form.
pub const MAX_CONTENT_LEN: usize = 2000;

/// One frame on the wire, inbound or outbound.
#[derive(Debug, Clone, PartialEq, Eq)]
pub enum WsMessage {
    /// A client's intent to post a message.
    NewMessage(SendMessageRequest),
    /// A message was stored in a channel.
    MessageCreated { message: Message },
    /// A user began typing in a channel.
    TypingStart { channel_id: u128, user_id: u128 },
    /// A user stopped typing in a channel.
    TypingStop { channel_id: u128, user_id: u128 },
}

/// The discriminant of a frame: which of the four shapes it has.
#[derive(Debug, Clone, Copy, PartialEq, Eq, Structural)]
pub enum EnvelopeKind {
    NewMessage,
    MessageCreated,
    TypingStart,
    TypingStop,
}

impl EnvelopeKind {
    /// The value of the `type` field that marks a frame of this kind.
    pub open spec fn tag_text(self) -> Seq<char> {
        match self {
            EnvelopeKind::NewMessage => "message"@,
            EnvelopeKind::MessageCreated => "message_created"@,
            EnvelopeKind::TypingStart => "typing_start"@,
            EnvelopeKind::TypingStop => "typing_stop"@,
        }
    }

    /// The kind that `tag` marks. Any other tag marks nothing: a frame
    /// that carries it is rejected.
    pub open spec fn tagged(tag: Seq<char>) -> Option<EnvelopeKind> {
        if tag == "message"@ {
            Some(EnvelopeKind::NewMessage)
        } else if tag == "message_created"@ {
            Some(EnvelopeKind::MessageCreated)
        } else if tag == "typing_start"@ {
            Some(EnvelopeKind::TypingStart)
        } else if tag == "typing_stop"@ {
            Some(EnvelopeKind::TypingStop)
        } else {
            None
        }
    }

    /// The value of the `type` field that marks a frame of this kind.
    pub fn tag(self) -> (tag: &'static str)
        ensures
            tag@ == self.tag_text(),
    {
        match self {
            EnvelopeKind::NewMessage => "message",
            EnvelopeKind::MessageCreated => "message_created",
            EnvelopeKind::TypingStart => "typing_start",
            EnvelopeKind::TypingStop => "typing_stop",
        }
    }

    /// Reads the kind of a frame from the value of its `type` field.
    pub fn from_tag(tag: &str) -> (kind: Option<EnvelopeKind>)
        ensures
            kind == EnvelopeKind::tagged(tag@),
    {
        if same_text(tag, "message") {
            Some(EnvelopeKind::NewMessage)
        } else if same_text(tag, "message_created") {
            Some(EnvelopeKind::MessageCreated)
        } else if same_text(tag, "typing_start") {
            Some(EnvelopeKind::TypingStart)
        } else if same_text(tag, "typing_stop") {
            Some(EnvelopeKind::TypingStop)
        } else {
            None
        }
    }
}

impl WsMessage {
    /// The kind of this frame.
    pub open spec fn spec_kind(&self) -> EnvelopeKind {
        match self {
            WsMessage::NewMessage(_) => EnvelopeKind::NewMessage,
            WsMessage::MessageCreated { .. } => EnvelopeKind::MessageCreated,
            WsMessage::TypingStart { .. } => EnvelopeKind::TypingStart,
            WsMessage::TypingStop { .. } => EnvelopeKind::TypingStop,
        }
    }

    /// The kind of this frame.
    #[verifier::when_used_as_spec(spec_kind)]
    pub fn kind(&self) -> (kind: EnvelopeKind)
        ensures
            kind == self.spec_kind(),
    {
        match self {
            WsMessage::NewMessage(_) => EnvelopeKind::NewMessage,
            WsMessage::MessageCreated { .. } => EnvelopeKind::MessageCreated,
            WsMessage::TypingStart { .. } => EnvelopeKind::TypingStart,
            WsMessage::TypingStop { .. } => EnvelopeKind::TypingStop,
        }
    }
}

/// The discriminant is stable: each kind is read back from its own tag,
/// and a tag that is read as a kind is that kind's tag. Every other tag is
/// rejected.
pub proof fn law_tags_round_trip(kind: EnvelopeKind, tag: Seq<char>)
    ensures
        EnvelopeKind::tagged(kind.tag_text()) == Some(kind),
        EnvelopeKind::tagged(tag) == Some(kind) ==> tag == kind.tag_text(),
        EnvelopeKind::tagged(tag) is None <==> (forall|k: EnvelopeKind| tag != k.tag_text()),
{
    reveal_strlit("message");
    reveal_strlit("message_created");
    reveal_strlit("typing_start");
    reveal_strlit("typing_stop");
    assert("message"@.len() == 7);
    assert("message_created"@.len() == 15);
    assert("typing_start"@.len() == 12);
    assert("typing_stop"@.len() == 11);
    if EnvelopeKind::tagged(tag) is Some {
        let k = EnvelopeKind::tagged(tag)->0;
        assert(tag == k.tag_text());
    } else {
        assert forall|k: EnvelopeKind| tag != k.tag_text() by {
            match k {
                EnvelopeKind::NewMessage => {},
                EnvelopeKind::MessageCreated => {},
                EnvelopeKind::TypingStart => {},
                EnvelopeKind::TypingStop => {},
            }
        }
    }
}

/// Why a message was not accepted for dispatch.
#[derive(Debug, Clone, Copy, PartialEq, Eq, Structural)]
pub enum ValidationError {
    /// The content is empty or holds whitespace only.
    EmptyContent,
    /// The content is longer than [`MAX_CONTENT_LEN`].
    ContentTooLong,
}

/// Why a dispatched message led to no event.
#[derive(Debug, Clone, PartialEq, Eq)]
pub enum DispatchError {
    /// The user is not a member of the channel.
    Forbidden,
    /// The store failed; the text is the store's own.
    Database(String),
}

/// What dispatching a message calls for.
#[derive(Debug, Clone, PartialEq, Eq)]
pub enum DispatchStep {
    /// Ask the store whether `user_id` may post to the request's channel,
    /// then go on with [`ChatMessageHandler::after_access`].
    CheckAccess { user_id: u128, request: SendMessageRequest },
    /// Dispatch is complete: publish the event under the key, if there is
    /// one.
    Done { event: Option<(u128, WsMessage)> },
}

/// The verdict on content, given whether it is blank and how many bytes it
/// takes. Blank content is rejected before its length is looked at.
pub open spec fn content_verdict(blank: bool, bytes: nat) -> Result<(), ValidationError> {
    if blank {
        Err(ValidationError::EmptyContent)
    } else if bytes > MAX_CONTENT_LEN {
        Err(ValidationError::ContentTooLong)
    } else {
        Ok(())
    }
}

/// The verdict on a message: a new message must carry content that is not
/// blank and not too long; every other message is acceptable.
pub open spec fn validation(message: WsMessage) -> Result<(), ValidationError> {
    match message {
        WsMessage::NewMessage(request) => content_verdict(
            is_blank(request.content@),
            encode_utf8(request.content@).len(),
        ),
        _ => Ok(()),
    }
}

/// What dispatching `message` for the authenticated user `user_id` calls
/// for first. A new message needs the store; a typing notice is echoed
/// under its channel as it came; a stored-message event is not an intent
/// and leads to nothing.
pub open spec fn dispatch(user_id: u128, message: WsMessage) -> DispatchStep {
    match message {
        WsMessage::NewMessage(request) => DispatchStep::CheckAccess { user_id, request },
        WsMessage::TypingStart { channel_id, user_id: typist } => DispatchStep::Done {
            event: Some((channel_id, WsMessage::TypingStart { channel_id, user_id: typist })),
        },
        WsMessage::TypingStop { channel_id, user_id: typist } => DispatchStep::Done {
            event: Some((channel_id, WsMessage::TypingStop { channel_id, user_id: typist })),
        },
        WsMessage::MessageCreated { .. } => DispatchStep::Done { event: None },
    }
}

/// What the store's answer on access leads to: the row to insert for a
/// member, `Forbidden` for anyone else, the store's failure as it is.
pub open spec fn access_outcome(
    user_id: u128,
    request: SendMessageRequest,
    access: Result<bool, String>,
) -> Result<NewMessage, DispatchError> {
    match access {
        Ok(true) => Ok(NewMessage::of(request, user_id)),
        Ok(false) => Err(DispatchError::Forbidden),
        Err(text) => Err(DispatchError::Database(text)),
    }
}

/// What the store's answer on the insert leads to: the event that
/// announces the stored message, keyed by the channel it was posted to.
pub open spec fn persist_outcome(channel_id: u128, stored: Result<Message, String>) -> Result<
    (u128, WsMessage),
    DispatchError,
> {
    match stored {
        Ok(message) => Ok((channel_id, WsMessage::MessageCreated { message })),
        Err(text) => Err(DispatchError::Database(text)),
    }
}

/// The chat rules, as the engine's protocol asks for them.
#[derive(Debug, Clone, Copy)]
pub struct ChatMessageHandler;

impl ChatMessageHandler {
    /// The chat rules.
    pub fn new() -> (handler: ChatMessageHandler) {
        ChatMessageHandler
    }

    /// Decides on content from the two facts that matter.
    pub fn check_content(blank: bool, bytes: usize) -> (verdict: Result<(), ValidationError>)
        ensures
            verdict == content_verdict(blank, bytes as nat),
    {
        if blank {
            Err(ValidationError::EmptyContent)
        } else if bytes > MAX_CONTENT_LEN {
            Err(ValidationError::ContentTooLong)
        } else {
            Ok(())
        }
    }

    /// Begins the dispatch of `message`, sent on connection `client_id` by
    /// the authenticated user `user_id`.
    pub fn on_message(&self, client_id: u128, user_id: u128, message: WsMessage) -> (step:
        DispatchStep)
        ensures
            step == dispatch(user_id, message),
    {
        match message {
            WsMessage::NewMessage(request) => DispatchStep::CheckAccess { user_id, request },
            WsMessage::TypingStart { channel_id, user_id: typist } => DispatchStep::Done {
                event: Some((channel_id, WsMessage::TypingStart { channel_id, user_id: typist })),
            },
            WsMessage::TypingStop { channel_id, user_id: typist } => DispatchStep::Done {
                event: Some((channel_id, WsMessage::TypingStop { channel_id, user_id: typist })),
            },
            WsMessage::MessageCreated { .. } => DispatchStep::Done { event: None },
        }
    }

    /// Goes on after the store said whether the user may post.
    pub fn after_access(
        &self,
        user_id: u128,
        request: SendMessageRequest,
        access: Result<bool, String>,
    ) -> (outcome: Result<NewMessage, DispatchError>)
        ensures
            outcome == access_outcome(user_id, request, access),
    {
        match access {
            Ok(allowed) => if allowed {
                Ok(NewMessage::from_request(request, user_id))
            } else {
                Err(DispatchError::Forbidden)
            },
            Err(text) => Err(DispatchError::Database(text)),
        }
    }

    /// Completes the dispatch after the store answered the insert.
    pub fn after_persist(&self, channel_id: u128, stored: Result<Message, String>) -> (outcome:
        Result<(u128, WsMessage), DispatchError>)
        ensures
            outcome == persist_outcome(channel_id, stored),
    {
        match stored {
            Ok(message) => Ok((channel_id, WsMessage::MessageCreated { message })),
            Err(text) => Err(DispatchError::Database(text)),
        }
    }
}

impl MessageHandler for ChatMessageHandler {
    type Message = WsMessage;

    type Rejection = ValidationError;

    open spec fn verdict(&self, message: &WsMessage) -> Result<(), ValidationError> {
        validation(*message)
    }

    /// Says whether `message` may be dispatched.
    fn validate_message(&self, message: &WsMessage) -> (verdict: Result<(), ValidationError>) {
        match message {
            WsMessage::NewMessage(request) => {
                let content = request.content.as_str();
                Self::check_content(blank(content), content.as_bytes().len())
            },
            _ => Ok(()),
        }
    }
}

} // verus!
