//! The chat data model: messages, attachments and the requests that carry
//! them. Identifiers are 128-bit numbers, instants are seconds and
//! nanoseconds since the Unix epoch.

use crate::text::same_text;
use vstd::prelude::*;

verus! {

/// What kind of entry a message is in its channel.
#[derive(Debug, Clone, Copy, PartialEq, Eq, Structural)]
pub enum MessageType {
    Default,
    Reply,
    UserJoin,
    UserLeave,
}

impl MessageType {
    /// The name a type goes by on the wire and in the store.
    pub open spec fn name_text(self) -> Seq<char> {
        match self {
            MessageType::Default => "default"@,
            MessageType::Reply => "reply"@,
            MessageType::UserJoin => "user_join"@,
            MessageType::UserLeave => "user_leave"@,
        }
    }

    /// The type that goes by `name`, if there is one.
    pub open spec fn named(name: Seq<char>) -> Option<MessageType> {
        if name == "default"@ {
            Some(MessageType::Default)
        } else if name == "reply"@ {
            Some(MessageType::Reply)
        } else if name == "user_join"@ {
            Some(MessageType::UserJoin)
        } else if name == "user_leave"@ {
            Some(MessageType::UserLeave)
        } else {
            None
        }
    }

    /// The name this type goes by on the wire and in the store.
    pub fn name(self) -> (name: &'static str)
        ensures
            name@ == self.name_text(),
    {
        match self {
            MessageType::Default => "default",
            MessageType::Reply => "reply",
            MessageType::UserJoin => "user_join",
            MessageType::UserLeave => "user_leave",
        }
    }

    /// Reads a type from its name. A name that no type goes by gives
    /// `None`.
    pub fn from_name(name: &str) -> (message_type: Option<MessageType>)
        ensures
            message_type == MessageType::named(name@),
    {
        if same_text(name, "default") {
            Some(MessageType::Default)
        } else if same_text(name, "reply") {
            Some(MessageType::Reply)
        } else if same_text(name, "user_join") {
            Some(MessageType::UserJoin)
        } else if same_text(name, "user_leave") {
            Some(MessageType::UserLeave)
        } else {
            None
        }
    }
}

/// Names and types correspond one to one: each type is read back from its
/// own name, and a name that reads as a type is that type's name.
pub proof fn law_type_names_round_trip(message_type: MessageType, name: Seq<char>)
    ensures
        MessageType::named(message_type.name_text()) == Some(message_type),
        MessageType::named(name) == Some(message_type) ==> name == message_type.name_text(),
{
    reveal_strlit("default");
    reveal_strlit("reply");
    reveal_strlit("user_join");
    reveal_strlit("user_leave");
    assert("default"@.len() == 7);
    assert("reply"@.len() == 5);
    assert("user_join"@.len() == 9);
    assert("user_leave"@.len() == 10);
}

/// An instant: seconds since the Unix epoch, and the nanoseconds within
/// that second.
#[derive(Debug, Clone, Copy, PartialEq, Eq, Structural)]
pub struct Timestamp {
    pub secs: i64,
    pub nanos: u32,
}

/// A file attached to a message.
#[derive(Debug, Clone, PartialEq, Eq)]
pub struct Attachment {
    pub id: u128,
    pub filename: String,
    pub url: String,
    pub size: i64,
}

/// A message as it is stored.
#[derive(Debug, Clone, PartialEq, Eq)]
pub struct Message {
    pub id: u128,
    pub channel_id: u128,
    pub author_id: u128,
    pub content: String,
    pub message_type: Option<MessageType>,
    pub attachments: Option<Vec<Attachment>>,
    pub created_at: Timestamp,
    pub updated_at: Timestamp,
}

/// The intent to post a message to a channel.
#[derive(Debug, Clone, PartialEq, Eq)]
pub struct SendMessageRequest {
    pub channel_id: u128,
    pub content: String,
    pub message_type: Option<MessageType>,
    pub attachments: Option<Vec<Attachment>>,
}

/// The request for the history of a channel.
#[derive(Debug, Clone, Copy, PartialEq, Eq, Structural)]
pub struct GetMessagesRequest {
    pub channel_id: u128,
}

/// A message as it is handed to the store: the request with its author,
/// its type settled and an empty attachment list dropped.
#[derive(Debug, Clone, PartialEq, Eq)]
pub struct NewMessage {
    pub channel_id: u128,
    pub author_id: u128,
    pub content: String,
    pub message_type: MessageType,
    pub attachments: Option<Vec<Attachment>>,
}

/// The type a message is stored with: the one asked for, else `Default`.
pub open spec fn settled_type(asked: Option<MessageType>) -> MessageType {
    match asked {
        Some(message_type) => message_type,
        None => MessageType::Default,
    }
}

/// The attachments a message is stored with: the list asked for, unless it
/// is empty.
pub open spec fn kept_attachments(asked: Option<Vec<Attachment>>) -> Option<Vec<Attachment>> {
    match asked {
        Some(list) => if list@.len() == 0 {
            None
        } else {
            Some(list)
        },
        None => None,
    }
}

impl NewMessage {
    /// The row to store for `request`, posted by `author_id`.
    pub open spec fn of(request: SendMessageRequest, author_id: u128) -> NewMessage {
        NewMessage {
            channel_id: request.channel_id,
            author_id,
            content: request.content,
            message_type: settled_type(request.message_type),
            attachments: kept_attachments(request.attachments),
        }
    }

    /// Builds the row to store for `request`, posted by `author_id`.
    pub fn from_request(request: SendMessageRequest, author_id: u128) -> (row: NewMessage)
        ensures
            row == NewMessage::of(request, author_id),
    {
        let message_type = match request.message_type {
            Some(message_type) => message_type,
            None => MessageType::Default,
        };
        let attachments = match request.attachments {
            Some(list) => if list.len() == 0 {
                None
            } else {
                Some(list)
            },
            None => None,
        };
        NewMessage {
            channel_id: request.channel_id,
            author_id,
            content: request.content,
            message_type,
            attachments,
        }
    }
}

} // verus!
