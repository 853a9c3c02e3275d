use blazing_ws::chat::{
    ChatMessageHandler, DispatchError, DispatchStep, EnvelopeKind, ValidationError, WsMessage,
    MAX_CONTENT_LEN,
};
use blazing_ws::inbound::MessageHandler;
use blazing_ws::message::{
    Attachment, Message, MessageType, NewMessage, SendMessageRequest, Timestamp,
};
use blazing_ws::text::blank;

const C1: u128 = 0xc1;
const ALICE: u128 = 0xa11ce;
const BOB: u128 = 0xb0b;

fn request(content: &str) -> SendMessageRequest {
    SendMessageRequest {
        channel_id: C1,
        content: content.to_string(),
        message_type: None,
        attachments: None,
    }
}

fn attachment(name: &str) -> Attachment {
    Attachment { id: 7, filename: name.to_string(), url: format!("https://files/{}", name), size: 12 }
}

fn stored(content: &str) -> Message {
    Message {
        id: 99,
        channel_id: C1,
        author_id: ALICE,
        content: content.to_string(),
        message_type: Some(MessageType::Default),
        attachments: None,
        created_at: Timestamp { secs: 1_700_000_000, nanos: 5 },
        updated_at: Timestamp { secs: 1_700_000_000, nanos: 5 },
    }
}

fn validate(content: &str) -> Result<(), ValidationError> {
    ChatMessageHandler::new().validate_message(&WsMessage::NewMessage(request(content)))
}

#[test]
fn ordinary_content_is_accepted() {
    assert_eq!(validate("hello"), Ok(()));
    assert_eq!(validate("  hello  "), Ok(()));
    assert_eq!(validate("x"), Ok(()));
}

#[test]
fn empty_content_is_rejected() {
    assert_eq!(validate(""), Err(ValidationError::EmptyContent));
}

#[test]
fn whitespace_only_content_is_rejected() {
    assert_eq!(validate("   "), Err(ValidationError::EmptyContent));
    assert_eq!(validate(" \t\r\n"), Err(ValidationError::EmptyContent));
    assert_eq!(validate("\u{a0}\u{2003}\u{3000}"), Err(ValidationError::EmptyContent));
}

#[test]
fn content_at_the_limit_is_accepted() {
    assert_eq!(MAX_CONTENT_LEN, 2000);
    assert_eq!(validate(&"a".repeat(2000)), Ok(()));
}

#[test]
fn content_over_the_limit_is_rejected() {
    assert_eq!(validate(&"a".repeat(2001)), Err(ValidationError::ContentTooLong));
    assert_eq!(validate(&"a".repeat(10_000)), Err(ValidationError::ContentTooLong));
}

#[test]
fn length_is_counted_in_bytes() {
    assert_eq!(validate(&"\u{e9}".repeat(1000)), Ok(()));
    assert_eq!(validate(&"\u{e9}".repeat(1001)), Err(ValidationError::ContentTooLong));
    assert_eq!(validate(&"\u{20ac}".repeat(667)), Err(ValidationError::ContentTooLong));
}

#[test]
fn blank_content_is_reported_as_empty_even_when_too_long() {
    assert_eq!(validate(&" ".repeat(2001)), Err(ValidationError::EmptyContent));
}

#[test]
fn only_new_messages_are_validated() {
    let handler = ChatMessageHandler::new();
    assert_eq!(
        handler.validate_message(&WsMessage::TypingStart { channel_id: C1, user_id: ALICE }),
        Ok(())
    );
    assert_eq!(
        handler.validate_message(&WsMessage::TypingStop { channel_id: C1, user_id: ALICE }),
        Ok(())
    );
    assert_eq!(handler.validate_message(&WsMessage::MessageCreated { message: stored("") }), Ok(()));
}

#[test]
fn content_verdict_from_its_two_facts() {
    assert_eq!(ChatMessageHandler::check_content(true, 0), Err(ValidationError::EmptyContent));
    assert_eq!(ChatMessageHandler::check_content(true, 5000), Err(ValidationError::EmptyContent));
    assert_eq!(ChatMessageHandler::check_content(false, 2001), Err(ValidationError::ContentTooLong));
    assert_eq!(ChatMessageHandler::check_content(false, 2000), Ok(()));
    assert_eq!(ChatMessageHandler::check_content(false, 1), Ok(()));
}

#[test]
fn blank_tells_whitespace_from_text() {
    assert!(blank(""));
    assert!(blank(" \n\t "));
    assert!(!blank(" a "));
    assert!(!blank("\u{200b}"));
}

#[test]
fn new_message_asks_the_store_for_access_first() {
    let step = ChatMessageHandler::new().on_message(1, ALICE, WsMessage::NewMessage(request("hi")));
    assert_eq!(step, DispatchStep::CheckAccess { user_id: ALICE, request: request("hi") });
}

#[test]
fn typing_notices_are_echoed_under_their_channel() {
    let handler = ChatMessageHandler::new();
    assert_eq!(
        handler.on_message(1, ALICE, WsMessage::TypingStart { channel_id: C1, user_id: BOB }),
        DispatchStep::Done {
            event: Some((C1, WsMessage::TypingStart { channel_id: C1, user_id: BOB }))
        }
    );
    assert_eq!(
        handler.on_message(1, ALICE, WsMessage::TypingStop { channel_id: C1, user_id: BOB }),
        DispatchStep::Done {
            event: Some((C1, WsMessage::TypingStop { channel_id: C1, user_id: BOB }))
        }
    );
}

#[test]
fn stored_message_event_from_a_client_leads_to_nothing() {
    let step = ChatMessageHandler::new().on_message(
        1,
        ALICE,
        WsMessage::MessageCreated { message: stored("forged") },
    );
    assert_eq!(step, DispatchStep::Done { event: None });
}

#[test]
fn member_gets_the_row_to_insert() {
    let row = ChatMessageHandler::new().after_access(ALICE, request("hello"), Ok(true));
    assert_eq!(
        row,
        Ok(NewMessage {
            channel_id: C1,
            author_id: ALICE,
            content: "hello".to_string(),
            message_type: MessageType::Default,
            attachments: None,
        })
    );
}

#[test]
fn non_member_is_forbidden() {
    let row = ChatMessageHandler::new().after_access(ALICE, request("hello"), Ok(false));
    assert_eq!(row, Err(DispatchError::Forbidden));
}

#[test]
fn store_failure_on_access_is_passed_on() {
    let row =
        ChatMessageHandler::new().after_access(ALICE, request("hello"), Err("pool closed".to_string()));
    assert_eq!(row, Err(DispatchError::Database("pool closed".to_string())));
}

#[test]
fn row_keeps_the_type_asked_for() {
    let mut asked = request("re");
    asked.message_type = Some(MessageType::Reply);
    let row = NewMessage::from_request(asked, BOB);
    assert_eq!(row.message_type, MessageType::Reply);
    assert_eq!(row.author_id, BOB);
    assert_eq!(row.channel_id, C1);
    assert_eq!(row.content, "re");
}

#[test]
fn row_drops_an_empty_attachment_list() {
    let mut asked = request("files");
    asked.attachments = Some(Vec::new());
    assert_eq!(NewMessage::from_request(asked, BOB).attachments, None);
}

#[test]
fn row_keeps_attachments_in_order() {
    let mut asked = request("files");
    asked.attachments = Some(vec![attachment("a.png"), attachment("b.png")]);
    assert_eq!(
        NewMessage::from_request(asked, BOB).attachments,
        Some(vec![attachment("a.png"), attachment("b.png")])
    );
}

#[test]
fn stored_message_is_announced_under_its_channel() {
    let outcome = ChatMessageHandler::new().after_persist(C1, Ok(stored("hello")));
    assert_eq!(outcome, Ok((C1, WsMessage::MessageCreated { message: stored("hello") })));
}

#[test]
fn store_failure_on_insert_is_passed_on() {
    let outcome = ChatMessageHandler::new().after_persist(C1, Err("disk full".to_string()));
    assert_eq!(outcome, Err(DispatchError::Database("disk full".to_string())));
}

#[test]
fn each_kind_has_its_tag() {
    assert_eq!(EnvelopeKind::NewMessage.tag(), "message");
    assert_eq!(EnvelopeKind::MessageCreated.tag(), "message_created");
    assert_eq!(EnvelopeKind::TypingStart.tag(), "typing_start");
    assert_eq!(EnvelopeKind::TypingStop.tag(), "typing_stop");
}

#[test]
fn tags_are_read_back_as_their_kind() {
    for kind in [
        EnvelopeKind::NewMessage,
        EnvelopeKind::MessageCreated,
        EnvelopeKind::TypingStart,
        EnvelopeKind::TypingStop,
    ] {
        assert_eq!(EnvelopeKind::from_tag(kind.tag()), Some(kind));
    }
}

#[test]
fn unknown_tags_are_rejected() {
    assert_eq!(EnvelopeKind::from_tag(""), None);
    assert_eq!(EnvelopeKind::from_tag("Message"), None);
    assert_eq!(EnvelopeKind::from_tag("message "), None);
    assert_eq!(EnvelopeKind::from_tag("typing"), None);
    assert_eq!(EnvelopeKind::from_tag("message_deleted"), None);
}

#[test]
fn frames_know_their_kind() {
    assert_eq!(WsMessage::NewMessage(request("x")).kind(), EnvelopeKind::NewMessage);
    assert_eq!(
        WsMessage::MessageCreated { message: stored("x") }.kind(),
        EnvelopeKind::MessageCreated
    );
    assert_eq!(
        WsMessage::TypingStart { channel_id: C1, user_id: ALICE }.kind(),
        EnvelopeKind::TypingStart
    );
    assert_eq!(
        WsMessage::TypingStop { channel_id: C1, user_id: ALICE }.kind(),
        EnvelopeKind::TypingStop
    );
}

#[test]
fn message_types_have_snake_case_names() {
    assert_eq!(MessageType::Default.name(), "default");
    assert_eq!(MessageType::Reply.name(), "reply");
    assert_eq!(MessageType::UserJoin.name(), "user_join");
    assert_eq!(MessageType::UserLeave.name(), "user_leave");
}

#[test]
fn message_types_are_read_from_their_names() {
    assert_eq!(MessageType::from_name("default"), Some(MessageType::Default));
    assert_eq!(MessageType::from_name("reply"), Some(MessageType::Reply));
    assert_eq!(MessageType::from_name("user_join"), Some(MessageType::UserJoin));
    assert_eq!(MessageType::from_name("user_leave"), Some(MessageType::UserLeave));
    assert_eq!(MessageType::from_name("UserJoin"), None);
    assert_eq!(MessageType::from_name(""), None);
}
