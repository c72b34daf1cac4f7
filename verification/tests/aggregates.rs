use presidium_core::domain::aggregates::Conversation;
use presidium_core::domain::entities::{Chat, Message};
use presidium_core::domain::errors::DomainError;
use presidium_core::domain::events::{AnyDomainEvent, DomainEvent};
use presidium_core::domain::value_objects::{ChatType, UserId};

#[test]
fn direct_conversation_send_message() {
    let alice = UserId::new("alice".to_string());
    let bob = UserId::new("bob".to_string());
    let mut conv = Conversation::new_direct(alice.clone(), bob).expect("create direct");

    conv.send_message(alice, "Hello, Bob!".to_string()).expect("send message");

    assert_eq!(conv.messages().len(), 1);
    let events = conv.drain_pending_events();
    assert_eq!(events.len(), 1);
    assert_eq!(events[0].event_type(), "MessageSent");
}

#[test]
fn send_message_from_non_participant_fails() {
    let alice = UserId::new("alice".to_string());
    let bob = UserId::new("bob".to_string());
    let eve = UserId::new("eve".to_string());
    let mut conv = Conversation::new_direct(alice, bob).expect("create direct");

    let result = conv.send_message(eve, "Intercepted!".to_string());
    assert!(result.is_err());
}

#[test]
fn add_participant_to_direct_chat_fails() {
    let alice = UserId::new("alice".to_string());
    let bob = UserId::new("bob".to_string());
    let carol = UserId::new("carol".to_string());
    let mut conv = Conversation::new_direct(alice, bob).expect("create direct");

    let result = conv.add_participant(carol);
    assert!(result.is_err());
}

#[test]
fn drain_pending_events_empties_queue() {
    let alice = UserId::new("alice".to_string());
    let bob = UserId::new("bob".to_string());
    let mut conv = Conversation::new_direct(alice.clone(), bob).expect("create direct");

    conv.send_message(alice, "Hi!".to_string()).expect("send");
    let _ = conv.drain_pending_events();
    let second_drain = conv.drain_pending_events();
    assert!(second_drain.is_empty());
}

#[test]
fn group_conversation_creation() {
    let conv = Conversation::new_group(vec![
        UserId::new("alice".to_string()),
        UserId::new("bob".to_string()),
        UserId::new("carol".to_string()),
    ])
    .expect("create group");
    assert_eq!(conv.chat_type(), ChatType::Group);
}

#[test]
fn rejected_sends_leave_the_conversation_unchanged() {
    let alice = UserId::new("alice".to_string());
    let bob = UserId::new("bob".to_string());
    let mut conv = Conversation::new_direct(alice.clone(), bob).expect("create direct");
    conv.send_message(alice.clone(), "first".to_string()).expect("send");

    match conv.send_message(UserId::new("eve".to_string()), "x".to_string()) {
        Err(DomainError::InvalidOperation { reason }) => {
            assert_eq!(reason, "User eve is not a participant in this chat")
        }
        other => panic!("unexpected: {other:?}"),
    }
    match conv.send_message(alice, "y".repeat(65_537)) {
        Err(DomainError::MessageTooLarge { actual, max }) => {
            assert_eq!((actual, max), (65_537, 65_536))
        }
        other => panic!("unexpected: {other:?}"),
    }
    assert_eq!(conv.messages().len(), 1);
    assert_eq!(conv.drain_pending_events().len(), 1);
}

#[test]
fn sends_append_in_order_with_one_event_each() {
    let alice = UserId::new("alice".to_string());
    let bob = UserId::new("bob".to_string());
    let mut conv = Conversation::new_direct(alice.clone(), bob.clone()).expect("create direct");
    conv.send_message(alice.clone(), "one".to_string()).expect("send");
    conv.send_message(bob.clone(), "two".to_string()).expect("send");
    let texts: Vec<&str> = conv.messages().iter().map(|m| m.content().as_str()).collect();
    assert_eq!(texts, vec!["one", "two"]);
    assert_eq!(conv.messages()[1].sender_id(), &bob);
    assert_eq!(conv.messages()[0].chat_id(), conv.chat_id());
    let events = conv.drain_pending_events();
    assert_eq!(events.len(), 2);
    match &events[1] {
        AnyDomainEvent::MessageSent(e) => {
            assert_eq!(e.sender_id, bob);
            assert_eq!(&e.chat_id, conv.chat_id());
        }
        other => panic!("unexpected event: {other:?}"),
    }
    assert_eq!(conv.chat().participants().len(), 2);
}

#[test]
fn add_participant_checks_the_group_limit() {
    let mut small = Conversation::new_group(vec![
        UserId::new("a".to_string()),
        UserId::new("b".to_string()),
    ])
    .expect("group");
    let id = small.chat_id().clone();
    assert!(small.add_participant(UserId::new("c".to_string())).is_ok());
    let names: Vec<&str> = small.chat().participants().iter().map(|u| u.as_str()).collect();
    assert_eq!(names, vec!["a", "b", "c"]);
    assert_eq!(small.chat_id(), &id);
    assert_eq!(small.chat_type(), ChatType::Group);
    assert!(small.messages().is_empty());
    assert!(small.drain_pending_events().is_empty());
    // the new participant may now send
    small.send_message(UserId::new("c".to_string()), "hello".to_string()).expect("send");

    let almost: Vec<UserId> = (0..511).map(|i| UserId::new(format!("u{i}"))).collect();
    let mut big = Conversation::new_group(almost).expect("group");
    big.add_participant(UserId::new("last".to_string())).expect("room for one more");
    assert_eq!(big.chat().participants().len(), 512);
    match big.add_participant(UserId::new("late".to_string())) {
        Err(DomainError::InvalidOperation { reason }) => {
            assert_eq!(reason, "Group chat cannot exceed 512 participants")
        }
        other => panic!("unexpected: {other:?}"),
    }
    assert_eq!(big.chat().participants().len(), 512);
    let mut direct =
        Conversation::new_direct(UserId::new("a".to_string()), UserId::new("b".to_string()))
            .expect("direct");
    match direct.add_participant(UserId::new("c".to_string())) {
        Err(DomainError::InvalidOperation { reason }) => {
            assert_eq!(reason, "Cannot add participants to a direct chat")
        }
        other => panic!("unexpected: {other:?}"),
    }
    assert_eq!(direct.chat().participants().len(), 2);
}

#[test]
fn new_group_respects_the_participant_limit() {
    let full: Vec<UserId> = (0..512).map(|i| UserId::new(format!("u{i}"))).collect();
    let conv = Conversation::new_group(full).expect("512 is allowed");
    assert_eq!(conv.chat().participants().len(), 512);
    let too_many: Vec<UserId> = (0..513).map(|i| UserId::new(format!("u{i}"))).collect();
    match Conversation::new_group(too_many) {
        Err(DomainError::InvalidOperation { reason }) => {
            assert_eq!(reason, "Group chat cannot exceed 512 participants")
        }
        other => panic!("unexpected: {other:?}"),
    }
}

#[test]
fn from_parts_restores_state_without_events() {
    let chat = Chat::new_direct(UserId::new("a".to_string()), UserId::new("b".to_string()))
        .expect("chat");
    let msg = Message::try_new(chat.chat_id().clone(), UserId::new("a".to_string()), "m".to_string())
        .expect("message");
    let mut conv = Conversation::from_parts(chat, vec![msg]);
    assert_eq!(conv.messages().len(), 1);
    assert!(conv.drain_pending_events().is_empty());
}
