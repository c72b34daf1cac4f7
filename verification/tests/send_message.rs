use presidium_core::application::ports::crypto_port::CryptoError;
use presidium_core::application::ports::messaging_port::TransportError;
use presidium_core::application::ports::moderation_port::ModerationError;
use presidium_core::application::use_cases::send_message::{
    after_encryption, after_moderation, after_transmission, start, Recipient, SendMessageError,
    SendMessageInput, SendMessageStep,
};
use presidium_core::domain::errors::DomainError;
use presidium_core::domain::value_objects::{ChatId, SessionId, UserId};

fn input(sender: &str, content: &str) -> SendMessageInput {
    SendMessageInput {
        chat_id: ChatId::new("chat-1".to_string()),
        sender_id: UserId::new(sender.to_string()),
        content: content.to_string(),
        session_id: SessionId::new("session-1".to_string()),
        recipient: Recipient::Direct(UserId::new("bob".to_string())),
    }
}

#[test]
fn send_message_success() {
    let input = input("alice", "Hello, Bob!");
    match start(&input) {
        SendMessageStep::AnalyzeContent { content } => assert_eq!(content, "Hello, Bob!"),
        other => panic!("unexpected step: {other:?}"),
    }
    // moderation: clean content
    let (session, plaintext) = match after_moderation(&input, Ok(false)) {
        SendMessageStep::Encrypt { session_id, plaintext } => (session_id, plaintext),
        other => panic!("unexpected step: {other:?}"),
    };
    assert_eq!(session.as_str(), "session-1");
    assert_eq!(plaintext, "Hello, Bob!");
    // crypto: dummy ciphertext
    match after_encryption(&input, Ok(vec![1, 2, 3, 4])) {
        SendMessageStep::Transmit { recipient, ciphertext } => {
            assert_eq!(recipient.as_str(), "bob");
            assert_eq!(ciphertext, vec![1, 2, 3, 4]);
        }
        other => panic!("unexpected step: {other:?}"),
    }
    match after_transmission(Ok(())) {
        SendMessageStep::Finished(Ok(output)) => assert!(!output.moderation_triggered),
        other => panic!("unexpected step: {other:?}"),
    }
}

#[test]
fn send_message_moderation_violation() {
    let input = input("bad-actor", "prohibited content");
    match after_moderation(&input, Ok(true)) {
        SendMessageStep::Finished(Ok(output)) => {
            assert!(output.moderation_triggered);
            assert_eq!(output.message_id.to_string().len(), 36);
        }
        other => panic!("unexpected step: {other:?}"),
    }
}

#[test]
fn port_failures_end_the_use_case_with_their_error() {
    let input = input("alice", "hi");
    match after_moderation(&input, Err(ModerationError::Timeout("slow".to_string()))) {
        SendMessageStep::Finished(Err(e @ SendMessageError::Moderation(_))) => {
            assert_eq!(e.to_string(), "Moderation error: Analysis timeout: slow")
        }
        other => panic!("unexpected step: {other:?}"),
    }
    match after_encryption(&input, Err(CryptoError::SessionNotFound("s".to_string()))) {
        SendMessageStep::Finished(Err(e @ SendMessageError::Crypto(_))) => {
            assert_eq!(e.to_string(), "Crypto error: Session not found: s")
        }
        other => panic!("unexpected step: {other:?}"),
    }
    match after_transmission(Err(TransportError::Rejected("no".to_string()))) {
        SendMessageStep::Finished(Err(e @ SendMessageError::Transport(_))) => {
            assert_eq!(e.to_string(), "Transport error: Message rejected: no")
        }
        other => panic!("unexpected step: {other:?}"),
    }
}

#[test]
fn oversized_content_ends_before_any_port_is_asked() {
    let big = "x".repeat(65_537);
    let input = input("alice", &big);
    match start(&input) {
        SendMessageStep::Finished(Err(SendMessageError::Domain(DomainError::MessageTooLarge {
            actual,
            max,
        }))) => assert_eq!((actual, max), (65_537, 65_536)),
        other => panic!("unexpected step: {other:?}"),
    }
    // even after a clean verdict, oversized content is not encrypted
    assert!(matches!(
        after_moderation(&input, Ok(false)),
        SendMessageStep::Finished(Err(SendMessageError::Domain(DomainError::MessageTooLarge { .. })))
    ));
    let err = SendMessageError::Domain(DomainError::MessageTooLarge { actual: 65_537, max: 65_536 });
    assert_eq!(err.to_string(), "Domain error: Message too large: 65537 bytes (max: 65536)");
    // exactly at the limit is moderated as usual
    let at_limit = input_at_limit();
    assert!(matches!(start(&at_limit), SendMessageStep::AnalyzeContent { .. }));
}

fn input_at_limit() -> SendMessageInput {
    input("alice", &"x".repeat(65_536))
}

#[test]
fn group_messages_are_broadcast() {
    let mut input = input("alice", "hello group");
    input.recipient = Recipient::Group;
    assert!(matches!(start(&input), SendMessageStep::AnalyzeContent { .. }));
    match after_encryption(&input, Ok(vec![9, 8])) {
        SendMessageStep::Broadcast { ciphertext } => assert_eq!(ciphertext, vec![9, 8]),
        other => panic!("unexpected step: {other:?}"),
    }
}

#[test]
fn a_direct_message_to_oneself_is_rejected() {
    let mut input = input("alice", "note to self");
    input.recipient = Recipient::Direct(UserId::new("alice".to_string()));
    for step in [start(&input), after_moderation(&input, Ok(false)), after_encryption(&input, Ok(vec![1]))] {
        match step {
            SendMessageStep::Finished(Err(SendMessageError::Domain(
                DomainError::InvalidOperation { reason },
            ))) => assert_eq!(reason, "Cannot send a message to yourself"),
            other => panic!("unexpected step: {other:?}"),
        }
    }
}
