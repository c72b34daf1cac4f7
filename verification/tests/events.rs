use presidium_core::domain::events::{
    AnyDomainEvent, DomainEvent, MessageSent, ModerationCategory, ModerationViolationDetected,
    SessionEstablished, UserRegistered,
};
use presidium_core::domain::value_objects::{ChatId, DeviceId, SessionId, Timestamp, UserId};

#[test]
fn user_registered_event() {
    let event = UserRegistered {
        user_id: UserId::new("alice".to_string()),
        device_id: DeviceId::new("phone-1".to_string()),
        occurred_at: Timestamp::now(),
    };
    assert_eq!(event.event_type(), "UserRegistered");
}

#[test]
fn session_established_event() {
    let event = SessionEstablished {
        session_id: SessionId::new("s-1".to_string()),
        local_device_id: DeviceId::new("phone-1".to_string()),
        remote_device_id: DeviceId::new("phone-2".to_string()),
        occurred_at: Timestamp::now(),
    };
    assert_eq!(event.event_type(), "SessionEstablished");
}

#[test]
fn message_sent_event() {
    let event = MessageSent {
        chat_id: ChatId::new("chat-1".to_string()),
        sender_id: UserId::new("alice".to_string()),
        occurred_at: Timestamp::now(),
    };
    assert_eq!(event.event_type(), "MessageSent");
}

#[test]
fn moderation_violation_event() {
    let event = ModerationViolationDetected {
        violator_id: UserId::new("bad-actor".to_string()),
        chat_id: ChatId::new("chat-1".to_string()),
        violation_category: ModerationCategory::Extremism,
        occurred_at: Timestamp::now(),
    };
    assert_eq!(event.event_type(), "ModerationViolationDetected");
}

#[test]
fn any_event_reports_its_inner_event() {
    let at = Timestamp::new(1_700_000_000_000);
    let event = AnyDomainEvent::ModerationViolationDetected(ModerationViolationDetected {
        violator_id: UserId::new("bad-actor".to_string()),
        chat_id: ChatId::new("chat-1".to_string()),
        violation_category: ModerationCategory::Fraud,
        occurred_at: at,
    });
    assert_eq!(event.event_type(), "ModerationViolationDetected");
    assert_eq!(event.occurred_at(), at);
}
