use presidium_core::application::use_cases::send_message::{
    SendMessageError, SendMessageInput, SendMessageOutput,
};
use presidium_core::config::AppConfig;
use presidium_core::domain::aggregates::Conversation;
use presidium_core::domain::entities::{Chat, Device, Message, User};
use presidium_core::domain::errors::DomainError;
use presidium_core::domain::events::{DomainEvent, SessionEstablished, UserRegistered};
use presidium_core::domain::value_objects::{
    ChatId, ChatType, DeviceId, MessageContent, SessionId, Timestamp, UserId,
};

#[test]
fn domain_value_objects_are_self_contained() {

    let uid = UserId::new("test-user".to_string());
    assert_eq!(uid.as_str(), "test-user");

    let did = DeviceId::new("test-device".to_string());
    assert_eq!(did.as_str(), "test-device");

    let sid = SessionId::new("test-session".to_string());
    assert_eq!(sid.as_str(), "test-session");

    let cid = ChatId::new("test-chat".to_string());
    assert_eq!(cid.as_str(), "test-chat");

    let content = MessageContent::try_new("Hello".to_string()).expect("valid content");
    assert_eq!(content.as_str(), "Hello");

    let _chat_type = ChatType::Direct;
}

#[test]
fn domain_entities_are_self_contained() {

    let user = User::new(UserId::new("alice".to_string()));
    assert_eq!(user.user_id().as_str(), "alice");

    let device = Device::new(DeviceId::new("phone-1".to_string()), "Pixel 8".to_string());
    assert_eq!(device.name(), "Pixel 8");

    let msg = Message::try_new(
        ChatId::new("chat-1".to_string()),
        UserId::new("alice".to_string()),
        "Hello!".to_string(),
    )
    .expect("valid message");
    assert!(!msg.is_delivered());

    let chat = Chat::new_direct(UserId::new("alice".to_string()), UserId::new("bob".to_string()))
        .expect("valid chat");
    assert_eq!(chat.chat_type(), ChatType::Direct);
}

#[test]
fn domain_errors_are_self_contained() {

    let err = DomainError::MessageTooLarge { actual: 100_000, max: 65_536 };
    let msg = err.to_string();
    assert!(msg.contains("100000"));
}

#[test]
fn domain_events_are_self_contained() {

    let event = UserRegistered {
        user_id: UserId::new("alice".to_string()),
        device_id: DeviceId::new("phone-1".to_string()),
        occurred_at: Timestamp::now(),
    };
    assert_eq!(event.event_type(), "UserRegistered");

    let event = SessionEstablished {
        session_id: SessionId::new("s-1".to_string()),
        local_device_id: DeviceId::new("phone-1".to_string()),
        remote_device_id: DeviceId::new("phone-2".to_string()),
        occurred_at: Timestamp::now(),
    };
    assert_eq!(event.event_type(), "SessionEstablished");
}

#[test]
fn domain_aggregates_are_self_contained() {

    let alice = UserId::new("alice".to_string());
    let bob = UserId::new("bob".to_string());
    let mut conv = Conversation::new_direct(alice.clone(), bob).expect("create direct");

    conv.send_message(alice, "Hello!".to_string()).expect("send message");
    assert_eq!(conv.messages().len(), 1);
    assert_eq!(conv.chat_type(), ChatType::Direct);
}

#[test]
fn application_use_cases_exist() {

    let _input_type: Option<SendMessageInput> = None;
    let _output_type: Option<SendMessageOutput> = None;
    let _error_type: Option<SendMessageError> = None;
}

#[test]
fn config_module_works_independently() {

    let config = AppConfig::default();
    assert_eq!(config.network.listen_port, 4001);
    assert!(config.crypto.enable_post_quantum);
    assert!(config.llm.moderation_enabled);
}

#[test]
fn crate_re_exports_all_layers() {
    let _: Option<presidium_core::domain::value_objects::UserId> = None;
    let _: Option<presidium_core::domain::errors::DomainError> = None;
    let _: Option<presidium_core::config::AppConfig> = None;
}
