use presidium_core::application::ports::llm_port::{LLMError, Quantization};
use presidium_core::application::ports::moderation_port::{ContentVerdict, ModerationError};
use presidium_core::application::ports::p2p_port::PeerInfo;
use presidium_core::application::ports::storage_port::StoredMessage;
use presidium_core::domain::events::ModerationCategory;
use presidium_core::domain::value_objects::{
    ChatId, DeviceId, MessageId, SessionId, Timestamp, UserId,
};

#[test]
fn value_objects_are_self_contained() {
    let uid = UserId::new("test-user".to_string());
    assert_eq!(uid.as_str(), "test-user");

    let did = DeviceId::new("test-device".to_string());
    assert_eq!(did.as_str(), "test-device");

    let sid = SessionId::new("test-session".to_string());
    assert_eq!(sid.as_str(), "test-session");

    let cid = ChatId::new("test-chat".to_string());
    assert_eq!(cid.as_str(), "test-chat");

    let mid = MessageId::random();
    assert!(!mid.to_string().is_empty());

    let ts = Timestamp::now();
    assert!(ts.as_millis() > 0);
}

#[test]
fn moderation_category_is_unified() {
    let cat = ModerationCategory::Extremism;
    assert_eq!(format!("{cat:?}"), "Extremism");

    let cat = ModerationCategory::Csam;
    assert_eq!(format!("{cat:?}"), "Csam");

    // the moderation port names the very same type
    let same: presidium_core::application::ports::moderation_port::ModerationCategory = cat;
    assert_eq!(same, ModerationCategory::Csam);
}

#[test]
fn all_port_error_types_are_defined() {
    let _ = presidium_core::application::ports::crypto_port::CryptoError::SessionNotFound(
        "test".into(),
    );
    let _ = presidium_core::application::ports::p2p_port::P2PError::ConnectionFailed("test".into());
    let _ = presidium_core::application::ports::storage_port::StorageError::Database("test".into());
    let _ =
        presidium_core::application::ports::messaging_port::TransportError::Timeout("test".into());
    let _ = ModerationError::InferenceFailed("test".into());
    let _ = LLMError::ModelNotLoaded;
}

#[test]
fn port_types_are_accessible() {
    let safe = ContentVerdict::Safe;
    let unsafe_verdict = ContentVerdict::Unsafe("extremism".to_string());
    let review = ContentVerdict::NeedsReview;
    assert!(matches!(safe, ContentVerdict::Safe));
    assert!(matches!(unsafe_verdict, ContentVerdict::Unsafe(_)));
    assert!(matches!(review, ContentVerdict::NeedsReview));

    let q = Quantization::Q4KM;
    assert_eq!(format!("{q:?}"), "Q4KM");

    let peer = PeerInfo {
        peer_id: "test-peer".to_string(),
        user_id: None,
        addresses: vec![],
        is_connected: false,
    };
    assert_eq!(peer.peer_id, "test-peer");

    let stored = StoredMessage {
        id: MessageId::random(),
        sender: UserId::new("alice".to_string()),
        recipient: UserId::new("bob".to_string()),
        ciphertext: vec![1, 2, 3],
        timestamp: Timestamp::now(),
        delivered: false,
        read: false,
    };
    assert!(!stored.delivered);
}

#[test]
fn adapter_stubs_exist_in_satellite_crates() {
    let _ = presidium_core::infrastructure::adapters::LibSignalCryptoAdapter::new();
    let _ = presidium_core::infrastructure::adapters::Libp2pNetworkAdapter::new();
    let _ = presidium_core::infrastructure::adapters::RedbStorageAdapter::new();
    let _ = presidium_core::infrastructure::adapters::CandleLlmAdapter::new();
    let _ = presidium_core::infrastructure::adapters::LocalModerationAdapter::new();
}

#[test]
fn timestamp_value_object_works() {
    let ts1 = Timestamp::new(1_700_000_000_000_i64);
    let ts2 = Timestamp::new(1_700_000_000_001_i64);
    assert_ne!(ts1, ts2);
    assert_eq!(ts1.as_millis(), 1_700_000_000_000_i64);
}

#[test]
fn message_id_value_object_works() {
    let id1 = MessageId::random();
    let id2 = MessageId::random();
    assert_ne!(id1, id2);
    assert!(!id1.to_string().is_empty());
}
