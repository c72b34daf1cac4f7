use presidium_core::application::ports::crypto_port::CryptoError;
use presidium_core::application::ports::llm_port::LLMError;
use presidium_core::application::ports::messaging_port::TransportError;
use presidium_core::application::ports::moderation_port::ModerationError;
use presidium_core::application::ports::p2p_port::P2PError;
use presidium_core::application::ports::storage_port::StorageError;
use presidium_core::application::use_cases::send_message::SendMessageError;
use presidium_core::domain::errors::DomainError;

#[test]
fn port_error_texts() {
    assert_eq!(CryptoError::DecryptionFailed("bad mac".into()).to_string(), "Decryption failed: bad mac");
    assert_eq!(CryptoError::EncryptionFailed("e".into()).to_string(), "Encryption failed: e");
    assert_eq!(CryptoError::KeyGenerationFailed("k".into()).to_string(), "Key generation failed: k");
    assert_eq!(CryptoError::InvalidPreKeyBundle("b".into()).to_string(), "Invalid pre-key bundle: b");
    assert_eq!(LLMError::ModelNotLoaded.to_string(), "Model not loaded");
    assert_eq!(LLMError::Timeout.to_string(), "Inference timeout");
    assert_eq!(LLMError::InvalidPrompt("p".into()).to_string(), "Invalid prompt: p");
    assert_eq!(LLMError::LoadFailed("f".into()).to_string(), "Model load failed: f");
    assert_eq!(LLMError::Internal("i".into()).to_string(), "Internal inference error: i");
    assert_eq!(TransportError::RecipientUnreachable("bob".into()).to_string(), "Recipient unreachable: bob");
    assert_eq!(TransportError::Timeout("t".into()).to_string(), "Delivery timeout: t");
    assert_eq!(TransportError::Network("n".into()).to_string(), "Network error: n");
    assert_eq!(ModerationError::InferenceFailed("x".into()).to_string(), "LLM inference failed: x");
    assert_eq!(ModerationError::ModelNotLoaded("m".into()).to_string(), "Model not loaded: m");
    assert_eq!(P2PError::ConnectionFailed("c".into()).to_string(), "Connection failed: c");
    assert_eq!(P2PError::DhtError("d".into()).to_string(), "DHT error: d");
    assert_eq!(P2PError::NatTraversalFailed("n".into()).to_string(), "NAT traversal failed: n");
    assert_eq!(P2PError::NoRelayAvailable("r".into()).to_string(), "No relay available: r");
    assert_eq!(P2PError::PeerNotFound("p".into()).to_string(), "Peer not found: p");
    assert_eq!(StorageError::Database("db".into()).to_string(), "Database error: db");
    assert_eq!(StorageError::NotFound("nf".into()).to_string(), "Not found: nf");
    assert_eq!(StorageError::Conflict("c".into()).to_string(), "Conflict: c");
    assert_eq!(StorageError::Serialization("s".into()).to_string(), "Serialization error: s");
}

#[test]
fn domain_errors_convert_into_port_errors() {
    let e: CryptoError = DomainError::InvalidOperation { reason: "r".into() }.into();
    assert!(matches!(e, CryptoError::Domain(DomainError::InvalidOperation { .. })));
    assert_eq!(e.to_string(), "Domain error: Invalid operation: r");
    let s: StorageError = DomainError::MessageTooLarge { actual: 3, max: 2 }.into();
    assert_eq!(s.to_string(), "Domain error: Message too large: 3 bytes (max: 2)");
    let u: SendMessageError = s.into();
    assert_eq!(
        u.to_string(),
        "Storage error: Domain error: Message too large: 3 bytes (max: 2)"
    );
    let m: SendMessageError = ModerationError::Timeout("t".into()).into();
    assert!(matches!(m, SendMessageError::Moderation(_)));
    let t: SendMessageError = TransportError::Network("n".into()).into();
    assert!(matches!(t, SendMessageError::Transport(_)));
    let c: SendMessageError = CryptoError::EncryptionFailed("x".into()).into();
    assert!(matches!(c, SendMessageError::Crypto(_)));
}
