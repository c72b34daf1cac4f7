//! Domain events: immutable records of significant occurrences.

use vstd::prelude::*;

use crate::domain::value_objects::{ChatId, DeviceId, SessionId, Timestamp, UserId};

verus! {

/// A domain event: something that happened, when, and of which kind.
pub trait DomainEvent {
    /// When the event occurred, in milliseconds since the Unix epoch.
    spec fn spec_occurred_at(&self) -> int;

    /// The name of the event's kind.
    spec fn spec_event_type(&self) -> Seq<char>;

    /// Returns the timestamp when the event occurred.
    fn occurred_at(&self) -> (r: Timestamp)
        ensures
            r@ == self.spec_occurred_at(),
    ;

    /// Returns a human-readable name of the event type.
    fn event_type(&self) -> (r: &'static str)
        ensures
            r@ == self.spec_event_type(),
    ;
}

/// Event: a new user has registered on the network.
#[derive(Debug, Clone)]
pub struct UserRegistered {
    /// The user who registered.
    pub user_id: UserId,
    /// The device used for initial registration.
    pub device_id: DeviceId,
    /// Time of registration.
    pub occurred_at: Timestamp,
}

impl DomainEvent for UserRegistered {
    open spec fn spec_occurred_at(&self) -> int {
        self.occurred_at@
    }

    open spec fn spec_event_type(&self) -> Seq<char> {
        "UserRegistered"@
    }

    fn occurred_at(&self) -> (r: Timestamp) {
        self.occurred_at
    }

    fn event_type(&self) -> (r: &'static str) {
        "UserRegistered"
    }
}

/// Event: a new E2EE session has been established between two devices.
#[derive(Debug, Clone)]
pub struct SessionEstablished {
    /// The session identifier.
    pub session_id: SessionId,
    /// The local device in the session.
    pub local_device_id: DeviceId,
    /// The remote device in the session.
    pub remote_device_id: DeviceId,
    /// Time of session establishment.
    pub occurred_at: Timestamp,
}

impl DomainEvent for SessionEstablished {
    open spec fn spec_occurred_at(&self) -> int {
        self.occurred_at@
    }

    open spec fn spec_event_type(&self) -> Seq<char> {
        "SessionEstablished"@
    }

    fn occurred_at(&self) -> (r: Timestamp) {
        self.occurred_at
    }

    fn event_type(&self) -> (r: &'static str) {
        "SessionEstablished"
    }
}

/// Event: a message has been sent in a chat.
#[derive(Debug, Clone)]
pub struct MessageSent {
    /// The chat where the message was sent.
    pub chat_id: ChatId,
    /// The sender of the message.
    pub sender_id: UserId,
    /// Time when the message was sent.
    pub occurred_at: Timestamp,
}

impl DomainEvent for MessageSent {
    open spec fn spec_occurred_at(&self) -> int {
        self.occurred_at@
    }

    open spec fn spec_event_type(&self) -> Seq<char> {
        "MessageSent"@
    }

    fn occurred_at(&self) -> (r: Timestamp) {
        self.occurred_at
    }

    fn event_type(&self) -> (r: &'static str) {
        "MessageSent"
    }
}

/// Event: the on-device model has detected a moderation violation.
///
/// This is the trigger of the "Sarcophagus" mechanism.
#[derive(Debug, Clone)]
pub struct ModerationViolationDetected {
    /// The user who sent the violating content.
    pub violator_id: UserId,
    /// The chat where the violation was detected.
    pub chat_id: ChatId,
    /// The category of the violation.
    pub violation_category: ModerationCategory,
    /// Time of detection.
    pub occurred_at: Timestamp,
}

impl DomainEvent for ModerationViolationDetected {
    open spec fn spec_occurred_at(&self) -> int {
        self.occurred_at@
    }

    open spec fn spec_event_type(&self) -> Seq<char> {
        "ModerationViolationDetected"@
    }

    fn occurred_at(&self) -> (r: Timestamp) {
        self.occurred_at
    }

    fn event_type(&self) -> (r: &'static str) {
        "ModerationViolationDetected"
    }
}

/// Categories of content that trigger moderation violations.
#[derive(Debug, Clone, Copy, PartialEq, Eq, Structural, Hash)]
pub enum ModerationCategory {
    /// Content promoting extremism and terrorism.
    Extremism,
    /// Child sexual abuse material.
    Csam,
    /// Content related to illegal drug trafficking.
    DrugTrafficking,
    /// Fraud and financial scams.
    Fraud,
}

/// Any one of the domain events, as an aggregate queues them for publication.
#[derive(Debug, Clone)]
pub enum AnyDomainEvent {
    UserRegistered(UserRegistered),
    SessionEstablished(SessionEstablished),
    MessageSent(MessageSent),
    ModerationViolationDetected(ModerationViolationDetected),
}

impl DomainEvent for AnyDomainEvent {
    open spec fn spec_occurred_at(&self) -> int {
        match self {
            AnyDomainEvent::UserRegistered(e) => e.spec_occurred_at(),
            AnyDomainEvent::SessionEstablished(e) => e.spec_occurred_at(),
            AnyDomainEvent::MessageSent(e) => e.spec_occurred_at(),
            AnyDomainEvent::ModerationViolationDetected(e) => e.spec_occurred_at(),
        }
    }

    open spec fn spec_event_type(&self) -> Seq<char> {
        match self {
            AnyDomainEvent::UserRegistered(e) => e.spec_event_type(),
            AnyDomainEvent::SessionEstablished(e) => e.spec_event_type(),
            AnyDomainEvent::MessageSent(e) => e.spec_event_type(),
            AnyDomainEvent::ModerationViolationDetected(e) => e.spec_event_type(),
        }
    }

    fn occurred_at(&self) -> (r: Timestamp) {
        match self {
            AnyDomainEvent::UserRegistered(e) => e.occurred_at(),
            AnyDomainEvent::SessionEstablished(e) => e.occurred_at(),
            AnyDomainEvent::MessageSent(e) => e.occurred_at(),
            AnyDomainEvent::ModerationViolationDetected(e) => e.occurred_at(),
        }
    }

    fn event_type(&self) -> (r: &'static str) {
        match self {
            AnyDomainEvent::UserRegistered(e) => e.event_type(),
            AnyDomainEvent::SessionEstablished(e) => e.event_type(),
            AnyDomainEvent::MessageSent(e) => e.event_type(),
            AnyDomainEvent::ModerationViolationDetected(e) => e.event_type(),
        }
    }
}

} // verus!
