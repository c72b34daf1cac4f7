//! The storage ports' data: raw stored messages and storage errors.

use vstd::prelude::*;

use crate::domain::errors::DomainError;
use crate::domain::value_objects::{MessageId, Timestamp, UserId};

verus! {

/// Errors specific to storage operations.
#[derive(Debug)]
pub enum StorageError {
    /// The database is not available or corrupted.
    Database(String),
    /// A record was not found.
    NotFound(String),
    /// A concurrency conflict occurred (optimistic locking).
    Conflict(String),
    /// Serialization or deserialization failed.
    Serialization(String),
    /// A domain error occurred during a storage operation.
    Domain(DomainError),
}

impl StorageError {
    /// The human-readable description of the error.
    pub open spec fn text(&self) -> Seq<char> {
        match self {
            StorageError::Database(s) => "Database error: "@ + s@,
            StorageError::NotFound(s) => "Not found: "@ + s@,
            StorageError::Conflict(s) => "Conflict: "@ + s@,
            StorageError::Serialization(s) => "Serialization error: "@ + s@,
            StorageError::Domain(e) => "Domain error: "@ + e.text(),
        }
    }

    /// Writes the human-readable description of the error.
    pub fn to_string(&self) -> (r: String)
        ensures
            r@ == self.text(),
    {
        match self {
            StorageError::Database(s) => {
                let mut r = String::from_str("Database error: ");
                r.append(s.as_str());
                r
            },
            StorageError::NotFound(s) => {
                let mut r = String::from_str("Not found: ");
                r.append(s.as_str());
                r
            },
            StorageError::Conflict(s) => {
                let mut r = String::from_str("Conflict: ");
                r.append(s.as_str());
                r
            },
            StorageError::Serialization(s) => {
                let mut r = String::from_str("Serialization error: ");
                r.append(s.as_str());
                r
            },
            StorageError::Domain(e) => {
                let mut r = String::from_str("Domain error: ");
                let t = e.to_string();
                r.append(t.as_str());
                r
            },
        }
    }
}

impl From<DomainError> for StorageError {
    fn from(e: DomainError) -> (r: Self) {
        StorageError::Domain(e)
    }
}

impl vstd::std_specs::convert::FromSpecImpl<DomainError> for StorageError {
    open spec fn obeys_from_spec() -> bool {
        true
    }

    open spec fn from_spec(v: DomainError) -> Self {
        StorageError::Domain(v)
    }
}

/// A raw stored message with its ciphertext, as the low-level message store keeps it.
#[derive(Debug)]
pub struct StoredMessage {
    /// Unique message identifier.
    pub id: MessageId,
    /// The sender of the message.
    pub sender: UserId,
    /// The recipient of the message.
    pub recipient: UserId,
    /// The E2EE-encrypted message payload.
    pub ciphertext: Vec<u8>,
    /// When the message was sent.
    pub timestamp: Timestamp,
    /// Whether the message has been delivered to the recipient.
    pub delivered: bool,
    /// Whether the message has been read by the recipient.
    pub read: bool,
}

} // verus!
