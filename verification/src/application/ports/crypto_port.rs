//! The E2EE crypto port's data: pre-key bundles and crypto errors.
//!
//! The port itself (X3DH/PQXDH key agreement and the Double Ratchet) is
//! implemented by an adapter around a Signal Protocol library.

use vstd::prelude::*;

use crate::domain::errors::DomainError;
use crate::domain::value_objects::DeviceId;

verus! {

/// Errors specific to cryptographic operations.
#[derive(Debug)]
pub enum CryptoError {
    /// No session found for the given identifier.
    SessionNotFound(String),
    /// The ciphertext could not be decrypted.
    DecryptionFailed(String),
    /// The plaintext could not be encrypted.
    EncryptionFailed(String),
    /// Key generation failed.
    KeyGenerationFailed(String),
    /// The pre-key bundle is malformed or expired.
    InvalidPreKeyBundle(String),
    /// A domain-level error occurred during a crypto operation.
    Domain(DomainError),
}

impl CryptoError {
    /// The human-readable description of the error.
    pub open spec fn text(&self) -> Seq<char> {
        match self {
            CryptoError::SessionNotFound(s) => "Session not found: "@ + s@,
            CryptoError::DecryptionFailed(s) => "Decryption failed: "@ + s@,
            CryptoError::EncryptionFailed(s) => "Encryption failed: "@ + s@,
            CryptoError::KeyGenerationFailed(s) => "Key generation failed: "@ + s@,
            CryptoError::InvalidPreKeyBundle(s) => "Invalid pre-key bundle: "@ + s@,
            CryptoError::Domain(e) => "Domain error: "@ + e.text(),
        }
    }

    /// Writes the human-readable description of the error.
    pub fn to_string(&self) -> (r: String)
        ensures
            r@ == self.text(),
    {
        match self {
            CryptoError::SessionNotFound(s) => {
                let mut r = String::from_str("Session not found: ");
                r.append(s.as_str());
                r
            },
            CryptoError::DecryptionFailed(s) => {
                let mut r = String::from_str("Decryption failed: ");
                r.append(s.as_str());
                r
            },
            CryptoError::EncryptionFailed(s) => {
                let mut r = String::from_str("Encryption failed: ");
                r.append(s.as_str());
                r
            },
            CryptoError::KeyGenerationFailed(s) => {
                let mut r = String::from_str("Key generation failed: ");
                r.append(s.as_str());
                r
            },
            CryptoError::InvalidPreKeyBundle(s) => {
                let mut r = String::from_str("Invalid pre-key bundle: ");
                r.append(s.as_str());
                r
            },
            CryptoError::Domain(e) => {
                let mut r = String::from_str("Domain error: ");
                let t = e.to_string();
                r.append(t.as_str());
                r
            },
        }
    }
}

impl From<DomainError> for CryptoError {
    fn from(e: DomainError) -> (r: Self) {
        CryptoError::Domain(e)
    }
}

impl vstd::std_specs::convert::FromSpecImpl<DomainError> for CryptoError {
    open spec fn obeys_from_spec() -> bool {
        true
    }

    open spec fn from_spec(v: DomainError) -> Self {
        CryptoError::Domain(v)
    }
}

/// A pre-key bundle for initial session establishment (X3DH/PQXDH).
#[derive(Debug)]
pub struct PreKeyBundle {
    /// The device this bundle belongs to.
    pub device_id: DeviceId,
    /// The identity key.
    pub identity_key: Vec<u8>,
    /// The signed pre-key.
    pub signed_pre_key: Vec<u8>,
    /// Signature of the signed pre-key by the identity key.
    pub signed_pre_key_signature: Vec<u8>,
    /// One-time pre-key (optional but recommended).
    pub one_time_pre_key: Option<Vec<u8>>,
    /// Post-quantum KEM ciphertext (PQXDH extension).
    pub pq_kem_ciphertext: Option<Vec<u8>>,
}

} // verus!
