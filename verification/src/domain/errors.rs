//! Domain errors: violations of business rules within the domain model.

use vstd::prelude::*;

use crate::render::{decimal, decimal_string};

verus! {

/// Errors that arise from violations of domain business rules.
#[derive(Debug)]
pub enum DomainError {
    /// A message exceeds the maximum allowed size.
    MessageTooLarge {
        /// Actual size in bytes.
        actual: usize,
        /// Maximum allowed size in bytes.
        max: usize,
    },
    /// An operation is invalid in the current context.
    InvalidOperation {
        /// Explanation of why the operation is invalid.
        reason: String,
    },
    /// A required entity was not found.
    NotFound {
        /// The type of entity that was not found.
        entity_type: String,
        /// The identifier of the missing entity.
        id: String,
    },
    /// A concurrency conflict occurred (optimistic locking).
    ConcurrencyConflict {
        /// The type of entity with the conflict.
        entity_type: String,
        /// Expected version number.
        expected: u64,
        /// Actual version number found.
        found: u64,
    },
    /// A domain invariant was violated.
    InvariantViolated {
        /// Description of the violated invariant.
        description: String,
    },
}

impl DomainError {
    /// The human-readable description of the error.
    pub open spec fn text(&self) -> Seq<char> {
        match self {
            DomainError::MessageTooLarge { actual, max } => "Message too large: "@ + decimal(
                *actual as nat,
            ) + " bytes (max: "@ + decimal(*max as nat) + ")"@,
            DomainError::InvalidOperation { reason } => "Invalid operation: "@ + reason@,
            DomainError::NotFound { entity_type, id } => "Entity not found: "@ + entity_type@
                + " with id "@ + id@,
            DomainError::ConcurrencyConflict { entity_type, expected, found } =>
                "Concurrency conflict on "@ + entity_type@ + ": expected version "@ + decimal(
                *expected as nat,
            ) + ", found "@ + decimal(*found as nat),
            DomainError::InvariantViolated { description } => "Domain invariant violated: "@
                + description@,
        }
    }

    /// Writes the human-readable description of the error.
    pub fn to_string(&self) -> (r: String)
        ensures
            r@ == self.text(),
    {
        match self {
            DomainError::MessageTooLarge { actual, max } => {
                let mut s = String::from_str("Message too large: ");
                let a = decimal_string(*actual as u64);
                s.append(a.as_str());
                s.append(" bytes (max: ");
                let m = decimal_string(*max as u64);
                s.append(m.as_str());
                s.append(")");
                s
            },
            DomainError::InvalidOperation { reason } => {
                let mut s = String::from_str("Invalid operation: ");
                s.append(reason.as_str());
                s
            },
            DomainError::NotFound { entity_type, id } => {
                let mut s = String::from_str("Entity not found: ");
                s.append(entity_type.as_str());
                s.append(" with id ");
                s.append(id.as_str());
                s
            },
            DomainError::ConcurrencyConflict { entity_type, expected, found } => {
                let mut s = String::from_str("Concurrency conflict on ");
                s.append(entity_type.as_str());
                s.append(": expected version ");
                let e = decimal_string(*expected);
                s.append(e.as_str());
                s.append(", found ");
                let f = decimal_string(*found);
                s.append(f.as_str());
                s
            },
            DomainError::InvariantViolated { description } => {
                let mut s = String::from_str("Domain invariant violated: ");
                s.append(description.as_str());
                s
            },
        }
    }
}

} // verus!
