//! The messaging transport port's errors.

use vstd::prelude::*;

verus! {

/// Errors specific to messaging transport operations.
#[derive(Debug)]
pub enum TransportError {
    /// The recipient is not reachable on the network.
    RecipientUnreachable(String),
    /// The message could not be delivered within the timeout.
    Timeout(String),
    /// A network error occurred.
    Network(String),
    /// The message was rejected by the remote peer.
    Rejected(String),
}

impl TransportError {
    /// The human-readable description of the error.
    pub open spec fn text(&self) -> Seq<char> {
        match self {
            TransportError::RecipientUnreachable(s) => "Recipient unreachable: "@ + s@,
            TransportError::Timeout(s) => "Delivery timeout: "@ + s@,
            TransportError::Network(s) => "Network error: "@ + s@,
            TransportError::Rejected(s) => "Message rejected: "@ + s@,
        }
    }

    /// Writes the human-readable description of the error.
    pub fn to_string(&self) -> (r: String)
        ensures
            r@ == self.text(),
    {
        match self {
            TransportError::RecipientUnreachable(s) => {
                let mut r = String::from_str("Recipient unreachable: ");
                r.append(s.as_str());
                r
            },
            TransportError::Timeout(s) => {
                let mut r = String::from_str("Delivery timeout: ");
                r.append(s.as_str());
                r
            },
            TransportError::Network(s) => {
                let mut r = String::from_str("Network error: ");
                r.append(s.as_str());
                r
            },
            TransportError::Rejected(s) => {
                let mut r = String::from_str("Message rejected: ");
                r.append(s.as_str());
                r
            },
        }
    }
}

} // verus!
