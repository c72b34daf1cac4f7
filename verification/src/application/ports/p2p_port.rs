//! The P2P network port's data: peer information and networking errors.

use vstd::prelude::*;

use crate::domain::value_objects::UserId;

verus! {

/// Errors specific to P2P networking operations.
#[derive(Debug)]
pub enum P2PError {
    /// Failed to connect to a peer.
    ConnectionFailed(String),
    /// DHT lookup or store operation failed.
    DhtError(String),
    /// NAT traversal failed.
    NatTraversalFailed(String),
    /// No relay available for indirect connection.
    NoRelayAvailable(String),
    /// Peer not found in the DHT.
    PeerNotFound(String),
}

impl P2PError {
    /// The human-readable description of the error.
    pub open spec fn text(&self) -> Seq<char> {
        match self {
            P2PError::ConnectionFailed(s) => "Connection failed: "@ + s@,
            P2PError::DhtError(s) => "DHT error: "@ + s@,
            P2PError::NatTraversalFailed(s) => "NAT traversal failed: "@ + s@,
            P2PError::NoRelayAvailable(s) => "No relay available: "@ + s@,
            P2PError::PeerNotFound(s) => "Peer not found: "@ + s@,
        }
    }

    /// Writes the human-readable description of the error.
    pub fn to_string(&self) -> (r: String)
        ensures
            r@ == self.text(),
    {
        match self {
            P2PError::ConnectionFailed(s) => {
                let mut r = String::from_str("Connection failed: ");
                r.append(s.as_str());
                r
            },
            P2PError::DhtError(s) => {
                let mut r = String::from_str("DHT error: ");
                r.append(s.as_str());
                r
            },
            P2PError::NatTraversalFailed(s) => {
                let mut r = String::from_str("NAT traversal failed: ");
                r.append(s.as_str());
                r
            },
            P2PError::NoRelayAvailable(s) => {
                let mut r = String::from_str("No relay available: ");
                r.append(s.as_str());
                r
            },
            P2PError::PeerNotFound(s) => {
                let mut r = String::from_str("Peer not found: ");
                r.append(s.as_str());
                r
            },
        }
    }
}

/// Information about a peer on the P2P network.
#[derive(Debug)]
pub struct PeerInfo {
    /// The peer's unique identifier.
    pub peer_id: String,
    /// The user associated with this peer (if authenticated).
    pub user_id: Option<UserId>,
    /// The peer's reachable multiaddresses.
    pub addresses: Vec<String>,
    /// Whether this peer is currently connected.
    pub is_connected: bool,
}

} // verus!
