//! Adapter types for each port.  None holds a backend yet: each is created
//! empty, and the port implementations that use them report that their
//! backend is not available.

use vstd::prelude::*;

verus! {

/// Adapter for the E2EE crypto port, to be backed by the Signal Protocol
/// (X3DH/PQXDH key agreement and the Double Ratchet).
#[derive(Debug)]
pub struct LibSignalCryptoAdapter {}

impl LibSignalCryptoAdapter {
    /// Creates the adapter.
    pub fn new() -> (r: Self)
        ensures
            r == (LibSignalCryptoAdapter {}),
    {
        LibSignalCryptoAdapter {}
    }
}

impl Default for LibSignalCryptoAdapter {
    fn default() -> (r: Self)
        ensures
            r == (LibSignalCryptoAdapter {}),
    {
        LibSignalCryptoAdapter::new()
    }
}

/// Adapter for the P2P network port, to be backed by rust-libp2p (Kademlia
/// DHT, GossipSub, Circuit Relay v2, QUIC and mDNS).
#[derive(Debug)]
pub struct Libp2pNetworkAdapter {}

impl Libp2pNetworkAdapter {
    /// Creates the adapter.
    pub fn new() -> (r: Self)
        ensures
            r == (Libp2pNetworkAdapter {}),
    {
        Libp2pNetworkAdapter {}
    }
}

impl Default for Libp2pNetworkAdapter {
    fn default() -> (r: Self)
        ensures
            r == (Libp2pNetworkAdapter {}),
    {
        Libp2pNetworkAdapter::new()
    }
}

/// Adapter for both storage ports, to be backed by an encrypted redb database.
#[derive(Debug)]
pub struct RedbStorageAdapter {}

impl RedbStorageAdapter {
    /// Creates the adapter.
    pub fn new() -> (r: Self)
        ensures
            r == (RedbStorageAdapter {}),
    {
        RedbStorageAdapter {}
    }
}

impl Default for RedbStorageAdapter {
    fn default() -> (r: Self)
        ensures
            r == (RedbStorageAdapter {}),
    {
        RedbStorageAdapter::new()
    }
}

/// Adapter for the LLM port, to be backed by candle.rs with GGUF models.
#[derive(Debug)]
pub struct CandleLlmAdapter {}

impl CandleLlmAdapter {
    /// Creates the adapter.
    pub fn new() -> (r: Self)
        ensures
            r == (CandleLlmAdapter {}),
    {
        CandleLlmAdapter {}
    }
}

impl Default for CandleLlmAdapter {
    fn default() -> (r: Self)
        ensures
            r == (CandleLlmAdapter {}),
    {
        CandleLlmAdapter::new()
    }
}

/// Adapter for the moderation port, classifying content with the local LLM
/// and sealing confirmed violations into Sarcophagus reports.
#[derive(Debug)]
pub struct LocalModerationAdapter {}

impl LocalModerationAdapter {
    /// Creates the adapter.
    pub fn new() -> (r: Self)
        ensures
            r == (LocalModerationAdapter {}),
    {
        LocalModerationAdapter {}
    }
}

impl Default for LocalModerationAdapter {
    fn default() -> (r: Self)
        ensures
            r == (LocalModerationAdapter {}),
    {
        LocalModerationAdapter::new()
    }
}

} // verus!
