//! Application configuration: typed sections with their defaults.
//!
//! Loading the configuration from `presidium.toml` and `PRESIDIUM_`
//! environment variables reads the file system and the environment, and is
//! done by the application around this library, over these defaults.

use vstd::prelude::*;

verus! {

/// Root application configuration.
#[derive(Debug, Clone)]
pub struct AppConfig {
    /// Network-related configuration.
    pub network: NetworkConfig,
    /// Storage-related configuration.
    pub storage: StorageConfig,
    /// Cryptography-related configuration.
    pub crypto: CryptoConfig,
    /// LLM-related configuration.
    pub llm: LlmConfig,
}

/// `c` holds the default network settings.
pub open spec fn is_default_network(c: NetworkConfig) -> bool {
    &&& c.listen_port == 4001
    &&& c.bootstrap_peers@.len() == 0
    &&& c.enable_mdns
    &&& c.enable_relay
    &&& c.max_connections == 100
}

/// `c` holds the default storage settings.
pub open spec fn is_default_storage(c: StorageConfig) -> bool {
    &&& c.database_path@ == "./data/presidium.db"@
    &&& c.max_size_mb == 512
    &&& c.enable_wal
}

/// `c` holds the default cryptography settings.
pub open spec fn is_default_crypto(c: CryptoConfig) -> bool {
    &&& c.pre_key_count == 100
    &&& c.enable_post_quantum
    &&& c.pre_key_rotation_hours == 24
}

/// `c` holds the default LLM settings.
pub open spec fn is_default_llm(c: LlmConfig) -> bool {
    &&& c.model_path@ == "./models/gemma-2b-q4_k_m.gguf"@
    &&& c.quantization@ == "Q4_K_M"@
    &&& c.max_context_tokens == 4096
    &&& c.inference_threads == 4
    &&& c.moderation_enabled
}

impl Default for AppConfig {
    fn default() -> (r: Self)
        ensures
            is_default_network(r.network),
            is_default_storage(r.storage),
            is_default_crypto(r.crypto),
            is_default_llm(r.llm),
    {
        AppConfig {
            network: NetworkConfig::default(),
            storage: StorageConfig::default(),
            crypto: CryptoConfig::default(),
            llm: LlmConfig::default(),
        }
    }
}

/// Network configuration.
#[derive(Debug, Clone)]
pub struct NetworkConfig {
    /// The port to listen on for P2P connections.
    pub listen_port: u16,
    /// Bootstrap peer multiaddresses for initial discovery.
    pub bootstrap_peers: Vec<String>,
    /// Whether to enable mDNS for local network discovery.
    pub enable_mdns: bool,
    /// Whether to enable Circuit Relay v2 for NAT traversal.
    pub enable_relay: bool,
    /// Maximum number of concurrent P2P connections.
    pub max_connections: usize,
}

impl Default for NetworkConfig {
    fn default() -> (r: Self)
        ensures
            is_default_network(r),
    {
        NetworkConfig {
            listen_port: 4001,
            bootstrap_peers: Vec::new(),
            enable_mdns: true,
            enable_relay: true,
            max_connections: 100,
        }
    }
}

/// Storage configuration.
#[derive(Debug, Clone)]
pub struct StorageConfig {
    /// Path to the encrypted database file.
    pub database_path: String,
    /// Maximum database size in megabytes.
    pub max_size_mb: u32,
    /// Whether to enable WAL mode for better write performance.
    pub enable_wal: bool,
}

impl Default for StorageConfig {
    fn default() -> (r: Self)
        ensures
            is_default_storage(r),
    {
        StorageConfig {
            database_path: String::from_str("./data/presidium.db"),
            max_size_mb: 512,
            enable_wal: true,
        }
    }
}

/// Cryptography configuration.
#[derive(Debug, Clone)]
pub struct CryptoConfig {
    /// Number of pre-keys to generate and upload.
    pub pre_key_count: u32,
    /// Whether to enable post-quantum key exchange (PQXDH).
    pub enable_post_quantum: bool,
    /// Pre-key rotation interval in hours.
    pub pre_key_rotation_hours: u32,
}

impl Default for CryptoConfig {
    fn default() -> (r: Self)
        ensures
            is_default_crypto(r),
    {
        CryptoConfig { pre_key_count: 100, enable_post_quantum: true, pre_key_rotation_hours: 24 }
    }
}

/// LLM configuration for on-device inference.
#[derive(Debug, Clone)]
pub struct LlmConfig {
    /// Path to the GGUF model file.
    pub model_path: String,
    /// Quantization level (e.g., "Q4_K_M", "Q8_0").
    pub quantization: String,
    /// Maximum context window size in tokens.
    pub max_context_tokens: u32,
    /// Number of threads for inference.
    pub inference_threads: u32,
    /// Whether moderation is enabled by default.
    pub moderation_enabled: bool,
}

impl Default for LlmConfig {
    fn default() -> (r: Self)
        ensures
            is_default_llm(r),
    {
        LlmConfig {
            model_path: String::from_str("./models/gemma-2b-q4_k_m.gguf"),
            quantization: String::from_str("Q4_K_M"),
            max_context_tokens: 4096,
            inference_threads: 4,
            moderation_enabled: true,
        }
    }
}

} // verus!
