//! The data and errors of each port: crypto, LLM, messaging transport,
//! moderation, P2P networking and storage.

pub mod crypto_port;
pub mod llm_port;
pub mod messaging_port;
pub mod moderation_port;
pub mod p2p_port;
pub mod storage_port;
