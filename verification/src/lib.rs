//! Presidium core: the domain model of a decentralised, end-to-end
//! encrypted messenger, the data of its application ports and the
//! decisions of its use cases, with their contracts.
//!
//! - `domain`: value objects, entities, the `Conversation` aggregate,
//!   domain events and errors;
//! - `application`: the ports' data and errors, and the send-message use case;
//! - `config`: typed configuration with its defaults;
//! - `infrastructure`: the adapter types.

pub mod application;
pub mod config;
pub mod domain;
pub mod infrastructure;
pub mod platform;
pub mod render;
