//! Use cases: the decisions that orchestrate the ports.

pub mod send_message;
