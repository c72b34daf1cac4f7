//! The application layer: the data that crosses the ports, and the
//! decisions of the use cases.
//!
//! The ports themselves are asynchronous traits implemented by adapters;
//! they live with the runtime that drives them, outside this library.

pub mod ports;
pub mod use_cases;
