//! The infrastructure layer: the adapters that will connect the ports to
//! external systems.

pub mod adapters;
