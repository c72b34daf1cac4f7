//! The domain layer: value objects, entities, aggregates, events and errors.

pub mod aggregates;
pub mod entities;
pub mod errors;
pub mod events;
pub mod value_objects;
