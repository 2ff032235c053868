//! The entity types the application stores, each with its typed mapping to
//! the wire record.

pub mod card;
pub mod character;
pub mod job;
pub mod stats;
pub mod user;
