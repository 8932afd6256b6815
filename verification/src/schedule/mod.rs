//! Systems, and the stages that they can safely be run in.

pub mod arities;
pub mod collections;
pub mod error;
pub mod laws;
pub mod meaning;
pub mod parts;
pub mod query;
pub mod request;
pub mod stage;
pub mod system;
