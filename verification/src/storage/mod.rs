//! The components have to be stored somewhere, and this is it.

pub mod arities;
pub mod laws;
pub mod layout;
pub mod meaning;
pub mod members;
pub mod numbers;
pub mod column;
pub mod collections;
pub mod component;
pub mod table;
pub mod tuples;

pub use collections::ComponentId;
