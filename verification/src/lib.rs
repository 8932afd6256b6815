//! Micro ECS, an entity component system for small machines.
//!
//! A [`World`] holds entities. The components of an entity are stored in the table of its arche
//! type, the set of its components. Inserting and removing components moves an entity from one
//! table to another, along the edges of a graph of arche types. A schedule is made of stages,
//! and a stage of systems that do not get in each other's way.

pub mod arche_type;
pub mod bus;
pub mod schedule;
pub mod storage;
pub mod world;

pub use arche_type::{ArcheTypeId, EMPTY_ARCHE_TYPE_ID};
pub use storage::ComponentId;
pub use world::access::EntityAccess;
pub use world::entity::EntityId;
pub use world::World;
