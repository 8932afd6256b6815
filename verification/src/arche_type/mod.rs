//! Arche types, and the graph that leads from one to another.

pub mod collections;
pub mod graph;
pub mod key;
pub mod laws;
pub mod meaning;

use crate::arche_type::collections::EdgeMap;
use crate::bus;
use crate::storage::component::ColumnConstruction;
use crate::storage::table::ComponentTable;
use crate::storage::ComponentId;
use vstd::prelude::*;

verus! {

/// Used to identify an arche type for an entity.
#[derive(Debug, Hash, Eq, PartialEq, Structural, Clone, Copy)]
pub struct ArcheTypeId(pub bus::Width);

/// The number of the empty arche type, for types that don't contain any components.
pub const EMPTY_ARCHE_TYPE_ID: bus::Width = 0;

/// Stores components for entities with a specific set of components.
/// Also stores information needed for the arche type graph, a graph for
/// quickly looking up other arche types when adding or removing components from an entity.
pub struct ArcheType {
    pub component_table: ComponentTable,
    pub add_component: EdgeMap,
    pub remove_component: EdgeMap,
}

impl ArcheType {
    /// No entity has this arche type, and it knows no neighbors.
    pub open spec fn unused(self) -> bool {
        &&& self.component_table.unused()
        &&& self.add_component@ == Map::<ComponentId, ArcheTypeId>::empty()
        &&& self.remove_component@ == Map::<ComponentId, ArcheTypeId>::empty()
    }

    /// Create the arche type without any components.
    pub fn empty_type() -> (arche_type: Self)
        ensures
            arche_type.unused(),
            arche_type.component_table.layouts() == Map::<
                ComponentId,
                crate::storage::layout::Layout,
            >::empty(),
    {
        ArcheType {
            component_table: ComponentTable::empty_type(),
            add_component: EdgeMap::new(),
            remove_component: EdgeMap::new(),
        }
    }

    /// Create a new arche type that can store the components of this one but with additional
    /// storage for the listed additional component.
    pub fn extend(&self, column_construction: ColumnConstruction) -> (arche_type: Self)
        requires
            self.component_table.wf(),
            column_construction.wf(),
        ensures
            arche_type.unused(),
            arche_type.component_table.layouts() == self.component_table.layouts().insert(
                column_construction.0,
                column_construction.1.element_layout,
            ),
    {
        ArcheType {
            component_table: self.component_table.extend(column_construction),
            add_component: EdgeMap::new(),
            remove_component: EdgeMap::new(),
        }
    }

    /// Create a new arche type that can store the components of this one but with the storage
    /// for the listed component removed.
    pub fn reduce(&self, component_id: ComponentId) -> (arche_type: Self)
        requires
            self.component_table.wf(),
        ensures
            arche_type.unused(),
            arche_type.component_table.layouts() == self.component_table.layouts().remove(
                component_id,
            ),
    {
        ArcheType {
            component_table: self.component_table.reduce(component_id),
            add_component: EdgeMap::new(),
            remove_component: EdgeMap::new(),
        }
    }

    /// The arche type with the component added, `None` if it is not in the graph.
    pub fn get_added(&self, component_id: ComponentId) -> (arche_type_id: Option<ArcheTypeId>)
        ensures
            match arche_type_id {
                Some(arche_type_id) => self.add_component@.contains_key(component_id)
                    && arche_type_id == self.add_component@[component_id],
                None => !self.add_component@.contains_key(component_id),
            },
    {
        self.add_component.get(component_id)
    }

    /// The arche type with the component removed, `None` if it is not in the graph.
    pub fn get_removed(&self, component_id: ComponentId) -> (arche_type_id: Option<ArcheTypeId>)
        ensures
            match arche_type_id {
                Some(arche_type_id) => self.remove_component@.contains_key(component_id)
                    && arche_type_id == self.remove_component@[component_id],
                None => !self.remove_component@.contains_key(component_id),
            },
    {
        self.remove_component.get(component_id)
    }

    /// The number of neighbors in the graph with a component added, and with one removed.
    pub fn count_neighbors(&self) -> (counts: (usize, usize))
        ensures
            counts.0 == self.add_component@.len(),
            counts.1 == self.remove_component@.len(),
    {
        (self.add_component.len(), self.remove_component.len())
    }
}

} // verus!
