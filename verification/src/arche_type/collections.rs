//! The hash collections of the arche type graph: the edges of an arche type, and the lookup of
//! arche types by their components.

use crate::arche_type::ArcheTypeId;
use crate::storage::ComponentId;
use vstd::prelude::*;

verus! {

/// The neighbors of an arche type, by the component that makes the difference.
#[verifier::external_body]
pub struct EdgeMap {
    inner: hashbrown::HashMap<ComponentId, ArcheTypeId>,
}

/// What an `EdgeMap` holds.
pub uninterp spec fn edge_map(edges: EdgeMap) -> Map<ComponentId, ArcheTypeId>;

impl View for EdgeMap {
    type V = Map<ComponentId, ArcheTypeId>;

    open spec fn view(&self) -> Map<ComponentId, ArcheTypeId> {
        edge_map(*self)
    }
}

impl EdgeMap {
    /// `hashbrown::HashMap::new`: the new map is empty.
    #[verifier::external_body]
    pub(crate) fn new() -> (edges: Self)
        ensures
            (edge_map(edges) == Map::<ComponentId, ArcheTypeId>::empty()),
    {
        EdgeMap { inner: hashbrown::HashMap::new() }
    }

    /// `hashbrown::HashMap::insert`: the key has the given value, and the other keys keep
    /// theirs.
    #[verifier::external_body]
    pub(crate) fn insert(&mut self, component_id: ComponentId, arche_type_id: ArcheTypeId)
        ensures
            edge_map(*final(self)) == edge_map(*old(self)).insert(component_id, arche_type_id),
    {
        self.inner.insert(component_id, arche_type_id);
    }

    /// `hashbrown::HashMap::get`: the value of the key, `None` if it has none.
    #[verifier::external_body]
    pub(crate) fn get(&self, component_id: ComponentId) -> (arche_type_id: Option<ArcheTypeId>)
        ensures
            match arche_type_id {
                Some(arche_type_id) => edge_map(*self).contains_key(component_id) && arche_type_id
                    == edge_map(*self)[component_id],
                None => !edge_map(*self).contains_key(component_id),
            },
    {
        self.inner.get(&component_id).copied()
    }

    /// `hashbrown::HashMap::len`: the number of keys.
    #[verifier::external_body]
    pub(crate) fn len(&self) -> (count: usize)
        ensures
            count == edge_map(*self).len(),
    {
        self.inner.len()
    }
}

/// The arche types, by the list of their components.
#[verifier::external_body]
pub struct ArcheTypeLookup {
    inner: hashbrown::HashMap<Vec<ComponentId>, ArcheTypeId>,
}

/// What an `ArcheTypeLookup` holds.
pub uninterp spec fn lookup_map(lookup: ArcheTypeLookup) -> Map<Seq<ComponentId>, ArcheTypeId>;

impl View for ArcheTypeLookup {
    type V = Map<Seq<ComponentId>, ArcheTypeId>;

    open spec fn view(&self) -> Map<Seq<ComponentId>, ArcheTypeId> {
        lookup_map(*self)
    }
}

impl ArcheTypeLookup {
    /// `hashbrown::HashMap::new`: the new map is empty.
    #[verifier::external_body]
    pub(crate) fn new() -> (lookup: Self)
        ensures
            (lookup_map(lookup) == Map::<Seq<ComponentId>, ArcheTypeId>::empty()),
    {
        ArcheTypeLookup { inner: hashbrown::HashMap::new() }
    }

    /// `hashbrown::HashMap::insert`: the key has the given value, and the other keys keep
    /// theirs.
    #[verifier::external_body]
    pub(crate) fn insert(&mut self, components: Vec<ComponentId>, arche_type_id: ArcheTypeId)
        ensures
            lookup_map(*final(self)) == lookup_map(*old(self)).insert(components@, arche_type_id),
    {
        self.inner.insert(components, arche_type_id);
    }

    /// `hashbrown::HashMap::get`: the value of the key, `None` if it has none.
    #[verifier::external_body]
    pub(crate) fn get(&self, components: &[ComponentId]) -> (arche_type_id: Option<ArcheTypeId>)
        ensures
            match arche_type_id {
                Some(arche_type_id) => lookup_map(*self).contains_key(components@)
                    && arche_type_id == lookup_map(*self)[components@],
                None => !lookup_map(*self).contains_key(components@),
            },
    {
        self.inner.get(components).copied()
    }

    /// `hashbrown::HashMap::iter`: every key once, with its value. In which order they come is
    /// left open.
    #[verifier::external_body]
    pub(crate) fn entries(&self) -> (entries: Vec<(Vec<ComponentId>, ArcheTypeId)>)
        ensures
            forall|i: int, j: int|
                #![trigger entries@[i], entries@[j]]
                0 <= i < j < entries@.len() ==> entries@[i].0@ != entries@[j].0@,
            forall|i: int|
                #![trigger entries@[i]]
                0 <= i < entries@.len() ==> lookup_map(*self).contains_key(entries@[i].0@)
                    && lookup_map(*self)[entries@[i].0@] == entries@[i].1,
            forall|key: Seq<ComponentId>| #[trigger]
                lookup_map(*self).contains_key(key) ==> exists|i: int|
                    0 <= i < entries@.len() && (#[trigger] entries@[i]).0@ == key,
    {
        self.inner.iter().map(|entry| (entry.0.clone(), *entry.1)).collect()
    }
}

/// `slice::sort` of std: the same items, in ascending order.
#[verifier::external_body]
pub(crate) fn sort_components(components: &mut Vec<ComponentId>)
    ensures
        final(components)@.to_multiset() == old(components)@.to_multiset(),
        forall|i: int, j: int|
            0 <= i <= j < final(components)@.len() ==> final(components)@[i]
                <= final(components)@[j],
{
    components.sort();
}

} // verus!
