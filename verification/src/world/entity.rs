//! Entities, and where their components are.

use crate::arche_type::ArcheTypeId;
use crate::bus;
use crate::storage::column::RowIndex;
use vstd::prelude::*;

verus! {

/// A reference to an entity stored in our world. It is never zero.
#[derive(Debug, Hash, Eq, PartialEq, Structural, Clone, Copy)]
pub struct EntityId(bus::Width);

impl View for EntityId {
    type V = bus::Width;

    closed spec fn view(&self) -> bus::Width {
        self.0
    }
}

impl EntityId {
    #[verifier::type_invariant]
    spec fn nonzero(self) -> bool {
        self.0 != 0
    }

    /// The reference with the given number.
    pub(crate) fn new(id: bus::Width) -> (entity_id: Self)
        requires
            id != 0,
        ensures
            entity_id@ == id,
    {
        EntityId(id)
    }

    /// The number of the reference.
    pub fn get(self) -> (id: bus::Width)
        ensures
            id == self@,
            id != 0,
    {
        proof {
            use_type_invariant(&self);
        }
        self.0
    }
}

/// A record of the arche type of an entity and the row in the component table it can be found
/// in.
#[derive(Debug, Eq, PartialEq, Structural, Clone, Copy)]
pub struct EntityRecord {
    pub arche_type_id: ArcheTypeId,
    pub row: RowIndex,
}

/// The records of the entities, by the number of the entity.
#[verifier::external_body]
pub struct EntityMap {
    inner: hashbrown::HashMap<bus::Width, EntityRecord>,
}

/// What an `EntityMap` holds.
pub uninterp spec fn entity_map(entities: EntityMap) -> Map<bus::Width, EntityRecord>;

impl View for EntityMap {
    type V = Map<bus::Width, EntityRecord>;

    open spec fn view(&self) -> Map<bus::Width, EntityRecord> {
        entity_map(*self)
    }
}

impl EntityMap {
    /// `hashbrown::HashMap::default`: the new map is empty.
    #[verifier::external_body]
    pub(crate) fn new() -> (entities: Self)
        ensures
            (entity_map(entities) == Map::<bus::Width, EntityRecord>::empty()),
    {
        EntityMap { inner: hashbrown::HashMap::default() }
    }

    /// `hashbrown::HashMap::insert`: the key has the given value, and the other keys keep
    /// theirs.
    #[verifier::external_body]
    pub(crate) fn insert(&mut self, id: bus::Width, record: EntityRecord)
        ensures
            entity_map(*final(self)) == entity_map(*old(self)).insert(id, record),
    {
        self.inner.insert(id, record);
    }

    /// `hashbrown::HashMap::contains_key`: whether the key has a value.
    #[verifier::external_body]
    pub(crate) fn contains_key(&self, id: bus::Width) -> (found: bool)
        ensures
            found == entity_map(*self).contains_key(id),
    {
        self.inner.contains_key(&id)
    }

    /// `hashbrown::HashMap::get`: the value of the key, `None` if it has none.
    #[verifier::external_body]
    pub(crate) fn get(&self, id: bus::Width) -> (record: Option<EntityRecord>)
        ensures
            match record {
                Some(record) => entity_map(*self).contains_key(id) && record == entity_map(
                    *self,
                )[id],
                None => !entity_map(*self).contains_key(id),
            },
    {
        self.inner.get(&id).copied()
    }

    /// `hashbrown::HashMap::remove`: the key has no value, and the other keys keep theirs.
    /// Returns the value that it had, `None` if it had none.
    #[verifier::external_body]
    pub(crate) fn remove(&mut self, id: bus::Width) -> (record: Option<EntityRecord>)
        ensures
            entity_map(*final(self)) == entity_map(*old(self)).remove(id),
            match record {
                Some(record) => entity_map(*old(self)).contains_key(id) && record == entity_map(
                    *old(self),
                )[id],
                None => !entity_map(*old(self)).contains_key(id),
            },
    {
        self.inner.remove(&id)
    }
}

} // verus!
