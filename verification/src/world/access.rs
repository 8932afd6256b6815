//! Access to single entities.

use crate::arche_type::graph::Change;
use crate::arche_type::{ArcheType, ArcheTypeId};
use crate::bus;
use crate::storage::component::UniqueId;
use crate::storage::layout::Layout;
use crate::storage::tuples::{ComponentSet, ReduceArgument, StorageAccessor, StorageInsert};
use crate::storage::ComponentId;
use crate::world::entity::{EntityId, EntityRecord};
use crate::world::World;
use vstd::prelude::*;

verus! {

/// Used to efficiently access a single entity.
pub struct EntityAccess<'a> {
    pub world: &'a mut World,
    pub entity_id: EntityId,
}

impl World {
    /// Access an entity for manipulation. You'll be able to add, remove, and manipulate the
    /// components of the entity. `None` if there is no such entity.
    pub fn access_entity(&mut self, entity_id: EntityId) -> (access: Option<EntityAccess<'_>>)
        ensures
            access is Some <==> old(self).contents().contains_key(entity_id@),
            access is None ==> *final(self) == *old(self),
            access matches Some(access) ==> {
                &&& *access.world == *old(self)
                &&& *final(self) == *final(access.world)
                &&& access.entity_id == entity_id
            },
    {
        if self.entities.contains_key(entity_id.get()) {
            Some(EntityAccess { world: self, entity_id })
        } else {
            None
        }
    }
}

impl<'a> EntityAccess<'a> {
    /// The world is in order, and the entity exists.
    pub open spec fn wf(self) -> bool {
        &&& self.world.wf()
        &&& self.world.entities@.contains_key(self.entity_id@)
    }

    /// Where the entity is.
    pub open spec fn record(self) -> EntityRecord {
        self.world.entities@[self.entity_id@]
    }

    /// The arche type of the entity.
    pub open spec fn own_arche_type(self) -> ArcheType {
        self.world.arche_types.arche_types@[self.record().arche_type_id.0 as int]
    }

    /// The components of the entity and their bytes.
    pub open spec fn components(self) -> Map<ComponentId, Seq<u8>> {
        self.world.contents()[self.entity_id@]
    }

    /// The layouts of the components of the entity.
    pub open spec fn layouts(self) -> Map<ComponentId, Layout> {
        self.world.layouts_of(self.entity_id@)
    }

    /// Where the entity is.
    fn find_record(&self) -> (record: EntityRecord)
        requires
            self.wf(),
        ensures
            record == self.record(),
    {
        match self.world.entities.get(self.entity_id.get()) {
            Some(record) => record,
            None => {
                assert(false);
                vstd::pervasive::unreached()
            },
        }
    }

    /// The arche type of this entity.
    pub fn arche_type_id(&self) -> (arche_type_id: ArcheTypeId)
        requires
            self.wf(),
        ensures
            arche_type_id == self.record().arche_type_id,
    {
        self.find_record().arche_type_id
    }

    /// Get the arche type for this entity.
    pub fn arche_type(&self) -> (arche_type: &ArcheType)
        requires
            self.wf(),
        ensures
            *arche_type == self.own_arche_type(),
    {
        let arche_type_id = self.arche_type_id();
        &self.world.arche_types.arche_types[arche_type_id.0]
    }

    /// Return true if the entity contains this component.
    pub fn has_component<T: UniqueId>(&self) -> (contained: bool)
        requires
            self.wf(),
        ensures
            contained == self.components().contains_key(T::spec_id()),
    {
        proof {
            let record = self.record();
            self.world.table(record.arche_type_id.0 as int).lemma_row(record.row.0);
        }
        self.arche_type().component_table.contains_component(T::id())
    }
}

impl<'a> EntityAccess<'a> {
    /// The components can be inserted into this entity. It has none of them, none is listed
    /// twice or is without size, they have the layouts that the world knows them by, and the
    /// machine can hold them.
    pub open spec fn accepts<T: ComponentSet>(self) -> bool {
        &&& crate::arche_type::graph::change_allowed(
            self.world.graph(),
            self.record().arche_type_id,
            Change::Add,
            T::spec_columns(),
        )
        &&& forall|i: int|
            0 <= i < T::spec_columns().len() ==> (#[trigger] T::spec_columns()[i]).1.size > 0
        &&& T::spec_columns().len() > 0 ==> self.world.has_room_for(
            crate::arche_type::graph::change_all(self.layouts(), Change::Add, T::spec_columns()),
        )
    }

    /// The components can be removed from this entity. There is at least one, none is listed
    /// twice, the entity has all of them, its bytes are those of values of their types, and the
    /// machine can hold what is left.
    pub open spec fn gives<T: ComponentSet>(self) -> bool {
        &&& T::spec_columns().len() > 0
        &&& crate::storage::tuples::column_ids(T::spec_columns()).no_duplicates()
        &&& exists|v: T| #[trigger]
            crate::storage::tuples::row_holds::<T>(self.components(), v)
        &&& self.world.has_room_for(
            crate::arche_type::graph::change_all(self.layouts(), Change::Remove, T::spec_columns()),
        )
    }

    /// Common code for arche type changes. Moves on in the arche type graph from the arche type
    /// of this entity, without moving the entity.
    fn arche_type_change<T: ComponentSet>(&mut self, change: Change) -> (to: ArcheTypeId)
        requires
            old(self).wf(),
            crate::arche_type::graph::change_allowed(
                old(self).world.graph(),
                old(self).record().arche_type_id,
                change,
                T::spec_columns(),
            ),
        ensures
            final(self).wf(),
            final(self).entity_id == old(self).entity_id,
            *final(final(self).world) == *final(old(self).world),
            final(self).world.entities == old(self).world.entities,
            final(self).world.contents() == old(self).world.contents(),
            final(self).world.next_entity_id == old(self).world.next_entity_id,
            (final(self).world.graph(), to) == crate::arche_type::graph::walk(
                old(self).world.graph(),
                old(self).record().arche_type_id,
                change,
                T::spec_columns(),
            ),
            crate::arche_type::graph::change_done(
                old(self).world.graph(),
                old(self).record().arche_type_id,
                change,
                T::spec_columns(),
                final(self).world.graph(),
                to,
            ),
            old(self).world.arche_types.same_tables(final(self).world.arche_types),
    {
        let from = self.arche_type_id();
        let ghost before = *self.world;
        let to = self.world.arche_types.arche_type_change::<T>(from, change);
        proof {
            before.lemma_grown(*self.world);
        }
        to
    }

    /// Insert one or more components into this entity.
    pub fn insert_components<T: StorageInsert>(&mut self, components: T)
        requires
            old(self).wf(),
            old(self).accepts::<T>(),
        ensures
            final(self).wf(),
            final(self).entity_id == old(self).entity_id,
            *final(final(self).world) == *final(old(self).world),
            crate::storage::tuples::inserted_into::<T>(
                old(self).components(),
                final(self).components(),
                components,
            ),
            final(self).world.contents() == old(self).world.contents().insert(
                old(self).entity_id@,
                final(self).components(),
            ),
            (final(self).world.graph(), final(self).record().arche_type_id)
                == crate::arche_type::graph::walk(
                old(self).world.graph(),
                old(self).record().arche_type_id,
                Change::Add,
                T::spec_columns(),
            ),
            crate::arche_type::graph::change_done(
                old(self).world.graph(),
                old(self).record().arche_type_id,
                Change::Add,
                T::spec_columns(),
                final(self).world.graph(),
                final(self).record().arche_type_id,
            ),
            old(self).world.entity_moved(*final(self).world, old(self).entity_id@),
    {
        let record = self.find_record();
        let old_arche_type_id = record.arche_type_id;
        let ghost before = *self.world;
        let ghost id = self.entity_id@;
        let new_arche_type_id = self.arche_type_change::<T>(Change::Add);
        let ghost grown = *self.world;
        proof {
            assert(grown.graph().len() == grown.arche_types.arche_types.len());
            lemma_insert_target::<T>(before, grown, id, new_arche_type_id);
        }
        if old_arche_type_id != new_arche_type_id {
            let row = self.world.arche_types.extend_row(
                old_arche_type_id,
                new_arche_type_id,
                record.row,
                components,
            );
            let new_record = EntityRecord { arche_type_id: new_arche_type_id, row };
            self.world.entities.insert(self.entity_id.get(), new_record);
            proof {
                let held = before.components_of(id);
                let target = grown.table(new_arche_type_id.0 as int);
                let list = choose|list: Seq<(ComponentId, Seq<u8>)>|
                    {
                        &&& #[trigger] crate::storage::tuples::lists::<T>(components, list)
                        &&& target.row_inserted(
                            self.world.table(new_arche_type_id.0 as int),
                            row.0,
                            held.union_prefer_right(
                                crate::storage::component::by_component(list),
                            ),
                        )
                    };
                let values = held.union_prefer_right(
                    crate::storage::component::by_component(list),
                );
                crate::storage::tuples::lemma_row_holds_list::<T>(held, components, list);
                grown.lemma_moved(*self.world, id, new_record, values);
                assert(values.dom() =~= target.layouts().dom());
                assert(values.restrict(target.layouts().dom()) =~= values);
                assert(values.remove_keys(
                    crate::storage::tuples::column_ids(T::spec_columns()).to_set(),
                ) =~= held);
                assert(self.components() == values);
                lemma_entity_moved(before, grown, *self.world, id, values);
            }
        } else {
            proof {
                let held = before.contents()[id];
                assert(before.contents().insert(id, held) =~= before.contents());
                assert(before.entities@.insert(id, before.entities@[id]) =~= before.entities@);
                assert(crate::storage::tuples::column_ids(T::spec_columns()).to_set()
                    =~= Set::empty());
                assert(held.remove_keys(Set::empty()) =~= held);
            }
        }
    }

    /// Remove one or more components from this entity.
    pub fn remove_components<T: ReduceArgument>(&mut self) -> (removed: T)
        requires
            old(self).wf(),
            old(self).gives::<T>(),
        ensures
            final(self).wf(),
            final(self).entity_id == old(self).entity_id,
            *final(final(self).world) == *final(old(self).world),
            crate::storage::tuples::row_holds::<T>(old(self).components(), removed),
            final(self).world.contents() == old(self).world.contents().insert(
                old(self).entity_id@,
                old(self).components().remove_keys(
                    crate::storage::tuples::column_ids(T::spec_columns()).to_set(),
                ),
            ),
            (final(self).world.graph(), final(self).record().arche_type_id)
                == crate::arche_type::graph::walk(
                old(self).world.graph(),
                old(self).record().arche_type_id,
                Change::Remove,
                T::spec_columns(),
            ),
            crate::arche_type::graph::change_done(
                old(self).world.graph(),
                old(self).record().arche_type_id,
                Change::Remove,
                T::spec_columns(),
                final(self).world.graph(),
                final(self).record().arche_type_id,
            ),
            old(self).world.entity_moved(*final(self).world, old(self).entity_id@),
    {
        let record = self.find_record();
        let old_arche_type_id = record.arche_type_id;
        let ghost before = *self.world;
        let ghost id = self.entity_id@;
        let new_arche_type_id = self.arche_type_change::<T>(Change::Remove);
        let ghost grown = *self.world;
        proof {
            assert(grown.graph().len() == grown.arche_types.arche_types.len());
            lemma_remove_target::<T>(before, grown, id, new_arche_type_id);
        }
        let (row, removed) = self.world.arche_types.reduce_row::<T>(
            old_arche_type_id,
            new_arche_type_id,
            record.row,
        );
        let new_record = EntityRecord { arche_type_id: new_arche_type_id, row };
        self.world.entities.insert(self.entity_id.get(), new_record);
        proof {
            let values = before.components_of(id).remove_keys(
                crate::storage::tuples::column_ids(T::spec_columns()).to_set(),
            );
            grown.lemma_moved(*self.world, id, new_record, values);
            assert(values.restrict(grown.table(new_arche_type_id.0 as int).layouts().dom())
                =~= values);
            lemma_entity_moved(before, grown, *self.world, id, values);
        }
        removed
    }

    /// Get mutable access to the bytes of components of this entity, in the order of `A`. What is
    /// written to them is what the components are once the access ends.
    pub fn access_components_mut<A: StorageAccessor>(&mut self) -> (parts: Vec<&mut [u8]>)
        requires
            old(self).wf(),
            crate::storage::tuples::column_ids(A::spec_columns()).no_duplicates(),
            forall|i: int|
                0 <= i < A::spec_columns().len() ==> old(self).components().contains_key(
                    (#[trigger] A::spec_columns()[i]).0,
                ),
        ensures
            final(self).entity_id == old(self).entity_id,
            *final(final(self).world) == *final(old(self).world),
            final(self).world.entities == old(self).world.entities,
            final(self).world.next_entity_id == old(self).world.next_entity_id,
            parts@.len() == A::spec_columns().len(),
            forall|i: int|
                #![trigger parts@[i]]
                0 <= i < parts@.len() ==> parts@[i]@
                    == old(self).components()[A::spec_columns()[i].0],
            (forall|i: int|
                #![trigger parts@[i]]
                0 <= i < parts@.len() ==> final(parts@[i])@.len() == parts@[i]@.len()) ==> {
                &&& final(self).wf()
                &&& final(self).world.contents() == old(self).world.contents().insert(
                    old(self).entity_id@,
                    crate::storage::table::overwrite(
                        old(self).components(),
                        crate::storage::tuples::column_ids(A::spec_columns()),
                        parts@.map_values(|part: &mut [u8]| final(part)@),
                    ),
                )
                &&& old(self).world.arche_types.same_but_for_tables(
                    final(self).world.arche_types,
                    old(self).record().arche_type_id.0 as int,
                    old(self).record().arche_type_id.0 as int,
                )
            },
    {
        let record = self.find_record();
        let ghost before = *self.world;
        let ghost id = self.entity_id@;
        let ghost ids = crate::storage::tuples::column_ids(A::spec_columns());
        proof {
            before.table(record.arche_type_id.0 as int).lemma_row(record.row.0);
            assert forall|i: int| 0 <= i < A::spec_columns().len() implies before.table(
                record.arche_type_id.0 as int,
            ).layouts().contains_key(#[trigger] ids[i]) by {
                assert(before.components_of(id).contains_key(A::spec_columns()[i].0));
            }
        }
        let index = record.arche_type_id.0;
        let arche_type = &mut self.world.arche_types.arche_types[index];
        match arche_type.component_table.access_row::<A>(record.row) {
            Some(parts) => {
                proof {
                    before.lemma_written(
                        *after_borrow(self).world,
                        id,
                        ids,
                        parts@.map_values(|part: &mut [u8]| final(part)@),
                    );
                }
                parts
            },
            None => {
                assert(false);
                vstd::pervasive::unreached()
            },
        }
    }
}

/// The tables as they were before arche types were added, and after an entity was moved.
proof fn lemma_entity_moved(
    before: World,
    grown: World,
    after: World,
    id: bus::Width,
    values: Map<ComponentId, Seq<u8>>,
)
    requires
        before.wf(),
        before.entities@.contains_key(id),
        grown.entities == before.entities,
        grown.next_entity_id == before.next_entity_id,
        before.arche_types.same_tables(grown.arche_types),
        after.next_entity_id == before.next_entity_id,
        after.entities@ == before.entities@.insert(id, after.entities@[id]),
        after.entities@[id].arche_type_id != before.entities@[id].arche_type_id,
        after.entities@[id].arche_type_id.0 < grown.arche_types.arche_types@.len(),
        grown.arche_types.same_but_for_tables(
            after.arche_types,
            before.entities@[id].arche_type_id.0 as int,
            after.entities@[id].arche_type_id.0 as int,
        ),
        grown.table(before.entities@[id].arche_type_id.0 as int).same_but_for_row_freed(
            after.table(before.entities@[id].arche_type_id.0 as int),
            before.entities@[id].row.0,
        ),
        grown.table(after.entities@[id].arche_type_id.0 as int).row_inserted(
            after.table(after.entities@[id].arche_type_id.0 as int),
            after.entities@[id].row.0,
            values,
        ),
    ensures
        before.entity_moved(after, id),
{
    let i = before.entities@[id].arche_type_id.0 as int;
    let j = after.entities@[id].arche_type_id.0 as int;
    let n = before.arche_types.arche_types@.len();
    assert(after.arche_types.graph().len() == after.arche_types.arche_types@.len());
    assert(grown.arche_types.graph().len() == grown.arche_types.arche_types@.len());
    assert(grown.arche_types.arche_types@[i].component_table
        == before.arche_types.arche_types@[i].component_table);
    assert forall|k: int| 0 <= k < n && k != i && k != j implies #[trigger] after.table(k)
        == before.table(k) by {
        assert(after.arche_types.arche_types@[k] == grown.arche_types.arche_types@[k]);
    }
    assert forall|k: int| n <= k < after.arche_types.arche_types@.len() && k != j implies (
    #[trigger] after.table(k)).unused() by {
        assert(after.arche_types.arche_types@[k] == grown.arche_types.arche_types@[k]);
    }
    if j < n {
        assert(grown.arche_types.arche_types@[j].component_table
            == before.arche_types.arche_types@[j].component_table);
    } else {
        assert(grown.arche_types.arche_types@[j].component_table.unused());
    }
}

/// The table with the right components has room, whether it is a new one or not.
proof fn lemma_target_room(
    before: World,
    grown: World,
    to: ArcheTypeId,
    layouts: Map<ComponentId, Layout>,
)
    requires
        before.wf(),
        grown.wf(),
        before.arche_types.same_tables(grown.arche_types),
        crate::arche_type::graph::grows_to(before.graph(), grown.graph()),
        to.0 < grown.graph().len() <= usize::MAX,
        grown.graph()[to.0 as int].layouts == layouts,
        before.has_room_for(layouts),
    ensures
        grown.table(to.0 as int).has_room(),
{
    let n = before.graph().len();
    assert(grown.graph().len() == grown.arche_types.arche_types@.len());
    assert(grown.table(to.0 as int).layouts() == layouts);
    if to.0 < n {
        assert(before.graph()[to.0 as int].grows_to(grown.graph()[to.0 as int]));
        crate::arche_type::graph::lemma_find(before.graph(), to, layouts.dom());
        assert(grown.arche_types.arche_types@[to.0 as int].component_table
            == before.arche_types.arche_types@[to.0 as int].component_table);
    } else {
        let found = crate::arche_type::graph::find(before.graph(), layouts.dom());
        if found is Some {
            let i = choose|i: int|
                0 <= i < n && (#[trigger] before.graph()[i]).layouts.dom() == layouts.dom();
            assert(before.graph()[i].grows_to(grown.graph()[i]));
            assert(grown.graph()[i].layouts.dom() == grown.graph()[to.0 as int].layouts.dom());
            assert(false);
        }
        assert(grown.arche_types.arche_types@[to.0 as int].component_table.unused());
    }
}

/// The table that an entity is moved to when components are inserted takes what it has and what
/// is inserted.
proof fn lemma_insert_target<T: StorageInsert>(
    before: World,
    grown: World,
    id: bus::Width,
    to: ArcheTypeId,
)
    requires
        before.wf(),
        grown.wf(),
        before.entities@.contains_key(id),
        grown.entities == before.entities,
        grown.contents() == before.contents(),
        before.arche_types.same_tables(grown.arche_types),
        grown.graph().len() <= usize::MAX,
        crate::arche_type::graph::change_allowed(
            before.graph(),
            before.entities@[id].arche_type_id,
            Change::Add,
            T::spec_columns(),
        ),
        crate::arche_type::graph::change_done(
            before.graph(),
            before.entities@[id].arche_type_id,
            Change::Add,
            T::spec_columns(),
            grown.graph(),
            to,
        ),
        (grown.graph(), to) == crate::arche_type::graph::walk(
            before.graph(),
            before.entities@[id].arche_type_id,
            Change::Add,
            T::spec_columns(),
        ),
        forall|i: int|
            0 <= i < T::spec_columns().len() ==> (#[trigger] T::spec_columns()[i]).1.size > 0,
        T::spec_columns().len() > 0 ==> before.has_room_for(
            crate::arche_type::graph::change_all(
                before.layouts_of(id),
                Change::Add,
                T::spec_columns(),
            ),
        ),
    ensures
        before.entities@[id].arche_type_id == to <==> T::spec_columns().len() == 0,
        T::spec_columns().len() == 0 ==> grown.graph() == before.graph(),
        before.entities@[id].arche_type_id != to ==> {
            let from = before.entities@[id].arche_type_id.0 as int;
            let row = before.entities@[id].row.0;
            let ids = crate::storage::tuples::column_ids(T::spec_columns());
            &&& grown.table(from).rows()[row] == before.components_of(id)
            &&& grown.table(to.0 as int).has_room()
            &&& grown.table(to.0 as int).accepts_columns(
                before.components_of(id),
                T::spec_columns(),
            )
            &&& before.components_of(id).dom().disjoint(ids.to_set())
            &&& grown.table(to.0 as int).layouts().dom() == before.components_of(id).dom().union(
                ids.to_set(),
            )
        },
{
    let columns = T::spec_columns();
    let from = before.entities@[id].arche_type_id.0 as int;
    let row = before.entities@[id].row.0;
    let ids = crate::storage::tuples::column_ids(columns);
    let target = grown.table(to.0 as int);
    let start = before.layouts_of(id);
    assert(grown.graph().len() == grown.arche_types.arche_types@.len());
    assert(target.layouts() == grown.graph()[to.0 as int].layouts);
    assert(before.graph()[from].grows_to(grown.graph()[from]));
    if columns.len() > 0 {
        assert(ids[0] == columns[0].0);
        assert(ids.contains(columns[0].0));
        assert(target.layouts().contains_key(columns[0].0));
        assert(!start.contains_key(columns[0].0));
        assert(before.table(from).layouts() == start);
        lemma_target_room(before, grown, to, target.layouts());
        before.table(from).lemma_row(row);
        assert(grown.components_of(id) == grown.contents()[id]);
        assert(before.components_of(id) == before.contents()[id]);
        let held = before.components_of(id);
        assert forall|c: ComponentId| ids.contains(c) implies !held.contains_key(c) by {
            let i = ids.index_of(c);
            assert(!start.contains_key(columns[i].0));
        }
        assert forall|c: ComponentId| #[trigger] target.layouts().contains_key(c) implies
            target.layouts()[c].size > 0 by {
            if ids.contains(c) {
                assert(columns[ids.index_of(c)].1.size > 0);
            } else {
                assert(before.table(from).layouts().contains_key(c));
            }
        }
        assert forall|i: int| 0 <= i < columns.len() implies (#[trigger] columns[i]).1.size
            == target.layouts()[columns[i].0].size && !held.contains_key(columns[i].0) by {
            assert(ids[i] == columns[i].0);
            assert(ids.contains(columns[i].0));
            assert(ids.index_of(columns[i].0) == i);
        }
        assert forall|i: int, j: int| 0 <= i < j < columns.len() implies (#[trigger] columns[i]).0
            != (#[trigger] columns[j]).0 by {
            assert(ids[i] == columns[i].0);
            assert(ids[j] == columns[j].0);
        }
        assert forall|c: ComponentId| #[trigger]
            held.contains_key(c) && target.layouts().contains_key(c) implies held[c].len()
            == target.layouts()[c].size by {
            assert(!ids.contains(c));
            assert(target.layouts()[c] == start[c]);
        }
        assert(target.layouts().dom() =~= held.dom().union(ids.to_set()));
    }
}

/// The table that an entity is moved to when components are removed takes what is left.
proof fn lemma_remove_target<T: ReduceArgument>(
    before: World,
    grown: World,
    id: bus::Width,
    to: ArcheTypeId,
)
    requires
        before.wf(),
        grown.wf(),
        before.entities@.contains_key(id),
        grown.entities == before.entities,
        grown.contents() == before.contents(),
        before.arche_types.same_tables(grown.arche_types),
        grown.graph().len() <= usize::MAX,
        crate::arche_type::graph::change_done(
            before.graph(),
            before.entities@[id].arche_type_id,
            Change::Remove,
            T::spec_columns(),
            grown.graph(),
            to,
        ),
        T::spec_columns().len() > 0,
        exists|v: T| #[trigger]
            crate::storage::tuples::row_holds::<T>(before.components_of(id), v),
        before.has_room_for(
            crate::arche_type::graph::change_all(
                before.layouts_of(id),
                Change::Remove,
                T::spec_columns(),
            ),
        ),
    ensures
        before.entities@[id].arche_type_id != to,
        ({
            let from = before.entities@[id].arche_type_id.0 as int;
            let row = before.entities@[id].row.0;
            let values = before.components_of(id).remove_keys(
                crate::storage::tuples::column_ids(T::spec_columns()).to_set(),
            );
            &&& grown.table(from).rows()[row] == before.components_of(id)
            &&& grown.table(to.0 as int).has_room()
            &&& grown.table(to.0 as int).accepts_with(values, Seq::empty())
            &&& values.dom() == grown.table(to.0 as int).layouts().dom()
        }),
{
    let columns = T::spec_columns();
    let from = before.entities@[id].arche_type_id.0 as int;
    let row = before.entities@[id].row.0;
    let ids = crate::storage::tuples::column_ids(columns);
    let target = grown.table(to.0 as int);
    let start = before.layouts_of(id);
    let held = before.components_of(id);
    let left = held.remove_keys(ids.to_set());
    assert(grown.graph().len() == grown.arche_types.arche_types@.len());
    assert(target.layouts() == grown.graph()[to.0 as int].layouts);
    assert(before.graph()[from].grows_to(grown.graph()[from]));
    assert(before.table(from).layouts() == start);
    before.table(from).lemma_row(row);
    let v = choose|v: T| #[trigger] crate::storage::tuples::row_holds::<T>(held, v);
    assert(held.contains_key(columns[0].0));
    assert(ids[0] == columns[0].0);
    assert(ids.to_set().contains(columns[0].0));
    assert(start.contains_key(columns[0].0));
    assert(!target.layouts().contains_key(columns[0].0));
    lemma_target_room(before, grown, to, target.layouts());
    assert(grown.components_of(id) == grown.contents()[id]);
    assert(before.components_of(id) == before.contents()[id]);
    assert(left.dom() =~= target.layouts().dom());
    assert forall|c: ComponentId| #[trigger] target.layouts().contains_key(c) implies
        target.layouts()[c].size > 0 by {
        assert(before.table(from).layouts().contains_key(c));
    }
    assert forall|c: ComponentId| #[trigger]
        left.contains_key(c) && target.layouts().contains_key(c) implies left[c].len()
        == target.layouts()[c].size by {
        assert(held.contains_key(c));
    }
}

} // verus!
