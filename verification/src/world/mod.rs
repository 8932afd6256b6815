//! The world, which owns the entities and their components.

pub mod access;
pub mod entity;
pub mod laws;
pub mod meaning;

use crate::arche_type::graph::{ArcheTypeGraph, Node};
use crate::arche_type::{ArcheTypeId, EMPTY_ARCHE_TYPE_ID};
use crate::bus;
use crate::storage::column::RowIndex;
use crate::storage::layout::Layout;
use crate::storage::table::ComponentTable;
use crate::storage::ComponentId;
use crate::world::entity::{EntityId, EntityMap, EntityRecord};
use vstd::prelude::*;

verus! {

/// An ECS world that stores all your entities.
pub struct World {
    pub entities: EntityMap,
    pub next_entity_id: bus::Width,
    pub arche_types: ArcheTypeGraph,
}

impl World {
    /// The arche type graph.
    pub open spec fn graph(self) -> Seq<Node> {
        self.arche_types.graph()
    }

    /// The components that the world has seen, with their layouts.
    pub open spec fn registry(self) -> Map<ComponentId, Layout> {
        crate::arche_type::graph::registry(self.graph())
    }

    /// The table of an arche type.
    pub open spec fn table(self, i: int) -> ComponentTable {
        self.arche_types.table(i)
    }

    /// The components of an entity and their bytes.
    pub open spec fn components_of(self, id: bus::Width) -> Map<ComponentId, Seq<u8>> {
        let record = self.entities@[id];
        self.table(record.arche_type_id.0 as int).rows()[record.row.0]
    }

    /// The entities that exist, and the components that they have.
    pub open spec fn contents(self) -> Map<bus::Width, Map<ComponentId, Seq<u8>>> {
        Map::new(
            |id: bus::Width| self.entities@.contains_key(id),
            |id: bus::Width| self.components_of(id),
        )
    }

    /// The row is that of an entity.
    pub open spec fn owned(self, i: int, row: bus::Width) -> bool {
        exists|id: bus::Width| #[trigger]
            self.entities@.contains_key(id) && self.entities@[id].arche_type_id.0 == i
                && self.entities@[id].row.0 == row
    }

    /// Every entity has a row of its own, every row that is in use is that of an entity, and
    /// the numbers of entities that are still to come are beyond those that were used. There
    /// never were more rows in a table than entities in the world.
    pub open spec fn wf(self) -> bool {
        &&& self.arche_types.wf()
        &&& 1 <= self.next_entity_id
        &&& forall|id: bus::Width| #[trigger]
            self.entities@.contains_key(id) ==> {
                &&& 1 <= id < self.next_entity_id
                &&& self.entities@[id].arche_type_id.0 < self.arche_types.arche_types@.len()
                &&& self.table(self.entities@[id].arche_type_id.0 as int).live(
                    self.entities@[id].row.0,
                )
            }
        &&& forall|a: bus::Width, b: bus::Width|
            #![trigger self.entities@.contains_key(a), self.entities@.contains_key(b)]
            self.entities@.contains_key(a) && self.entities@.contains_key(b) && a != b
                ==> self.entities@[a] != self.entities@[b]
        &&& forall|i: int, row: bus::Width|
            0 <= i < self.arche_types.arche_types@.len() && #[trigger] self.table(i).live(row)
                ==> self.owned(i, row)
        &&& forall|i: int|
            0 <= i < self.arche_types.arche_types@.len() ==> (#[trigger] self.table(i)).next_row.0
                < self.next_entity_id
    }

    /// The components of an entity have the layouts of its arche type.
    pub open spec fn layouts_of(self, id: bus::Width) -> Map<ComponentId, Layout> {
        self.graph()[self.entities@[id].arche_type_id.0 as int].layouts
    }

    /// An entity moved from a row to another, or stayed where it is. Other rows, and the tables
    /// of other arche types, are as they were. A new table that the entity moved to has it in its
    /// first row, and other new tables are unused.
    pub open spec fn entity_moved(self, after: Self, id: bus::Width) -> bool {
        let from = self.entities@[id];
        let to = after.entities@[id];
        let (i, j) = (from.arche_type_id.0 as int, to.arche_type_id.0 as int);
        let n = self.arche_types.arche_types@.len();
        &&& after.next_entity_id == self.next_entity_id
        &&& after.entities@ == self.entities@.insert(id, to)
        &&& n <= after.arche_types.arche_types@.len()
        &&& forall|k: int|
            0 <= k < n && k != i && k != j ==> #[trigger] after.table(k) == self.table(k)
        &&& forall|k: int|
            n <= k < after.arche_types.arche_types@.len() && k != j ==> (
            #[trigger] after.table(k)).unused()
        &&& if i == j {
            to == from && after.table(i) == self.table(i)
        } else {
            &&& self.table(i).same_but_for_row_freed(after.table(i), from.row.0)
            &&& j < n ==> if self.table(j).free_rows@ == Set::<bus::Width>::empty() {
                self.table(j).same_but_for_row_added(after.table(j))
            } else {
                self.table(j).same_but_for_row_reused(after.table(j), to.row.0)
            }
            &&& j >= n ==> {
                &&& to.row.0 == 0
                &&& after.table(j).next_row.0 == 1
                &&& after.table(j).allocated_rows
                    == crate::storage::table::INITIAL_ROW_ALLOCATION
                &&& after.table(j).free_rows@ == Set::<bus::Width>::empty()
            }
        }
    }

    /// A row can be added to the table with the given components: the machine can hold it.
    pub open spec fn has_room_for(self, layouts: Map<ComponentId, Layout>) -> bool {
        match crate::arche_type::graph::find(self.graph(), layouts.dom()) {
            Some(id) => self.table(id.0 as int).has_room(),
            None => forall|c: ComponentId| #[trigger]
                layouts.contains_key(c) ==> layouts[c].size
                    * crate::storage::table::INITIAL_ROW_ALLOCATION <= isize::MAX,
        }
    }
}

impl Default for World {
    /// A world without entities, that knows just the empty arche type.
    fn default() -> (world: Self)
        ensures
            world.wf(),
            world.contents() == Map::<bus::Width, Map<ComponentId, Seq<u8>>>::empty(),
            world.registry() == Map::<ComponentId, Layout>::empty(),
            world.next_entity_id == 1,
            world.arche_types.arche_types@.len() == 1,
            world.arche_types.arche_types@[EMPTY_ARCHE_TYPE_ID as int].unused(),
            world.graph() == seq![
                Node { layouts: Map::empty(), add: Map::empty(), remove: Map::empty() },
            ],
    {
        let world = World {
            entities: EntityMap::new(),
            next_entity_id: 1,
            arche_types: ArcheTypeGraph::new(),
        };
        proof {
            assert(world.contents() =~= Map::empty());
            assert(world.registry() =~= Map::empty());
        }
        world
    }
}

impl World {
    /// Get an entity ID. It needs to be unique and never been used before (just in case someone
    /// is holding a reference to the dead entity)
    fn next_entity_id(&mut self) -> (entity_id: EntityId)
        requires
            1 <= old(self).next_entity_id < bus::Width::MAX,
        ensures
            entity_id@ == old(self).next_entity_id,
            final(self).next_entity_id == old(self).next_entity_id + 1,
            final(self).entities == old(self).entities,
            final(self).arche_types == old(self).arche_types,
    {
        let entity_id = self.next_entity_id;
        self.next_entity_id += 1;
        EntityId::new(entity_id)
    }

    /// Create a new entity that doesn't have any components stored in it yet.
    pub fn create_empty_entity(&mut self) -> (entity_id: EntityId)
        requires
            old(self).wf(),
            old(self).next_entity_id < bus::Width::MAX,
            old(self).table(EMPTY_ARCHE_TYPE_ID as int).has_room(),
        ensures
            final(self).wf(),
            entity_id@ == old(self).next_entity_id,
            !old(self).contents().contains_key(entity_id@),
            final(self).contents() == old(self).contents().insert(entity_id@, Map::empty()),
            final(self).next_entity_id == old(self).next_entity_id + 1,
            final(self).entities@ == old(self).entities@.insert(
                entity_id@,
                final(self).entities@[entity_id@],
            ),
            final(self).entities@[entity_id@].arche_type_id.0 == EMPTY_ARCHE_TYPE_ID,
            old(self).arche_types.same_but_for_tables(
                final(self).arche_types,
                EMPTY_ARCHE_TYPE_ID as int,
                EMPTY_ARCHE_TYPE_ID as int,
            ),
            old(self).table(EMPTY_ARCHE_TYPE_ID as int).row_inserted(
                final(self).table(EMPTY_ARCHE_TYPE_ID as int),
                final(self).entities@[entity_id@].row.0,
                Map::empty(),
            ),
    {
        let entity_id = self.next_entity_id();
        let arche_type_id = ArcheTypeId(EMPTY_ARCHE_TYPE_ID);
        proof {
            assert(self.graph()[EMPTY_ARCHE_TYPE_ID as int].layouts
                == self.table(EMPTY_ARCHE_TYPE_ID as int).layouts());
            assert(Map::<ComponentId, Seq<u8>>::empty().restrict(Set::empty()) =~= Map::empty());
        }
        let row = self.arche_types.insert_row(arche_type_id, ());
        let record = EntityRecord { arche_type_id, row };
        self.entities.insert(entity_id.get(), record);
        proof {
            let list = choose|list: Seq<(ComponentId, Seq<u8>)>|
                {
                    &&& #[trigger] crate::storage::tuples::lists::<()>((), list)
                    &&& old(self).table(EMPTY_ARCHE_TYPE_ID as int).row_inserted(
                        self.table(EMPTY_ARCHE_TYPE_ID as int),
                        row.0,
                        Map::empty().union_prefer_right(
                            crate::storage::component::by_component(list),
                        ),
                    )
                };
            assert(crate::storage::component::ids(list).len() == list.len());
            assert(list.len() == 0);
            assert(Map::<ComponentId, Seq<u8>>::empty().union_prefer_right(
                crate::storage::component::by_component(list),
            ) =~= Map::empty());
            old(self).lemma_created(*self, entity_id@, record);
        }
        entity_id
    }

    /// Free an entity's memory, and hand out its components for them to be dropped, each once.
    /// They are added to the end of `dropped`. Returns true if the entity existed.
    pub fn drop_entity(
        &mut self,
        entity_id: EntityId,
        dropped: &mut Vec<(ComponentId, Vec<u8>)>,
    ) -> (existed: bool)
        requires
            old(self).wf(),
        ensures
            final(self).wf(),
            existed == old(self).contents().contains_key(entity_id@),
            !existed ==> {
                &&& final(self).contents() == old(self).contents()
                &&& final(self).entities@ == old(self).entities@
                &&& final(self).next_entity_id == old(self).next_entity_id
                &&& final(self).arche_types == old(self).arche_types
                &&& final(dropped)@ == old(dropped)@
            },
            existed ==> {
                let record = old(self).entities@[entity_id@];
                let handed_out = final(dropped)@.skip(old(dropped)@.len() as int);
                &&& final(self).contents() == old(self).contents().remove(entity_id@)
                &&& final(self).entities@ == old(self).entities@.remove(entity_id@)
                &&& final(self).next_entity_id == old(self).next_entity_id
                &&& old(self).arche_types.same_but_for_tables(
                    final(self).arche_types,
                    record.arche_type_id.0 as int,
                    record.arche_type_id.0 as int,
                )
                &&& old(self).table(record.arche_type_id.0 as int).same_but_for_row_freed(
                    final(self).table(record.arche_type_id.0 as int),
                    record.row.0,
                )
                &&& old(dropped)@.is_prefix_of(final(dropped)@)
                &&& crate::storage::component::ids(
                    crate::storage::component::images(handed_out),
                ).no_duplicates()
                &&& crate::storage::component::by_component(
                    crate::storage::component::images(handed_out),
                ) == old(self).contents()[entity_id@]
            },
    {
        match self.entities.remove(entity_id.get()) {
            Some(record) => {
                // We need to drop its storage.
                assert(old(self).entities@.contains_key(entity_id@));
                let mut contents = self.arche_types.drop_row(record.arche_type_id, record.row);
                let ghost handed_out = contents@;
                dropped.append(&mut contents);
                proof {
                    assert(dropped@.skip(old(dropped)@.len() as int) =~= handed_out);
                    old(self).lemma_dropped(*self, entity_id@);
                }
                // This entity existed, and was removed.
                true
            },
            None => {
                // This entity did not exist, and therefore was not removed.
                proof {
                    assert(self.entities@ =~= old(self).entities@);
                    old(self).lemma_same(*self);
                }
                false
            },
        }
    }

    /// Give up the world, and hand out the components of all entities for them to be dropped,
    /// each once: a list for each arche type.
    pub fn drop(self) -> (dropped: Vec<Vec<(RowIndex, ComponentId, Vec<u8>)>>)
        requires
            self.wf(),
        ensures
            dropped@.len() == self.arche_types.arche_types@.len(),
            forall|i: int|
                0 <= i < dropped@.len() ==> self.table(i).all_handed_out(
                    (#[trigger] dropped@[i])@,
                ),
    {
        let ghost all = self.arche_types.arche_types@;
        assert(forall|i: int|
            0 <= i < all.len() ==> (#[trigger] all[i]).component_table.wf());
        let mut arche_types = self.arche_types.arche_types;
        let mut dropped: Vec<Vec<(RowIndex, ComponentId, Vec<u8>)>> = Vec::new();
        while arche_types.len() > 0
            invariant
                dropped@.len() + arche_types@.len() == all.len(),
                arche_types@ == all.skip(dropped@.len() as int),
                forall|i: int| 0 <= i < all.len() ==> (#[trigger] all[i]).component_table.wf(),
                forall|i: int|
                    0 <= i < dropped@.len() ==> all[i].component_table.all_handed_out(
                        (#[trigger] dropped@[i])@,
                    ),
            decreases arche_types.len(),
        {
            let arche_type = arche_types.remove(0);
            assert(arche_type == all[dropped@.len() as int]);
            dropped.push(arche_type.component_table.drop());
        }
        dropped
    }

    /// Returns true if the entity exists.
    pub fn entity_exists(&self, entity_id: EntityId) -> (found: bool)
        ensures
            found == self.contents().contains_key(entity_id@),
    {
        self.entities.contains_key(entity_id.get())
    }
}

impl World {
    /// The entity that the row is of.
    spec fn owner(self, i: int, row: bus::Width) -> bus::Width {
        choose|id: bus::Width| #[trigger]
            self.entities@.contains_key(id) && self.entities@[id].arche_type_id.0 == i
                && self.entities@[id].row.0 == row
    }

    /// A table whose rows are all in use has less rows than there are entities, if there is an
    /// entity in another table.
    proof fn lemma_row_count(self, i: int, elsewhere: bus::Width)
        requires
            self.wf(),
            0 <= i < self.arche_types.arche_types@.len(),
            self.table(i).free_rows@ == Set::<bus::Width>::empty(),
            self.entities@.contains_key(elsewhere),
            self.entities@[elsewhere].arche_type_id.0 != i,
        ensures
            self.table(i).next_row.0 + 1 < self.next_entity_id,
    {
        let n = self.table(i).next_row.0 as nat;
        let owners = Seq::new(n, |row: int| self.owner(i, row as bus::Width) as int);
        let numbers = vstd::set_lib::set_int_range(1, self.next_entity_id as int);
        let others = numbers.remove(elsewhere as int);
        assert forall|r: int| 0 <= r < n implies {
            let id = self.owner(i, r as bus::Width);
            &&& #[trigger] owners[r] == id
            &&& self.entities@.contains_key(id)
            &&& self.entities@[id].arche_type_id.0 == i
            &&& self.entities@[id].row.0 == r
            &&& others.contains(owners[r])
        } by {
            assert(self.table(i).live(r as bus::Width));
            assert(self.owned(i, r as bus::Width));
        }
        assert forall|r: int, q: int|
            0 <= r < n && 0 <= q < n && r != q implies owners[r] != owners[q] by {}
        assert(owners.no_duplicates());
        owners.unique_seq_to_set();
        vstd::set_lib::lemma_int_range(1, self.next_entity_id as int);
        assert(owners.to_set().subset_of(others)) by {
            assert forall|x: int| owners.to_set().contains(x) implies others.contains(x) by {
                let r = choose|r: int| 0 <= r < owners.len() && owners[r] == x;
                assert(others.contains(owners[r]));
            }
        }
        vstd::set_lib::lemma_len_subset(owners.to_set(), others);
    }

    /// A world is in order, and its entities have what they had, after arche types were added.
    pub(crate) proof fn lemma_grown(self, after: Self)
        requires
            self.wf(),
            after.arche_types.wf(),
            self.arche_types.same_tables(after.arche_types),
            after.entities == self.entities,
            after.next_entity_id == self.next_entity_id,
        ensures
            after.wf(),
            after.contents() == self.contents(),
    {
        let n = self.arche_types.arche_types@.len();
        assert forall|i: int| 0 <= i < n implies #[trigger] after.table(i) == self.table(i) by {
            assert(after.arche_types.arche_types@[i].component_table
                == self.arche_types.arche_types@[i].component_table);
        }
        assert forall|i: int| n <= i < after.arche_types.arche_types@.len() implies (
        #[trigger] after.table(i)).unused() by {
            assert(after.arche_types.arche_types@[i].component_table.unused());
        }
        assert forall|i: int, row: bus::Width|
            0 <= i < after.arche_types.arche_types@.len() && #[trigger] after.table(i).live(
                row,
            ) implies after.owned(i, row) by {
            if i < n {
                assert(self.table(i).live(row));
                assert(self.owned(i, row));
            } else {
                assert(after.table(i).unused());
            }
        }
        assert forall|id: bus::Width| #[trigger]
            self.entities@.contains_key(id) implies after.components_of(id) == self.components_of(
            id,
        ) by {}
        assert(after.contents() =~= self.contents());
    }

    /// A world is in order after an entity was added, and the others have what they had.
    proof fn lemma_created(self, after: Self, id: bus::Width, record: EntityRecord)
        requires
            self.wf(),
            id == self.next_entity_id,
            record.arche_type_id.0 == EMPTY_ARCHE_TYPE_ID,
            after.arche_types.wf(),
            self.arche_types.same_but_for_tables(
                after.arche_types,
                EMPTY_ARCHE_TYPE_ID as int,
                EMPTY_ARCHE_TYPE_ID as int,
            ),
            self.table(EMPTY_ARCHE_TYPE_ID as int).row_inserted(
                after.table(EMPTY_ARCHE_TYPE_ID as int),
                record.row.0,
                Map::empty(),
            ),
            after.entities@ == self.entities@.insert(id, record),
            after.next_entity_id == self.next_entity_id + 1,
        ensures
            after.wf(),
            after.contents() == self.contents().insert(id, Map::empty()),
    {
        let to = EMPTY_ARCHE_TYPE_ID as int;
        let n = self.arche_types.arche_types@.len();
        assert(after.arche_types.graph().len() == after.arche_types.arche_types@.len());
        assert(self.arche_types.graph().len() == n);
        assert(self.graph()[to].layouts == self.table(to).layouts());
        assert(Map::<ComponentId, Seq<u8>>::empty().restrict(Set::empty()) =~= Map::empty());
        assert forall|i: int| 0 <= i < n && i != to implies #[trigger] after.table(i) == self.table(
            i,
        ) by {
            assert(after.arche_types.arche_types@[i] == self.arche_types.arche_types@[i]);
        }
        assert forall|r: bus::Width| #[trigger] after.table(to).live(r) <==> self.table(to).live(r)
            || r == record.row.0 by {
            assert(after.table(to).rows().contains_key(r) <==> self.table(to).rows().insert(
                record.row.0,
                Map::empty(),
            ).contains_key(r));
        }
        assert forall|other: bus::Width| #[trigger] self.entities@.contains_key(other) implies {
            let at = self.entities@[other];
            &&& other != id
            &&& after.entities@[other] == at
            &&& after.table(at.arche_type_id.0 as int).live(at.row.0)
            &&& after.components_of(other) == self.components_of(other)
            &&& at != record
        } by {
            let at = self.entities@[other];
            assert(self.table(at.arche_type_id.0 as int).live(at.row.0));
        }
        assert(after.table(to).live(record.row.0));
        assert forall|i: int, r: bus::Width|
            0 <= i < after.arche_types.arche_types@.len() && #[trigger] after.table(i).live(
                r,
            ) implies after.owned(i, r) by {
            if i == to && r == record.row.0 {
                assert(after.entities@.contains_key(id));
            } else {
                assert(self.table(i).live(r));
                assert(self.owned(i, r));
                let other = choose|other: bus::Width| #[trigger]
                    self.entities@.contains_key(other) && self.entities@[other].arche_type_id.0
                        == i && self.entities@[other].row.0 == r;
                assert(after.entities@.contains_key(other));
            }
        }
        assert(after.contents() =~= self.contents().insert(id, Map::empty()));
    }

    /// A world is in order after an entity was dropped, and the others have what they had.
    proof fn lemma_dropped(self, after: Self, id: bus::Width)
        requires
            self.wf(),
            self.entities@.contains_key(id),
            after.arche_types.wf(),
            self.arche_types.same_but_for_tables(
                after.arche_types,
                self.entities@[id].arche_type_id.0 as int,
                self.entities@[id].arche_type_id.0 as int,
            ),
            self.table(self.entities@[id].arche_type_id.0 as int).same_but_for_row_freed(
                after.table(self.entities@[id].arche_type_id.0 as int),
                self.entities@[id].row.0,
            ),
            after.entities@ == self.entities@.remove(id),
            after.next_entity_id == self.next_entity_id,
        ensures
            after.wf(),
            after.contents() == self.contents().remove(id),
    {
        let from = self.entities@[id].arche_type_id.0 as int;
        let row = self.entities@[id].row.0;
        let n = self.arche_types.arche_types@.len();
        assert(after.arche_types.graph().len() == after.arche_types.arche_types@.len());
        assert(self.arche_types.graph().len() == n);
        assert forall|i: int| 0 <= i < n && i != from implies #[trigger] after.table(i)
            == self.table(i) by {
            assert(after.arche_types.arche_types@[i] == self.arche_types.arche_types@[i]);
        }
        assert forall|r: bus::Width| #[trigger] after.table(from).live(r) <==> self.table(
            from,
        ).live(r) && r != row by {
            assert(after.table(from).rows().contains_key(r) <==> self.table(
                from,
            ).rows().remove(row).contains_key(r));
        }
        assert forall|other: bus::Width| #[trigger] after.entities@.contains_key(other) implies {
            let at = self.entities@[other];
            &&& other != id
            &&& self.entities@.contains_key(other)
            &&& after.entities@[other] == at
            &&& after.table(at.arche_type_id.0 as int).live(at.row.0)
            &&& after.components_of(other) == self.components_of(other)
        } by {
            let at = self.entities@[other];
            assert(self.entities@.contains_key(other));
            assert(at != self.entities@[id]);
            assert(self.table(at.arche_type_id.0 as int).live(at.row.0));
        }
        assert forall|i: int, r: bus::Width|
            0 <= i < after.arche_types.arche_types@.len() && #[trigger] after.table(i).live(
                r,
            ) implies after.owned(i, r) by {
            assert(self.table(i).live(r));
            assert(self.owned(i, r));
            let other = choose|other: bus::Width| #[trigger]
                self.entities@.contains_key(other) && self.entities@[other].arche_type_id.0 == i
                    && self.entities@[other].row.0 == r;
            assert(other != id);
            assert(after.entities@.contains_key(other));
        }
        assert(after.contents() =~= self.contents().remove(id));
    }

    /// A world is in order after components of an entity were overwritten, and the other
    /// entities have what they had.
    pub(crate) proof fn lemma_written(
        self,
        after: Self,
        id: bus::Width,
        component_ids: Seq<ComponentId>,
        written: Seq<Seq<u8>>,
    )
        requires
            self.wf(),
            self.entities@.contains_key(id),
            after.entities == self.entities,
            after.next_entity_id == self.next_entity_id,
            after.arche_types.arche_type_lookup == self.arche_types.arche_type_lookup,
            after.arche_types.arche_types@.len() == self.arche_types.arche_types@.len(),
            forall|i: int|
                #![trigger after.arche_types.arche_types@[i]]
                0 <= i < self.arche_types.arche_types@.len() && i
                    != self.entities@[id].arche_type_id.0 ==> after.arche_types.arche_types@[i]
                    == self.arche_types.arche_types@[i],
            ({
                let i = self.entities@[id].arche_type_id.0 as int;
                let (a, b) = (self.arche_types.arche_types@[i], after.arche_types.arche_types@[i]);
                &&& b.add_component == a.add_component
                &&& b.remove_component == a.remove_component
            }),
        ensures
            ({
                let i = self.entities@[id].arche_type_id.0 as int;
                &&& after.table(i).wf()
                &&& self.table(i).same_but_for_row_written(
                    after.table(i),
                    self.entities@[id].row.0,
                    component_ids,
                    written,
                )
            }) ==> {
                &&& after.wf()
                &&& after.contents() == self.contents().insert(
                    id,
                    crate::storage::table::overwrite(self.contents()[id], component_ids, written),
                )
                &&& self.arche_types.same_but_for_tables(
                    after.arche_types,
                    self.entities@[id].arche_type_id.0 as int,
                    self.entities@[id].arche_type_id.0 as int,
                )
            },
    {
        let at = self.entities@[id].arche_type_id.0 as int;
        let row = self.entities@[id].row.0;
        if after.table(at).wf() && self.table(at).same_but_for_row_written(
            after.table(at),
            row,
            component_ids,
            written,
        ) {
            self.lemma_contents_written(after, id, component_ids, written);
        }
    }

    /// What the entities have after components of one of them were overwritten.
    proof fn lemma_contents_written(
        self,
        after: Self,
        id: bus::Width,
        component_ids: Seq<ComponentId>,
        written: Seq<Seq<u8>>,
    )
        requires
            self.wf(),
            self.entities@.contains_key(id),
            after.entities == self.entities,
            after.next_entity_id == self.next_entity_id,
            after.arche_types.arche_type_lookup == self.arche_types.arche_type_lookup,
            after.arche_types.arche_types@.len() == self.arche_types.arche_types@.len(),
            forall|i: int|
                #![trigger after.arche_types.arche_types@[i]]
                0 <= i < self.arche_types.arche_types@.len() && i
                    != self.entities@[id].arche_type_id.0 ==> after.arche_types.arche_types@[i]
                    == self.arche_types.arche_types@[i],
            ({
                let i = self.entities@[id].arche_type_id.0 as int;
                let (a, b) = (self.arche_types.arche_types@[i], after.arche_types.arche_types@[i]);
                &&& b.add_component == a.add_component
                &&& b.remove_component == a.remove_component
                &&& b.component_table.wf()
                &&& a.component_table.same_but_for_row_written(
                    b.component_table,
                    self.entities@[id].row.0,
                    component_ids,
                    written,
                )
            }),
        ensures
            after.wf(),
            after.contents() == self.contents().insert(
                id,
                crate::storage::table::overwrite(self.contents()[id], component_ids, written),
            ),
            self.arche_types.same_but_for_tables(
                after.arche_types,
                self.entities@[id].arche_type_id.0 as int,
                self.entities@[id].arche_type_id.0 as int,
            ),
    {
        let at = self.entities@[id].arche_type_id.0 as int;
        let n = self.arche_types.arche_types@.len();
        assert forall|i: int|
            #![trigger after.arche_types.arche_types@[i]]
            0 <= i < n implies {
            &&& after.arche_types.arche_types@[i].add_component
                == self.arche_types.arche_types@[i].add_component
            &&& after.arche_types.arche_types@[i].remove_component
                == self.arche_types.arche_types@[i].remove_component
            &&& after.arche_types.table(i).wf()
            &&& after.arche_types.table(i).layouts() == self.arche_types.table(i).layouts()
            &&& i != at ==> after.arche_types.table(i) == self.arche_types.table(i)
        } by {
            assert(self.arche_types.arche_types@[i].component_table.wf());
        }
        self.arche_types.lemma_same_but_for_tables(after.arche_types, at, at);
        assert forall|i: int, r: bus::Width| 0 <= i < n implies (#[trigger] after.table(i).live(r)
            <==> self.table(i).live(r)) by {
            assert(after.arche_types.arche_types@[i].component_table.live(r)
                <==> self.arche_types.arche_types@[i].component_table.live(r));
        }
        assert forall|i: int| 0 <= i < n implies (#[trigger] after.table(i)).next_row.0
            < after.next_entity_id by {
            assert(after.arche_types.arche_types@[i].component_table.next_row
                == self.arche_types.arche_types@[i].component_table.next_row);
            assert(self.table(i).next_row.0 < self.next_entity_id);
        }
        assert forall|i: int, r: bus::Width|
            0 <= i < n && #[trigger] after.table(i).live(r) implies after.owned(i, r) by {
            assert(self.table(i).live(r));
            assert(self.owned(i, r));
        }
        assert forall|other: bus::Width| #[trigger]
            self.entities@.contains_key(other) && other != id implies after.components_of(other)
            == self.components_of(other) by {
            let record = self.entities@[other];
            assert(record != self.entities@[id]);
            let i = record.arche_type_id.0 as int;
            assert(self.table(i).live(record.row.0));
            if i != at {
                assert(after.arche_types.arche_types@[i] == self.arche_types.arche_types@[i]);
            }
        }
        assert(after.contents() =~= self.contents().insert(
            id,
            crate::storage::table::overwrite(self.contents()[id], component_ids, written),
        ));
    }

    /// Only what the map of the entities holds counts.
    proof fn lemma_same(self, after: Self)
        requires
            self.wf(),
            after.entities@ == self.entities@,
            after.next_entity_id == self.next_entity_id,
            after.arche_types == self.arche_types,
        ensures
            after.wf(),
            after.contents() == self.contents(),
    {
        assert forall|i: int, r: bus::Width|
            0 <= i < after.arche_types.arche_types@.len() && #[trigger] after.table(i).live(
                r,
            ) implies after.owned(i, r) by {
            assert(self.table(i).live(r));
            assert(self.owned(i, r));
        }
        assert forall|i: int| 0 <= i < after.arche_types.arche_types@.len() implies (
        #[trigger] after.table(i)).next_row.0 < after.next_entity_id by {
            assert(self.table(i).next_row.0 < self.next_entity_id);
        }
        assert(after.contents() =~= self.contents());
    }

    /// A world is in order after an entity was moved to another table, and the other entities
    /// have what they had.
    pub(crate) proof fn lemma_moved(
        self,
        after: Self,
        id: bus::Width,
        record: EntityRecord,
        values: Map<ComponentId, Seq<u8>>,
    )
        requires
            self.wf(),
            self.entities@.contains_key(id),
            self.entities@[id].arche_type_id != record.arche_type_id,
            record.arche_type_id.0 < self.arche_types.arche_types@.len(),
            after.arche_types.wf(),
            self.arche_types.same_but_for_tables(
                after.arche_types,
                self.entities@[id].arche_type_id.0 as int,
                record.arche_type_id.0 as int,
            ),
            self.table(self.entities@[id].arche_type_id.0 as int).same_but_for_row_freed(
                after.table(self.entities@[id].arche_type_id.0 as int),
                self.entities@[id].row.0,
            ),
            self.table(record.arche_type_id.0 as int).row_inserted(
                after.table(record.arche_type_id.0 as int),
                record.row.0,
                values,
            ),
            after.entities@ == self.entities@.insert(id, record),
            after.next_entity_id == self.next_entity_id,
        ensures
            after.wf(),
            after.contents() == self.contents().insert(
                id,
                values.restrict(self.table(record.arche_type_id.0 as int).layouts().dom()),
            ),
    {
        let from = self.entities@[id].arche_type_id.0 as int;
        let row = self.entities@[id].row.0;
        let to = record.arche_type_id.0 as int;
        let n = self.arche_types.arche_types@.len();
        assert(after.arche_types.graph().len() == after.arche_types.arche_types@.len());
        assert(self.arche_types.graph().len() == n);
        if self.table(to).free_rows@ == Set::<bus::Width>::empty() {
            self.lemma_row_count(to, id);
        }
        assert forall|i: int| 0 <= i < n && i != from && i != to implies #[trigger] after.table(i)
            == self.table(i) by {
            assert(after.arche_types.arche_types@[i] == self.arche_types.arche_types@[i]);
        }
        assert forall|r: bus::Width| #[trigger] after.table(from).live(r) <==> self.table(
            from,
        ).live(r) && r != row by {
            assert(after.table(from).rows().contains_key(r) <==> self.table(
                from,
            ).rows().remove(row).contains_key(r));
        }
        assert forall|r: bus::Width| #[trigger] after.table(to).live(r) <==> self.table(to).live(r)
            || r == record.row.0 by {
            assert(after.table(to).rows().contains_key(r) <==> self.table(to).rows().insert(
                record.row.0,
                values.restrict(self.table(to).layouts().dom()),
            ).contains_key(r));
        }
        assert forall|other: bus::Width| #[trigger]
            after.entities@.contains_key(other) && other != id implies {
            let at = self.entities@[other];
            &&& self.entities@.contains_key(other)
            &&& after.entities@[other] == at
            &&& after.table(at.arche_type_id.0 as int).live(at.row.0)
            &&& after.components_of(other) == self.components_of(other)
            &&& at != record
        } by {
            let at = self.entities@[other];
            assert(self.entities@.contains_key(other));
            assert(at != self.entities@[id]);
            assert(self.table(at.arche_type_id.0 as int).live(at.row.0));
        }
        assert(after.table(to).live(record.row.0));
        assert forall|i: int, r: bus::Width|
            0 <= i < after.arche_types.arche_types@.len() && #[trigger] after.table(i).live(
                r,
            ) implies after.owned(i, r) by {
            if i == to && r == record.row.0 {
                assert(after.entities@.contains_key(id));
            } else {
                assert(self.table(i).live(r));
                assert(self.owned(i, r));
                let other = choose|other: bus::Width| #[trigger]
                    self.entities@.contains_key(other) && self.entities@[other].arche_type_id.0
                        == i && self.entities@[other].row.0 == r;
                assert(other != id);
                assert(after.entities@.contains_key(other));
            }
        }
        assert(after.contents() =~= self.contents().insert(
            id,
            values.restrict(self.table(to).layouts().dom()),
        ));
    }
}

} // verus!
