//! What a world means, in terms of its entities and of the tables that store their components.

use crate::arche_type::graph::Change;
use crate::bus;
use crate::storage::tuples::ComponentSet;
use crate::storage::ComponentId;
use crate::world::access::EntityAccess;
use crate::world::World;
use vstd::prelude::*;

verus! {

/// The entities of a world are those that have a record, and the components of each are those in
/// its row of the table of its arche type.
pub proof fn lemma_contents_are_rows(world: World, id: bus::Width)
    ensures
        world.contents().contains_key(id) <==> world.entities@.contains_key(id),
        world.contents().contains_key(id) ==> {
            let record = world.entities@[id];
            let table = world.arche_types.arche_types@[
                record.arche_type_id.0 as int
            ].component_table;
            &&& world.contents()[id] == table.rows()[record.row.0]
            &&& world.components_of(id) == table.rows()[record.row.0]
            &&& world.table(record.arche_type_id.0 as int) == table
        },
        world.graph() == world.arche_types.graph(),
        world.registry() == crate::arche_type::graph::registry(world.arche_types.graph()),
{
}

/// Every entity of a world in order has a row in use in the table of an arche type, which no other
/// entity has, and every row in use is that of an entity.
pub proof fn lemma_world_in_order(
    world: World,
    a: bus::Width,
    b: bus::Width,
    i: int,
    row: bus::Width,
)
    requires
        world.wf(),
    ensures
        world.arche_types.wf(),
        world.entities@.contains_key(a) ==> {
            &&& 0 < a < world.next_entity_id
            &&& world.entities@[a].arche_type_id.0 < world.arche_types.arche_types@.len()
            &&& world.arche_types.arche_types@[
                world.entities@[a].arche_type_id.0 as int
            ].component_table.live(world.entities@[a].row.0)
        },
        world.entities@.contains_key(a) && world.entities@.contains_key(b) && a != b
            ==> world.entities@[a].arche_type_id != world.entities@[b].arche_type_id
            || world.entities@[a].row != world.entities@[b].row,
        0 <= i < world.arche_types.arche_types@.len()
            && world.arche_types.arche_types@[i].component_table.live(row) ==> exists|
            id: bus::Width,
        | #[trigger]
            world.entities@.contains_key(id) && world.entities@[id].arche_type_id.0 == i
                && world.entities@[id].row.0 == row,
{
    if 0 <= i < world.arche_types.arche_types@.len()
        && world.arche_types.arche_types@[i].component_table.live(row) {
        assert(world.table(i).live(row));
        assert(world.owned(i, row));
    }
    if world.entities@.contains_key(a) {
        assert(world.table(world.entities@[a].arche_type_id.0 as int).live(
            world.entities@[a].row.0,
        ));
    }
}

/// What is seen of an entity is that of its record.
pub proof fn lemma_access_is_to_entity(access: EntityAccess)
    ensures
        access.wf() <==> old(access.world).wf() && old(access.world).entities@.contains_key(
            access.entity_id@,
        ),
        access.record() == old(access.world).entities@[access.entity_id@],
        access.own_arche_type() == old(access.world).arche_types.arche_types@[
            old(access.world).entities@[access.entity_id@].arche_type_id.0 as int
        ],
        access.components() == old(access.world).contents()[access.entity_id@],
        access.layouts() == old(access.world).graph()[
            old(access.world).entities@[access.entity_id@].arche_type_id.0 as int
        ].layouts,
{
}

/// Moving an entity gives it a row of its own in the table that it is moved to, and frees the one
/// that it had. Other entities keep their records, other tables are as they were, and no number
/// is used up.
pub proof fn lemma_entity_moves_alone(
    before: World,
    after: World,
    id: bus::Width,
    other: bus::Width,
    k: int,
)
    requires
        before.wf(),
        before.entities@.contains_key(id),
        before.entity_moved(after, id),
        0 <= k < after.arche_types.arche_types@.len(),
    ensures
        after.next_entity_id == before.next_entity_id,
        after.entities@.contains_key(other) <==> before.entities@.contains_key(other),
        other != id && before.entities@.contains_key(other) ==> after.entities@[other]
            == before.entities@[other],
        before.arche_types.arche_types@.len() <= after.arche_types.arche_types@.len(),
        ({
            let from = before.entities@[id];
            let to = after.entities@[id];
            let known = before.arche_types.arche_types@;
            let tables = after.arche_types.arche_types@;
            &&& to.arche_type_id == from.arche_type_id ==> to.row == from.row
            &&& k < known.len() && k != from.arche_type_id.0 && k != to.arche_type_id.0
                ==> tables[k].component_table == known[k].component_table
            &&& k < known.len() && to.arche_type_id == from.arche_type_id
                ==> tables[k].component_table == known[k].component_table
            &&& k >= known.len() && k != to.arche_type_id.0 ==> tables[k].component_table.unused()
            &&& k == from.arche_type_id.0 && to.arche_type_id != from.arche_type_id ==> {
                let (a, b) = (known[k].component_table, tables[k].component_table);
                &&& b.layouts() == a.layouts()
                &&& b.rows() == a.rows().remove(from.row.0)
                &&& b.free_rows@ == a.free_rows@.insert(from.row.0)
                &&& b.next_row == a.next_row
                &&& b.allocated_rows == a.allocated_rows
            }
            &&& k == to.arche_type_id.0 && k != from.arche_type_id.0 && k < known.len() ==> {
                let (a, b) = (known[k].component_table, tables[k].component_table);
                &&& a.free_rows@ == Set::<bus::Width>::empty() ==> {
                    &&& b.free_rows@ == Set::<bus::Width>::empty()
                    &&& b.next_row.0 == a.next_row.0 + 1
                    &&& b.allocated_rows == if a.next_row.0 < a.allocated_rows {
                        a.allocated_rows as int
                    } else if a.allocated_rows == 0 {
                        4
                    } else {
                        2 * a.allocated_rows
                    }
                }
                &&& a.free_rows@ != Set::<bus::Width>::empty() ==> {
                    &&& b.free_rows@ == a.free_rows@.remove(to.row.0)
                    &&& b.next_row == a.next_row
                    &&& b.allocated_rows == a.allocated_rows
                }
            }
            &&& k == to.arche_type_id.0 && k >= known.len() ==> {
                let b = tables[k].component_table;
                &&& to.row.0 == 0
                &&& b.free_rows@ == Set::<bus::Width>::empty()
                &&& b.next_row.0 == 1
                &&& b.allocated_rows == 4
            }
        }),
{
    let from = before.entities@[id];
    let to = after.entities@[id];
    assert(after.table(k) == after.arche_types.arche_types@[k].component_table);
    if k < before.arche_types.arche_types@.len() {
        assert(before.table(k) == before.arche_types.arche_types@[k].component_table);
        assert(before.arche_types.arche_types@[k].component_table.wf());
        if k == to.arche_type_id.0 && k != from.arche_type_id.0
            && before.table(k).free_rows@ == Set::<bus::Width>::empty() {
            crate::storage::meaning::lemma_row_is_added(before.table(k), after.table(k));
        }
    }
}

/// After components were inserted into an entity, the table of its arche type stores exactly what
/// it stored before and the new components. After they were removed, it stores what is left.
pub proof fn lemma_entity_is_in_the_right_table<T: ComponentSet>(
    before: World,
    after: World,
    id: bus::Width,
    change: Change,
    c: ComponentId,
)
    requires
        before.wf(),
        before.entities@.contains_key(id),
        crate::storage::tuples::column_ids(T::spec_columns()).no_duplicates(),
        crate::arche_type::graph::change_done(
            before.graph(),
            before.entities@[id].arche_type_id,
            change,
            T::spec_columns(),
            after.graph(),
            after.entities@[id].arche_type_id,
        ),
    ensures
        after.entities@[id].arche_type_id.0 < after.arche_types.arche_types@.len(),
        ({
            let had = before.arche_types.arche_types@[
                before.entities@[id].arche_type_id.0 as int
            ].component_table.components@.contains_key(c);
            let listed = exists|k: int|
                0 <= k < T::spec_columns().len() && (#[trigger] T::spec_columns()[k]).0 == c;
            after.arche_types.arche_types@[
                after.entities@[id].arche_type_id.0 as int
            ].component_table.components@.contains_key(c) <==> match change {
                Change::Add => had || listed,
                Change::Remove => had && !listed,
            }
        }),
{
    let from = before.entities@[id].arche_type_id;
    let to = after.entities@[id].arche_type_id;
    crate::arche_type::meaning::lemma_nodes_of_graph(before.arche_types, from.0 as int);
    crate::arche_type::meaning::lemma_nodes_of_graph(after.arche_types, to.0 as int);
    crate::arche_type::meaning::lemma_change_leads_to_components(
        before.graph(),
        from,
        change,
        T::spec_columns(),
        after.graph(),
        to,
        from.0 as int,
        c,
    );
    crate::arche_type::meaning::lemma_node_of_arche_type(
        before.arche_types.arche_types@[from.0 as int],
        c,
    );
    crate::arche_type::meaning::lemma_node_of_arche_type(
        after.arche_types.arche_types@[to.0 as int],
        c,
    );
}

/// A table with the given components takes another row, where there is one and it has room, and
/// where the machine can hold a new one.
pub proof fn lemma_world_has_room(
    world: World,
    layouts: Map<ComponentId, crate::storage::layout::Layout>,
)
    requires
        world.wf(),
        forall|i: int|
            0 <= i < world.arche_types.arche_types@.len() && (
            #[trigger] world.arche_types.arche_types@[i]).component_table.layouts().dom()
                == layouts.dom() ==> world.arche_types.arche_types@[i].component_table.has_room(),
        (forall|i: int|
            0 <= i < world.arche_types.arche_types@.len() ==> (
            #[trigger] world.arche_types.arche_types@[i]).component_table.layouts().dom()
                != layouts.dom()) ==> forall|c: ComponentId| #[trigger]
            layouts.contains_key(c) ==> layouts[c].size * 4 <= isize::MAX,
    ensures
        world.has_room_for(layouts),
{
    let graph = world.graph();
    let tables = world.arche_types.arche_types@;
    assert(graph.len() == tables.len());
    assert(graph.len() == world.arche_types.arche_types.len());
    if exists|i: int| 0 <= i < graph.len() && (#[trigger] graph[i]).layouts.dom() == layouts.dom() {
        let i = choose|i: int|
            0 <= i < graph.len() && (#[trigger] graph[i]).layouts.dom() == layouts.dom();
        assert(tables[i].component_table.layouts().dom() == layouts.dom());
    } else {
        assert forall|i: int| 0 <= i < tables.len() implies (
        #[trigger] tables[i]).component_table.layouts().dom() != layouts.dom() by {
            assert(graph[i].layouts == tables[i].component_table.layouts());
        }
    }
}

/// An entity takes components that it does not have, if none is listed twice or is without size,
/// if they agree with those of other entities, and if the machine can hold them.
pub proof fn lemma_entity_takes_new_components<T: ComponentSet>(access: EntityAccess)
    requires
        access.wf(),
        forall|i: int, j: int|
            #![trigger T::spec_columns()[i], T::spec_columns()[j]]
            0 <= i < j < T::spec_columns().len() ==> T::spec_columns()[i].0
                != T::spec_columns()[j].0,
        forall|i: int|
            #![trigger T::spec_columns()[i]]
            0 <= i < T::spec_columns().len() ==> {
                &&& !access.components().contains_key(T::spec_columns()[i].0)
                &&& T::spec_columns()[i].1.size > 0
                &&& crate::arche_type::graph::agrees(access.world.graph(), T::spec_columns()[i])
            },
        access.world.has_room_for(
            crate::arche_type::graph::change_all(access.layouts(), Change::Add, T::spec_columns()),
        ),
    ensures
        access.accepts::<T>(),
{
    let id = access.entity_id@;
    crate::world::laws::lemma_entity_has_components_of_arche_type(*access.world, id);
    assert forall|i: int| 0 <= i < T::spec_columns().len() implies !access.layouts().contains_key(
        (#[trigger] T::spec_columns()[i]).0,
    ) by {
        assert(access.components().dom().contains(T::spec_columns()[i].0)
            <==> access.layouts().dom().contains(T::spec_columns()[i].0));
    }
    crate::arche_type::meaning::lemma_change_is_allowed(
        access.world.graph(),
        access.record().arche_type_id,
        Change::Add,
        T::spec_columns(),
    );
}

/// An entity gives components that it has, if there are any and none is listed twice, and if the
/// machine can hold what is left.
pub proof fn lemma_entity_gives_its_components<T: ComponentSet>(access: EntityAccess, held: T)
    requires
        access.wf(),
        T::spec_columns().len() > 0,
        crate::storage::tuples::column_ids(T::spec_columns()).no_duplicates(),
        crate::storage::tuples::row_holds::<T>(access.components(), held),
        access.world.has_room_for(
            crate::arche_type::graph::change_all(
                access.layouts(),
                Change::Remove,
                T::spec_columns(),
            ),
        ),
    ensures
        access.gives::<T>(),
{
}

} // verus!
