//! What holds of a world as a whole.

use crate::arche_type::graph::Change;
use crate::bus;
use crate::storage::column::RowIndex;
use crate::storage::layout::Layout;
use crate::storage::tuples::ComponentSet;
use crate::storage::ComponentId;
use crate::world::World;
use vstd::prelude::*;

verus! {

/// An entity has exactly the components of its arche type, each with as many bytes as its type
/// has.
pub proof fn lemma_entity_has_components_of_arche_type(world: World, id: bus::Width)
    requires
        world.wf(),
        world.contents().contains_key(id),
    ensures
        world.contents()[id].dom() == world.layouts_of(id).dom(),
        forall|c: ComponentId| #[trigger]
            world.contents()[id].contains_key(c) ==> world.contents()[id][c].len()
                == world.layouts_of(id)[c].size,
{
    let record = world.entities@[id];
    assert(world.table(record.arche_type_id.0 as int).layouts() == world.layouts_of(id));
    world.table(record.arche_type_id.0 as int).lemma_row(record.row.0);
}

/// Entities with the same components have the same arche type, and entities with different
/// components have different ones.
pub proof fn lemma_arche_type_is_determined_by_components(
    world: World,
    a: bus::Width,
    b: bus::Width,
)
    requires
        world.wf(),
        world.contents().contains_key(a),
        world.contents().contains_key(b),
    ensures
        world.contents()[a].dom() == world.contents()[b].dom() <==> world.entities@[a].arche_type_id
            == world.entities@[b].arche_type_id,
{
    lemma_entity_has_components_of_arche_type(world, a);
    lemma_entity_has_components_of_arche_type(world, b);
    let i = world.entities@[a].arche_type_id.0 as int;
    let j = world.entities@[b].arche_type_id.0 as int;
    assert(world.graph()[i].layouts.dom() == world.graph()[j].layouts.dom() ==> i == j);
}

/// No two entities share a row, and every row in use is that of an entity.
pub proof fn lemma_every_row_has_one_owner(world: World, i: int, row: bus::Width)
    requires
        world.wf(),
        0 <= i < world.arche_types.arche_types@.len(),
        world.table(i).live(row),
    ensures
        exists|id: bus::Width| #[trigger]
            world.contents().contains_key(id) && world.entities@[id].arche_type_id.0 == i
                && world.entities@[id].row.0 == row,
        forall|a: bus::Width, b: bus::Width|
            #![trigger world.contents().contains_key(a), world.contents().contains_key(b)]
            world.contents().contains_key(a) && world.contents().contains_key(b)
                && world.entities@[a].arche_type_id.0 == i && world.entities@[a].row.0 == row
                && world.entities@[b].arche_type_id.0 == i && world.entities@[b].row.0 == row
                ==> a == b,
{
    assert(world.owned(i, row));
    let id = choose|id: bus::Width| #[trigger]
        world.entities@.contains_key(id) && world.entities@[id].arche_type_id.0 == i
            && world.entities@[id].row.0 == row;
    assert(world.contents().contains_key(id));
    assert forall|a: bus::Width, b: bus::Width|
        #![trigger world.contents().contains_key(a), world.contents().contains_key(b)]
        world.contents().contains_key(a) && world.contents().contains_key(b)
            && world.entities@[a].arche_type_id.0 == i && world.entities@[a].row.0 == row
            && world.entities@[b].arche_type_id.0 == i && world.entities@[b].row.0 == row implies a
        == b by {
        assert(world.entities@[a] == world.entities@[b]);
    }
}

/// When a world is given up, every component of every entity is handed out.
pub proof fn lemma_every_component_is_dropped(
    world: World,
    dropped: Seq<Vec<(RowIndex, ComponentId, Vec<u8>)>>,
    id: bus::Width,
    c: ComponentId,
)
    requires
        world.wf(),
        dropped.len() == world.arche_types.arche_types@.len(),
        forall|i: int|
            0 <= i < dropped.len() ==> world.table(i).all_handed_out((#[trigger] dropped[i])@),
        world.contents().contains_key(id),
        world.contents()[id].contains_key(c),
    ensures
        ({
            let list = dropped[world.entities@[id].arche_type_id.0 as int]@;
            exists|i: int|
                0 <= i < list.len() && (#[trigger] list[i]).0 == world.entities@[id].row
                    && list[i].1 == c && list[i].2@ == world.contents()[id][c]
        }),
{
    let record = world.entities@[id];
    let at = record.arche_type_id.0 as int;
    let list = dropped[at]@;
    lemma_entity_has_components_of_arche_type(world, id);
    assert(world.table(at).layouts() == world.layouts_of(id));
    assert(world.table(at).all_handed_out(list));
    assert(world.table(at).live(record.row.0) && world.table(at).layouts().contains_key(c));
    let i = choose|i: int|
        0 <= i < list.len() && (#[trigger] list[i]).0.0 == record.row.0 && list[i].1 == c;
    assert(list[i].0 == record.row);
}

/// The number of the next entity is one that no entity has.
pub proof fn lemma_next_entity_is_new(world: World, id: bus::Width)
    requires
        world.wf(),
        world.contents().contains_key(id),
    ensures
        0 < id < world.next_entity_id,
{
}

/// The number was given out to a new entity between two worlds of a history: it is that of the
/// counter, which went on to the next one.
pub open spec fn given_out(history: Seq<World>, k: int, id: bus::Width) -> bool {
    &&& 0 <= k < history.len() - 1
    &&& id == history[k].next_entity_id
    &&& history[k + 1].next_entity_id == id + 1
}

/// The history of a world: it starts with a new one, and the counter never goes back.
pub open spec fn is_history(history: Seq<World>) -> bool {
    &&& history.len() > 0
    &&& history[0].next_entity_id == 1
    &&& forall|k: int|
        0 <= k < history.len() - 1 ==> (#[trigger] history[k]).next_entity_id
            <= history[k + 1].next_entity_id
}

/// The number of a new entity was never used before. It is above every number that was given out
/// earlier, also to entities that were dropped since, and above the numbers of all entities that
/// there are.
pub proof fn lemma_ids_are_never_used_again(
    history: Seq<World>,
    i: int,
    j: int,
    earlier: bus::Width,
    now: bus::Width,
)
    requires
        is_history(history),
        given_out(history, i, earlier),
        given_out(history, j, now),
        i < j,
        history[j].wf(),
    ensures
        0 < earlier < now,
        forall|id: bus::Width| #[trigger]
            history[j].contents().contains_key(id) ==> 0 < id < now,
{
    lemma_counter_never_falls(history, 0, i);
    lemma_counter_never_falls(history, i + 1, j);
}

/// The counter never goes back over a longer time either.
proof fn lemma_counter_never_falls(history: Seq<World>, i: int, j: int)
    requires
        is_history(history),
        0 <= i <= j < history.len(),
    ensures
        history[i].next_entity_id <= history[j].next_entity_id,
    decreases j - i,
{
    if i < j {
        lemma_counter_never_falls(history, i, j - 1);
        assert(history[j - 1].next_entity_id <= history[j].next_entity_id);
    }
}

/// A machine that can hold twice as many rows as there were entities, or those of the initial
/// allocation, has room for another row.
pub proof fn lemma_room(world: World, layouts: Map<ComponentId, Layout>)
    requires
        world.wf(),
        2 * world.next_entity_id <= usize::MAX,
        forall|c: ComponentId| #[trigger]
            layouts.contains_key(c) ==> {
                &&& world.registry().contains_key(c) ==> world.registry()[c] == layouts[c]
                &&& layouts[c].size * (2 * world.next_entity_id) <= isize::MAX
                &&& layouts[c].size * crate::storage::table::INITIAL_ROW_ALLOCATION <= isize::MAX
            },
    ensures
        world.has_room_for(layouts),
{
    let graph = world.graph();
    let found = crate::arche_type::graph::find(graph, layouts.dom());
    if found is Some {
        let i = choose|i: int|
            0 <= i < graph.len() && (#[trigger] graph[i]).layouts.dom() == layouts.dom();
        assert(graph.len() == world.arche_types.arche_types.len());
        assert(found == Some(crate::arche_type::ArcheTypeId(i as usize)));
        let table = world.table(i);
        assert(table.layouts() == graph[i].layouts);
        assert(world.arche_types.arche_types@[i].component_table.wf());
        assert(table.next_row.0 < world.next_entity_id);
        if table.next_row.0 >= table.allocated_rows {
            assert forall|c: ComponentId| #[trigger]
                table.layouts().contains_key(c) implies table.layouts()[c].size
                * table.grown_rows() <= isize::MAX by {
                crate::arche_type::graph::lemma_registry(graph, i, c);
                assert(layouts.dom().contains(c));
                assert(layouts.contains_key(c));
                let size = layouts[c].size as int;
                let rows = table.grown_rows();
                let limit = 2 * world.next_entity_id;
                if rows <= limit {
                    assert(size * rows <= size * limit) by (nonlinear_arith)
                        requires
                            rows <= limit,
                            0 <= size,
                    ;
                }
            }
        }
    }
}

/// Bytes stand for one value: what comes out is what went in.
pub proof fn lemma_row_holds_one_value<T: ComponentSet>(
    row: Map<ComponentId, Seq<u8>>,
    inserted: T,
    removed: T,
)
    requires
        crate::storage::tuples::row_holds::<T>(row, inserted),
        crate::storage::tuples::row_holds::<T>(row, removed),
    ensures
        removed == inserted,
{
    T::lemma_encoded(
        inserted,
        removed,
        crate::storage::tuples::row_parts(T::spec_columns(), row),
    );
}

/// Inserting components does not change what an entity holds of others.
pub proof fn lemma_inserting_keeps_other_components<T: ComponentSet, U: ComponentSet>(
    before: Map<ComponentId, Seq<u8>>,
    after: Map<ComponentId, Seq<u8>>,
    held: T,
    inserted: U,
)
    requires
        crate::storage::tuples::row_holds::<T>(before, held),
        crate::storage::tuples::inserted_into::<U>(before, after, inserted),
    ensures
        crate::storage::tuples::row_holds::<T>(after, held),
{
    let columns = T::spec_columns();
    let ids = crate::storage::tuples::column_ids(U::spec_columns()).to_set();
    assert forall|i: int| 0 <= i < columns.len() implies {
        &&& after.contains_key((#[trigger] columns[i]).0)
        &&& after[columns[i].0] == before[columns[i].0]
    } by {
        assert(before.contains_key(columns[i].0));
        assert(after.remove_keys(ids).contains_key(columns[i].0));
    }
    assert(crate::storage::tuples::row_parts(columns, after)
        =~= crate::storage::tuples::row_parts(columns, before));
}

/// It does not matter which of two sets of components is inserted first: the entity has the same
/// components, and holds both sets of values.
pub proof fn lemma_order_of_insertion_does_not_matter<T: ComponentSet, U: ComponentSet>(
    before: Map<ComponentId, Seq<u8>>,
    with_first: Map<ComponentId, Seq<u8>>,
    with_both: Map<ComponentId, Seq<u8>>,
    with_second: Map<ComponentId, Seq<u8>>,
    with_both_turned: Map<ComponentId, Seq<u8>>,
    first: T,
    second: U,
)
    requires
        T::spec_columns().len() > 0,
        U::spec_columns().len() > 0,
        crate::storage::tuples::inserted_into::<T>(before, with_first, first),
        crate::storage::tuples::inserted_into::<U>(with_first, with_both, second),
        crate::storage::tuples::inserted_into::<U>(before, with_second, second),
        crate::storage::tuples::inserted_into::<T>(with_second, with_both_turned, first),
    ensures
        with_both.dom() == with_both_turned.dom(),
        crate::storage::tuples::row_holds::<T>(with_both, first),
        crate::storage::tuples::row_holds::<U>(with_both, second),
        crate::storage::tuples::row_holds::<T>(with_both_turned, first),
        crate::storage::tuples::row_holds::<U>(with_both_turned, second),
        forall|c: ComponentId| #[trigger]
            before.contains_key(c) ==> with_both[c] == before[c] && with_both_turned[c]
                == before[c],
{
    lemma_inserting_keeps_other_components::<T, U>(with_first, with_both, first, second);
    lemma_inserting_keeps_other_components::<U, T>(with_second, with_both_turned, second, first);
    lemma_inserted_dom::<T>(before, with_first, first);
    lemma_inserted_dom::<U>(with_first, with_both, second);
    lemma_inserted_dom::<U>(before, with_second, second);
    lemma_inserted_dom::<T>(with_second, with_both_turned, first);
    assert(with_both.dom() =~= with_both_turned.dom());
    assert forall|c: ComponentId| #[trigger] before.contains_key(c) implies with_both[c]
        == before[c] && with_both_turned[c] == before[c] by {
        let t = crate::storage::tuples::column_ids(T::spec_columns()).to_set();
        let u = crate::storage::tuples::column_ids(U::spec_columns()).to_set();
        assert(with_first.remove_keys(t).contains_key(c));
        assert(with_both.remove_keys(u).contains_key(c));
        assert(with_second.remove_keys(u).contains_key(c));
        assert(with_both_turned.remove_keys(t).contains_key(c));
    }
}

/// Which components an entity has after some were inserted.
proof fn lemma_inserted_dom<T: ComponentSet>(
    before: Map<ComponentId, Seq<u8>>,
    after: Map<ComponentId, Seq<u8>>,
    values: T,
)
    requires
        T::spec_columns().len() > 0,
        crate::storage::tuples::inserted_into::<T>(before, after, values),
    ensures
        after.dom() == before.dom().union(
            crate::storage::tuples::column_ids(T::spec_columns()).to_set(),
        ),
{
    let columns = T::spec_columns();
    let ids = crate::storage::tuples::column_ids(columns);
    assert forall|c: ComponentId| after.dom().contains(c) <==> before.dom().union(
        ids.to_set(),
    ).contains(c) by {
        if ids.contains(c) {
            let i = ids.index_of(c);
            assert(after.contains_key(columns[i].0));
        } else {
            assert(after.remove_keys(ids.to_set()).dom().contains(c) <==> before.dom().contains(c));
        }
    }
    assert(after.dom() =~= before.dom().union(ids.to_set()));
}

/// After components are inserted into an entity and removed again, every entity has what it had,
/// the values that come out are those that went in, and the entity has the arche type that it
/// had.
pub proof fn lemma_removing_undoes_inserting<T: ComponentSet>(
    before: World,
    middle: World,
    after: World,
    id: bus::Width,
    inserted: T,
    removed: T,
)
    requires
        before.wf(),
        before.contents().contains_key(id),
        T::spec_columns().len() > 0,
        crate::arche_type::graph::change_allowed(
            before.graph(),
            before.entities@[id].arche_type_id,
            Change::Add,
            T::spec_columns(),
        ),
        crate::storage::tuples::inserted_into::<T>(
            before.contents()[id],
            middle.contents()[id],
            inserted,
        ),
        middle.contents() == before.contents().insert(id, middle.contents()[id]),
        (middle.graph(), middle.entities@[id].arche_type_id) == crate::arche_type::graph::walk(
            before.graph(),
            before.entities@[id].arche_type_id,
            Change::Add,
            T::spec_columns(),
        ),
        crate::storage::tuples::row_holds::<T>(middle.contents()[id], removed),
        after.contents() == middle.contents().insert(
            id,
            middle.contents()[id].remove_keys(
                crate::storage::tuples::column_ids(T::spec_columns()).to_set(),
            ),
        ),
        (after.graph(), after.entities@[id].arche_type_id) == crate::arche_type::graph::walk(
            middle.graph(),
            middle.entities@[id].arche_type_id,
            Change::Remove,
            T::spec_columns(),
        ),
    ensures
        removed == inserted,
        after.contents() == before.contents(),
        after.entities@[id].arche_type_id == before.entities@[id].arche_type_id,
{
    lemma_row_holds_one_value::<T>(middle.contents()[id], inserted, removed);
    assert(middle.graph().len() == middle.arche_types.arche_types.len());
    assert(after.graph().len() == after.arche_types.arche_types.len());
    crate::arche_type::laws::lemma_removing_undoes_adding(
        before.graph(),
        before.entities@[id].arche_type_id,
        T::spec_columns(),
    );
    assert(after.contents() =~= before.contents());
}

/// What was just inserted into an entity can be removed again: the entity holds the inserted
/// values, and the row that it had before is there for it.
pub proof fn lemma_inserted_can_be_removed<T: ComponentSet>(
    before: World,
    after: World,
    id: bus::Width,
    inserted: T,
)
    requires
        before.wf(),
        after.wf(),
        before.contents().contains_key(id),
        T::spec_columns().len() > 0,
        crate::arche_type::graph::change_allowed(
            before.graph(),
            before.entities@[id].arche_type_id,
            Change::Add,
            T::spec_columns(),
        ),
        crate::storage::tuples::inserted_into::<T>(
            before.contents()[id],
            after.contents()[id],
            inserted,
        ),
        crate::arche_type::graph::change_done(
            before.graph(),
            before.entities@[id].arche_type_id,
            Change::Add,
            T::spec_columns(),
            after.graph(),
            after.entities@[id].arche_type_id,
        ),
        before.entity_moved(after, id),
    ensures
        after.contents().contains_key(id),
        crate::storage::tuples::column_ids(T::spec_columns()).no_duplicates(),
        crate::storage::tuples::row_holds::<T>(after.contents()[id], inserted),
        after.has_room_for(
            crate::arche_type::graph::change_all(
                after.layouts_of(id),
                Change::Remove,
                T::spec_columns(),
            ),
        ),
{
    let columns = T::spec_columns();
    let ids = crate::storage::tuples::column_ids(columns);
    let from = before.entities@[id].arche_type_id;
    let to = after.entities@[id].arche_type_id;
    let start = before.layouts_of(id);
    let left = crate::arche_type::graph::change_all(
        after.layouts_of(id),
        Change::Remove,
        columns,
    );
    assert(before.graph().len() == before.arche_types.arche_types@.len());
    assert(after.graph().len() == after.arche_types.arche_types.len());
    assert(before.graph()[from.0 as int].grows_to(after.graph()[from.0 as int]));
    assert forall|c: ComponentId| ids.contains(c) implies !start.contains_key(c) by {
        let i = ids.index_of(c);
        assert(!start.contains_key(columns[i].0));
    }
    assert(ids[0] == columns[0].0);
    assert(ids.contains(columns[0].0));
    assert(after.layouts_of(id).contains_key(columns[0].0));
    assert(from != to);
    assert(left =~= start);
    crate::arche_type::graph::lemma_find(after.graph(), from, left.dom());
    assert(after.table(from.0 as int).free_rows@.contains(before.entities@[id].row.0));
}

/// After components are removed from an entity and inserted again, the entity holds the values
/// that it held, every other component and every other entity is as it was, and the entity has
/// the arche type that it had.
pub proof fn lemma_inserting_undoes_removing<T: ComponentSet>(
    before: World,
    middle: World,
    after: World,
    id: bus::Width,
    removed: T,
)
    requires
        before.wf(),
        before.contents().contains_key(id),
        T::spec_columns().len() > 0,
        crate::storage::tuples::column_ids(T::spec_columns()).no_duplicates(),
        forall|i: int|
            0 <= i < T::spec_columns().len() ==> crate::arche_type::graph::agrees(
                before.graph(),
                #[trigger] T::spec_columns()[i],
            ),
        crate::storage::tuples::row_holds::<T>(before.contents()[id], removed),
        middle.contents() == before.contents().insert(
            id,
            before.contents()[id].remove_keys(
                crate::storage::tuples::column_ids(T::spec_columns()).to_set(),
            ),
        ),
        (middle.graph(), middle.entities@[id].arche_type_id) == crate::arche_type::graph::walk(
            before.graph(),
            before.entities@[id].arche_type_id,
            Change::Remove,
            T::spec_columns(),
        ),
        crate::storage::tuples::inserted_into::<T>(
            middle.contents()[id],
            after.contents()[id],
            removed,
        ),
        after.contents() == middle.contents().insert(id, after.contents()[id]),
        (after.graph(), after.entities@[id].arche_type_id) == crate::arche_type::graph::walk(
            middle.graph(),
            middle.entities@[id].arche_type_id,
            Change::Add,
            T::spec_columns(),
        ),
    ensures
        crate::storage::tuples::row_holds::<T>(after.contents()[id], removed),
        after.contents()[id].dom() == before.contents()[id].dom(),
        after.contents()[id].remove_keys(
            crate::storage::tuples::column_ids(T::spec_columns()).to_set(),
        ) == before.contents()[id].remove_keys(
            crate::storage::tuples::column_ids(T::spec_columns()).to_set(),
        ),
        after.contents().remove(id) == before.contents().remove(id),
        after.entities@[id].arche_type_id == before.entities@[id].arche_type_id,
{
    let columns = T::spec_columns();
    let ids = crate::storage::tuples::column_ids(columns);
    let from = before.entities@[id].arche_type_id.0 as int;
    let row = before.contents()[id];
    lemma_entity_has_components_of_arche_type(before, id);
    assert forall|i: int| 0 <= i < columns.len() implies {
        &&& before.graph()[from].layouts.contains_key((#[trigger] columns[i]).0)
        &&& before.graph()[from].layouts[columns[i].0] == columns[i].1
    } by {
        assert(row.contains_key(columns[i].0));
        assert(row.dom().contains(columns[i].0));
        crate::arche_type::graph::lemma_registry(before.graph(), from, columns[i].0);
    }
    assert(middle.graph().len() == middle.arche_types.arche_types.len());
    assert(after.graph().len() == after.arche_types.arche_types.len());
    crate::arche_type::laws::lemma_adding_undoes_removing(
        before.graph(),
        before.entities@[id].arche_type_id,
        columns,
    );
    lemma_inserted_dom::<T>(middle.contents()[id], after.contents()[id], removed);
    assert forall|c: ComponentId| ids.to_set().contains(c) implies row.contains_key(c) by {
        let i = ids.index_of(c);
        assert(row.contains_key(columns[i].0));
    }
    assert(after.contents()[id].dom() =~= row.dom());
    assert(after.contents().remove(id) =~= before.contents().remove(id));
}

/// What is written to a component is what is read from it, and other components are as they
/// were.
pub proof fn lemma_read_after_write(
    row: Map<ComponentId, Seq<u8>>,
    component_ids: Seq<ComponentId>,
    written: Seq<Seq<u8>>,
    c: ComponentId,
)
    requires
        component_ids.no_duplicates(),
        written.len() == component_ids.len(),
        row.contains_key(c),
    ensures
        forall|i: int|
            0 <= i < component_ids.len() && #[trigger] component_ids[i] == c
                ==> crate::storage::table::overwrite(row, component_ids, written)[c] == written[i],
        !component_ids.contains(c) ==> crate::storage::table::overwrite(
            row,
            component_ids,
            written,
        )[c] == row[c],
        crate::storage::table::overwrite(row, component_ids, written).dom() == row.dom(),
{
    assert forall|i: int| 0 <= i < component_ids.len() && #[trigger] component_ids[i] == c implies
        crate::storage::table::overwrite(row, component_ids, written)[c] == written[i] by {
        assert(component_ids.index_of(c) == i);
    }
    assert(crate::storage::table::overwrite(row, component_ids, written).dom() =~= row.dom());
}

} // verus!
