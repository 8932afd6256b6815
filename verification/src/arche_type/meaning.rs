//! What the arche type graph means, in terms of the components that its tables store.

use crate::arche_type::graph::{ArcheTypeGraph, Change, Node};
use crate::arche_type::{ArcheType, ArcheTypeId};
use crate::storage::layout::Layout;
use crate::storage::ComponentId;
use vstd::prelude::*;

verus! {

/// The list that an arche type is found by is ascending and has exactly its components.
pub proof fn lemma_key_by_components(key: Seq<ComponentId>, components: Set<ComponentId>)
    ensures
        crate::arche_type::key::is_key(key, components) <==> {
            &&& forall|i: int, j: int| 0 <= i < j < key.len() ==> key[i] < key[j]
            &&& forall|i: int| 0 <= i < key.len() ==> components.contains(#[trigger] key[i])
            &&& forall|c: ComponentId| #[trigger]
                components.contains(c) ==> exists|i: int| 0 <= i < key.len() && key[i] == c
        },
{
    if crate::arche_type::key::is_key(key, components) {
        assert forall|i: int| 0 <= i < key.len() implies components.contains(#[trigger] key[i]) by {
            assert(key.to_set().contains(key[i]));
        }
        assert forall|c: ComponentId| #[trigger] components.contains(c) implies exists|i: int|
            0 <= i < key.len() && key[i] == c by {
            assert(key.to_set().contains(c));
        }
    } else if (forall|i: int| 0 <= i < key.len() ==> components.contains(#[trigger] key[i])) && (
    forall|c: ComponentId| #[trigger]
        components.contains(c) ==> exists|i: int| 0 <= i < key.len() && key[i] == c) {
        assert(key.to_set() =~= components);
    }
}

/// A node has the layouts that the columns of its table have, and the known neighbors.
pub proof fn lemma_node_of_arche_type(arche_type: ArcheType, c: ComponentId)
    ensures
        arche_type@.layouts.contains_key(c)
            <==> arche_type.component_table.components@.contains_key(c),
        arche_type@.layouts.contains_key(c) ==> arche_type@.layouts[c]
            == arche_type.component_table.components@[c].element_layout,
        arche_type@.add == arche_type.add_component@,
        arche_type@.remove == arche_type.remove_component@,
        arche_type@.edges(Change::Add) == arche_type.add_component@,
        arche_type@.edges(Change::Remove) == arche_type.remove_component@,
{
}

/// The graph has a node for each arche type, under the number of the arche type.
pub proof fn lemma_nodes_of_graph(graph: ArcheTypeGraph, i: int)
    ensures
        graph.graph().len() == graph.arche_types@.len(),
        0 <= i < graph.arche_types@.len() ==> {
            &&& graph.graph()[i] == graph.arche_types@[i]@
            &&& graph.table(i) == graph.arche_types@[i].component_table
        },
{
}

/// A new arche type has a new table, and knows no neighbors.
pub proof fn lemma_unused_arche_type(arche_type: ArcheType, c: ComponentId)
    requires
        arche_type.unused(),
    ensures
        arche_type.component_table.unused(),
        !arche_type.add_component@.contains_key(c),
        !arche_type.remove_component@.contains_key(c),
{
}

/// Every arche type is found by the ascending list of its components, and by no other list. Number
/// zero is the arche type without components. No two arche types have the same components, and a
/// component has the same layout wherever it is stored.
pub proof fn lemma_arche_types_are_found(
    graph: ArcheTypeGraph,
    i: int,
    j: int,
    key: Seq<ComponentId>,
    c: ComponentId,
)
    requires
        graph.wf(),
        0 <= i < graph.arche_types@.len(),
        0 <= j < graph.arche_types@.len(),
    ensures
        !graph.arche_types@[0].component_table.components@.contains_key(c),
        graph.arche_types@[i].component_table.wf(),
        graph.arche_type_lookup@.contains_key(key) && graph.arche_type_lookup@[key].0 == i
            <==> crate::arche_type::key::is_key(
            key,
            graph.arche_types@[i].component_table.components@.dom(),
        ),
        i != j ==> graph.arche_types@[i].component_table.components@.dom()
            != graph.arche_types@[j].component_table.components@.dom(),
        graph.arche_types@[i].component_table.components@.contains_key(c)
            && graph.arche_types@[j].component_table.components@.contains_key(c)
            ==> graph.arche_types@[i].component_table.components@[c].element_layout
            == graph.arche_types@[j].component_table.components@[c].element_layout,
{
    let nodes = graph.graph();
    lemma_nodes_of_graph(graph, 0);
    lemma_nodes_of_graph(graph, i);
    lemma_nodes_of_graph(graph, j);
    lemma_node_of_arche_type(graph.arche_types@[0], c);
    lemma_node_of_arche_type(graph.arche_types@[i], c);
    lemma_node_of_arche_type(graph.arche_types@[j], c);
    assert(nodes[i].layouts.dom() =~= graph.arche_types@[i].component_table.components@.dom());
    assert(nodes[j].layouts.dom() =~= graph.arche_types@[j].component_table.components@.dom());
    if crate::arche_type::key::is_key(key, nodes[i].layouts.dom()) {
        assert(graph.listed(i));
        let listed = choose|k: Seq<ComponentId>| #[trigger]
            graph.arche_type_lookup@.contains_key(k) && graph.arche_type_lookup@[k].0 == i;
        crate::arche_type::key::lemma_key_unique(key, listed, nodes[i].layouts.dom());
    }
    if i < j {
        assert(nodes[i].layouts.dom() != nodes[j].layouts.dom());
    }
    if j < i {
        assert(nodes[j].layouts.dom() != nodes[i].layouts.dom());
    }
    assert(nodes[i].layouts.contains_key(c) && nodes[j].layouts.contains_key(c)
        ==> nodes[i].layouts[c] == nodes[j].layouts[c]);
}

/// A known neighbor of an arche type has exactly one component more, or one less.
pub proof fn lemma_neighbors_differ_by_one(
    graph: ArcheTypeGraph,
    i: int,
    c: ComponentId,
    other: ComponentId,
)
    requires
        graph.wf(),
        0 <= i < graph.arche_types@.len(),
    ensures
        graph.arche_types@[i].add_component@.contains_key(c) ==> {
            let to = graph.arche_types@[i].add_component@[c].0;
            &&& to < graph.arche_types@.len()
            &&& !graph.arche_types@[i].component_table.components@.contains_key(c)
            &&& graph.arche_types@[to as int].component_table.components@.contains_key(other) <==> {
                ||| other == c
                ||| graph.arche_types@[i].component_table.components@.contains_key(other)
            }
        },
        graph.arche_types@[i].remove_component@.contains_key(c) ==> {
            let to = graph.arche_types@[i].remove_component@[c].0;
            &&& to < graph.arche_types@.len()
            &&& graph.arche_types@[to as int].component_table.components@.contains_key(other) <==> {
                &&& other != c
                &&& graph.arche_types@[i].component_table.components@.contains_key(other)
            }
        },
{
    let nodes = graph.graph();
    lemma_nodes_of_graph(graph, i);
    lemma_node_of_arche_type(graph.arche_types@[i], c);
    lemma_node_of_arche_type(graph.arche_types@[i], other);
    if nodes[i].add.contains_key(c) {
        let to = nodes[i].add[c].0 as int;
        lemma_nodes_of_graph(graph, to);
        lemma_node_of_arche_type(graph.arche_types@[to], other);
        assert(nodes[to].layouts.dom().contains(other) <==> nodes[i].layouts.dom().insert(
            c,
        ).contains(other));
    }
    if nodes[i].remove.contains_key(c) {
        let to = nodes[i].remove[c].0 as int;
        lemma_nodes_of_graph(graph, to);
        lemma_node_of_arche_type(graph.arche_types@[to], other);
        assert(nodes[to].layouts.dom().contains(other) <==> nodes[i].layouts.dom().remove(
            c,
        ).contains(other));
    }
}

/// Changing one component of an arche type leads to a known neighbor where there is one, and the
/// graph stays as it is. Else it leads to the arche type with the right components, or, if there
/// is none, to a new one with the next number, and that becomes a known neighbor. Nothing else is
/// changed.
pub proof fn lemma_step_by_components(
    graph: Seq<Node>,
    from: ArcheTypeId,
    change: Change,
    column: (ComponentId, Layout),
    i: int,
)
    requires
        crate::arche_type::graph::graph_wf(graph),
        graph.len() <= usize::MAX,
        from.0 < graph.len(),
    ensures
        ({
            let (after, to) = crate::arche_type::graph::step(graph, from, change, column);
            let start = graph[from.0 as int];
            let known = match change {
                Change::Add => start.add,
                Change::Remove => start.remove,
            };
            let layouts = match change {
                Change::Add => start.layouts.insert(column.0, column.1),
                Change::Remove => start.layouts.remove(column.0),
            };
            &&& known.contains_key(column.0) ==> after == graph && to == known[column.0]
            &&& !known.contains_key(column.0) ==> {
                &&& 0 <= i < graph.len() && graph[i].layouts.dom() == layouts.dom() ==> {
                    &&& to.0 == i
                    &&& after.len() == graph.len()
                }
                &&& (forall|k: int|
                    0 <= k < graph.len() ==> (#[trigger] graph[k]).layouts.dom() != layouts.dom())
                    ==> {
                    &&& to.0 == graph.len()
                    &&& after.len() == graph.len() + 1
                    &&& after.last().layouts == layouts
                    &&& after.last().add == Map::<ComponentId, ArcheTypeId>::empty()
                    &&& after.last().remove == Map::<ComponentId, ArcheTypeId>::empty()
                }
                &&& after[from.0 as int] == match change {
                    Change::Add => Node { add: start.add.insert(column.0, to), ..start },
                    Change::Remove => Node { remove: start.remove.insert(column.0, to), ..start },
                }
                &&& 0 <= i < graph.len() && i != from.0 ==> after[i] == graph[i]
            }
        }),
{
    let start = graph[from.0 as int];
    let layouts = match change {
        Change::Add => start.layouts.insert(column.0, column.1),
        Change::Remove => start.layouts.remove(column.0),
    };
    if 0 <= i < graph.len() && graph[i].layouts.dom() == layouts.dom() {
        crate::arche_type::graph::lemma_find(graph, ArcheTypeId(i as usize), layouts.dom());
    }
}

/// Changing no components leads nowhere, changing one is a single step, and changing some
/// components and then others is changing the ones and then the others.
pub proof fn lemma_walk_goes_step_by_step(
    graph: Seq<Node>,
    from: ArcheTypeId,
    change: Change,
    first: Seq<(ComponentId, Layout)>,
    second: Seq<(ComponentId, Layout)>,
    column: (ComponentId, Layout),
)
    ensures
        crate::arche_type::graph::walk(graph, from, change, Seq::empty()) == (graph, from),
        crate::arche_type::graph::walk(graph, from, change, seq![column])
            == crate::arche_type::graph::step(graph, from, change, column),
        ({
            let (reached, at) = crate::arche_type::graph::walk(graph, from, change, first);
            crate::arche_type::graph::walk(graph, from, change, first + second)
                == crate::arche_type::graph::walk(reached, at, change, second)
        }),
    decreases second.len(),
{
    reveal_with_fuel(crate::arche_type::graph::walk, 2);
    assert(seq![column].drop_last() =~= Seq::empty());
    if second.len() == 0 {
        assert(first + second =~= first);
    } else {
        lemma_walk_goes_step_by_step(graph, from, change, first, second.drop_last(), column);
        assert((first + second).drop_last() =~= first + second.drop_last());
        assert((first + second).last() == second.last());
    }
}

/// The components after some were added or removed.
pub proof fn lemma_changed_components(
    layouts: Map<ComponentId, Layout>,
    columns: Seq<(ComponentId, Layout)>,
    c: ComponentId,
    i: int,
)
    requires
        crate::storage::tuples::column_ids(columns).no_duplicates(),
    ensures
        ({
            let added = crate::arche_type::graph::change_all(layouts, Change::Add, columns);
            let listed = exists|k: int| 0 <= k < columns.len() && (#[trigger] columns[k]).0 == c;
            &&& added.contains_key(c) <==> layouts.contains_key(c) || listed
            &&& layouts.contains_key(c) && !listed ==> added[c] == layouts[c]
            &&& 0 <= i < columns.len() ==> added[columns[i].0] == columns[i].1
        }),
        ({
            let left = crate::arche_type::graph::change_all(layouts, Change::Remove, columns);
            let listed = exists|k: int| 0 <= k < columns.len() && (#[trigger] columns[k]).0 == c;
            &&& left.contains_key(c) <==> layouts.contains_key(c) && !listed
            &&& left.contains_key(c) ==> left[c] == layouts[c]
        }),
        ({
            let map = crate::arche_type::graph::layout_map(columns);
            let listed = exists|k: int| 0 <= k < columns.len() && (#[trigger] columns[k]).0 == c;
            &&& map.contains_key(c) <==> listed
            &&& 0 <= i < columns.len() ==> map[columns[i].0] == columns[i].1
        }),
{
    let ids = crate::storage::tuples::column_ids(columns);
    if exists|k: int| 0 <= k < columns.len() && (#[trigger] columns[k]).0 == c {
        let k = choose|k: int| 0 <= k < columns.len() && (#[trigger] columns[k]).0 == c;
        assert(ids[k] == c);
        assert(ids.contains(c));
    }
    if ids.contains(c) {
        let k = ids.index_of(c);
        assert(columns[k].0 == c);
    }
    if 0 <= i < columns.len() {
        assert(ids[i] == columns[i].0);
        assert(ids.index_of(columns[i].0) == i);
    }
}

/// The components that a graph has seen are those of its arche types, with their layouts. A
/// component agrees with the graph if it has its layout wherever it is stored.
pub proof fn lemma_registered_components(
    graph: Seq<Node>,
    i: int,
    c: ComponentId,
    layout: Layout,
)
    requires
        crate::arche_type::graph::graph_wf(graph),
        0 <= i < graph.len(),
    ensures
        crate::arche_type::graph::registry(graph).contains_key(c) <==> exists|k: int|
            0 <= k < graph.len() && (#[trigger] graph[k]).layouts.contains_key(c),
        graph[i].layouts.contains_key(c) ==> crate::arche_type::graph::registry(graph)[c]
            == graph[i].layouts[c],
        crate::arche_type::graph::agrees(graph, (c, layout)) <==> forall|k: int|
            0 <= k < graph.len() && (#[trigger] graph[k]).layouts.contains_key(c)
                ==> graph[k].layouts[c] == layout,
{
    if graph[i].layouts.contains_key(c) {
        crate::arche_type::graph::lemma_registry(graph, i, c);
    }
    assert forall|k: int|
        0 <= k < graph.len() && (#[trigger] graph[k]).layouts.contains_key(c) implies
        graph[k].layouts[c] == crate::arche_type::graph::registry(graph)[c] by {
        crate::arche_type::graph::lemma_registry(graph, k, c);
    }
}

/// Components can be added to an arche type that has none of them, and removed from any, if none
/// is listed twice and those that are added agree with the graph.
pub proof fn lemma_change_is_allowed(
    graph: Seq<Node>,
    from: ArcheTypeId,
    change: Change,
    columns: Seq<(ComponentId, Layout)>,
)
    requires
        forall|i: int, j: int|
            #![trigger columns[i], columns[j]]
            0 <= i < j < columns.len() ==> columns[i].0 != columns[j].0,
        change is Add ==> forall|i: int|
            0 <= i < columns.len() ==> {
                &&& !graph[from.0 as int].layouts.contains_key((#[trigger] columns[i]).0)
                &&& crate::arche_type::graph::agrees(graph, columns[i])
            },
    ensures
        crate::arche_type::graph::change_allowed(graph, from, change, columns),
{
    let ids = crate::storage::tuples::column_ids(columns);
    assert forall|i: int, j: int|
        0 <= i < ids.len() && 0 <= j < ids.len() && i != j implies ids[i] != ids[j] by {
        assert(ids[i] == columns[i].0 && ids[j] == columns[j].0);
    }
}

/// A change leads to the arche type that has the listed components more, or less. Arche types keep
/// their numbers, their components and their known neighbors.
pub proof fn lemma_change_leads_to_components(
    graph: Seq<Node>,
    from: ArcheTypeId,
    change: Change,
    columns: Seq<(ComponentId, Layout)>,
    after: Seq<Node>,
    to: ArcheTypeId,
    i: int,
    c: ComponentId,
)
    requires
        crate::arche_type::graph::change_done(graph, from, change, columns, after, to),
        crate::storage::tuples::column_ids(columns).no_duplicates(),
        0 <= i < graph.len(),
    ensures
        to.0 < after.len(),
        graph.len() <= after.len(),
        after[i].layouts == graph[i].layouts,
        graph[i].add.contains_key(c) ==> after[i].add.contains_key(c) && after[i].add[c]
            == graph[i].add[c],
        graph[i].remove.contains_key(c) ==> after[i].remove.contains_key(c) && after[i].remove[c]
            == graph[i].remove[c],
        ({
            let had = graph[from.0 as int].layouts.contains_key(c);
            let listed = exists|k: int| 0 <= k < columns.len() && (#[trigger] columns[k]).0 == c;
            after[to.0 as int].layouts.contains_key(c) <==> match change {
                Change::Add => had || listed,
                Change::Remove => had && !listed,
            }
        }),
{
    assert(graph[i].grows_to(after[i]));
    lemma_changed_components(graph[from.0 as int].layouts, columns, c, 0);
}

/// While arche types are looked for, no table is touched, and those that are added are new.
pub proof fn lemma_tables_are_kept(before: ArcheTypeGraph, after: ArcheTypeGraph, i: int)
    requires
        before.same_tables(after),
        0 <= i < after.arche_types@.len(),
    ensures
        before.arche_types@.len() <= after.arche_types@.len(),
        i < before.arche_types@.len() ==> after.arche_types@[i].component_table
            == before.arche_types@[i].component_table,
        i >= before.arche_types@.len() ==> after.arche_types@[i].component_table.unused(),
{
    assert(after.arche_types@[i] == after.arche_types@[i]);
}

/// While rows are moved, only the tables that they are moved from and to are touched. The graph
/// and the lookup stay as they are.
pub proof fn lemma_only_tables_are_touched(
    before: ArcheTypeGraph,
    after: ArcheTypeGraph,
    from: int,
    to: int,
    i: int,
)
    requires
        before.same_but_for_tables(after, from, to),
        0 <= i < before.arche_types@.len(),
    ensures
        after.arche_type_lookup == before.arche_type_lookup,
        after.arche_types@.len() == before.arche_types@.len(),
        after.arche_types@[i].add_component@ == before.arche_types@[i].add_component@,
        after.arche_types@[i].remove_component@ == before.arche_types@[i].remove_component@,
        after.arche_types@[i].component_table.layouts()
            == before.arche_types@[i].component_table.layouts(),
        i != from && i != to ==> after.arche_types@[i] == before.arche_types@[i],
{
    lemma_nodes_of_graph(before, i);
    lemma_nodes_of_graph(after, i);
    assert(after.arche_types@[i]@ == before.arche_types@[i]@);
}

} // verus!
