//! What holds of the arche type graph as a whole.

use crate::arche_type::graph::{Change, Node};
use crate::arche_type::ArcheTypeId;
use crate::storage::layout::Layout;
use crate::storage::ComponentId;
use vstd::prelude::*;

verus! {

/// Changing components leads to the arche type with the right components. The graph stays in
/// order, keeps the numbers of its arche types and what it knows of their neighbors, and grows by
/// at most one arche type for each component. The arche types must have numbers.
pub proof fn lemma_walk(
    graph: Seq<Node>,
    from: ArcheTypeId,
    change: Change,
    columns: Seq<(ComponentId, Layout)>,
)
    requires
        crate::arche_type::graph::graph_wf(graph),
        from.0 < graph.len(),
        crate::arche_type::graph::walk(graph, from, change, columns).0.len() <= usize::MAX,
        crate::arche_type::graph::change_allowed(graph, from, change, columns),
    ensures
        ({
            let (after, to) = crate::arche_type::graph::walk(graph, from, change, columns);
            &&& crate::arche_type::graph::graph_wf(after)
            &&& after.len() <= graph.len() + columns.len()
            &&& crate::arche_type::graph::change_done(graph, from, change, columns, after, to)
        }),
{
    lemma_walk_part(graph, from, change, columns, columns.len() as int);
    assert(columns.take(columns.len() as int) =~= columns);
}

/// The same, after some of the components. Whether or not the arche types have numbers, the graph
/// does not shrink.
proof fn lemma_walk_part(
    graph: Seq<Node>,
    from: ArcheTypeId,
    change: Change,
    columns: Seq<(ComponentId, Layout)>,
    done: int,
)
    requires
        crate::arche_type::graph::graph_wf(graph),
        from.0 < graph.len(),
        crate::arche_type::graph::change_allowed(graph, from, change, columns),
        0 <= done <= columns.len(),
    ensures
        ({
            let first = columns.take(done);
            let (after, to) = crate::arche_type::graph::walk(graph, from, change, first);
            &&& to.0 < after.len()
            &&& after.len() <= usize::MAX ==> {
                &&& crate::arche_type::graph::graph_wf(after)
                &&& after.len() <= graph.len() + done
                &&& crate::arche_type::graph::change_done(graph, from, change, first, after, to)
            }
        }),
    decreases done,
{
    if done == 0 {
        crate::arche_type::graph::lemma_change_starts(graph, from, change, columns);
    } else {
        lemma_walk_part(graph, from, change, columns, done - 1);
        let (reached, at) = crate::arche_type::graph::walk(
            graph,
            from,
            change,
            columns.take(done - 1),
        );
        assert(columns.take(done).drop_last() =~= columns.take(done - 1));
        let (after, to) = crate::arche_type::graph::step(reached, at, change, columns[done - 1]);
        assert(reached.len() <= after.len());
        if after.len() <= usize::MAX {
            crate::arche_type::graph::lemma_change_goes_on(
                graph,
                from,
                change,
                columns,
                done - 1,
                reached,
                at,
            );
        }
    }
}

/// The order in which components are added, or removed, does not matter: the arche type is the
/// same.
pub proof fn lemma_order_does_not_matter(
    graph: Seq<Node>,
    from: ArcheTypeId,
    change: Change,
    columns: Seq<(ComponentId, Layout)>,
    reordered: Seq<(ComponentId, Layout)>,
)
    requires
        crate::arche_type::graph::graph_wf(graph),
        from.0 < graph.len(),
        ({
            let after = crate::arche_type::graph::walk(graph, from, change, columns).0;
            &&& after.len() <= usize::MAX
            &&& crate::arche_type::graph::walk(after, from, change, reordered).0.len()
                <= usize::MAX
        }),
        crate::arche_type::graph::change_allowed(graph, from, change, columns),
        crate::arche_type::graph::change_allowed(graph, from, change, reordered),
        crate::arche_type::graph::layout_map(columns) == crate::arche_type::graph::layout_map(
            reordered,
        ),
    ensures
        ({
            let (after, to) = crate::arche_type::graph::walk(graph, from, change, columns);
            crate::arche_type::graph::walk(after, from, change, reordered).1 == to
        }),
{
    let (after, to) = crate::arche_type::graph::walk(graph, from, change, columns);
    lemma_walk(graph, from, change, columns);
    let start = graph[from.0 as int].layouts;
    assert(graph[from.0 as int].grows_to(after[from.0 as int]));
    assert(crate::arche_type::graph::change_allowed(after, from, change, reordered)) by {
        if change is Add {
            assert forall|i: int| 0 <= i < reordered.len() implies {
                &&& !after[from.0 as int].layouts.contains_key((#[trigger] reordered[i]).0)
                &&& crate::arche_type::graph::agrees(after, reordered[i])
            } by {
                lemma_layout_map(reordered, i);
            }
        }
    }
    lemma_walk(after, from, change, reordered);
    let (last, end) = crate::arche_type::graph::walk(after, from, change, reordered);
    assert(after[to.0 as int].grows_to(last[to.0 as int]));
    lemma_same_components(columns, reordered);
    assert(last[end.0 as int].layouts == last[to.0 as int].layouts);
}

/// Lists with the same layouts list the same components.
proof fn lemma_same_components(
    columns: Seq<(ComponentId, Layout)>,
    reordered: Seq<(ComponentId, Layout)>,
)
    requires
        crate::arche_type::graph::layout_map(columns) == crate::arche_type::graph::layout_map(
            reordered,
        ),
    ensures
        crate::storage::tuples::column_ids(columns).to_set()
            == crate::storage::tuples::column_ids(reordered).to_set(),
{
    let ids = crate::storage::tuples::column_ids(columns);
    let reordered_ids = crate::storage::tuples::column_ids(reordered);
    let layouts = crate::arche_type::graph::layout_map(columns);
    assert(layouts.dom() =~= ids.to_set());
    assert(crate::arche_type::graph::layout_map(reordered).dom() =~= reordered_ids.to_set());
}

/// Adding components and then removing them leads back to where it started.
pub proof fn lemma_removing_undoes_adding(
    graph: Seq<Node>,
    from: ArcheTypeId,
    columns: Seq<(ComponentId, Layout)>,
)
    requires
        crate::arche_type::graph::graph_wf(graph),
        from.0 < graph.len(),
        ({
            let (after, to) = crate::arche_type::graph::walk(graph, from, Change::Add, columns);
            &&& after.len() <= usize::MAX
            &&& crate::arche_type::graph::walk(after, to, Change::Remove, columns).0.len()
                <= usize::MAX
        }),
        crate::arche_type::graph::change_allowed(graph, from, Change::Add, columns),
    ensures
        ({
            let (after, to) = crate::arche_type::graph::walk(graph, from, Change::Add, columns);
            crate::arche_type::graph::walk(after, to, Change::Remove, columns).1 == from
        }),
{
    let (after, to) = crate::arche_type::graph::walk(graph, from, Change::Add, columns);
    let ids = crate::storage::tuples::column_ids(columns);
    let start = graph[from.0 as int].layouts;
    lemma_walk(graph, from, Change::Add, columns);
    lemma_walk(after, to, Change::Remove, columns);
    let (last, end) = crate::arche_type::graph::walk(after, to, Change::Remove, columns);
    assert(graph[from.0 as int].grows_to(after[from.0 as int]));
    assert(after[from.0 as int].grows_to(last[from.0 as int]));
    assert forall|c: ComponentId| ids.contains(c) implies !start.contains_key(c) by {
        let i = ids.index_of(c);
        assert(!start.contains_key(columns[i].0));
    }
    assert(last[end.0 as int].layouts =~= start);
    assert(last[end.0 as int].layouts == last[from.0 as int].layouts);
}

/// Removing components and then adding them again leads back to where it started.
pub proof fn lemma_adding_undoes_removing(
    graph: Seq<Node>,
    from: ArcheTypeId,
    columns: Seq<(ComponentId, Layout)>,
)
    requires
        crate::arche_type::graph::graph_wf(graph),
        from.0 < graph.len(),
        ({
            let (after, to) = crate::arche_type::graph::walk(graph, from, Change::Remove, columns);
            &&& after.len() <= usize::MAX
            &&& crate::arche_type::graph::walk(after, to, Change::Add, columns).0.len()
                <= usize::MAX
        }),
        crate::storage::tuples::column_ids(columns).no_duplicates(),
        forall|i: int|
            0 <= i < columns.len() ==> {
                &&& graph[from.0 as int].layouts.contains_key((#[trigger] columns[i]).0)
                &&& graph[from.0 as int].layouts[columns[i].0] == columns[i].1
            },
    ensures
        ({
            let (after, to) = crate::arche_type::graph::walk(graph, from, Change::Remove, columns);
            crate::arche_type::graph::walk(after, to, Change::Add, columns).1 == from
        }),
{
    let (after, to) = crate::arche_type::graph::walk(graph, from, Change::Remove, columns);
    let ids = crate::storage::tuples::column_ids(columns);
    let start = graph[from.0 as int].layouts;
    lemma_walk(graph, from, Change::Remove, columns);
    assert(crate::arche_type::graph::change_allowed(after, to, Change::Add, columns)) by {
        assert forall|i: int| 0 <= i < columns.len() implies {
            &&& !after[to.0 as int].layouts.contains_key((#[trigger] columns[i]).0)
            &&& crate::arche_type::graph::agrees(after, columns[i])
        } by {
            assert(ids[i] == columns[i].0);
            assert(ids.to_set().contains(columns[i].0));
            crate::arche_type::graph::lemma_registry(graph, from.0 as int, columns[i].0);
        }
    }
    lemma_walk(after, to, Change::Add, columns);
    let (last, end) = crate::arche_type::graph::walk(after, to, Change::Add, columns);
    assert(graph[from.0 as int].grows_to(after[from.0 as int]));
    assert(after[from.0 as int].grows_to(last[from.0 as int]));
    assert forall|c: ComponentId| ids.contains(c) implies start.contains_key(c) && start[c]
        == crate::arche_type::graph::layout_map(columns)[c] by {
        let i = ids.index_of(c);
        lemma_layout_map(columns, i);
        assert(start.contains_key(columns[i].0));
    }
    assert(last[end.0 as int].layouts =~= start);
    assert(last[end.0 as int].layouts == last[from.0 as int].layouts);
}

/// Each of the listed components has the layout that is listed with it, if it is listed once.
proof fn lemma_layout_map(columns: Seq<(ComponentId, Layout)>, i: int)
    requires
        crate::storage::tuples::column_ids(columns).no_duplicates(),
        0 <= i < columns.len(),
    ensures
        crate::arche_type::graph::layout_map(columns).contains_key(columns[i].0),
        crate::arche_type::graph::layout_map(columns)[columns[i].0] == columns[i].1,
{
    let ids = crate::storage::tuples::column_ids(columns);
    assert(ids[i] == columns[i].0);
    assert(ids.index_of(columns[i].0) == i);
}

} // verus!
