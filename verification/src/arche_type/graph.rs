//! The arche type graph.

use crate::arche_type::collections::{sort_components, ArcheTypeLookup};
use crate::arche_type::{ArcheType, ArcheTypeId, EMPTY_ARCHE_TYPE_ID};
use crate::storage::column::RowIndex;
use crate::storage::component::ColumnConstruction;
use crate::storage::layout::Layout;
use crate::storage::table::ComponentTable;
use crate::storage::tuples::{ComponentSet, ReduceArgument, StorageInsert};
use crate::storage::ComponentId;
use vstd::prelude::*;

verus! {

/// The way from an arche type to a neighbor: a component is added, or one is removed.
#[derive(Debug, Eq, PartialEq, Structural, Clone, Copy)]
pub enum Change {
    Add,
    Remove,
}

/// A node of the arche type graph: the components of an arche type, and its known neighbors.
#[verifier::ext_equal]
pub struct Node {
    pub layouts: Map<ComponentId, Layout>,
    pub add: Map<ComponentId, ArcheTypeId>,
    pub remove: Map<ComponentId, ArcheTypeId>,
}

impl Node {
    /// The known neighbors in one direction.
    pub open spec fn edges(self, change: Change) -> Map<ComponentId, ArcheTypeId> {
        match change {
            Change::Add => self.add,
            Change::Remove => self.remove,
        }
    }

    /// The node with one more known neighbor.
    pub open spec fn with_edge(self, change: Change, c: ComponentId, to: ArcheTypeId) -> Self {
        match change {
            Change::Add => Node { add: self.add.insert(c, to), ..self },
            Change::Remove => Node { remove: self.remove.insert(c, to), ..self },
        }
    }

    /// What was known of the node is still known.
    pub open spec fn grows_to(self, after: Self) -> bool {
        &&& after.layouts == self.layouts
        &&& self.add.submap_of(after.add)
        &&& self.remove.submap_of(after.remove)
    }
}

impl View for ArcheType {
    type V = Node;

    open spec fn view(&self) -> Node {
        Node {
            layouts: self.component_table.layouts(),
            add: self.add_component@,
            remove: self.remove_component@,
        }
    }
}

impl ArcheType {
    /// The known neighbor with the component added or removed.
    fn get_neighbor(&self, change: Change, component_id: ComponentId) -> (to: Option<ArcheTypeId>)
        ensures
            match to {
                Some(to) => self@.edges(change).contains_key(component_id) && to == self@.edges(
                    change,
                )[component_id],
                None => !self@.edges(change).contains_key(component_id),
            },
    {
        match change {
            Change::Add => self.get_added(component_id),
            Change::Remove => self.get_removed(component_id),
        }
    }

    /// The components of this arche type, plus or minus the given one, in the order that arche
    /// types are found by.
    fn neighbor_key(&self, change: Change, component_id: ComponentId) -> (key: Vec<ComponentId>)
        requires
            change is Add ==> !self@.layouts.contains_key(component_id),
        ensures
            crate::arche_type::key::is_key(
                key@,
                match change {
                    Change::Add => self@.layouts.dom().insert(component_id),
                    Change::Remove => self@.layouts.dom().remove(component_id),
                },
            ),
    {
        let mut key = self.component_table.iter_component_ids();
        let ghost all = key@;
        match change {
            Change::Add => {
                key.push(component_id);
                proof {
                    lemma_push_to_set(all, component_id);
                    assert(!all.to_set().contains(component_id));
                }
            },
            Change::Remove => {
                key = without(key, component_id);
            },
        }
        let ghost unsorted = key@;
        sort_components(&mut key);
        proof {
            crate::arche_type::key::lemma_key_sorted(unsorted, key@);
        }
        key
    }
}

/// The list without the given component.
fn without(components: Vec<ComponentId>, component_id: ComponentId) -> (rest: Vec<ComponentId>)
    requires
        components@.no_duplicates(),
    ensures
        rest@.no_duplicates(),
        rest@.to_set() == components@.to_set().remove(component_id),
{
    let mut rest: Vec<ComponentId> = Vec::new();
    let mut k: usize = 0;
    while k < components.len()
        invariant
            k <= components.len(),
            components@.no_duplicates(),
            rest@.no_duplicates(),
            rest@.to_set() == components@.take(k as int).to_set().remove(component_id),
        decreases components.len() - k,
    {
        let ghost before = rest@;
        let next = components[k];
        proof {
            lemma_push_to_set(components@.take(k as int), next);
            lemma_push_to_set(before, next);
            assert(components@.take(k + 1) =~= components@.take(k as int).push(next));
            if components@.take(k as int).to_set().contains(next) {
                let i = components@.take(k as int).index_of(next);
                assert(components@[i] == next);
            }
            assert(before.contains(next) <==> before.to_set().contains(next));
        }
        if next != component_id {
            rest.push(next);
            assert(rest@.to_set() =~= components@.take(k + 1).to_set().remove(component_id));
        } else {
            assert(rest@.to_set() =~= components@.take(k + 1).to_set().remove(component_id));
        }
        k += 1;
    }
    assert(components@.take(k as int) =~= components@);
    rest
}

/// What is in a longer list.
proof fn lemma_push_to_set(components: Seq<ComponentId>, next: ComponentId)
    ensures
        components.push(next).to_set() == components.to_set().insert(next),
{
    let longer = components.push(next);
    assert forall|c: ComponentId| longer.to_set().contains(c) <==> components.to_set().insert(
        next,
    ).contains(c) by {
        if components.contains(c) {
            let i = components.index_of(c);
            assert(longer[i] == c);
        }
        assert(longer[components.len() as int] == next);
    }
    assert(longer.to_set() =~= components.to_set().insert(next));
}

/// The components with one of them added or removed.
pub open spec fn change_one(
    layouts: Map<ComponentId, Layout>,
    change: Change,
    column: (ComponentId, Layout),
) -> Map<ComponentId, Layout> {
    match change {
        Change::Add => layouts.insert(column.0, column.1),
        Change::Remove => layouts.remove(column.0),
    }
}

/// The layout of each of the listed components.
pub open spec fn layout_map(columns: Seq<(ComponentId, Layout)>) -> Map<ComponentId, Layout> {
    let ids = crate::storage::tuples::column_ids(columns);
    Map::new(|c: ComponentId| ids.contains(c), |c: ComponentId| columns[ids.index_of(c)].1)
}

/// The components with the listed ones added or removed.
pub open spec fn change_all(
    layouts: Map<ComponentId, Layout>,
    change: Change,
    columns: Seq<(ComponentId, Layout)>,
) -> Map<ComponentId, Layout> {
    match change {
        Change::Add => layouts.union_prefer_right(layout_map(columns)),
        Change::Remove => layouts.remove_keys(
            crate::storage::tuples::column_ids(columns).to_set(),
        ),
    }
}

/// Changing one more component.
pub proof fn lemma_change_all(
    layouts: Map<ComponentId, Layout>,
    change: Change,
    columns: Seq<(ComponentId, Layout)>,
    next: (ComponentId, Layout),
)
    requires
        crate::storage::tuples::column_ids(columns).no_duplicates(),
        !crate::storage::tuples::column_ids(columns).contains(next.0),
    ensures
        change_all(layouts, change, columns.push(next)) == change_one(
            change_all(layouts, change, columns),
            change,
            next,
        ),
{
    let ids = crate::storage::tuples::column_ids(columns);
    let more = columns.push(next);
    let more_ids = crate::storage::tuples::column_ids(more);
    assert(more_ids =~= ids.push(next.0));
    assert forall|c: ComponentId| more_ids.contains(c) <==> ids.contains(c) || c == next.0 by {
        if ids.contains(c) {
            let i = ids.index_of(c);
            assert(more_ids[i] == c);
        }
        if c == next.0 {
            assert(more_ids[columns.len() as int] == c);
        }
    }
    assert forall|c: ComponentId| ids.contains(c) implies more_ids.index_of(c) == ids.index_of(
        c,
    ) by {
        let i = ids.index_of(c);
        let j = more_ids.index_of(c);
        assert(more_ids[i] == c);
        assert(more_ids[j] == c);
        assert(j < ids.len());
        assert(ids[j] == c);
    }
    assert(more_ids.contains(next.0) ==> more_ids[more_ids.index_of(next.0)] == next.0);
    assert(layout_map(more) =~= layout_map(columns).insert(next.0, next.1)) by {
        let j = more_ids.index_of(next.0);
        if j < ids.len() {
            assert(ids[j] == next.0);
        }
    }
    assert(change_all(layouts, change, more) =~= change_one(
        change_all(layouts, change, columns),
        change,
        next,
    ));
}

/// The arche type with exactly the given components.
pub open spec fn find(graph: Seq<Node>, components: Set<ComponentId>) -> Option<ArcheTypeId> {
    if exists|i: int| 0 <= i < graph.len() && (#[trigger] graph[i]).layouts.dom() == components {
        Some(
            ArcheTypeId(
                (choose|i: int|
                    0 <= i < graph.len() && (#[trigger] graph[i]).layouts.dom()
                        == components) as usize,
            ),
        )
    } else {
        None
    }
}

/// The arche type with the given components is the only one.
pub proof fn lemma_find(graph: Seq<Node>, id: ArcheTypeId, components: Set<ComponentId>)
    requires
        graph_wf(graph),
        id.0 < graph.len() <= usize::MAX,
        graph[id.0 as int].layouts.dom() == components,
    ensures
        find(graph, components) == Some(id),
{
    let i = choose|i: int|
        0 <= i < graph.len() && (#[trigger] graph[i]).layouts.dom() == components;
    assert(graph[i].layouts.dom() == graph[id.0 as int].layouts.dom());
}

/// The graph after one component of an arche type was changed, and where that leads. A known
/// neighbor is taken. Else the arche type with the right components becomes a known neighbor. If
/// there is none, it is added to the end of the graph first.
pub open spec fn step(
    graph: Seq<Node>,
    from: ArcheTypeId,
    change: Change,
    column: (ComponentId, Layout),
) -> (Seq<Node>, ArcheTypeId) {
    let start = graph[from.0 as int];
    if start.edges(change).contains_key(column.0) {
        (graph, start.edges(change)[column.0])
    } else {
        let layouts = change_one(start.layouts, change, column);
        match find(graph, layouts.dom()) {
            Some(to) => (
                graph.update(from.0 as int, start.with_edge(change, column.0, to)),
                to,
            ),
            None => {
                let to = ArcheTypeId(graph.len() as usize);
                let node = Node { layouts, add: Map::empty(), remove: Map::empty() };
                (
                    graph.push(node).update(
                        from.0 as int,
                        start.with_edge(change, column.0, to),
                    ),
                    to,
                )
            },
        }
    }
}

/// The graph after the components were changed one after the other, and where that leads.
pub open spec fn walk(
    graph: Seq<Node>,
    from: ArcheTypeId,
    change: Change,
    columns: Seq<(ComponentId, Layout)>,
) -> (Seq<Node>, ArcheTypeId)
    decreases columns.len(),
{
    if columns.len() == 0 {
        (graph, from)
    } else {
        let (reached, at) = walk(graph, from, change, columns.drop_last());
        step(reached, at, change, columns.last())
    }
}

/// The components that the arche types have, with their layouts.
pub open spec fn registry(graph: Seq<Node>) -> Map<ComponentId, Layout> {
    Map::new(
        |c: ComponentId|
            exists|i: int|
                0 <= i < graph.len() && (#[trigger] graph[i]).layouts.contains_key(c),
        |c: ComponentId|
            graph[choose|i: int|
                0 <= i < graph.len() && (#[trigger] graph[i]).layouts.contains_key(c)].layouts[c],
    )
}

/// The component has this layout wherever it occurs.
pub open spec fn agrees(graph: Seq<Node>, column: (ComponentId, Layout)) -> bool {
    registry(graph).contains_key(column.0) ==> registry(graph)[column.0] == column.1
}

/// The graph has the empty arche type, it has no two arche types with the same components, a
/// component has the same layout in all of them, and known neighbors differ by the component
/// that leads to them.
pub open spec fn graph_wf(graph: Seq<Node>) -> bool {
    &&& graph.len() > EMPTY_ARCHE_TYPE_ID
    &&& graph[EMPTY_ARCHE_TYPE_ID as int].layouts == Map::<ComponentId, Layout>::empty()
    &&& forall|i: int, j: int|
        #![trigger graph[i], graph[j]]
        0 <= i < j < graph.len() ==> graph[i].layouts.dom() != graph[j].layouts.dom()
    &&& forall|i: int, j: int, c: ComponentId|
        #![trigger graph[i].layouts.contains_key(c), graph[j].layouts.contains_key(c)]
        0 <= i < graph.len() && 0 <= j < graph.len() && graph[i].layouts.contains_key(c)
            && graph[j].layouts.contains_key(c) ==> graph[i].layouts[c] == graph[j].layouts[c]
    &&& forall|i: int, c: ComponentId| #[trigger]
        graph[i].add.contains_key(c) && 0 <= i < graph.len() ==> {
            &&& !graph[i].layouts.contains_key(c)
            &&& graph[i].add[c].0 < graph.len()
            &&& graph[graph[i].add[c].0 as int].layouts.dom() == graph[i].layouts.dom().insert(c)
        }
    &&& forall|i: int, c: ComponentId| #[trigger]
        graph[i].remove.contains_key(c) && 0 <= i < graph.len() ==> {
            &&& graph[i].remove[c].0 < graph.len()
            &&& graph[graph[i].remove[c].0 as int].layouts.dom() == graph[i].layouts.dom().remove(c)
        }
}

/// No arche type is lost or renumbered, and known neighbors stay known.
pub open spec fn grows_to(graph: Seq<Node>, after: Seq<Node>) -> bool {
    &&& graph.len() <= after.len()
    &&& forall|i: int|
        #![trigger after[i]]
        0 <= i < graph.len() ==> graph[i].grows_to(after[i])
}

/// A component has the registered layout.
pub proof fn lemma_registry(graph: Seq<Node>, i: int, c: ComponentId)
    requires
        graph_wf(graph),
        0 <= i < graph.len(),
        graph[i].layouts.contains_key(c),
    ensures
        registry(graph).contains_key(c),
        registry(graph)[c] == graph[i].layouts[c],
{
    let j = choose|j: int| 0 <= j < graph.len() && (#[trigger] graph[j]).layouts.contains_key(c);
    assert(graph[j].layouts.contains_key(c));
}

/// Where one change leads: to the arche type with the right components, in a graph that is still
/// in order.
pub proof fn lemma_step(
    graph: Seq<Node>,
    from: ArcheTypeId,
    change: Change,
    column: (ComponentId, Layout),
)
    requires
        graph_wf(graph),
        graph.len() <= usize::MAX,
        from.0 < graph.len(),
        change is Add ==> {
            &&& !graph[from.0 as int].layouts.contains_key(column.0)
            &&& agrees(graph, column)
        },
    ensures
        ({
            let (after, to) = step(graph, from, change, column);
            &&& graph_wf(after)
            &&& to.0 < after.len()
            &&& grows_to(graph, after)
            &&& after[to.0 as int].layouts == change_one(
                graph[from.0 as int].layouts,
                change,
                column,
            )
            &&& registry(after) == match change {
                Change::Add => registry(graph).insert(column.0, column.1),
                Change::Remove => registry(graph),
            }
        }),
{
    let (after, to) = step(graph, from, change, column);
    let start = graph[from.0 as int];
    let layouts = change_one(start.layouts, change, column);
    let found = find(graph, layouts.dom());
    if !start.edges(change).contains_key(column.0) {
        if found is Some {
            let i = choose|i: int|
                0 <= i < graph.len() && (#[trigger] graph[i]).layouts.dom() == layouts.dom();
            assert(to.0 == i);
            assert(graph[i].layouts.dom() == layouts.dom());
        } else {
            assert forall|i: int| 0 <= i < graph.len() implies (#[trigger] graph[i]).layouts.dom()
                != layouts.dom() by {}
            assert(after[graph.len() as int].layouts == layouts);
        }
    }
    // The components that the change leads to have the layouts that they should have.
    if to.0 < graph.len() {
        let reached = graph[to.0 as int];
        assert(reached.layouts.dom() =~= layouts.dom());
        assert forall|c: ComponentId| layouts.contains_key(c) implies reached.layouts[c]
            == layouts[c] by {
            assert(reached.layouts.dom().contains(c));
            assert(reached.layouts.contains_key(c));
            lemma_registry(graph, to.0 as int, c);
            if start.layouts.contains_key(c) {
                assert(graph[from.0 as int].layouts.contains_key(c));
            }
        }
        assert(reached.layouts =~= layouts);
    }
    assert forall|i: int| 0 <= i < graph.len() implies graph[i].grows_to(#[trigger] after[i]) by {
        if i == from.0 {
            assert(after[i] == start || after[i] == start.with_edge(change, column.0, to));
        } else {
            assert(after[i] == graph[i]);
        }
    }
    assert(after[to.0 as int].layouts == layouts);
    lemma_step_wf(graph, from, change, column, after, to);
}

/// The graph after one change is in order.
proof fn lemma_step_wf(
    graph: Seq<Node>,
    from: ArcheTypeId,
    change: Change,
    column: (ComponentId, Layout),
    after: Seq<Node>,
    to: ArcheTypeId,
)
    requires
        graph_wf(graph),
        graph.len() <= usize::MAX,
        from.0 < graph.len(),
        change is Add ==> {
            &&& !graph[from.0 as int].layouts.contains_key(column.0)
            &&& agrees(graph, column)
        },
        (after, to) == step(graph, from, change, column),
        to.0 < after.len(),
        grows_to(graph, after),
        after[to.0 as int].layouts == change_one(graph[from.0 as int].layouts, change, column),
    ensures
        graph_wf(after),
        registry(after) == match change {
            Change::Add => registry(graph).insert(column.0, column.1),
            Change::Remove => registry(graph),
        },
{
    let start = graph[from.0 as int];
    let layouts = change_one(start.layouts, change, column);
    let added = after.len() > graph.len();
    assert(after.len() == graph.len() || after.len() == graph.len() + 1);
    assert(added ==> after[graph.len() as int].layouts == layouts);
    assert(added ==> after[graph.len() as int].add == Map::<ComponentId, ArcheTypeId>::empty());
    assert(added ==> after[graph.len() as int].remove == Map::<ComponentId, ArcheTypeId>::empty());
    assert(added ==> find(graph, layouts.dom()) is None);
    assert forall|i: int, j: int|
        #![trigger after[i], after[j]]
        0 <= i < j < after.len() implies after[i].layouts.dom() != after[j].layouts.dom() by {
        assert(graph[i].layouts == after[i].layouts);
        if j < graph.len() {
            assert(graph[j].layouts == after[j].layouts);
        }
    }
    assert forall|i: int, c: ComponentId|
        0 <= i < after.len() && #[trigger] after[i].layouts.contains_key(c) implies match change {
        Change::Add => if c == column.0 {
            after[i].layouts[c] == column.1
        } else {
            registry(graph).contains_key(c) && after[i].layouts[c] == registry(graph)[c]
        },
        Change::Remove => registry(graph).contains_key(c) && after[i].layouts[c] == registry(
            graph,
        )[c],
    } by {
        if i < graph.len() {
            assert(graph[i].layouts.contains_key(c));
            lemma_registry(graph, i, c);
        } else if start.layouts.contains_key(c) {
            lemma_registry(graph, from.0 as int, c);
        }
    }
    assert forall|i: int, c: ComponentId| #[trigger]
        after[i].add.contains_key(c) && 0 <= i < after.len() implies {
        &&& !after[i].layouts.contains_key(c)
        &&& after[i].add[c].0 < after.len()
        &&& after[after[i].add[c].0 as int].layouts.dom() == after[i].layouts.dom().insert(c)
    } by {
        if i < graph.len() {
            assert(graph[i].grows_to(after[i]));
            if graph[i].add.contains_key(c) {
                let t = graph[i].add[c].0 as int;
                assert(graph[t].grows_to(after[t]));
            } else {
                assert(i == from.0 && c == column.0 && after[i].add[c] == to);
                assert(after[to.0 as int].layouts.dom() =~= after[i].layouts.dom().insert(c));
            }
        }
    }
    assert forall|i: int, c: ComponentId| #[trigger]
        after[i].remove.contains_key(c) && 0 <= i < after.len() implies {
        &&& after[i].remove[c].0 < after.len()
        &&& after[after[i].remove[c].0 as int].layouts.dom() == after[i].layouts.dom().remove(c)
    } by {
        if i < graph.len() {
            assert(graph[i].grows_to(after[i]));
            if graph[i].remove.contains_key(c) {
                let t = graph[i].remove[c].0 as int;
                assert(graph[t].grows_to(after[t]));
            } else {
                assert(i == from.0 && c == column.0 && after[i].remove[c] == to);
                assert(after[to.0 as int].layouts.dom() =~= after[i].layouts.dom().remove(c));
            }
        }
    }
    assert(graph[0].grows_to(after[0]));
    let expected = match change {
        Change::Add => registry(graph).insert(column.0, column.1),
        Change::Remove => registry(graph),
    };
    assert forall|c: ComponentId| registry(after).contains_key(c) <==> expected.contains_key(
        c,
    ) by {
        if registry(graph).contains_key(c) {
            let i = choose|i: int|
                0 <= i < graph.len() && (#[trigger] graph[i]).layouts.contains_key(c);
            assert(graph[i].grows_to(after[i]));
            assert(after[i].layouts.contains_key(c));
        }
        if change is Add && c == column.0 {
            assert(after[to.0 as int].layouts.contains_key(c));
        }
    }
    assert(registry(after) =~= expected);
}

/// No component is listed twice, and the added ones are not there already and have the layouts
/// that they have in other arche types.
pub open spec fn change_allowed(
    graph: Seq<Node>,
    from: ArcheTypeId,
    change: Change,
    columns: Seq<(ComponentId, Layout)>,
) -> bool {
    &&& crate::storage::tuples::column_ids(columns).no_duplicates()
    &&& change is Add ==> forall|i: int|
        0 <= i < columns.len() ==> {
            &&& !graph[from.0 as int].layouts.contains_key((#[trigger] columns[i]).0)
            &&& agrees(graph, columns[i])
        }
}

/// Where a change leads to: an arche type with the right components, in a graph in which nothing
/// was lost. The components that were added have their layouts from now on.
pub open spec fn change_done(
    graph: Seq<Node>,
    from: ArcheTypeId,
    change: Change,
    columns: Seq<(ComponentId, Layout)>,
    after: Seq<Node>,
    to: ArcheTypeId,
) -> bool {
    &&& to.0 < after.len()
    &&& grows_to(graph, after)
    &&& after[to.0 as int].layouts == change_all(graph[from.0 as int].layouts, change, columns)
    &&& registry(after) == match change {
        Change::Add => registry(graph).union_prefer_right(layout_map(columns)),
        Change::Remove => registry(graph),
    }
}

/// Nothing is changed before the first component.
pub(crate) proof fn lemma_change_starts(
    graph: Seq<Node>,
    from: ArcheTypeId,
    change: Change,
    columns: Seq<(ComponentId, Layout)>,
)
    requires
        from.0 < graph.len(),
    ensures
        change_done(graph, from, change, columns.take(0), graph, from),
        walk(graph, from, change, columns.take(0)) == (graph, from),
{
    assert(columns.take(0) =~= Seq::empty());
    assert(layout_map(columns.take(0)) =~= Map::empty());
    assert(change_all(graph[from.0 as int].layouts, change, columns.take(0))
        =~= graph[from.0 as int].layouts);
    assert(registry(graph).union_prefer_right(layout_map(columns.take(0))) =~= registry(graph));
}

/// After some components, the next one can be changed, and then it is changed too.
pub(crate) proof fn lemma_change_goes_on(
    graph: Seq<Node>,
    from: ArcheTypeId,
    change: Change,
    columns: Seq<(ComponentId, Layout)>,
    done: int,
    reached: Seq<Node>,
    at: ArcheTypeId,
)
    requires
        graph_wf(reached),
        reached.len() <= usize::MAX,
        0 <= done < columns.len(),
        change_allowed(graph, from, change, columns),
        change_done(graph, from, change, columns.take(done), reached, at),
        (reached, at) == walk(graph, from, change, columns.take(done)),
    ensures
        change is Add ==> {
            &&& !reached[at.0 as int].layouts.contains_key(columns[done].0)
            &&& agrees(reached, columns[done])
        },
        ({
            let (after, to) = step(reached, at, change, columns[done]);
            &&& (after, to) == walk(graph, from, change, columns.take(done + 1))
            &&& graph_wf(after)
            &&& change_done(graph, from, change, columns.take(done + 1), after, to)
        }),
{
    let first = columns.take(done);
    let ids = crate::storage::tuples::column_ids(first);
    let all_ids = crate::storage::tuples::column_ids(columns);
    let next = columns[done];
    assert(ids =~= all_ids.take(done));
    assert(!ids.contains(next.0)) by {
        if ids.contains(next.0) {
            let i = ids.index_of(next.0);
            assert(all_ids[i] == all_ids[done]);
        }
    }
    assert(columns.take(done + 1) =~= first.push(next));
    assert(first.push(next).drop_last() =~= first);
    lemma_change_all(graph[from.0 as int].layouts, change, first, next);
    lemma_change_all(registry(graph), change, first, next);
    assert(change is Add ==> !change_all(
        graph[from.0 as int].layouts,
        change,
        first,
    ).contains_key(next.0));
    lemma_step(reached, at, change, next);
    let (after, to) = step(reached, at, change, next);
    assert forall|i: int| 0 <= i < graph.len() implies graph[i].grows_to(#[trigger] after[i]) by {
        let (a, b, c) = (graph[i], reached[i], after[i]);
        assert(a.grows_to(b) && b.grows_to(c));
        assert forall|k: ComponentId| #[trigger] a.add.contains_key(k) implies c.add.contains_key(k)
            && a.add[k] == c.add[k] by {
            assert(b.add.contains_key(k));
        }
        assert forall|k: ComponentId| #[trigger]
            a.remove.contains_key(k) implies c.remove.contains_key(k) && a.remove[k]
            == c.remove[k] by {
            assert(b.remove.contains_key(k));
        }
    }
}

/// All arche types, by number, and the lookup of their numbers by their components.
pub struct ArcheTypeGraph {
    pub arche_types: Vec<ArcheType>,
    pub arche_type_lookup: ArcheTypeLookup,
}

impl ArcheTypeGraph {
    /// The nodes of the graph.
    pub open spec fn graph(self) -> Seq<Node> {
        self.arche_types@.map_values(|arche_type: ArcheType| arche_type@)
    }

    /// The lookup has every arche type under the list of its components, and nothing else.
    pub open spec fn lookup_wf(self) -> bool {
        &&& forall|key: Seq<ComponentId>| #[trigger]
            self.arche_type_lookup@.contains_key(key) ==> {
                &&& self.arche_type_lookup@[key].0 < self.arche_types@.len()
                &&& crate::arche_type::key::is_key(
                    key,
                    self.graph()[self.arche_type_lookup@[key].0 as int].layouts.dom(),
                )
            }
        &&& forall|i: int| 0 <= i < self.graph().len() ==> #[trigger] self.listed(i)
    }

    /// The lookup leads to the arche type.
    pub open spec fn listed(self, i: int) -> bool {
        exists|key: Seq<ComponentId>| #[trigger]
            self.arche_type_lookup@.contains_key(key) && self.arche_type_lookup@[key].0 == i
    }

    /// The tables are in order, and so are the graph and the lookup.
    pub open spec fn wf(self) -> bool {
        &&& graph_wf(self.graph())
        &&& self.lookup_wf()
        &&& forall|i: int|
            #![trigger self.arche_types@[i]]
            0 <= i < self.arche_types@.len() ==> self.arche_types@[i].component_table.wf()
    }

    /// Known tables are as they were, and new ones are unused.
    pub open spec fn same_tables(self, after: Self) -> bool {
        &&& self.arche_types@.len() <= after.arche_types@.len()
        &&& forall|i: int|
            #![trigger after.arche_types@[i]]
            0 <= i < self.arche_types@.len() ==> after.arche_types@[i].component_table
                == self.arche_types@[i].component_table
        &&& forall|i: int|
            #![trigger after.arche_types@[i]]
            self.arche_types@.len() <= i < after.arche_types@.len()
                ==> after.arche_types@[i].component_table.unused()
    }

    /// A graph with just the empty arche type.
    pub fn new() -> (graph: Self)
        ensures
            graph.wf(),
            graph.arche_types@.len() == 1,
            graph.arche_types@[EMPTY_ARCHE_TYPE_ID as int].unused(),
            graph.graph() == seq![
                Node { layouts: Map::empty(), add: Map::empty(), remove: Map::empty() },
            ],
    {
        let mut arche_type_lookup = ArcheTypeLookup::new();
        let components: Vec<ComponentId> = Vec::new();
        arche_type_lookup.insert(components, ArcheTypeId(EMPTY_ARCHE_TYPE_ID));
        let graph = ArcheTypeGraph {
            arche_types: vec![ArcheType::empty_type()],
            arche_type_lookup,
        };
        proof {
            assert(graph.graph()[0].layouts.dom() =~= Set::empty());
            assert(Seq::<ComponentId>::empty().to_set() =~= Set::empty());
            assert(graph.arche_type_lookup@.contains_key(Seq::<ComponentId>::empty()));
        }
        graph
    }

    /// Find an arche type for a list of components. Returns none if an arche type with storage
    /// for this component set has not been created, or if the list is not in ascending order.
    pub fn find_arche_type(&self, components: &[ComponentId]) -> (found: Option<ArcheTypeId>)
        requires
            self.wf(),
        ensures
            match found {
                Some(id) => {
                    &&& id.0 < self.graph().len()
                    &&& crate::arche_type::key::is_key(
                        components@,
                        self.graph()[id.0 as int].layouts.dom(),
                    )
                },
                None => forall|i: int|
                    0 <= i < self.graph().len() ==> !crate::arche_type::key::is_key(
                        components@,
                        (#[trigger] self.graph()[i]).layouts.dom(),
                    ),
            },
    {
        let found = self.arche_type_lookup.get(components);
        proof {
            assert(self.graph().len() == self.arche_types@.len());
            assert(found is Some <==> self.arche_type_lookup@.contains_key(components@));
            if found is None {
                assert forall|i: int|
                    0 <= i < self.graph().len() implies !crate::arche_type::key::is_key(
                    components@,
                    (#[trigger] self.graph()[i]).layouts.dom(),
                ) by {
                    assert(self.listed(i));
                    let key = choose|key: Seq<ComponentId>| #[trigger]
                        self.arche_type_lookup@.contains_key(key)
                            && self.arche_type_lookup@[key].0 == i;
                    if crate::arche_type::key::is_key(
                        components@,
                        self.graph()[i].layouts.dom(),
                    ) {
                        crate::arche_type::key::lemma_key_unique(
                            components@,
                            key,
                            self.graph()[i].layouts.dom(),
                        );
                    }
                }
            }
        }
        found
    }

    /// The arche type that is reached by adding or removing the components one after the other.
    /// Arche types on the way that do not exist yet are created, and they are all made known to
    /// their neighbors.
    pub fn arche_type_change<T: ComponentSet>(&mut self, from: ArcheTypeId, change: Change) -> (to:
        ArcheTypeId)
        requires
            old(self).wf(),
            from.0 < old(self).arche_types@.len(),
            change_allowed(old(self).graph(), from, change, T::spec_columns()),
        ensures
            final(self).wf(),
            (final(self).graph(), to) == walk(
                old(self).graph(),
                from,
                change,
                T::spec_columns(),
            ),
            change_done(
                old(self).graph(),
                from,
                change,
                T::spec_columns(),
                final(self).graph(),
                to,
            ),
            old(self).same_tables(*final(self)),
    {
        let mut columns = T::columns();
        let ghost all = T::spec_columns();
        let ghost graph = self.graph();
        let ghost mut done: int = 0;
        let mut at = from;
        proof {
            lemma_change_starts(graph, from, change, all);
        }
        while columns.len() > 0
            invariant
                self.wf(),
                graph_wf(graph),
                from.0 < graph.len(),
                old(self).graph() == graph,
                old(self).same_tables(*self),
                at.0 < self.arche_types@.len(),
                0 <= done,
                done + columns@.len() == all.len(),
                forall|i: int|
                    #![trigger columns@[i]]
                    0 <= i < columns@.len() ==> {
                        &&& columns@[i].wf()
                        &&& columns@[i].0 == all[done + i].0
                        &&& columns@[i].1.element_layout == all[done + i].1
                    },
                change_allowed(graph, from, change, all),
                (self.graph(), at) == walk(graph, from, change, all.take(done)),
                change_done(graph, from, change, all.take(done), self.graph(), at),
            decreases columns.len(),
        {
            let column_construction = columns.remove(0);
            proof {
                assert(self.graph().len() == self.arche_types.len());
                lemma_change_goes_on(graph, from, change, all, done, self.graph(), at);
                done = done + 1;
            }
            at = self.neighbor(at, change, column_construction);
        }
        assert(all.take(done) =~= all);
        at
    }

    /// The neighbor of an arche type that has one component more, or one less. It becomes a
    /// known neighbor, and is created if there is no such arche type yet.
    fn neighbor(
        &mut self,
        from: ArcheTypeId,
        change: Change,
        column_construction: ColumnConstruction,
    ) -> (to: ArcheTypeId)
        requires
            old(self).wf(),
            from.0 < old(self).arche_types@.len(),
            column_construction.wf(),
            change is Add ==> {
                &&& !old(self).graph()[from.0 as int].layouts.contains_key(column_construction.0)
                &&& agrees(
                    old(self).graph(),
                    (column_construction.0, column_construction.1.element_layout),
                )
            },
        ensures
            final(self).wf(),
            (final(self).graph(), to) == step(
                old(self).graph(),
                from,
                change,
                (column_construction.0, column_construction.1.element_layout),
            ),
            old(self).same_tables(*final(self)),
    {
        let ghost column = (column_construction.0, column_construction.1.element_layout);
        proof {
            assert(self.graph().len() == self.arche_types.len());
            lemma_step(self.graph(), from, change, column);
        }
        let component_id = column_construction.component_id();
        // Start by checking if it's in the arche type graph.
        let known = self.arche_types[from.0].get_neighbor(change, component_id);
        match known {
            // It was in the graph!
            Some(to) => to,
            None => {
                // It was not in the graph. We have to go look for it among all our arche types.
                let components_key = self.arche_types[from.0].neighbor_key(change, component_id);
                let ghost key = components_key@;
                let to = match self.find_arche_type(components_key.as_slice()) {
                    Some(to) => to,
                    None => {
                        // Oh... it just doesn't exist. We'll have to create it.
                        let new_arche_type = match change {
                            Change::Add => self.arche_types[from.0].extend(column_construction),
                            Change::Remove => self.arche_types[from.0].reduce(component_id),
                        };
                        let to = ArcheTypeId(self.arche_types.len());
                        self.arche_types.push(new_arche_type);
                        self.arche_type_lookup.insert(components_key, to);
                        to
                    },
                };
                // Insert it into the graph so we can find it quickly in the future.
                match change {
                    Change::Add => {
                        self.arche_types[from.0].add_component.insert(component_id, to);
                    },
                    Change::Remove => {
                        self.arche_types[from.0].remove_component.insert(component_id, to);
                    },
                }
                proof {
                    let before = old(self).graph();
                    let layouts = change_one(before[from.0 as int].layouts, change, column);
                    assert(layouts.dom() =~= match change {
                        Change::Add => before[from.0 as int].layouts.dom().insert(component_id),
                        Change::Remove => before[from.0 as int].layouts.dom().remove(component_id),
                    });
                    if to.0 < before.len() {
                        assert(before[to.0 as int].layouts.dom() == layouts.dom());
                        lemma_find(before, to, layouts.dom());
                    } else {
                        assert(find(before, layouts.dom()) is None);
                    }
                    assert(self.graph() =~= step(before, from, change, column).0);
                    assert(self.graph().len() == self.arche_types.len());
                    old(self).lemma_lookup(*self, key);
                }
                to
            },
        }
    }

    /// The lookup is in order when it still has what it had, and the new arche type if there is
    /// one.
    proof fn lemma_lookup(self, after: Self, key: Seq<ComponentId>)
        requires
            self.wf(),
            grows_to(self.graph(), after.graph()),
            after.graph().len() <= usize::MAX,
            ({
                ||| {
                    &&& after.graph().len() == self.graph().len()
                    &&& after.arche_type_lookup@ == self.arche_type_lookup@
                }
                ||| {
                    &&& after.graph().len() == self.graph().len() + 1
                    &&& !self.arche_type_lookup@.contains_key(key)
                    &&& after.arche_type_lookup@ == self.arche_type_lookup@.insert(
                        key,
                        ArcheTypeId(self.graph().len() as usize),
                    )
                    &&& crate::arche_type::key::is_key(
                        key,
                        after.graph()[self.graph().len() as int].layouts.dom(),
                    )
                }
            }),
        ensures
            after.lookup_wf(),
    {
        assert forall|k: Seq<ComponentId>| #[trigger]
            after.arche_type_lookup@.contains_key(k) implies {
            &&& after.arche_type_lookup@[k].0 < after.arche_types@.len()
            &&& crate::arche_type::key::is_key(
                k,
                after.graph()[after.arche_type_lookup@[k].0 as int].layouts.dom(),
            )
        } by {
            if self.arche_type_lookup@.contains_key(k) {
                let i = self.arche_type_lookup@[k].0 as int;
                assert(self.graph()[i].grows_to(after.graph()[i]));
            }
        }
        assert forall|i: int| 0 <= i < after.graph().len() implies #[trigger] after.listed(i) by {
            if i < self.graph().len() {
                assert(self.listed(i));
                let k = choose|k: Seq<ComponentId>| #[trigger]
                    self.arche_type_lookup@.contains_key(k) && self.arche_type_lookup@[k].0 == i;
                assert(after.arche_type_lookup@.contains_key(k));
            } else {
                assert(after.arche_type_lookup@.contains_key(key));
            }
        }
    }
}

impl ArcheTypeGraph {
    /// The table of an arche type.
    pub open spec fn table(self, i: int) -> ComponentTable {
        self.arche_types@[i].component_table
    }

    /// Nothing but the two tables changed, and these still store the same components.
    pub open spec fn same_but_for_tables(self, after: Self, from: int, to: int) -> bool {
        &&& after.graph() == self.graph()
        &&& after.arche_type_lookup == self.arche_type_lookup
        &&& forall|i: int|
            #![trigger after.arche_types@[i]]
            0 <= i < self.arche_types@.len() && i != from && i != to ==> after.arche_types@[i]
                == self.arche_types@[i]
    }

    /// The graph is in order if its tables are.
    pub proof fn lemma_same_but_for_tables(self, after: Self, from: int, to: int)
        requires
            self.wf(),
            0 <= from < self.arche_types@.len(),
            0 <= to < self.arche_types@.len(),
            after.arche_types@.len() == self.arche_types@.len(),
            after.arche_type_lookup == self.arche_type_lookup,
            forall|i: int|
                #![trigger after.arche_types@[i]]
                0 <= i < self.arche_types@.len() ==> {
                    &&& after.arche_types@[i].add_component == self.arche_types@[i].add_component
                    &&& after.arche_types@[i].remove_component
                        == self.arche_types@[i].remove_component
                    &&& after.table(i).wf()
                    &&& after.table(i).layouts() == self.table(i).layouts()
                    &&& i != from && i != to ==> after.table(i) == self.table(i)
                },
        ensures
            after.wf(),
            self.same_but_for_tables(after, from, to),
    {
        assert forall|i: int| 0 <= i < self.graph().len() implies #[trigger] after.graph()[i]
            == self.graph()[i] by {
            assert(after.arche_types@[i].add_component == self.arche_types@[i].add_component);
        }
        assert(after.graph() =~= self.graph());
        assert forall|i: int| 0 <= i < after.graph().len() implies #[trigger] after.listed(i) by {
            assert(self.listed(i));
        }
        assert forall|i: int|
            #![trigger after.arche_types@[i]]
            0 <= i < self.arche_types@.len() && i != from && i != to implies after.arche_types@[i]
            == self.arche_types@[i] by {}
    }

    /// Insert a row into the table of an arche type.
    pub fn insert_row<I: StorageInsert>(&mut self, to: ArcheTypeId, to_insert: I) -> (row: RowIndex)
        requires
            old(self).wf(),
            to.0 < old(self).arche_types@.len(),
            old(self).table(to.0 as int).accepts_columns(Map::empty(), I::spec_columns()),
            old(self).table(to.0 as int).has_room(),
        ensures
            final(self).wf(),
            old(self).same_but_for_tables(*final(self), to.0 as int, to.0 as int),
            old(self).table(to.0 as int).row_inserted_with::<I>(
                final(self).table(to.0 as int),
                row.0,
                Map::empty(),
                to_insert,
            ),
    {
        let row = self.arche_types[to.0].component_table.insert_row(to_insert);
        proof {
            old(self).lemma_same_but_for_tables(*self, to.0 as int, to.0 as int);
        }
        row
    }

    /// Free a row of the table of an arche type, and hand out its components for them to be
    /// dropped, each once.
    pub fn drop_row(&mut self, from: ArcheTypeId, row: RowIndex) -> (dropped: Vec<
        (ComponentId, Vec<u8>),
    >)
        requires
            old(self).wf(),
            from.0 < old(self).arche_types@.len(),
            old(self).table(from.0 as int).live(row.0),
        ensures
            final(self).wf(),
            old(self).same_but_for_tables(*final(self), from.0 as int, from.0 as int),
            old(self).table(from.0 as int).same_but_for_row_freed(
                final(self).table(from.0 as int),
                row.0,
            ),
            crate::storage::component::ids(
                crate::storage::component::images(dropped@),
            ).no_duplicates(),
            crate::storage::component::by_component(crate::storage::component::images(dropped@))
                == old(self).table(from.0 as int).rows()[row.0],
    {
        let dropped = self.arche_types[from.0].component_table.drop_row(row);
        proof {
            old(self).lemma_same_but_for_tables(*self, from.0 as int, from.0 as int);
        }
        dropped
    }

    /// Move a row from the table of one arche type to that of another, adding the given
    /// components.
    pub fn extend_row<T: StorageInsert>(
        &mut self,
        from: ArcheTypeId,
        to: ArcheTypeId,
        row: RowIndex,
        components: T,
    ) -> (new_row: RowIndex)
        requires
            old(self).wf(),
            from.0 < old(self).arche_types@.len(),
            to.0 < old(self).arche_types@.len(),
            from != to,
            old(self).table(from.0 as int).live(row.0),
            old(self).table(to.0 as int).accepts_columns(
                old(self).table(from.0 as int).rows()[row.0],
                T::spec_columns(),
            ),
            old(self).table(to.0 as int).has_room(),
        ensures
            final(self).wf(),
            old(self).same_but_for_tables(*final(self), from.0 as int, to.0 as int),
            old(self).table(from.0 as int).same_but_for_row_freed(
                final(self).table(from.0 as int),
                row.0,
            ),
            old(self).table(to.0 as int).row_inserted_with::<T>(
                final(self).table(to.0 as int),
                new_row.0,
                old(self).table(from.0 as int).rows()[row.0],
                components,
            ),
    {
        let mut old_table = ComponentTable::empty_type();
        std::mem::swap(&mut old_table, &mut self.arche_types[from.0].component_table);
        let new_row = old_table.extend_row_to_other(
            &mut self.arche_types[to.0].component_table,
            row,
            components,
        );
        std::mem::swap(&mut old_table, &mut self.arche_types[from.0].component_table);
        proof {
            old(self).lemma_same_but_for_tables(*self, from.0 as int, to.0 as int);
        }
        new_row
    }

    /// Move a row from the table of one arche type to that of another, taking the components of
    /// `T` out of it.
    pub fn reduce_row<T: ReduceArgument>(
        &mut self,
        from: ArcheTypeId,
        to: ArcheTypeId,
        row: RowIndex,
    ) -> (removed: (RowIndex, T))
        requires
            old(self).wf(),
            from.0 < old(self).arche_types@.len(),
            to.0 < old(self).arche_types@.len(),
            from != to,
            old(self).table(from.0 as int).live(row.0),
            crate::storage::tuples::column_ids(T::spec_columns()).no_duplicates(),
            exists|v: T| #[trigger]
                crate::storage::tuples::row_holds::<T>(
                    old(self).table(from.0 as int).rows()[row.0],
                    v,
                ),
            old(self).table(to.0 as int).accepts_with(
                old(self).table(from.0 as int).rows()[row.0].remove_keys(
                    crate::storage::tuples::column_ids(T::spec_columns()).to_set(),
                ),
                Seq::empty(),
            ),
            old(self).table(to.0 as int).has_room(),
        ensures
            final(self).wf(),
            old(self).same_but_for_tables(*final(self), from.0 as int, to.0 as int),
            old(self).table(from.0 as int).same_but_for_row_freed(
                final(self).table(from.0 as int),
                row.0,
            ),
            old(self).table(to.0 as int).row_inserted(
                final(self).table(to.0 as int),
                removed.0.0,
                old(self).table(from.0 as int).rows()[row.0].remove_keys(
                    crate::storage::tuples::column_ids(T::spec_columns()).to_set(),
                ),
            ),
            crate::storage::tuples::row_holds::<T>(
                old(self).table(from.0 as int).rows()[row.0],
                removed.1,
            ),
    {
        let mut old_table = ComponentTable::empty_type();
        std::mem::swap(&mut old_table, &mut self.arche_types[from.0].component_table);
        let removed = old_table.reduce_row_to_other::<T>(
            &mut self.arche_types[to.0].component_table,
            row,
        );
        std::mem::swap(&mut old_table, &mut self.arche_types[from.0].component_table);
        proof {
            old(self).lemma_same_but_for_tables(*self, from.0 as int, to.0 as int);
        }
        removed
    }
}

} // verus!
