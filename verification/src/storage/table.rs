//! Tables of components.

use crate::bus;
use crate::storage::collections::{ColumnMap, ComponentId, RowSet};
use crate::storage::column::{Column, RowIndex};
use crate::storage::component::ColumnConstruction;
use crate::storage::layout::Layout;
use crate::storage::tuples::{ComponentSet, ReduceArgument, StorageAccessor, StorageInsert};
use vstd::prelude::*;

verus! {

/// The number of rows that a table makes room for at first.
pub const INITIAL_ROW_ALLOCATION: usize = 4;

/// A table of components. Each row represents an entity, and each column is dedicated to a
/// specific type of component.
pub struct ComponentTable {
    pub components: ColumnMap,
    pub free_rows: RowSet,
    pub next_row: RowIndex,
    pub allocated_rows: usize,
}

/// There is no memory, or that of the initial allocation, doubled any number of times.
pub open spec fn doubled(rows: int) -> bool {
    rows == 0 || exists|times: nat|
        rows == INITIAL_ROW_ALLOCATION * #[trigger] vstd::arithmetic::power2::pow2(times)
}

/// `after` is `before` with memory for `rows_after` rows instead of `rows_before`, and with
/// `bytes` as the element of `row`.
spec fn column_updated(
    before: Column,
    after: Column,
    rows_before: int,
    rows_after: int,
    row: int,
    bytes: Seq<u8>,
) -> bool {
    &&& after.element_layout == before.element_layout
    &&& after.wf(rows_after)
    &&& after.element(row) == bytes
    &&& forall|r: int|
        #![trigger after.element(r)]
        0 <= r < rows_before && r != row ==> after.element(r) == before.element(r)
}

/// Writes an element of a column, after making room for `rows_after` rows where `grow` is set.
fn write_element(
    column: &mut Column,
    grow: bool,
    rows_after: usize,
    row: RowIndex,
    bytes: &[u8],
    Ghost(rows_before): Ghost<int>,
)
    requires
        old(column).wf(rows_before) || old(column).wf(rows_after as int),
        !grow ==> rows_before == rows_after,
        0 <= rows_before <= rows_after,
        row.0 < rows_after,
        0 < old(column).size() == bytes@.len(),
        grow ==> old(column).size() * rows_after <= isize::MAX,
    ensures
        column_updated(
            *old(column),
            *final(column),
            rows_before,
            rows_after as int,
            row.0 as int,
            bytes@,
        ),
{
    if grow {
        proof {
            assert forall|r: int| 0 <= r < rows_before implies old(column).has_row(r) by {
                if old(column).wf(rows_before) {
                    old(column).lemma_has_row(rows_before, r);
                } else {
                    old(column).lemma_has_row(rows_after as int, r);
                }
            }
        }
        column.resize(rows_after);
    }
    let ghost grown = *column;
    proof {
        assert forall|r: int| 0 <= r < rows_after implies grown.has_row(r) by {
            grown.lemma_has_row(rows_after as int, r);
        }
    }
    column.set_element(row, bytes);
}

/// Writes the listed components to a row of the columns, after making room for `rows_after`
/// rows where `grow` is set. Components without a column are passed over.
fn write_row(
    columns: &mut ColumnMap,
    grow: bool,
    rows_after: usize,
    row: RowIndex,
    components: &Vec<(ComponentId, Vec<u8>)>,
    Ghost(rows_before): Ghost<int>,
)
    requires
        forall|c: ComponentId| #[trigger]
            old(columns)@.contains_key(c) ==> {
                &&& old(columns)@[c].wf(rows_before)
                &&& old(columns)@[c].size() > 0
                &&& grow ==> old(columns)@[c].size() * rows_after <= isize::MAX
            },
        !grow ==> rows_before == rows_after,
        0 <= rows_before <= rows_after,
        row.0 < rows_after,
        forall|i: int|
            0 <= i < components@.len() && old(columns)@.contains_key((#[trigger] components@[i]).0)
                ==> components@[i].1@.len() == old(columns)@[components@[i].0].size(),
        old(columns)@.dom().subset_of(
            crate::storage::component::by_component(
                crate::storage::component::images(components@),
            ).dom(),
        ),
    ensures
        final(columns)@.dom() == old(columns)@.dom(),
        forall|c: ComponentId| #[trigger]
            final(columns)@.contains_key(c) ==> column_updated(
                old(columns)@[c],
                final(columns)@[c],
                rows_before,
                rows_after as int,
                row.0 as int,
                crate::storage::component::by_component(
                    crate::storage::component::images(components@),
                )[c],
            ),
{
    let ghost values = crate::storage::component::images(components@);
    let ghost before = columns@;
    let mut k: usize = 0;
    while k < components.len()
        invariant
            k <= components.len(),
            values == crate::storage::component::images(components@),
            forall|c: ComponentId| #[trigger]
                before.contains_key(c) ==> {
                    &&& before[c].wf(rows_before)
                    &&& before[c].size() > 0
                    &&& grow ==> before[c].size() * rows_after <= isize::MAX
                },
            !grow ==> rows_before == rows_after,
            0 <= rows_before <= rows_after,
            row.0 < rows_after,
            forall|i: int|
                0 <= i < components@.len() && before.contains_key((#[trigger] components@[i]).0)
                    ==> components@[i].1@.len() == before[components@[i].0].size(),
            columns@.dom() == before.dom(),
            forall|c: ComponentId| #[trigger]
                before.contains_key(c) ==> if crate::storage::component::by_component(
                    values.take(k as int),
                ).contains_key(c) {
                    column_updated(
                        before[c],
                        columns@[c],
                        rows_before,
                        rows_after as int,
                        row.0 as int,
                        crate::storage::component::by_component(values.take(k as int))[c],
                    )
                } else {
                    columns@[c] == before[c]
                },
        decreases components.len() - k,
    {
        let ghost given = crate::storage::component::by_component(values.take(k as int));
        let ghost current = columns@;
        let component_id = components[k].0;
        proof {
            assert(values.take(k + 1).drop_last() =~= values.take(k as int));
            assert(values.take(k + 1).last() == (component_id, components@[k as int].1@));
            assert(crate::storage::component::by_component(values.take(k + 1)) == given.insert(
                component_id,
                components@[k as int].1@,
            ));
            assert(before.contains_key(component_id) <==> current.contains_key(component_id));
        }
        match columns.get_mut(component_id) {
            Some(column) => {
                let ghost old_column = *column;
                write_element(
                    column,
                    grow,
                    rows_after,
                    row,
                    components[k].1.as_slice(),
                    Ghost(rows_before),
                );
                let ghost new_column = *column;
                proof {
                    assert(column_updated(
                        before[component_id],
                        new_column,
                        rows_before,
                        rows_after as int,
                        row.0 as int,
                        components@[k as int].1@,
                    ));
                }
            },
            None => {},
        }
        k += 1;
    }
    assert(values.take(k as int) =~= values);
}

impl ComponentTable {
    /// The layout of each component that the table stores.
    pub open spec fn layouts(self) -> Map<ComponentId, Layout> {
        self.components@.map_values(|column: Column| column.element_layout)
    }

    /// The row is in use: it was handed out and not freed since.
    pub open spec fn live(self, row: bus::Width) -> bool {
        row < self.next_row.0 && !self.free_rows@.contains(row)
    }

    /// The bytes of each component in the given row.
    pub open spec fn row(self, row: bus::Width) -> Map<ComponentId, Seq<u8>> {
        self.components@.map_values(|column: Column| column.element(row as int))
    }

    /// The rows in use and what they hold.
    pub open spec fn rows(self) -> Map<bus::Width, Map<ComponentId, Seq<u8>>> {
        Map::new(|row: bus::Width| self.live(row), |row: bus::Width| self.row(row))
    }

    /// Free rows were handed out before, every row that was handed out has memory, and the
    /// columns have memory for as many rows as the table says. Memory was added by doubling it.
    pub open spec fn wf(self) -> bool {
        &&& self.components@.dom().finite()
        &&& forall|c: ComponentId| #[trigger]
            self.components@.contains_key(c) ==> self.components@[c].wf(self.allocated_rows as int)
        &&& forall|row: bus::Width| #[trigger]
            self.free_rows@.contains(row) ==> row < self.next_row.0
        &&& self.next_row.0 <= self.allocated_rows
        &&& self.allocated_rows > 0 ==> self.sized()
        &&& self.allocated_rows <= INITIAL_ROW_ALLOCATION || self.allocated_rows <= 2
            * self.next_row.0
        &&& doubled(self.allocated_rows as int)
    }

    /// The table is as it was created: no row was handed out.
    pub open spec fn unused(self) -> bool {
        &&& self.wf()
        &&& self.next_row.0 == 0
        &&& self.allocated_rows == 0
        &&& self.free_rows@ == Set::<bus::Width>::empty()
        &&& self.rows() == Map::<bus::Width, Map<ComponentId, Seq<u8>>>::empty()
    }

    /// No component of the table is without size.
    pub open spec fn sized(self) -> bool {
        forall|c: ComponentId| #[trigger]
            self.layouts().contains_key(c) ==> self.layouts()[c].size > 0
    }

    /// How many rows the table makes room for when the allocated ones are used up.
    pub open spec fn grown_rows(self) -> int {
        if 2 * self.allocated_rows > INITIAL_ROW_ALLOCATION {
            2 * self.allocated_rows
        } else {
            INITIAL_ROW_ALLOCATION as int
        }
    }

    /// The table has a free row, or memory for another row, or the machine can hold the table
    /// after it has grown.
    pub open spec fn has_room(self) -> bool {
        self.free_rows@ == Set::<bus::Width>::empty() && self.next_row.0 >= self.allocated_rows
            ==> {
            &&& self.grown_rows() <= usize::MAX
            &&& forall|c: ComponentId| #[trigger]
                self.layouts().contains_key(c) ==> self.layouts()[c].size * self.grown_rows()
                    <= isize::MAX
        }
    }

    /// A list of components that a row can be made of. Every component of the table is in it,
    /// with as many bytes as its type has, and none is without size. Components that the table
    /// does not store may be in the list too. For a row that was not used before, a component
    /// of the table is not listed twice.
    pub open spec fn accepts(self, values: Seq<(ComponentId, Seq<u8>)>) -> bool {
        &&& self.layouts().dom().subset_of(crate::storage::component::by_component(values).dom())
        &&& self.sized()
        &&& forall|i: int|
            0 <= i < values.len() && self.layouts().contains_key((#[trigger] values[i]).0)
                ==> values[i].1.len() == self.layouts()[values[i].0].size
        &&& self.free_rows@ == Set::<bus::Width>::empty() ==> forall|i: int, j: int|
            0 <= i < j < values.len() && self.layouts().contains_key((#[trigger] values[i]).0)
                ==> values[i].0 != (#[trigger] values[j]).0
    }

    /// Create a new, empty table without any kind of storage.
    pub fn empty_type() -> (table: Self)
        ensures
            table.unused(),
            table.layouts() == Map::<ComponentId, Layout>::empty(),
    {
        let table = ComponentTable {
            components: ColumnMap::new(),
            free_rows: RowSet::new(),
            next_row: RowIndex(0),
            allocated_rows: 0,
        };
        assert(table.layouts() =~= Map::empty());
        assert(table.rows() =~= Map::empty());
        table
    }

    /// A column of the same type as each of the columns, but for the one of `without`.
    fn inherit_columns(&self, without: Option<ComponentId>) -> (columns: ColumnMap)
        ensures
            columns@.dom() == match without {
                Some(c) => self.components@.dom().remove(c),
                None => self.components@.dom(),
            },
            forall|c: ComponentId| #[trigger]
                columns@.contains_key(c) ==> {
                    &&& columns@[c].allocation is None
                    &&& columns@[c].element_layout == self.components@[c].element_layout
                },
    {
        let mut columns = ColumnMap::new();
        let component_ids = self.components.keys();
        let mut k: usize = 0;
        while k < component_ids.len()
            invariant
                k <= component_ids.len(),
                component_ids@.to_set() == self.components@.dom(),
                forall|i: int|
                    0 <= i < k && without != Some(#[trigger] component_ids@[i])
                        ==> columns@.dom().contains(component_ids@[i]),
                forall|c: ComponentId| #[trigger]
                    columns@.dom().contains(c) ==> {
                        &&& self.components@.dom().contains(c)
                        &&& without != Some(c)
                        &&& columns@[c].allocation is None
                        &&& columns@[c].element_layout == self.components@[c].element_layout
                    },
            decreases component_ids.len() - k,
        {
            let component_id = component_ids[k];
            assert(component_ids@.to_set().contains(component_id));
            let excluded = match without {
                Some(c) => c == component_id,
                None => false,
            };
            if !excluded {
                match self.components.get(component_id) {
                    Some(column) => {
                        let ghost before = columns@;
                        columns.insert(component_id, Column::inherit_type(column));
                        assert(columns@.dom() == before.dom().insert(component_id));
                        assert(forall|c: ComponentId|
                            before.dom().contains(c) && c != component_id ==> columns@[c]
                                == before[c]);
                    },
                    None => {},
                }
            }
            k += 1;
        }
        proof {
            assert forall|c: ComponentId|
                self.components@.dom().contains(c) && without != Some(c) implies #[trigger]
            columns@.dom().contains(c) by {
                assert(component_ids@.to_set().contains(c));
                let i = component_ids@.index_of(c);
                assert(component_ids@[i] == c);
            }
            match without {
                Some(c) => {
                    assert(columns@.dom() =~= self.components@.dom().remove(c));
                },
                None => {
                    assert(columns@.dom() =~= self.components@.dom());
                },
            }
        }
        columns
    }

    /// Create a new storage that can store the components of this one but with storage for a
    /// particular component added.
    pub fn extend(&self, column_construction: ColumnConstruction) -> (table: Self)
        requires
            self.wf(),
            column_construction.wf(),
        ensures
            table.unused(),
            table.layouts() == self.layouts().insert(
                column_construction.0,
                column_construction.1.element_layout,
            ),
    {
        let mut columns = self.inherit_columns(None);
        columns.insert(column_construction.0, column_construction.1);
        let table = ComponentTable {
            components: columns,
            free_rows: RowSet::new(),
            next_row: RowIndex(0),
            allocated_rows: 0,
        };
        assert(table.layouts() =~= self.layouts().insert(
            column_construction.0,
            column_construction.1.element_layout,
        ));
        assert(table.rows() =~= Map::empty());
        table
    }

    /// Create a new storage that can store the components of this one but with storage for the
    /// given component removed.
    pub fn reduce(&self, component_id: ComponentId) -> (table: Self)
        requires
            self.wf(),
        ensures
            table.unused(),
            table.layouts() == self.layouts().remove(component_id),
    {
        let columns = self.inherit_columns(Some(component_id));
        let table = ComponentTable {
            components: columns,
            free_rows: RowSet::new(),
            next_row: RowIndex(0),
            allocated_rows: 0,
        };
        assert(table.layouts() =~= self.layouts().remove(component_id));
        assert(table.rows() =~= Map::empty());
        table
    }

    /// Verify that a row is contained in this table and initialized.
    pub fn is_row_safe(&self, row: RowIndex) -> (safe: bool)
        ensures
            safe == self.live(row.0),
    {
        row.0 < self.next_row.0 && !self.free_rows.contains(row.0)
    }

    /// Return true if this table stores this component.
    pub fn contains_component(&self, component_id: ComponentId) -> (contained: bool)
        ensures
            contained == self.layouts().contains_key(component_id),
    {
        self.components.contains_key(component_id)
    }

    /// The IDs of the components this table stores, each once. Their order is left open.
    pub fn iter_component_ids(&self) -> (component_ids: Vec<ComponentId>)
        ensures
            component_ids@.no_duplicates(),
            component_ids@.to_set() == self.layouts().dom(),
    {
        assert(self.layouts().dom() =~= self.components@.dom());
        self.components.keys()
    }

    /// The number of rows that were freed and can be reused.
    pub fn free_row_count(&self) -> (count: usize)
        ensures
            count == self.free_rows@.len(),
    {
        self.free_rows.len()
    }
}

impl ComponentTable {
    /// Insert a row of columns.
    /// Having too many components will be ignored. Not having enough is not accepted.
    /// The table takes over what the bytes own.
    ///
    /// A row that was freed is reused. Which one, if there are several, is left open.
    pub fn insert_row_raw(&mut self, components: &Vec<(ComponentId, Vec<u8>)>) -> (row: RowIndex)
        requires
            old(self).wf(),
            old(self).accepts(crate::storage::component::images(components@)),
            old(self).has_room(),
        ensures
            final(self).wf(),
            final(self).layouts() == old(self).layouts(),
            !old(self).live(row.0),
            final(self).rows() == old(self).rows().insert(
                row.0,
                crate::storage::component::by_component(
                    crate::storage::component::images(components@),
                ).restrict(old(self).layouts().dom()),
            ),
            old(self).free_rows@ != Set::<bus::Width>::empty() ==> {
                &&& old(self).free_rows@.contains(row.0)
                &&& old(self).same_but_for_row_reused(*final(self), row.0)
            },
            old(self).free_rows@ == Set::<bus::Width>::empty() ==> {
                &&& row == old(self).next_row
                &&& old(self).same_but_for_row_added(*final(self))
            },
    {
        let reuse = self.free_rows.any();
        self.insert_row_at(reuse, components)
    }

    /// The row is no longer free, and no memory was added.
    pub open spec fn same_but_for_row_reused(self, after: Self, row: bus::Width) -> bool {
        &&& after.free_rows@ == self.free_rows@.remove(row)
        &&& after.next_row == self.next_row
        &&& after.allocated_rows == self.allocated_rows
    }

    /// One more row was handed out, and memory was added if it was used up: twice the memory
    /// that was allocated, or that of the initial allocation.
    pub open spec fn same_but_for_row_added(self, after: Self) -> bool {
        &&& after.free_rows@ == self.free_rows@
        &&& after.next_row.0 == self.next_row.0 + 1
        &&& after.allocated_rows == if self.next_row.0 >= self.allocated_rows {
            self.grown_rows()
        } else {
            self.allocated_rows as int
        }
    }

    /// Insert a row of columns in the place of the given free row, or, if there is no free row,
    /// at the end of the table.
    pub fn insert_row_at(
        &mut self,
        reuse: Option<bus::Width>,
        components: &Vec<(ComponentId, Vec<u8>)>,
    ) -> (row: RowIndex)
        requires
            old(self).wf(),
            old(self).accepts(crate::storage::component::images(components@)),
            old(self).has_room(),
            match reuse {
                Some(row) => old(self).free_rows@.contains(row),
                None => old(self).free_rows@ == Set::<bus::Width>::empty(),
            },
        ensures
            final(self).wf(),
            final(self).layouts() == old(self).layouts(),
            final(self).rows() == old(self).rows().insert(
                row.0,
                crate::storage::component::by_component(
                    crate::storage::component::images(components@),
                ).restrict(old(self).layouts().dom()),
            ),
            match reuse {
                Some(free_row) => {
                    &&& row.0 == free_row
                    &&& old(self).same_but_for_row_reused(*final(self), free_row)
                },
                None => {
                    &&& row == old(self).next_row
                    &&& old(self).same_but_for_row_added(*final(self))
                },
            },
    {
        proof {
            self.lemma_columns_accept(components@);
        }
        match reuse {
            Some(free_row) => {
                // We are going to reuse a row.
                self.free_rows.remove(free_row);
                let row = RowIndex(free_row);
                let rows_after = self.allocated_rows;
                write_row(
                    &mut self.components,
                    false,
                    rows_after,
                    row,
                    components,
                    Ghost(old(self).allocated_rows as int),
                );
                proof {
                    old(self).lemma_row_written(*self, row, components@);
                }
                row
            },
            None => {
                // We must insert a new row.
                let row = self.next_row;
                // We may need to allocate more memory.
                let need_to_allocate = row.0 >= self.allocated_rows;
                if need_to_allocate {
                    // Double the memory we allocated, or start with the initial allocation.
                    let doubled: usize = self.allocated_rows * 2;
                    self.allocated_rows =
                    if doubled > INITIAL_ROW_ALLOCATION {
                        doubled
                    } else {
                        INITIAL_ROW_ALLOCATION
                    };
                }
                self.next_row = RowIndex(row.0 + 1);
                let rows_after = self.allocated_rows;
                proof {
                    if need_to_allocate {
                        old(self).lemma_grown_rows();
                    }
                }
                write_row(
                    &mut self.components,
                    need_to_allocate,
                    rows_after,
                    row,
                    components,
                    Ghost(old(self).allocated_rows as int),
                );
                proof {
                    old(self).lemma_row_written(*self, row, components@);
                }
                row
            },
        }
    }

    /// The memory that a table grows to is doubled once more.
    proof fn lemma_grown_rows(self)
        requires
            doubled(self.allocated_rows as int),
        ensures
            doubled(self.grown_rows()),
    {
        if self.allocated_rows == 0 {
            vstd::arithmetic::power2::lemma2_to64();
            assert(self.grown_rows() == INITIAL_ROW_ALLOCATION
                * vstd::arithmetic::power2::pow2(0));
        } else {
            let times = choose|times: nat|
                self.allocated_rows == INITIAL_ROW_ALLOCATION
                    * #[trigger] vstd::arithmetic::power2::pow2(times);
            vstd::arithmetic::power2::lemma_pow2_pos(times);
            vstd::arithmetic::power2::lemma_pow2_unfold(times + 1);
            assert(self.grown_rows() == INITIAL_ROW_ALLOCATION
                * vstd::arithmetic::power2::pow2(times + 1));
        }
    }

    /// What the table asks of a list of components, in terms of its columns.
    proof fn lemma_columns_accept(self, components: Seq<(ComponentId, Vec<u8>)>)
        requires
            self.accepts(crate::storage::component::images(components)),
            self.has_room(),
        ensures
            self.layouts().dom() == self.components@.dom(),
            forall|c: ComponentId| #[trigger]
                self.components@.contains_key(c) ==> self.components@[c].size() > 0,
            self.free_rows@ == Set::<bus::Width>::empty() && self.next_row.0 >= self.allocated_rows
                ==> forall|c: ComponentId| #[trigger]
                self.components@.contains_key(c) ==> self.components@[c].size() * self.grown_rows()
                    <= isize::MAX,
            forall|i: int|
                0 <= i < components.len() && self.components@.contains_key(
                    (#[trigger] components[i]).0,
                ) ==> components[i].1@.len() == self.components@[components[i].0].size(),
    {
        assert(self.layouts().dom() =~= self.components@.dom());
        assert forall|c: ComponentId| #[trigger] self.components@.contains_key(c) implies {
            &&& self.layouts().contains_key(c)
            &&& self.layouts()[c] == self.components@[c].element_layout
        } by {}
        assert forall|i: int|
            0 <= i < components.len() && self.components@.contains_key(
                (#[trigger] components[i]).0,
            ) implies components[i].1@.len() == self.components@[components[i].0].size() by {
            let value = crate::storage::component::images(components)[i];
            assert(self.layouts().contains_key(value.0));
        }
    }

    /// What a table holds after a row was written to all of its columns.
    proof fn lemma_row_written(
        self,
        after: Self,
        row: RowIndex,
        components: Seq<(ComponentId, Vec<u8>)>,
    )
        requires
            self.wf(),
            !self.live(row.0),
            self.sized(),
            after.components@.dom() == self.components@.dom(),
            forall|c: ComponentId| #[trigger]
                after.components@.contains_key(c) ==> column_updated(
                    self.components@[c],
                    after.components@[c],
                    self.allocated_rows as int,
                    after.allocated_rows as int,
                    row.0 as int,
                    crate::storage::component::by_component(
                        crate::storage::component::images(components),
                    )[c],
                ),
            self.layouts().dom().subset_of(
                crate::storage::component::by_component(
                    crate::storage::component::images(components),
                ).dom(),
            ),
            forall|r: bus::Width| #[trigger] after.live(r) <==> self.live(r) || r == row.0,
            forall|r: bus::Width| #[trigger]
                after.free_rows@.contains(r) ==> r < after.next_row.0,
            after.next_row.0 <= after.allocated_rows,
            after.allocated_rows <= INITIAL_ROW_ALLOCATION || after.allocated_rows <= 2
                * after.next_row.0,
            doubled(after.allocated_rows as int),
        ensures
            after.wf(),
            after.layouts() == self.layouts(),
            after.rows() == self.rows().insert(
                row.0,
                crate::storage::component::by_component(
                    crate::storage::component::images(components),
                ).restrict(self.layouts().dom()),
            ),
    {
        let given = crate::storage::component::by_component(
            crate::storage::component::images(components),
        );
        assert forall|c: ComponentId| #[trigger] after.components@.contains_key(c) implies {
            &&& after.components@[c].wf(after.allocated_rows as int)
            &&& after.components@[c].element_layout == self.components@[c].element_layout
        } by {}
        assert(after.layouts() =~= self.layouts());
        assert(after.row(row.0) =~= given.restrict(self.layouts().dom()));
        assert forall|r: bus::Width| self.live(r) implies #[trigger] after.row(r) == self.row(
            r,
        ) by {
            assert forall|c: ComponentId| #[trigger] after.components@.contains_key(c) implies
                after.components@[c].element(r as int) == self.components@[c].element(r as int) by {
            }
            assert(after.row(r) =~= self.row(r));
        }
        assert(after.rows() =~= self.rows().insert(row.0, given.restrict(self.layouts().dom())));
    }
}

impl ComponentTable {
    /// The components in a row and their bytes, each once. Their order is left open.
    pub fn iter_row(&self, row: RowIndex) -> (values: Vec<(ComponentId, Vec<u8>)>)
        requires
            self.wf(),
            self.live(row.0),
        ensures
            crate::storage::component::ids(
                crate::storage::component::images(values@),
            ).no_duplicates(),
            crate::storage::component::by_component(crate::storage::component::images(values@))
                == self.row(row.0),
    {
        let component_ids = self.components.keys();
        let mut values: Vec<(ComponentId, Vec<u8>)> = Vec::new();
        let mut k: usize = 0;
        while k < component_ids.len()
            invariant
                self.wf(),
                self.live(row.0),
                component_ids@.to_set() == self.components@.dom(),
                component_ids@.no_duplicates(),
                k <= component_ids.len(),
                values@.len() == k,
                forall|i: int|
                    #![trigger values@[i]]
                    0 <= i < k ==> {
                        &&& values@[i].0 == component_ids@[i]
                        &&& values@[i].1@ == self.row(row.0)[component_ids@[i]]
                    },
            decreases component_ids.len() - k,
        {
            let component_id = component_ids[k];
            assert(component_ids@.to_set().contains(component_id));
            match self.components.get(component_id) {
                Some(column) => {
                    proof {
                        assert(self.components@.contains_key(component_id));
                        assert(self.layouts().contains_key(component_id));
                        column.lemma_has_row(self.allocated_rows as int, row.0 as int);
                    }
                    let bytes = vstd::slice::slice_to_vec(column.read_element(row));
                    values.push((component_id, bytes));
                },
                None => {
                    assert(self.components@.contains_key(component_id));
                    assert(false);
                },
            }
            k += 1;
        }
        proof {
            self.lemma_row_values(row, component_ids@, crate::storage::component::images(values@));
        }
        values
    }

    /// A list of all components of the table with the bytes of a row stands for that row.
    proof fn lemma_row_values(
        self,
        row: RowIndex,
        component_ids: Seq<ComponentId>,
        values: Seq<(ComponentId, Seq<u8>)>,
    )
        requires
            component_ids.to_set() == self.components@.dom(),
            component_ids.no_duplicates(),
            values.len() == component_ids.len(),
            forall|i: int|
                #![trigger values[i]]
                0 <= i < values.len() ==> {
                    &&& values[i].0 == component_ids[i]
                    &&& values[i].1 == self.row(row.0)[component_ids[i]]
                },
        ensures
            crate::storage::component::ids(values).no_duplicates(),
            crate::storage::component::by_component(values) == self.row(row.0),
    {
        assert(crate::storage::component::ids(values) =~= component_ids);
        assert forall|i: int| #![trigger values[i]] 0 <= i < values.len() implies self.row(
            row.0,
        ).contains_key(values[i].0) by {
            assert(component_ids.to_set().contains(component_ids[i]));
        }
        assert forall|c: ComponentId| #[trigger] self.row(row.0).contains_key(c) implies exists|
            i: int,
        | 0 <= i < values.len() && (#[trigger] values[i]).0 == c by {
            assert(component_ids.to_set().contains(c));
            let i = component_ids.index_of(c);
            assert(values[i].0 == c);
        }
        crate::storage::component::lemma_by_component_is(values, self.row(row.0));
    }

    /// Free a row, without touching what its bytes own.
    fn release_row(&mut self, row: RowIndex) -> (released: bool)
        requires
            old(self).wf(),
            row.0 < old(self).next_row.0,
        ensures
            released == old(self).live(row.0),
            final(self).wf(),
            final(self).components == old(self).components,
            old(self).same_but_for_row_freed(*final(self), row.0),
    {
        let released = self.free_rows.insert(row.0);
        proof {
            assert(self.layouts() == old(self).layouts());
            assert forall|r: bus::Width| #[trigger] self.row(r) == old(self).row(r) by {}
            assert(self.rows() =~= old(self).rows().remove(row.0));
        }
        released
    }

    /// The row is free, and nothing else changed.
    pub open spec fn same_but_for_row_freed(self, after: Self, row: bus::Width) -> bool {
        &&& after.layouts() == self.layouts()
        &&& after.rows() == self.rows().remove(row)
        &&& after.free_rows@ == self.free_rows@.insert(row)
        &&& after.next_row == self.next_row
        &&& after.allocated_rows == self.allocated_rows
    }

    /// Free a row, and hand out its components for them to be dropped, each once. A row that is
    /// free already stays as it is, and has nothing to hand out.
    pub fn drop_row(&mut self, row: RowIndex) -> (dropped: Vec<(ComponentId, Vec<u8>)>)
        requires
            old(self).wf(),
            row.0 < old(self).next_row.0,
        ensures
            final(self).wf(),
            old(self).same_but_for_row_freed(*final(self), row.0),
            crate::storage::component::ids(
                crate::storage::component::images(dropped@),
            ).no_duplicates(),
            crate::storage::component::by_component(crate::storage::component::images(dropped@))
                == if old(self).live(row.0) {
                old(self).row(row.0)
            } else {
                Map::empty()
            },
    {
        if self.is_row_safe(row) {
            let dropped = self.iter_row(row);
            self.release_row(row);
            dropped
        } else {
            self.release_row(row);
            let dropped: Vec<(ComponentId, Vec<u8>)> = Vec::new();
            assert(crate::storage::component::images(dropped@) =~= Seq::empty());
            dropped
        }
    }

    /// The bytes of one component of a row.
    pub fn read_component(&self, row: RowIndex, component_id: ComponentId) -> (bytes: &[u8])
        requires
            self.wf(),
            self.live(row.0),
            self.layouts().contains_key(component_id),
        ensures
            bytes@ == self.row(row.0)[component_id],
    {
        match self.components.get(component_id) {
            Some(column) => {
                proof {
                    column.lemma_has_row(self.allocated_rows as int, row.0 as int);
                }
                column.read_element(row)
            },
            None => {
                assert(false);
                &[]
            },
        }
    }
}

impl ComponentTable {
    /// The listed components of a row were overwritten, and nothing else changed.
    pub open spec fn same_but_for_row_written(
        self,
        after: Self,
        row: bus::Width,
        component_ids: Seq<ComponentId>,
        written: Seq<Seq<u8>>,
    ) -> bool {
        &&& after.layouts() == self.layouts()
        &&& after.free_rows@ == self.free_rows@
        &&& after.next_row == self.next_row
        &&& after.allocated_rows == self.allocated_rows
        &&& after.rows().dom() == self.rows().dom()
        &&& forall|r: bus::Width|
            self.live(r) && r != row ==> #[trigger] after.rows()[r] == self.rows()[r]
        &&& after.rows()[row] == overwrite(self.rows()[row], component_ids, written)
    }

    /// Gives mutable access to the raw bytes of the components in this table. What is written
    /// to the returned bytes is what the row holds once the access ends. `None` if the row is
    /// not in use.
    pub fn access_row_raw<const N: usize>(
        &mut self,
        row: RowIndex,
        component_ids: [ComponentId; N],
    ) -> (parts: Option<Vec<&mut [u8]>>)
        requires
            old(self).wf(),
            old(self).live(row.0) ==> {
                &&& component_ids@.no_duplicates()
                &&& forall|i: int|
                    0 <= i < N ==> old(self).layouts().contains_key(#[trigger] component_ids@[i])
            },
        ensures
            parts is Some <==> old(self).live(row.0),
            parts is None ==> *final(self) == *old(self),
            parts matches Some(parts) ==> {
                &&& parts@.len() == N
                &&& forall|i: int|
                    #![trigger parts@[i]]
                    0 <= i < N ==> parts@[i]@ == old(self).rows()[row.0][component_ids@[i]]
                &&& (forall|i: int|
                    #![trigger parts@[i]]
                    0 <= i < N ==> final(parts@[i])@.len() == parts@[i]@.len()) ==> {
                    &&& final(self).wf()
                    &&& old(self).same_but_for_row_written(
                        *final(self),
                        row.0,
                        component_ids@,
                        parts@.map_values(|part: &mut [u8]| final(part)@),
                    )
                }
            },
    {
        // Check that the row is in the allocated range and not freed.
        if !self.is_row_safe(row) {
            return None;
        }
        let ghost before = self.components@;
        let ghost rows = self.allocated_rows as int;
        proof {
            self.lemma_columns_have_row(row);
        }
        match self.components.get_many_mut(component_ids) {
            Some(columns) => {
                let mut columns = columns;
                let ghost all = columns@;
                let mut parts: Vec<&mut [u8]> = Vec::new();
                let mut k: usize = 0;
                while columns.len() > 0
                    invariant
                        k <= N,
                        all.len() == N,
                        columns@ == all.skip(k as int),
                        parts@.len() == k,
                        forall|i: int|
                            #![trigger all[i]]
                            0 <= i < N ==> {
                                &&& *all[i] == before[component_ids@[i]]
                                &&& before[component_ids@[i]].has_row(row.0 as int)
                            },
                        forall|i: int|
                            #![trigger parts@[i]]
                            0 <= i < k ==> {
                                &&& parts@[i]@ == before[component_ids@[i]].element(row.0 as int)
                                &&& final(parts@[i])@.len() == parts@[i]@.len() ==> {
                                    &&& final(all[i]).same_shape(before[component_ids@[i]])
                                    &&& final(all[i]).bytes()
                                        == crate::storage::column::splice(
                                        before[component_ids@[i]].bytes(),
                                        before[component_ids@[i]].size() * row.0,
                                        final(parts@[i])@,
                                    )
                                }
                            },
                    decreases columns.len(),
                {
                    let column = columns.remove(0);
                    assert(column == all[k as int]);
                    parts.push(column.access_element_mut(row));
                    k += 1;
                }
                proof {
                    old(self).lemma_row_accessed(
                        *after_borrow(self),
                        row,
                        component_ids@,
                        parts@.map_values(|part: &mut [u8]| final(part)@),
                    );
                }
                Some(parts)
            },
            None => {
                assert(false);
                None
            },
        }
    }

    /// A row in use has the components of the table, each with as many bytes as its type has,
    /// and none is without size.
    pub proof fn lemma_row(self, row: bus::Width)
        requires
            self.wf(),
            self.live(row),
        ensures
            self.sized(),
            self.rows()[row].dom() == self.layouts().dom(),
            forall|c: ComponentId| #[trigger]
                self.rows()[row].contains_key(c) ==> self.rows()[row][c].len()
                    == self.layouts()[c].size,
    {
        self.lemma_columns_have_row(RowIndex(row));
        assert(self.rows()[row].dom() =~= self.layouts().dom());
        assert forall|c: ComponentId| #[trigger]
            self.rows()[row].contains_key(c) implies self.rows()[row][c].len()
            == self.layouts()[c].size by {
            assert(self.components@.contains_key(c));
        }
    }

    /// Every column has a place for every row in use.
    proof fn lemma_columns_have_row(self, row: RowIndex)
        requires
            self.wf(),
            self.live(row.0),
        ensures
            self.layouts().dom() == self.components@.dom(),
            forall|c: ComponentId| #[trigger]
                self.components@.contains_key(c) ==> {
                    &&& self.components@[c].has_row(row.0 as int)
                    &&& self.components@[c].element(row.0 as int).len()
                        == self.components@[c].size()
                },
    {
        assert(self.layouts().dom() =~= self.components@.dom());
        assert forall|c: ComponentId| #[trigger] self.components@.contains_key(c) implies {
            &&& self.components@[c].has_row(row.0 as int)
            &&& self.components@[c].element(row.0 as int).len() == self.components@[c].size()
        } by {
            assert(self.layouts().contains_key(c));
            self.components@[c].lemma_has_row(self.allocated_rows as int, row.0 as int);
        }
    }

    /// What a table holds after some components of a row were overwritten.
    proof fn lemma_row_accessed(
        self,
        after: Self,
        row: RowIndex,
        component_ids: Seq<ComponentId>,
        written: Seq<Seq<u8>>,
    )
        requires
            self.wf(),
            self.live(row.0),
            component_ids.no_duplicates(),
            forall|i: int|
                0 <= i < component_ids.len() ==> self.layouts().contains_key(
                    #[trigger] component_ids[i],
                ),
            written.len() == component_ids.len(),
            after.free_rows == self.free_rows,
            after.next_row == self.next_row,
            after.allocated_rows == self.allocated_rows,
            after.components@.dom() == self.components@.dom(),
            forall|c: ComponentId|
                self.components@.contains_key(c) && !component_ids.contains(c)
                    ==> #[trigger] after.components@[c] == self.components@[c],
        ensures
            (forall|i: int|
                #![trigger component_ids[i]]
                0 <= i < component_ids.len() ==> {
                    let before = self.components@[component_ids[i]];
                    &&& written[i].len() == before.size()
                    &&& after.components@[component_ids[i]].same_shape(before)
                    &&& after.components@[component_ids[i]].bytes()
                        == crate::storage::column::splice(
                        before.bytes(),
                        before.size() * row.0,
                        written[i],
                    )
                }) ==> {
                &&& after.wf()
                &&& self.same_but_for_row_written(after, row.0, component_ids, written)
            },
    {
        if forall|i: int|
            #![trigger component_ids[i]]
            0 <= i < component_ids.len() ==> {
                let before = self.components@[component_ids[i]];
                &&& written[i].len() == before.size()
                &&& after.components@[component_ids[i]].same_shape(before)
                &&& after.components@[component_ids[i]].bytes()
                    == crate::storage::column::splice(
                    before.bytes(),
                    before.size() * row.0,
                    written[i],
                )
            } {
            self.lemma_columns_have_row(row);
            assert forall|c: ComponentId| #[trigger] after.components@.contains_key(c) implies {
                &&& after.components@[c].wf(after.allocated_rows as int)
                &&& after.components@[c].element_layout == self.components@[c].element_layout
                &&& after.components@[c].element(row.0 as int) == if component_ids.contains(c) {
                    written[component_ids.index_of(c)]
                } else {
                    self.components@[c].element(row.0 as int)
                }
                &&& forall|r: bus::Width|
                    self.live(r) && r != row.0
                        ==> #[trigger] after.components@[c].element(r as int)
                        == self.components@[c].element(r as int)
            } by {
                assert(self.components@.contains_key(c));
                if component_ids.contains(c) {
                    let i = component_ids.index_of(c);
                    assert(component_ids[i] == c);
                    self.components@[c].lemma_splice(
                        after.components@[c],
                        row.0 as int,
                        written[i],
                    );
                    assert forall|r: bus::Width| self.live(r) && r != row.0 implies
                        #[trigger] after.components@[c].element(r as int)
                        == self.components@[c].element(r as int) by {
                        self.lemma_columns_have_row(RowIndex(r));
                    }
                }
            }
            assert(after.layouts() =~= self.layouts());
            assert(after.row(row.0) =~= overwrite(self.row(row.0), component_ids, written));
            assert forall|r: bus::Width| self.live(r) && r != row.0 implies #[trigger] after.row(r)
                == self.row(r) by {
                assert(after.row(r) =~= self.row(r));
            }
            assert(after.rows().dom() =~= self.rows().dom());
            assert(after.wf());
        }
    }
}

impl ComponentTable {
    /// The components of an existing row, and of a list, that a row of this table can be made
    /// of. Every component of the table is among them, with as many bytes as its type has, and
    /// none is without size. For a row that was not used before, a component of the table is
    /// neither listed twice nor both listed and in the existing row.
    pub open spec fn accepts_with(
        self,
        row: Map<ComponentId, Seq<u8>>,
        values: Seq<(ComponentId, Seq<u8>)>,
    ) -> bool {
        &&& self.layouts().dom().subset_of(
            row.dom().union(crate::storage::component::by_component(values).dom()),
        )
        &&& self.sized()
        &&& forall|c: ComponentId| #[trigger]
            row.contains_key(c) && self.layouts().contains_key(c) ==> row[c].len()
                == self.layouts()[c].size
        &&& forall|i: int|
            0 <= i < values.len() && self.layouts().contains_key((#[trigger] values[i]).0)
                ==> values[i].1.len() == self.layouts()[values[i].0].size
        &&& self.free_rows@ == Set::<bus::Width>::empty() ==> {
            &&& forall|i: int, j: int|
                0 <= i < j < values.len() && self.layouts().contains_key((#[trigger] values[i]).0)
                    ==> values[i].0 != (#[trigger] values[j]).0
            &&& forall|i: int|
                0 <= i < values.len() && self.layouts().contains_key((#[trigger] values[i]).0)
                    ==> !row.contains_key(values[i].0)
        }
    }

    /// A list of the components of a row, followed by a list, is accepted where both together
    /// are.
    proof fn lemma_accepts_with(
        self,
        first: Seq<(ComponentId, Seq<u8>)>,
        second: Seq<(ComponentId, Seq<u8>)>,
    )
        requires
            crate::storage::component::ids(first).no_duplicates(),
            self.accepts_with(crate::storage::component::by_component(first), second),
        ensures
            self.accepts(first + second),
            crate::storage::component::by_component(first + second)
                == crate::storage::component::by_component(first).union_prefer_right(
                crate::storage::component::by_component(second),
            ),
    {
        let row = crate::storage::component::by_component(first);
        let values = first + second;
        crate::storage::component::lemma_by_component_concat(first, second);
        crate::storage::component::lemma_by_component_lists(first);
        assert forall|i: int|
            0 <= i < values.len() && self.layouts().contains_key((#[trigger] values[i]).0) implies
            values[i].1.len() == self.layouts()[values[i].0].size by {
            if i < first.len() {
                assert(values[i] == first[i]);
                assert(row.contains_key(first[i].0));
            } else {
                assert(values[i] == second[i - first.len()]);
            }
        }
        if self.free_rows@ == Set::<bus::Width>::empty() {
            assert forall|i: int, j: int|
                0 <= i < j < values.len() && self.layouts().contains_key(
                    (#[trigger] values[i]).0,
                ) implies values[i].0 != (#[trigger] values[j]).0 by {
                if j < first.len() {
                    assert(crate::storage::component::ids(first)[i]
                        != crate::storage::component::ids(first)[j]);
                } else if i < first.len() {
                    assert(values[i] == first[i]);
                    assert(values[j] == second[j - first.len()]);
                    if values[i].0 == values[j].0 {
                        assert(row.contains_key(first[i].0));
                    }
                } else {
                    assert(values[i] == second[i - first.len()]);
                    assert(values[j] == second[j - first.len()]);
                }
            }
        }
    }

    /// The same for a list that is known by the columns that its components are for.
    pub open spec fn accepts_columns(
        self,
        row: Map<ComponentId, Seq<u8>>,
        columns: Seq<(ComponentId, Layout)>,
    ) -> bool {
        &&& self.layouts().dom().subset_of(
            row.dom().union(crate::storage::tuples::column_ids(columns).to_set()),
        )
        &&& self.sized()
        &&& forall|c: ComponentId| #[trigger]
            row.contains_key(c) && self.layouts().contains_key(c) ==> row[c].len()
                == self.layouts()[c].size
        &&& forall|i: int|
            0 <= i < columns.len() && self.layouts().contains_key((#[trigger] columns[i]).0)
                ==> columns[i].1.size == self.layouts()[columns[i].0].size
        &&& self.free_rows@ == Set::<bus::Width>::empty() ==> {
            &&& forall|i: int, j: int|
                0 <= i < j < columns.len() && self.layouts().contains_key((#[trigger] columns[i]).0)
                    ==> columns[i].0 != (#[trigger] columns[j]).0
            &&& forall|i: int|
                0 <= i < columns.len() && self.layouts().contains_key((#[trigger] columns[i]).0)
                    ==> !row.contains_key(columns[i].0)
        }
    }

    /// A list is accepted where its columns are.
    proof fn lemma_accepts_columns<T: ComponentSet>(
        self,
        row: Map<ComponentId, Seq<u8>>,
        values: T,
        list: Seq<(ComponentId, Seq<u8>)>,
    )
        requires
            self.accepts_columns(row, T::spec_columns()),
            crate::storage::tuples::lists::<T>(values, list),
        ensures
            self.accepts_with(row, list),
    {
        let columns = T::spec_columns();
        let ids = crate::storage::tuples::column_ids(columns);
        let parts = list.map_values(|value: (ComponentId, Seq<u8>)| value.1);
        T::lemma_encoded(values, values, parts);
        crate::storage::component::lemma_by_component_dom(list);
        assert(crate::storage::component::ids(list).len() == list.len());
        assert forall|i: int| 0 <= i < list.len() implies {
            &&& (#[trigger] list[i]).0 == columns[i].0
            &&& list[i].1.len() == columns[i].1.size
        } by {
            assert(crate::storage::component::ids(list)[i] == ids[i]);
            assert(parts[i].len() == columns[i].1.size);
        }
        assert forall|c: ComponentId| ids.to_set().contains(c) implies
            crate::storage::component::by_component(list).contains_key(c) by {
            let i = ids.index_of(c);
            assert(list[i].0 == c);
        }
        assert(self.layouts().dom().subset_of(
            row.dom().union(crate::storage::component::by_component(list).dom()),
        ));
    }

    /// A row that was not in use has the components of an existing row and the given values,
    /// as far as the table stores them.
    pub open spec fn row_inserted_with<T: ComponentSet>(
        self,
        after: Self,
        row: bus::Width,
        base: Map<ComponentId, Seq<u8>>,
        values: T,
    ) -> bool {
        exists|list: Seq<(ComponentId, Seq<u8>)>|
            {
                &&& #[trigger] crate::storage::tuples::lists::<T>(values, list)
                &&& self.row_inserted(
                    after,
                    row,
                    base.union_prefer_right(crate::storage::component::by_component(list)),
                )
            }
    }

    /// Insert a row made of the given values. The table takes over what they own.
    ///
    /// A row that was freed is reused. Which one, if there are several, is left open.
    pub fn insert_row<I: StorageInsert>(&mut self, to_insert: I) -> (row: RowIndex)
        requires
            old(self).wf(),
            old(self).accepts_columns(Map::empty(), I::spec_columns()),
            old(self).has_room(),
        ensures
            final(self).wf(),
            final(self).layouts() == old(self).layouts(),
            old(self).row_inserted_with::<I>(*final(self), row.0, Map::empty(), to_insert),
    {
        let values = to_insert.get_values();
        proof {
            let list = crate::storage::component::images(values@);
            self.lemma_accepts_columns::<I>(Map::empty(), to_insert, list);
            self.lemma_accepts_with(Seq::empty(), list);
            assert(Seq::empty() + list =~= list);
        }
        self.insert_row_raw(&values)
    }

    /// A row that was not in use holds those of the given components that the table stores. It
    /// was freed before, or, if there was no such row, it is the next one.
    pub open spec fn row_inserted(
        self,
        after: Self,
        row: bus::Width,
        values: Map<ComponentId, Seq<u8>>,
    ) -> bool {
        &&& !self.live(row)
        &&& after.rows() == self.rows().insert(row, values.restrict(self.layouts().dom()))
        &&& if self.free_rows@ == Set::<bus::Width>::empty() {
            &&& row == self.next_row.0
            &&& self.same_but_for_row_added(after)
        } else {
            &&& self.free_rows@.contains(row)
            &&& self.same_but_for_row_reused(after, row)
        }
    }

    /// Remove a row from this table and insert it into another, adding the additionally provided
    /// components.
    pub fn extend_row_to_other<T: StorageInsert>(
        &mut self,
        other: &mut Self,
        row: RowIndex,
        new_components: T,
    ) -> (new_row: RowIndex)
        requires
            old(self).wf(),
            old(other).wf(),
            old(self).live(row.0),
            old(other).accepts_columns(old(self).rows()[row.0], T::spec_columns()),
            old(other).has_room(),
        ensures
            final(self).wf(),
            final(other).wf(),
            old(self).same_but_for_row_freed(*final(self), row.0),
            final(other).layouts() == old(other).layouts(),
            old(other).row_inserted_with::<T>(
                *final(other),
                new_row.0,
                old(self).rows()[row.0],
                new_components,
            ),
    {
        let mut component_sources = self.iter_row(row);
        let ghost first = crate::storage::component::images(component_sources@);
        let mut values = new_components.get_values();
        let ghost second = crate::storage::component::images(values@);
        component_sources.append(&mut values);
        proof {
            assert(crate::storage::component::images(component_sources@) =~= first + second);
            other.lemma_accepts_columns::<T>(self.rows()[row.0], new_components, second);
            other.lemma_accepts_with(first, second);
        }
        let new_row = other.insert_row_raw(&component_sources);
        self.release_row(row);
        new_row
    }

    /// Remove a row from this table and insert it into another, removing the components of `T`
    /// and returning them from this function.
    pub fn reduce_row_to_other<T: ReduceArgument>(
        &mut self,
        other: &mut Self,
        row: RowIndex,
    ) -> (removed: (RowIndex, T))
        requires
            old(self).wf(),
            old(other).wf(),
            old(self).live(row.0),
            crate::storage::tuples::column_ids(T::spec_columns()).no_duplicates(),
            exists|v: T| #[trigger]
                crate::storage::tuples::row_holds::<T>(old(self).rows()[row.0], v),
            old(other).accepts_with(
                old(self).rows()[row.0].remove_keys(
                    crate::storage::tuples::column_ids(T::spec_columns()).to_set(),
                ),
                Seq::empty(),
            ),
            old(other).has_room(),
        ensures
            final(self).wf(),
            final(other).wf(),
            old(self).same_but_for_row_freed(*final(self), row.0),
            final(other).layouts() == old(other).layouts(),
            old(other).row_inserted(
                *final(other),
                removed.0.0,
                old(self).rows()[row.0].remove_keys(
                    crate::storage::tuples::column_ids(T::spec_columns()).to_set(),
                ),
            ),
            crate::storage::tuples::row_holds::<T>(old(self).rows()[row.0], removed.1),
    {
        let component_sources = self.row_without::<T>(row);
        proof {
            let first = crate::storage::component::images(component_sources@);
            other.lemma_accepts_with(first, Seq::empty());
            assert(first + Seq::empty() =~= first);
        }
        let new_row = other.insert_row_raw(&component_sources);
        let removed_components = match T::build(self, row) {
            Some(removed_components) => removed_components,
            None => {
                assert(false);
                vstd::pervasive::unreached()
            },
        };
        self.release_row(row);
        (new_row, removed_components)
    }

    /// The components of a row but for those of `T`, each once. Their order is left open.
    fn row_without<T: ReduceArgument>(&self, row: RowIndex) -> (kept: Vec<(ComponentId, Vec<u8>)>)
        requires
            self.wf(),
            self.live(row.0),
        ensures
            crate::storage::component::ids(
                crate::storage::component::images(kept@),
            ).no_duplicates(),
            crate::storage::component::by_component(crate::storage::component::images(kept@))
                == self.rows()[row.0].remove_keys(
                crate::storage::tuples::column_ids(T::spec_columns()).to_set(),
            ),
    {
        let mut values = self.iter_row(row);
        let ghost all = crate::storage::component::images(values@);
        let ghost removed = crate::storage::tuples::column_ids(T::spec_columns());
        let mut kept: Vec<(ComponentId, Vec<u8>)> = Vec::new();
        while values.len() > 0
            invariant
                values@.len() <= all.len(),
                crate::storage::component::images(values@) == all.take(values@.len() as int),
                crate::storage::component::ids(all).no_duplicates(),
                removed == crate::storage::tuples::column_ids(T::spec_columns()),
                crate::storage::component::ids(
                    crate::storage::component::images(kept@),
                ).no_duplicates(),
                forall|j: int|
                    #![trigger crate::storage::component::images(kept@)[j]]
                    0 <= j < kept@.len() ==> {
                        &&& !removed.contains(crate::storage::component::images(kept@)[j].0)
                        &&& exists|i: int|
                            values@.len() <= i < all.len() && #[trigger] all[i]
                                == crate::storage::component::images(kept@)[j]
                    },
                forall|i: int|
                    #![trigger all[i]]
                    values@.len() <= i < all.len() && !removed.contains(all[i].0) ==> exists|j: int|
                        0 <= j < kept@.len() && #[trigger] crate::storage::component::images(
                            kept@,
                        )[j] == all[i],
            decreases values.len(),
        {
            let ghost n = values@.len() - 1;
            let ghost before = crate::storage::component::images(kept@);
            let ghost whole = crate::storage::component::images(values@);
            match values.pop() {
                Some(value) => {
                    assert(whole[n] == all[n]);
                    assert(crate::storage::component::images(values@) =~= all.take(n));
                    if !T::contains_component(value.0) {
                        kept.push(value);
                        let ghost after = crate::storage::component::images(kept@);
                        proof {
                            assert(after =~= before.push(all[n]));
                            assert forall|j: int|
                                #![trigger after[j]]
                                0 <= j < before.len() implies {
                                &&& after[j] == before[j]
                                &&& after[j].0 != all[n].0
                            } by {
                                let i = choose|i: int|
                                    n + 1 <= i < all.len() && #[trigger] all[i] == before[j];
                                assert(crate::storage::component::ids(all)[i]
                                    != crate::storage::component::ids(all)[n]);
                            }
                            assert forall|i: int, j: int|
                                0 <= i < after.len() && 0 <= j < after.len() && i != j implies
                                crate::storage::component::ids(after)[i]
                                != crate::storage::component::ids(after)[j] by {
                                assert(after[i].0 == crate::storage::component::ids(after)[i]);
                                assert(after[j].0 == crate::storage::component::ids(after)[j]);
                                if i < before.len() && j < before.len() {
                                    assert(crate::storage::component::ids(before)[i]
                                        != crate::storage::component::ids(before)[j]);
                                }
                            }
                            assert forall|i: int|
                                #![trigger all[i]]
                                n <= i < all.len() && !removed.contains(all[i].0) implies exists|
                                j: int,
                            | 0 <= j < kept@.len() && #[trigger] after[j] == all[i] by {
                                if i == n {
                                    assert(after[before.len() as int] == all[i]);
                                } else {
                                    let j = choose|j: int|
                                        0 <= j < before.len() && #[trigger] before[j] == all[i];
                                    assert(after[j] == all[i]);
                                }
                            }
                        }
                    }
                },
                None => {},
            }
        }
        proof {
            let left = crate::storage::component::images(kept@);
            let row_left = self.rows()[row.0].remove_keys(removed.to_set());
            crate::storage::component::lemma_by_component_lists(all);
            assert forall|j: int| #![trigger left[j]] 0 <= j < left.len() implies {
                &&& row_left.contains_key(left[j].0)
                &&& row_left[left[j].0] == left[j].1
            } by {
                let i = choose|i: int| 0 <= i < all.len() && #[trigger] all[i] == left[j];
            }
            assert forall|c: ComponentId| #[trigger] row_left.contains_key(c) implies exists|
                j: int,
            | 0 <= j < left.len() && (#[trigger] left[j]).0 == c by {
                let i = choose|i: int| 0 <= i < all.len() && (#[trigger] all[i]).0 == c;
                assert(!removed.contains(all[i].0));
                let j = choose|j: int| 0 <= j < kept@.len() && #[trigger] left[j] == all[i];
                assert(left[j].0 == c);
            }
            crate::storage::component::lemma_by_component_is(left, row_left);
        }
        kept
    }
}

impl ComponentTable {
    /// Access the components of this table. What is written to the returned bytes is what the
    /// row holds once the access ends. `None` if the row is not in use.
    pub fn access_row<A: StorageAccessor>(&mut self, row: RowIndex) -> (parts: Option<
        Vec<&mut [u8]>,
    >)
        requires
            old(self).wf(),
            old(self).live(row.0) ==> old(self).stores::<A>(),
        ensures
            parts is Some <==> old(self).live(row.0),
            parts is None ==> *final(self) == *old(self),
            parts matches Some(parts) ==> {
                &&& parts@.len() == A::spec_columns().len()
                &&& forall|i: int|
                    #![trigger parts@[i]]
                    0 <= i < parts@.len() ==> parts@[i]@
                        == old(self).rows()[row.0][A::spec_columns()[i].0]
                &&& (forall|i: int|
                    #![trigger parts@[i]]
                    0 <= i < parts@.len() ==> final(parts@[i])@.len() == parts@[i]@.len()) ==> {
                    &&& final(self).wf()
                    &&& old(self).same_but_for_row_written(
                        *final(self),
                        row.0,
                        crate::storage::tuples::column_ids(A::spec_columns()),
                        parts@.map_values(|part: &mut [u8]| final(part)@),
                    )
                }
            },
    {
        A::access(self, row)
    }

    /// The table has a column for each of the components, and none of them is named twice.
    pub open spec fn stores<A: ComponentSet>(self) -> bool {
        &&& crate::storage::tuples::column_ids(A::spec_columns()).no_duplicates()
        &&& forall|i: int|
            0 <= i < A::spec_columns().len() ==> self.layouts().contains_key(
                #[trigger] crate::storage::tuples::column_ids(A::spec_columns())[i],
            )
    }

    /// Access the first row in use that is not before the given one. Going on with the row after
    /// the one that is returned goes over all rows in use, in ascending order. `None` if there
    /// are no more.
    pub fn iter<A: StorageAccessor>(&mut self, from: RowIndex) -> (next: Option<
        (RowIndex, Vec<&mut [u8]>),
    >)
        requires
            old(self).wf(),
            (exists|r: bus::Width| from.0 <= r && #[trigger] old(self).live(r)) ==> old(
                self,
            ).stores::<A>(),
        ensures
            next is None <==> forall|r: bus::Width| from.0 <= r ==> !#[trigger] old(self).live(r),
            next is None ==> *final(self) == *old(self),
            next matches Some((row, parts)) ==> {
                &&& from.0 <= row.0
                &&& old(self).live(row.0)
                &&& forall|r: bus::Width| from.0 <= r < row.0 ==> !#[trigger] old(self).live(r)
                &&& parts@.len() == A::spec_columns().len()
                &&& forall|i: int|
                    #![trigger parts@[i]]
                    0 <= i < parts@.len() ==> parts@[i]@
                        == old(self).rows()[row.0][A::spec_columns()[i].0]
                &&& (forall|i: int|
                    #![trigger parts@[i]]
                    0 <= i < parts@.len() ==> final(parts@[i])@.len() == parts@[i]@.len()) ==> {
                    &&& final(self).wf()
                    &&& old(self).same_but_for_row_written(
                        *final(self),
                        row.0,
                        crate::storage::tuples::column_ids(A::spec_columns()),
                        parts@.map_values(|part: &mut [u8]| final(part)@),
                    )
                }
            },
    {
        let mut row: usize = from.0;
        while row < self.allocated_rows && !self.is_row_safe(RowIndex(row))
            invariant
                *self == *old(self),
                from.0 <= row,
                forall|r: bus::Width| from.0 <= r < row ==> !#[trigger] old(self).live(r),
            decreases self.allocated_rows - row,
        {
            row += 1;
        }
        if row < self.allocated_rows {
            match self.access_row::<A>(RowIndex(row)) {
                Some(parts) => Some((RowIndex(row), parts)),
                None => {
                    assert(false);
                    None
                },
            }
        } else {
            None
        }
    }

    /// The list has each component of each row in use, once, with its bytes.
    pub open spec fn all_handed_out(
        self,
        dropped: Seq<(RowIndex, ComponentId, Vec<u8>)>,
    ) -> bool {
        &&& forall|i: int, j: int|
            #![trigger dropped[i], dropped[j]]
            0 <= i < j < dropped.len() ==> (dropped[i].0, dropped[i].1) != (
                dropped[j].0,
                dropped[j].1,
            )
        &&& forall|i: int|
            #![trigger dropped[i]]
            0 <= i < dropped.len() ==> {
                &&& self.live(dropped[i].0.0)
                &&& self.layouts().contains_key(dropped[i].1)
                &&& dropped[i].2@ == self.rows()[dropped[i].0.0][dropped[i].1]
            }
        &&& forall|row: bus::Width, c: ComponentId|
            #![trigger self.live(row), self.layouts().contains_key(c)]
            self.live(row) && self.layouts().contains_key(c) ==> hands_out(dropped, row, c)
    }

    /// Give up the table, and hand out all the values that it stores for them to be dropped:
    /// each component of each row in use, once.
    pub fn drop(self) -> (dropped: Vec<(RowIndex, ComponentId, Vec<u8>)>)
        requires
            self.wf(),
        ensures
            self.all_handed_out(dropped@),
    {
        let component_ids = self.components.keys();
        let mut dropped: Vec<(RowIndex, ComponentId, Vec<u8>)> = Vec::new();
        let mut k: usize = 0;
        while k < component_ids.len()
            invariant
                self.wf(),
                k <= component_ids.len(),
                component_ids@.no_duplicates(),
                component_ids@.to_set() == self.components@.dom(),
                forall|i: int, j: int|
                    #![trigger dropped@[i], dropped@[j]]
                    0 <= i < j < dropped@.len() ==> (dropped@[i].0, dropped@[i].1) != (
                        dropped@[j].0,
                        dropped@[j].1,
                    ),
                forall|i: int|
                    #![trigger dropped@[i]]
                    0 <= i < dropped@.len() ==> {
                        &&& self.live(dropped@[i].0.0)
                        &&& self.components@.contains_key(dropped@[i].1)
                        &&& dropped@[i].2@ == self.row(dropped@[i].0.0)[dropped@[i].1]
                        &&& exists|m: int|
                            0 <= m < k && #[trigger] component_ids@[m] == dropped@[i].1
                    },
                forall|row: bus::Width, m: int|
                    self.live(row) && 0 <= m < k ==> #[trigger] hands_out(
                        dropped@,
                        row,
                        component_ids@[m],
                    ),
            decreases component_ids.len() - k,
        {
            let component_id = component_ids[k];
            assert(component_ids@.to_set().contains(component_id));
            assert(self.components@.contains_key(component_id));
            let mut index: usize = 0;
            while index < self.next_row.0
                invariant
                    self.wf(),
                    k < component_ids.len(),
                    component_ids@.no_duplicates(),
                    component_id == component_ids@[k as int],
                    self.components@.contains_key(component_id),
                    index <= self.next_row.0,
                    forall|i: int, j: int|
                        #![trigger dropped@[i], dropped@[j]]
                        0 <= i < j < dropped@.len() ==> (dropped@[i].0, dropped@[i].1) != (
                            dropped@[j].0,
                            dropped@[j].1,
                        ),
                    forall|i: int|
                        #![trigger dropped@[i]]
                        0 <= i < dropped@.len() ==> {
                            &&& self.live(dropped@[i].0.0)
                            &&& self.components@.contains_key(dropped@[i].1)
                            &&& dropped@[i].2@ == self.row(dropped@[i].0.0)[dropped@[i].1]
                            &&& dropped@[i].1 == component_id && dropped@[i].0.0 < index || exists|
                                m: int,
                            | 0 <= m < k && #[trigger] component_ids@[m] == dropped@[i].1
                        },
                    forall|row: bus::Width, m: int|
                        self.live(row) && (0 <= m < k || m == k && row < index)
                            ==> #[trigger] hands_out(dropped@, row, component_ids@[m]),
                decreases self.next_row.0 - index,
            {
                let row = RowIndex(index);
                // Make sure we don't drop an already freed row.
                if !self.free_rows.contains(index) {
                    match self.components.get(component_id) {
                        Some(column) => {
                            proof {
                                self.lemma_columns_have_row(row);
                            }
                            let ghost before = dropped@;
                            dropped.push((row, component_id, column.drop_row(row)));
                            proof {
                                lemma_hands_out(before, dropped@.last());
                            }
                        },
                        None => {
                            assert(false);
                        },
                    }
                }
                index += 1;
            }
            k += 1;
        }
        proof {
            assert(self.layouts().dom() =~= self.components@.dom());
            assert forall|row: bus::Width, c: ComponentId|
                #![trigger self.live(row), self.layouts().contains_key(c)]
                self.live(row) && self.layouts().contains_key(c) implies hands_out(
                dropped@,
                row,
                c,
            ) by {
                assert(component_ids@.to_set().contains(c));
                let m = component_ids@.index_of(c);
                assert(component_ids@[m] == c);
            }
        }
        dropped
    }
}

/// The component of the row is in the list.
pub open spec fn hands_out(
    dropped: Seq<(RowIndex, ComponentId, Vec<u8>)>,
    row: bus::Width,
    component_id: ComponentId,
) -> bool {
    exists|i: int|
        0 <= i < dropped.len() && (#[trigger] dropped[i]).0.0 == row && dropped[i].1
            == component_id
}

/// A longer list has what it had before, and what was added.
proof fn lemma_hands_out(
    dropped: Seq<(RowIndex, ComponentId, Vec<u8>)>,
    next: (RowIndex, ComponentId, Vec<u8>),
)
    ensures
        hands_out(dropped.push(next), next.0.0, next.1),
        forall|row: bus::Width, c: ComponentId|
            hands_out(dropped, row, c) ==> #[trigger] hands_out(dropped.push(next), row, c),
{
    let after = dropped.push(next);
    assert(after[dropped.len() as int] == next);
    assert forall|row: bus::Width, c: ComponentId| hands_out(dropped, row, c) implies #[trigger]
        hands_out(after, row, c) by {
        let i = choose|i: int|
            0 <= i < dropped.len() && (#[trigger] dropped[i]).0.0 == row && dropped[i].1 == c;
        assert(after[i] == dropped[i]);
    }
}

/// `row` with the bytes of the listed components replaced.
pub open spec fn overwrite(
    row: Map<ComponentId, Seq<u8>>,
    component_ids: Seq<ComponentId>,
    written: Seq<Seq<u8>>,
) -> Map<ComponentId, Seq<u8>> {
    row.map_entries(
        |c: ComponentId, bytes: Seq<u8>|
            if component_ids.contains(c) {
                written[component_ids.index_of(c)]
            } else {
                bytes
            },
    )
}

} // verus!
