//! What the contents of tables mean, in terms of their memory and of the rows that were handed
//! out.

use crate::bus;
use crate::storage::column::{Column, RowIndex};
use crate::storage::component::ColumnConstruction;
use crate::storage::layout::Layout;
use crate::storage::table::ComponentTable;
use crate::storage::tuples::ComponentSet;
use crate::storage::ComponentId;
use vstd::prelude::*;

verus! {

/// Padding leads to the next multiple of the alignment, and not beyond it.
pub proof fn lemma_padding_leads_to_next_multiple(len: int, align: int)
    requires
        0 < align,
    ensures
        0 <= crate::storage::layout::padding(len, align) < align,
        (len + crate::storage::layout::padding(len, align)) % align == 0,
{
    let rest = len % align;
    vstd::arithmetic::div_mod::lemma_fundamental_div_mod(len, align);
    if rest == 0 {
        vstd::arithmetic::div_mod::lemma_mod_self_0(align);
    } else {
        vstd::arithmetic::div_mod::lemma_small_mod((align - rest) as nat, align as nat);
        let times = len / align + 1;
        assert(len + (align - rest) == times * align) by (nonlinear_arith)
            requires
                len == align * (len / align) + rest,
                times == len / align + 1,
        ;
        vstd::arithmetic::div_mod::lemma_mod_multiples_basic(times, align);
    }
}

/// The distance between the elements of an array is a multiple of the alignment. It is the size,
/// but for less than the alignment.
pub proof fn lemma_stride_is_next_multiple(layout: Layout)
    requires
        0 < layout.align,
    ensures
        layout.size <= layout.stride() < layout.size + layout.align,
        layout.stride() % layout.align as int == 0,
{
    lemma_padding_leads_to_next_multiple(layout.size as int, layout.align as int);
}

/// A type has a layout that memory can be allocated for, and its size is a multiple of its
/// alignment.
pub proof fn lemma_layouts_of_types(layout: Layout)
    ensures
        layout.valid() <==> vstd::layout::valid_layout(layout.size, layout.align),
        layout.of_type() <==> layout.valid() && layout.size % layout.align == 0,
{
}

/// Overwriting a part of some bytes changes that part and keeps the others in their places.
pub proof fn lemma_splice_by_place(bytes: Seq<u8>, start: int, part: Seq<u8>)
    requires
        0 <= start,
        start + part.len() <= bytes.len(),
    ensures
        crate::storage::column::splice(bytes, start, part).len() == bytes.len(),
        forall|i: int|
            #![trigger crate::storage::column::splice(bytes, start, part)[i]]
            0 <= i < bytes.len() ==> crate::storage::column::splice(bytes, start, part)[i] == if start
                <= i < start + part.len() {
                part[i - start]
            } else {
                bytes[i]
            },
{
}

/// Where the element of a row is in a column: behind those of the rows before it, each of which
/// takes as many bytes as the type has.
pub proof fn lemma_place_of_an_element(column: Column, rows: int, row: int)
    requires
        column.wf(rows),
        0 < column.element_layout.size,
        0 <= row < rows,
    ensures
        column.allocation is Some,
        column.allocation->0.data@.len() == column.element_layout.size * rows,
        column.allocation->0.layout.size == column.element_layout.size * rows,
        column.allocation->0.layout.align == column.element_layout.align,
        column.has_row(row),
        column.size() == column.element_layout.size,
        column.bytes() == column.allocation->0.data@,
        column.element(row).len() == column.element_layout.size,
        forall|i: int|
            0 <= i < column.element_layout.size ==> #[trigger] column.element(row)[i]
                == column.allocation->0.data@[column.element_layout.size * row + i],
{
    crate::storage::column::lemma_element_bounds(column.size(), row, rows);
}

/// Reading an element reads its bytes from the memory of the column, whatever else is there.
pub proof fn lemma_bytes_of_an_element(column: Column, row: int, i: int)
    requires
        column.has_row(row),
        0 <= i < column.element_layout.size,
    ensures
        column.allocation is Some,
        0 <= column.element_layout.size * row,
        column.element_layout.size * row + column.element_layout.size
            <= column.allocation->0.data@.len(),
        column.element(row).len() == column.element_layout.size,
        column.element(row)[i] == column.allocation->0.data@[column.element_layout.size * row + i],
{
}

/// A new column has no memory, and the layout of a type.
pub proof fn lemma_new_column(construction: ColumnConstruction)
    ensures
        construction.wf() <==> construction.1.allocation is None
            && construction.1.element_layout.of_type(),
{
}

/// Columns have the same shape exactly if their elements and their allocations have the same
/// layouts.
pub proof fn lemma_same_shape(a: Column, b: Column)
    requires
        a.same_shape(b),
    ensures
        a.element_layout == b.element_layout,
        match (a.allocation, b.allocation) {
            (Some(x), Some(y)) => x.layout == y.layout && x.data@.len() == y.data@.len(),
            (None, None) => true,
            _ => false,
        },
{
}

/// Lists of components, place by place.
pub proof fn lemma_lists_by_place(
    values: Seq<(ComponentId, Vec<u8>)>,
    list: Seq<(ComponentId, Seq<u8>)>,
    columns: Seq<(ComponentId, Layout)>,
    row: Map<ComponentId, Seq<u8>>,
)
    ensures
        crate::storage::component::images(values).len() == values.len(),
        forall|i: int|
            0 <= i < values.len() ==> #[trigger] crate::storage::component::images(values)[i] == (
                values[i].0,
                values[i].1@,
            ),
        crate::storage::component::ids(list).len() == list.len(),
        forall|i: int|
            0 <= i < list.len() ==> #[trigger] crate::storage::component::ids(list)[i] == list[i].0,
        crate::storage::tuples::column_ids(columns).len() == columns.len(),
        forall|i: int|
            0 <= i < columns.len() ==> #[trigger] crate::storage::tuples::column_ids(columns)[i]
                == columns[i].0,
        crate::storage::tuples::row_parts(columns, row).len() == columns.len(),
        forall|i: int|
            0 <= i < columns.len() ==> #[trigger] crate::storage::tuples::row_parts(columns, row)[i]
                == row[columns[i].0],
{
}

/// What a list stands for: of each listed component, the bytes that it is listed with last.
pub proof fn lemma_last_of_a_list_counts(
    list: Seq<(ComponentId, Seq<u8>)>,
    next: (ComponentId, Seq<u8>),
    c: ComponentId,
)
    ensures
        !crate::storage::component::by_component(Seq::empty()).contains_key(c),
        crate::storage::component::by_component(list.push(next)).contains_key(c) <==> {
            ||| c == next.0
            ||| crate::storage::component::by_component(list).contains_key(c)
        },
        crate::storage::component::by_component(list.push(next))[next.0] == next.1,
        c != next.0 && crate::storage::component::by_component(list).contains_key(c)
            ==> crate::storage::component::by_component(list.push(next))[c]
            == crate::storage::component::by_component(list)[c],
{
    assert(list.push(next).drop_last() =~= list);
}

/// A table stores the components that it has columns for, with their layouts. The rows in use are
/// those that were handed out and are not free.
pub proof fn lemma_table_by_columns(table: ComponentTable, row: bus::Width, c: ComponentId)
    ensures
        table.layouts().contains_key(c) <==> table.components@.contains_key(c),
        table.components@.contains_key(c) ==> table.layouts()[c]
            == table.components@[c].element_layout,
        table.live(row) <==> row < table.next_row.0 && !table.free_rows@.contains(row),
        table.rows().contains_key(row) <==> row < table.next_row.0 && !table.free_rows@.contains(
            row,
        ),
        table.rows().contains_key(row) ==> table.rows()[row] == table.row(row),
        table.row(row).contains_key(c) <==> table.components@.contains_key(c),
        table.components@.contains_key(c) ==> table.row(row)[c] == table.components@[c].element(
            row as int,
        ),
{
}

/// A row in use has every component of the table, and its bytes are those in the memory of the
/// column.
pub proof fn lemma_rows_are_memory(table: ComponentTable, row: bus::Width, c: ComponentId)
    requires
        table.wf(),
    ensures
        table.rows().contains_key(row) ==> {
            &&& table.rows()[row].contains_key(c) <==> table.components@.contains_key(c)
            &&& table.components@.contains_key(c) ==> {
                let size = table.components@[c].element_layout.size;
                &&& size > 0
                &&& table.components@[c].allocation is Some
                &&& table.components@[c].allocation->0.data@.len() == size * table.allocated_rows
                &&& table.rows()[row][c].len() == size
                &&& forall|i: int|
                    0 <= i < size ==> #[trigger] table.rows()[row][c][i]
                        == table.components@[c].allocation->0.data@[size * row + i]
            }
        },
{
    if table.rows().contains_key(row) && table.components@.contains_key(c) {
        assert(table.layouts().contains_key(c));
        lemma_place_of_an_element(
            table.components@[c],
            table.allocated_rows as int,
            row as int,
        );
        assert(table.rows()[row][c] == table.components@[c].element(row as int));
    }
}

/// A new table has no rows and no memory.
pub proof fn lemma_unused_table(table: ComponentTable)
    requires
        table.unused(),
    ensures
        table.wf(),
        table.next_row.0 == 0,
        table.allocated_rows == 0,
        table.free_rows@ == Set::<bus::Width>::empty(),
        forall|row: bus::Width| !#[trigger] table.rows().contains_key(row),
{
}

/// A table without memory makes room for four rows, and then doubles what it has.
pub proof fn lemma_memory_is_doubled(table: ComponentTable)
    requires
        table.wf(),
    ensures
        table.grown_rows() == if table.allocated_rows == 0 {
            4
        } else {
            2 * table.allocated_rows
        },
{
    if table.allocated_rows > 0 {
        let times = choose|times: nat|
            table.allocated_rows == crate::storage::table::INITIAL_ROW_ALLOCATION
                * #[trigger] vstd::arithmetic::power2::pow2(times);
        vstd::arithmetic::power2::lemma_pow2_pos(times);
    }
}

/// Where a new row goes if there is no free one: behind those that were handed out. Memory is
/// added only where it is used up.
pub proof fn lemma_row_is_added(before: ComponentTable, after: ComponentTable)
    requires
        before.wf(),
        before.same_but_for_row_added(after),
    ensures
        after.free_rows@ == before.free_rows@,
        after.next_row.0 == before.next_row.0 + 1,
        after.allocated_rows == if before.next_row.0 < before.allocated_rows {
            before.allocated_rows as int
        } else if before.allocated_rows == 0 {
            4
        } else {
            2 * before.allocated_rows
        },
{
    lemma_memory_is_doubled(before);
}

/// A row that was free is taken out of the free ones, and nothing is added.
pub proof fn lemma_row_is_reused(before: ComponentTable, after: ComponentTable, row: bus::Width)
    requires
        before.same_but_for_row_reused(after, row),
    ensures
        forall|r: bus::Width| #[trigger]
            after.free_rows@.contains(r) <==> r != row && before.free_rows@.contains(r),
        after.next_row == before.next_row,
        after.allocated_rows == before.allocated_rows,
{
}

/// A row that is given up becomes free, and the others stay in use with what they hold.
pub proof fn lemma_row_is_freed(
    before: ComponentTable,
    after: ComponentTable,
    row: bus::Width,
    other: bus::Width,
)
    requires
        before.same_but_for_row_freed(after, row),
    ensures
        after.layouts() == before.layouts(),
        !after.rows().contains_key(row),
        after.rows().contains_key(other) <==> other != row && before.rows().contains_key(other),
        after.rows().contains_key(other) ==> after.rows()[other] == before.rows()[other],
        after.free_rows@.contains(row),
        after.free_rows@.contains(other) <==> other == row || before.free_rows@.contains(other),
        after.next_row == before.next_row,
        after.allocated_rows == before.allocated_rows,
{
}

/// A row that is inserted was not in use before. It has the given bytes of the components of the
/// table, and the other rows stay in use with what they hold.
pub proof fn lemma_row_is_inserted(
    before: ComponentTable,
    after: ComponentTable,
    row: bus::Width,
    values: Map<ComponentId, Seq<u8>>,
    other: bus::Width,
    c: ComponentId,
)
    requires
        before.wf(),
        before.row_inserted(after, row, values),
    ensures
        !before.rows().contains_key(row),
        after.rows().contains_key(row),
        after.rows()[row].contains_key(c) <==> values.contains_key(c)
            && before.components@.contains_key(c),
        after.rows()[row].contains_key(c) ==> after.rows()[row][c] == values[c],
        other != row ==> {
            &&& after.rows().contains_key(other) <==> before.rows().contains_key(other)
            &&& after.rows().contains_key(other) ==> after.rows()[other] == before.rows()[other]
        },
        before.free_rows@ == Set::<bus::Width>::empty() ==> {
            &&& row == before.next_row.0
            &&& after.free_rows@ == Set::<bus::Width>::empty()
            &&& after.next_row.0 == before.next_row.0 + 1
        },
        before.free_rows@ != Set::<bus::Width>::empty() ==> {
            &&& before.free_rows@.contains(row)
            &&& after.free_rows@ == before.free_rows@.remove(row)
            &&& after.next_row == before.next_row
            &&& after.allocated_rows == before.allocated_rows
        },
{
    lemma_rows_are_memory(before, row, c);
}

/// Values that are inserted as a row, together with what another row had, are there under their
/// own identifiers, and what the other row had is there under the other ones.
pub proof fn lemma_inserted_values_are_held<T: ComponentSet>(
    before: ComponentTable,
    after: ComponentTable,
    row: bus::Width,
    base: Map<ComponentId, Seq<u8>>,
    values: T,
    c: ComponentId,
)
    requires
        before.wf(),
        before.row_inserted_with::<T>(after, row, base, values),
        crate::storage::tuples::column_ids(T::spec_columns()).no_duplicates(),
        forall|i: int|
            0 <= i < T::spec_columns().len() ==> before.components@.contains_key(
                (#[trigger] T::spec_columns()[i]).0,
            ),
    ensures
        !before.rows().contains_key(row),
        after.rows().contains_key(row),
        crate::storage::tuples::row_holds::<T>(after.rows()[row], values),
        !crate::storage::tuples::column_ids(T::spec_columns()).contains(c) ==> {
            &&& after.rows()[row].contains_key(c) <==> base.contains_key(c)
                && before.components@.contains_key(c)
            &&& after.rows()[row].contains_key(c) ==> after.rows()[row][c] == base[c]
        },
{
    let columns = T::spec_columns();
    let list = choose|list: Seq<(ComponentId, Seq<u8>)>|
        {
            &&& #[trigger] crate::storage::tuples::lists::<T>(values, list)
            &&& before.row_inserted(
                after,
                row,
                base.union_prefer_right(crate::storage::component::by_component(list)),
            )
        };
    let all = base.union_prefer_right(crate::storage::component::by_component(list));
    let held = after.rows()[row];
    crate::storage::tuples::lemma_row_holds_list::<T>(base, values, list);
    lemma_row_is_inserted(before, after, row, all, row, c);
    assert forall|i: int| 0 <= i < columns.len() implies {
        &&& held.contains_key((#[trigger] columns[i]).0)
        &&& held[columns[i].0] == all[columns[i].0]
    } by {
        lemma_row_is_inserted(before, after, row, all, row, columns[i].0);
    }
    assert(crate::storage::tuples::row_parts(columns, held)
        =~= crate::storage::tuples::row_parts(columns, all));
    assert(crate::storage::component::by_component(list).dom().contains(c)
        <==> crate::storage::tuples::column_ids(columns).to_set().contains(c));
}

/// Writing to components of a row changes these, and nothing else of the table.
pub proof fn lemma_row_is_written(
    before: ComponentTable,
    after: ComponentTable,
    row: bus::Width,
    component_ids: Seq<ComponentId>,
    written: Seq<Seq<u8>>,
    other: bus::Width,
    c: ComponentId,
    i: int,
)
    requires
        before.same_but_for_row_written(after, row, component_ids, written),
        before.rows().contains_key(row),
        component_ids.no_duplicates(),
    ensures
        after.layouts() == before.layouts(),
        after.free_rows@ == before.free_rows@,
        after.next_row == before.next_row,
        after.allocated_rows == before.allocated_rows,
        after.rows().contains_key(other) <==> before.rows().contains_key(other),
        other != row && before.rows().contains_key(other) ==> after.rows()[other]
            == before.rows()[other],
        after.rows()[row].contains_key(c) <==> before.rows()[row].contains_key(c),
        0 <= i < component_ids.len() && before.rows()[row].contains_key(component_ids[i])
            ==> after.rows()[row][component_ids[i]] == written[i],
        before.rows()[row].contains_key(c) && !component_ids.contains(c) ==> after.rows()[row][c]
            == before.rows()[row][c],
{
    if 0 <= i < component_ids.len() {
        assert(component_ids.index_of(component_ids[i]) == i);
    }
    assert(after.rows().dom().contains(other) <==> before.rows().dom().contains(other));
    assert(before.rows().contains_key(other) ==> before.live(other));
}

/// A table that is given up hands out every component of every row in use, with its bytes, and
/// nothing else. Nothing is handed out twice.
pub proof fn lemma_everything_is_handed_out(
    table: ComponentTable,
    dropped: Seq<(RowIndex, ComponentId, Vec<u8>)>,
    row: bus::Width,
    c: ComponentId,
)
    requires
        table.wf(),
        table.all_handed_out(dropped),
    ensures
        table.rows().contains_key(row) && table.components@.contains_key(c) <==> exists|i: int|
            0 <= i < dropped.len() && (#[trigger] dropped[i]).0 == RowIndex(row) && dropped[i].1 == c,
        forall|i: int|
            0 <= i < dropped.len() ==> table.rows()[dropped[i].0.0][dropped[i].1] == (
            #[trigger] dropped[i]).2@,
        forall|i: int, j: int|
            #![trigger dropped[i], dropped[j]]
            0 <= i < j < dropped.len() ==> dropped[i].0 != dropped[j].0 || dropped[i].1
                != dropped[j].1,
{
    lemma_rows_are_memory(table, row, c);
    if table.rows().contains_key(row) && table.components@.contains_key(c) {
        assert(table.live(row) && table.layouts().contains_key(c));
        assert(crate::storage::table::hands_out(dropped, row, c));
        let i = choose|i: int|
            0 <= i < dropped.len() && (#[trigger] dropped[i]).0.0 == row && dropped[i].1 == c;
        assert(dropped[i].0 == RowIndex(row));
    }
    if exists|i: int|
        0 <= i < dropped.len() && (#[trigger] dropped[i]).0 == RowIndex(row) && dropped[i].1 == c {
        let i = choose|i: int|
            0 <= i < dropped.len() && (#[trigger] dropped[i]).0 == RowIndex(row) && dropped[i].1
                == c;
        assert(table.live(dropped[i].0.0));
    }
}

/// A table has room where it has a free row, or memory that was not handed out yet, or where the
/// machine can hold each of its columns after the memory was added.
pub proof fn lemma_table_has_room(table: ComponentTable, row: bus::Width)
    requires
        table.wf(),
        ({
            let rows = if table.allocated_rows == 0 {
                4
            } else {
                2 * table.allocated_rows
            };
            ||| table.free_rows@.contains(row)
            ||| table.next_row.0 < table.allocated_rows
            ||| {
                &&& rows <= usize::MAX
                &&& forall|c: ComponentId| #[trigger]
                    table.components@.contains_key(c) ==> table.components@[c].element_layout.size
                        * rows <= isize::MAX
            }
        }),
    ensures
        table.has_room(),
{
    lemma_memory_is_doubled(table);
    if !table.free_rows@.contains(row) && table.next_row.0 >= table.allocated_rows {
        assert forall|c: ComponentId| #[trigger] table.layouts().contains_key(c) implies
            table.layouts()[c].size * table.grown_rows() <= isize::MAX by {
            assert(table.components@.contains_key(c));
        }
    }
}

/// A table takes a row of values of its own components: each is there once, and none is without
/// size.
pub proof fn lemma_table_takes_its_components<T: ComponentSet>(table: ComponentTable)
    requires
        crate::storage::tuples::column_ids(T::spec_columns()).no_duplicates(),
        forall|c: ComponentId| #[trigger]
            table.components@.contains_key(c) ==> exists|i: int|
                0 <= i < T::spec_columns().len() && (#[trigger] T::spec_columns()[i]).0 == c,
        forall|i: int|
            #![trigger T::spec_columns()[i]]
            0 <= i < T::spec_columns().len() ==> {
                &&& table.components@.contains_key(T::spec_columns()[i].0)
                &&& table.components@[T::spec_columns()[i].0].element_layout
                    == T::spec_columns()[i].1
                &&& T::spec_columns()[i].1.size > 0
            },
    ensures
        table.accepts_columns(Map::empty(), T::spec_columns()),
        table.stores::<T>(),
{
    let columns = T::spec_columns();
    let ids = crate::storage::tuples::column_ids(columns);
    assert forall|c: ComponentId| table.layouts().dom().contains(c) implies ids.to_set().contains(
        c,
    ) && table.layouts()[c].size > 0 by {
        assert(table.components@.contains_key(c));
        let i = choose|i: int| 0 <= i < columns.len() && (#[trigger] columns[i]).0 == c;
        assert(ids[i] == c);
    }
    assert forall|i: int, j: int|
        0 <= i < j < columns.len() && table.layouts().contains_key((#[trigger] columns[i]).0)
        implies columns[i].0 != (#[trigger] columns[j]).0 by {
        assert(ids[i] != ids[j]);
    }
    assert forall|i: int| 0 <= i < columns.len() implies table.layouts().contains_key(
        #[trigger] ids[i],
    ) by {
        assert(table.components@.contains_key(columns[i].0));
    }
}

/// A list of the components of a table, each once and with as many bytes as its type has, can be
/// inserted as a row, if no component is without size.
pub proof fn lemma_table_takes_lists(
    table: ComponentTable,
    list: Seq<(ComponentId, Seq<u8>)>,
)
    requires
        crate::storage::component::ids(list).no_duplicates(),
        forall|c: ComponentId| #[trigger]
            table.components@.contains_key(c) ==> table.components@[c].element_layout.size > 0
                && exists|i: int| 0 <= i < list.len() && (#[trigger] list[i]).0 == c,
        forall|i: int|
            #![trigger list[i]]
            0 <= i < list.len() && table.components@.contains_key(list[i].0) ==> list[i].1.len()
                == table.components@[list[i].0].element_layout.size,
    ensures
        table.accepts(list),
        table.accepts_with(crate::storage::component::by_component(list), Seq::empty()),
{
    let ids = crate::storage::component::ids(list);
    let given = crate::storage::component::by_component(list);
    crate::storage::component::lemma_by_component_lists(list);
    crate::storage::component::lemma_by_component_dom(list);
    assert forall|c: ComponentId| table.layouts().dom().contains(c) implies given.dom().contains(c)
        && table.layouts()[c].size > 0 by {
        assert(table.components@.contains_key(c));
    }
    assert forall|i: int, j: int|
        0 <= i < j < list.len() && table.layouts().contains_key((#[trigger] list[i]).0) implies
        list[i].0 != (#[trigger] list[j]).0 by {
        assert(ids[i] != ids[j]);
    }
    assert forall|c: ComponentId| #[trigger]
        given.contains_key(c) && table.layouts().contains_key(c) implies given[c].len()
        == table.layouts()[c].size by {
        let i = choose|i: int| 0 <= i < list.len() && (#[trigger] list[i]).0 == c;
        assert(table.components@.contains_key(c));
    }
}

} // verus!
