//! What holds of tables as a whole.

use crate::bus;
use crate::storage::table::ComponentTable;
use crate::storage::ComponentId;
use vstd::prelude::*;

verus! {

/// How a table keeps track of its rows: rows that were handed out have memory, the memory is that
/// of the initial allocation, doubled any number of times, free rows were handed out before, and
/// the rows in use are those that were handed out and are not free.
pub proof fn lemma_rows_are_kept_track_of(table: ComponentTable)
    requires
        table.wf(),
    ensures
        table.next_row.0 <= table.allocated_rows,
        table.allocated_rows == 0 || exists|times: nat|
            table.allocated_rows == crate::storage::table::INITIAL_ROW_ALLOCATION
                * #[trigger] vstd::arithmetic::power2::pow2(times),
        forall|row: bus::Width| #[trigger]
            table.free_rows@.contains(row) ==> row < table.next_row.0,
        forall|row: bus::Width| #[trigger]
            table.rows().contains_key(row) <==> row < table.next_row.0
                && !table.free_rows@.contains(row),
{
}

/// What is inserted as a row is what is read from it: a list of the components of the table, each
/// once, and the list that is read back have the same components with the same bytes.
pub proof fn lemma_inserted_row_is_read_back(
    before: ComponentTable,
    after: ComponentTable,
    row: bus::Width,
    inserted: Seq<(ComponentId, Seq<u8>)>,
    read: Seq<(ComponentId, Seq<u8>)>,
)
    requires
        crate::storage::component::ids(inserted).no_duplicates(),
        crate::storage::component::ids(inserted).to_set() == before.layouts().dom(),
        after.rows() == before.rows().insert(
            row,
            crate::storage::component::by_component(inserted).restrict(before.layouts().dom()),
        ),
        crate::storage::component::ids(read).no_duplicates(),
        crate::storage::component::by_component(read) == after.row(row),
    ensures
        read.to_set() == inserted.to_set(),
        read.len() == inserted.len(),
{
    let given = crate::storage::component::by_component(inserted);
    let ids = crate::storage::component::ids(inserted);
    crate::storage::component::lemma_by_component_lists(inserted);
    crate::storage::component::lemma_by_component_lists(read);
    assert forall|c: ComponentId| given.contains_key(c) <==> before.layouts().dom().contains(c) by {
        if given.contains_key(c) {
            let i = choose|i: int| 0 <= i < inserted.len() && (#[trigger] inserted[i]).0 == c;
            assert(ids[i] == c);
            assert(ids.to_set().contains(c));
        }
        if before.layouts().dom().contains(c) {
            assert(ids.to_set().contains(c));
            let i = ids.index_of(c);
            assert(inserted[i].0 == c);
        }
    }
    assert(after.rows().contains_key(row));
    assert(after.rows()[row] == after.row(row));
    assert(given.restrict(before.layouts().dom()) =~= given);
    assert(crate::storage::component::by_component(read) == given);
    assert forall|value: (ComponentId, Seq<u8>)| read.to_set().contains(value)
        <==> inserted.to_set().contains(value) by {
        if read.contains(value) {
            let i = read.index_of(value);
            assert(read[i] == value);
            let j = choose|j: int| 0 <= j < inserted.len() && (#[trigger] inserted[j]).0 == value.0;
            assert(inserted[j] == value);
        }
        if inserted.contains(value) {
            let i = inserted.index_of(value);
            assert(inserted[i] == value);
            let j = choose|j: int| 0 <= j < read.len() && (#[trigger] read[j]).0 == value.0;
            assert(read[j] == value);
        }
    }
    assert(read.to_set() =~= inserted.to_set());
    assert forall|i: int, j: int|
        0 <= i < read.len() && 0 <= j < read.len() && i != j implies read[i] != read[j] by {
        assert(crate::storage::component::ids(read)[i] != crate::storage::component::ids(read)[j]);
    }
    assert forall|i: int, j: int|
        0 <= i < inserted.len() && 0 <= j < inserted.len() && i != j implies inserted[i]
        != inserted[j] by {
        assert(ids[i] != ids[j]);
    }
    read.unique_seq_to_set();
    inserted.unique_seq_to_set();
}

} // verus!
