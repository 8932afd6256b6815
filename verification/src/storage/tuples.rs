//! Sets of components, as tuples of component types and of their values.

use crate::storage::collections::ComponentId;
use crate::storage::column::RowIndex;
use crate::storage::component::{ColumnConstruction, Component};
use crate::storage::layout::Layout;
use crate::storage::table::ComponentTable;
use vstd::prelude::*;

verus! {

/// A set of component types, in some order, with a value of each.
pub trait ComponentSet: Sized {
    /// The components of the set and their layouts.
    spec fn spec_columns() -> Seq<(ComponentId, Layout)>;

    /// The bytes stand for the values, in the order of the components.
    spec fn encoded_by(self, parts: Seq<Seq<u8>>) -> bool;

    /// There are bytes for each component, and they fill its type. They do not stand for other
    /// values.
    proof fn lemma_encoded(a: Self, b: Self, parts: Seq<Seq<u8>>)
        requires
            a.encoded_by(parts),
        ensures
            parts.len() == Self::spec_columns().len(),
            forall|i: int|
                0 <= i < parts.len() ==> (#[trigger] parts[i]).len()
                    == Self::spec_columns()[i].1.size,
            b.encoded_by(parts) ==> a == b,
    ;

    /// The identifiers of the components.
    fn components() -> (component_ids: Vec<ComponentId>)
        ensures
            component_ids@ == column_ids(Self::spec_columns()),
    ;

    /// A new column for each component.
    fn columns() -> (columns: Vec<ColumnConstruction>)
        ensures
            columns@.len() == Self::spec_columns().len(),
            forall|i: int|
                #![trigger columns@[i]]
                0 <= i < columns@.len() ==> {
                    &&& columns@[i].wf()
                    &&& columns@[i].0 == Self::spec_columns()[i].0
                    &&& columns@[i].1.element_layout == Self::spec_columns()[i].1
                },
    ;

    /// Whether the component is in the set.
    fn contains_component(component_id: ComponentId) -> (contained: bool)
        ensures
            contained == column_ids(Self::spec_columns()).contains(component_id),
    {
        let component_ids = Self::components();
        let mut k: usize = 0;
        while k < component_ids.len()
            invariant
                k <= component_ids.len(),
                component_ids@ == column_ids(Self::spec_columns()),
                forall|i: int| 0 <= i < k ==> component_ids@[i] != component_id,
            decreases component_ids.len() - k,
        {
            if component_ids[k] == component_id {
                return true;
            }
            k += 1;
        }
        false
    }
}

/// The components that the given columns are for.
pub open spec fn column_ids(columns: Seq<(ComponentId, Layout)>) -> Seq<ComponentId> {
    columns.map_values(|column: (ComponentId, Layout)| column.0)
}

/// The list has the components of the set, with bytes that stand for the values.
pub open spec fn lists<T: ComponentSet>(
    values: T,
    list: Seq<(ComponentId, Seq<u8>)>,
) -> bool {
    &&& crate::storage::component::ids(list) == column_ids(T::spec_columns())
    &&& values.encoded_by(list.map_values(|value: (ComponentId, Seq<u8>)| value.1))
}

/// Values that can be inserted into a table.
pub trait StorageInsert: ComponentSet {
    /// Gives up the values for their bytes.
    fn get_values(self) -> (values: Vec<(ComponentId, Vec<u8>)>)
        ensures
            lists::<Self>(self, crate::storage::component::images(values@)),
    ;
}

/// The bytes that a row has for the given columns.
pub open spec fn row_parts(
    columns: Seq<(ComponentId, Layout)>,
    row: Map<ComponentId, Seq<u8>>,
) -> Seq<Seq<u8>> {
    columns.map_values(|column: (ComponentId, Layout)| row[column.0])
}

/// The row has all components of the set, and its bytes stand for the given values.
pub open spec fn row_holds<T: ComponentSet>(
    row: Map<ComponentId, Seq<u8>>,
    values: T,
) -> bool {
    &&& forall|i: int|
        0 <= i < T::spec_columns().len() ==> row.contains_key((#[trigger] T::spec_columns()[i]).0)
    &&& values.encoded_by(row_parts(T::spec_columns(), row))
}

/// What a row has after values were inserted: these values, and what it had before.
pub open spec fn inserted_into<T: ComponentSet>(
    before: Map<ComponentId, Seq<u8>>,
    after: Map<ComponentId, Seq<u8>>,
    values: T,
) -> bool {
    &&& T::spec_columns().len() > 0 ==> row_holds::<T>(after, values)
    &&& after.remove_keys(column_ids(T::spec_columns()).to_set()) == before
}

/// A row that a list without repetitions was put into holds the listed values.
pub proof fn lemma_row_holds_list<T: ComponentSet>(
    row: Map<ComponentId, Seq<u8>>,
    values: T,
    list: Seq<(ComponentId, Seq<u8>)>,
)
    requires
        column_ids(T::spec_columns()).no_duplicates(),
        lists::<T>(values, list),
    ensures
        row_holds::<T>(
            row.union_prefer_right(crate::storage::component::by_component(list)),
            values,
        ),
        crate::storage::component::by_component(list).dom() == column_ids(
            T::spec_columns(),
        ).to_set(),
{
    let columns = T::spec_columns();
    let given = crate::storage::component::by_component(list);
    let with = row.union_prefer_right(given);
    let parts = list.map_values(|value: (ComponentId, Seq<u8>)| value.1);
    assert(crate::storage::component::ids(list).len() == list.len());
    assert(column_ids(columns).len() == columns.len());
    crate::storage::component::lemma_by_component_lists(list);
    assert forall|i: int| 0 <= i < columns.len() implies {
        &&& given.contains_key((#[trigger] columns[i]).0)
        &&& given[columns[i].0] == list[i].1
    } by {
        assert(column_ids(columns)[i] == crate::storage::component::ids(list)[i]);
        assert(list[i].0 == columns[i].0);
    }
    assert(row_parts(columns, with) =~= parts);
    assert forall|c: ComponentId| given.contains_key(c) <==> column_ids(columns).to_set().contains(
        c,
    ) by {
        if given.contains_key(c) {
            let i = choose|i: int| 0 <= i < list.len() && (#[trigger] list[i]).0 == c;
            assert(column_ids(columns)[i] == crate::storage::component::ids(list)[i]);
            assert(column_ids(columns).contains(c));
        }
        if column_ids(columns).contains(c) {
            let i = column_ids(columns).index_of(c);
            assert(columns[i].0 == c);
        }
    }
    assert(given.dom() =~= column_ids(columns).to_set());
}

/// Values that can be taken out of a table.
pub trait ReduceArgument: ComponentSet {
    /// Turns the bytes of a row back into the values that they stand for. `None` if the row is
    /// not in use. The bytes of the components are to be considered uninitialized after this.
    fn build(storage: &ComponentTable, row: RowIndex) -> (values: Option<Self>)
        requires
            storage.wf(),
            storage.live(row.0) ==> exists|v: Self| #[trigger]
                row_holds::<Self>(storage.rows()[row.0], v),
        ensures
            values is Some <==> storage.live(row.0),
            values matches Some(values) ==> row_holds::<Self>(storage.rows()[row.0], values),
    ;
}

/// A set of components that can be accessed in place.
pub trait StorageAccessor: ComponentSet {
    /// The bytes of each component of a row, in the order of the set. What is written to them
    /// is what the row holds once the access ends. `None` if the row is not in use.
    ///
    /// A slice keeps its length, but a proof does not know that of a slice that is written to
    /// later. So what holds once the access ends is stated for slices that keep their length.
    fn access(storage: &mut ComponentTable, row: RowIndex) -> (parts: Option<Vec<&mut [u8]>>)
        requires
            old(storage).wf(),
            old(storage).live(row.0) ==> {
                &&& column_ids(Self::spec_columns()).no_duplicates()
                &&& forall|i: int|
                    0 <= i < column_ids(Self::spec_columns()).len() ==> old(
                        storage,
                    ).layouts().contains_key(#[trigger] column_ids(Self::spec_columns())[i])
            },
        ensures
            parts is Some <==> old(storage).live(row.0),
            parts is None ==> *final(storage) == *old(storage),
            parts matches Some(parts) ==> {
                &&& parts@.len() == column_ids(Self::spec_columns()).len()
                &&& forall|i: int|
                    #![trigger parts@[i]]
                    0 <= i < parts@.len() ==> parts@[i]@ == old(
                        storage,
                    ).rows()[row.0][column_ids(Self::spec_columns())[i]]
                &&& (forall|i: int|
                    #![trigger parts@[i]]
                    0 <= i < parts@.len() ==> final(parts@[i])@.len() == parts@[i]@.len()) ==> {
                    &&& final(storage).wf()
                    &&& old(storage).same_but_for_row_written(
                        *final(storage),
                        row.0,
                        column_ids(Self::spec_columns()),
                        parts@.map_values(|part: &mut [u8]| final(part)@),
                    )
                }
            },
    ;
}

/// Turns the bytes of one component of a row back into its value.
pub(crate) fn restore<T: Component>(storage: &ComponentTable, row: RowIndex) -> (value: T)
    requires
        storage.wf(),
        storage.live(row.0),
        storage.rows()[row.0].contains_key(T::spec_id()),
        exists|v: T| #[trigger] v.encoded_by(storage.rows()[row.0][T::spec_id()]),
    ensures
        value.encoded_by(storage.rows()[row.0][T::spec_id()]),
{
    T::from_bytes(storage.read_component(row, T::id()))
}

impl ComponentSet for () {
    open spec fn spec_columns() -> Seq<(ComponentId, Layout)> {
        seq![]
    }

    open spec fn encoded_by(self, parts: Seq<Seq<u8>>) -> bool {
        parts.len() == 0
    }

    proof fn lemma_encoded(a: Self, b: Self, parts: Seq<Seq<u8>>) {
    }

    fn components() -> (component_ids: Vec<ComponentId>) {
        Vec::new()
    }

    fn columns() -> (columns: Vec<ColumnConstruction>) {
        Vec::new()
    }
}

impl StorageInsert for () {
    fn get_values(self) -> (values: Vec<(ComponentId, Vec<u8>)>) {
        let values: Vec<(ComponentId, Vec<u8>)> = Vec::new();
        assert(crate::storage::component::ids(crate::storage::component::images(values@))
            =~= column_ids(Self::spec_columns()));
        values
    }
}

impl ReduceArgument for () {
    fn build(storage: &ComponentTable, row: RowIndex) -> (values: Option<Self>) {
        if storage.is_row_safe(row) {
            Some(())
        } else {
            None
        }
    }
}

impl StorageAccessor for () {
    fn access(storage: &mut ComponentTable, row: RowIndex) -> (parts: Option<Vec<&mut [u8]>>) {
        let component_ids: [ComponentId; 0] = [];
        assert(component_ids@ =~= column_ids(Self::spec_columns()));
        storage.access_row_raw(row, component_ids)
    }
}

} // verus!
