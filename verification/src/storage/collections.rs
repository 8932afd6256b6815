//! The hash collections of a table: its columns by component, and its free rows.

use crate::bus;
use crate::storage::column::Column;
use vstd::prelude::*;

verus! {

/// The identifier of a component, unique to its type, used to find components in tables.
pub type ComponentId = bus::Width;

/// The columns of a table, by the component that they store.
#[verifier::external_body]
pub struct ColumnMap {
    inner: hashbrown::HashMap<ComponentId, Column>,
}

/// What a `ColumnMap` holds.
pub uninterp spec fn column_map(columns: ColumnMap) -> Map<ComponentId, Column>;

impl View for ColumnMap {
    type V = Map<ComponentId, Column>;

    open spec fn view(&self) -> Map<ComponentId, Column> {
        column_map(*self)
    }
}

impl ColumnMap {
    /// `hashbrown::HashMap::new`: the new map is empty.
    #[verifier::external_body]
    pub(crate) fn new() -> (columns: Self)
        ensures
            (column_map(columns) == Map::<ComponentId, Column>::empty()),
    {
        ColumnMap { inner: hashbrown::HashMap::new() }
    }

    /// `hashbrown::HashMap::insert`: the key has the given value, and the other keys keep
    /// theirs.
    #[verifier::external_body]
    pub(crate) fn insert(&mut self, component_id: ComponentId, column: Column)
        ensures
            column_map(*final(self)) == column_map(*old(self)).insert(component_id, column),
    {
        self.inner.insert(component_id, column);
    }

    /// `hashbrown::HashMap::contains_key`: whether the key has a value.
    #[verifier::external_body]
    pub(crate) fn contains_key(&self, component_id: ComponentId) -> (found: bool)
        ensures
            found == column_map(*self).contains_key(component_id),
    {
        self.inner.contains_key(&component_id)
    }

    /// `hashbrown::HashMap::get`: the value of the key, `None` if it has none.
    #[verifier::external_body]
    pub(crate) fn get(&self, component_id: ComponentId) -> (column: Option<&Column>)
        ensures
            match column {
                Some(column) => column_map(*self).contains_key(component_id) && *column
                    == column_map(*self)[component_id],
                None => !column_map(*self).contains_key(component_id),
            },
    {
        self.inner.get(&component_id)
    }

    /// `hashbrown::HashMap::get_mut`: a reference to the value of the key, `None` if it has
    /// none. What is written through the reference becomes the value of the key, and nothing
    /// else changes.
    #[verifier::external_body]
    pub(crate) fn get_mut(&mut self, component_id: ComponentId) -> (column: Option<&mut Column>)
        ensures
            match column {
                Some(column) => {
                    &&& column_map(*old(self)).contains_key(component_id)
                    &&& *column == column_map(*old(self))[component_id]
                    &&& column_map(*final(self)) == column_map(*old(self)).insert(
                        component_id,
                        *final(column),
                    )
                },
                None => {
                    &&& !column_map(*old(self)).contains_key(component_id)
                    &&& column_map(*final(self)) == column_map(*old(self))
                },
            },
    {
        self.inner.get_mut(&component_id)
    }

    /// `hashbrown::HashMap::get_many_mut`: references to the values of several keys at once, in
    /// the order of the keys. `None` if a key has no value or occurs twice. What is written
    /// through the references becomes the values of the keys, and nothing else changes.
    #[verifier::external_body]
    pub(crate) fn get_many_mut<const N: usize>(
        &mut self,
        component_ids: [ComponentId; N],
    ) -> (columns: Option<Vec<&mut Column>>)
        ensures
            columns is Some <==> {
                &&& component_ids@.no_duplicates()
                &&& forall|i: int|
                    0 <= i < N ==> column_map(*old(self)).contains_key(#[trigger] component_ids@[i])
            },
            columns is None ==> column_map(*final(self)) == column_map(*old(self)),
            columns matches Some(columns) ==> {
                &&& columns@.len() == N
                &&& column_map(*final(self)).dom() == column_map(*old(self)).dom()
                &&& forall|i: int|
                    #![trigger columns@[i]]
                    0 <= i < N ==> {
                        &&& *columns@[i] == column_map(*old(self))[component_ids@[i]]
                        &&& *final(columns@[i]) == column_map(*final(self))[component_ids@[i]]
                    }
                &&& forall|c: ComponentId|
                    column_map(*old(self)).contains_key(c) && !component_ids@.contains(c)
                        ==> #[trigger] column_map(*final(self))[c] == column_map(*old(self))[c]
            },
    {
        let keys: [&ComponentId; N] = core::array::from_fn(|i| &component_ids[i]);
        match self.inner.get_many_mut(keys) {
            Some(columns) => Some(columns.into_iter().collect()),
            None => None,
        }
    }

    /// `hashbrown::HashMap::keys`: every key once. In which order they come is left open.
    #[verifier::external_body]
    pub(crate) fn keys(&self) -> (component_ids: Vec<ComponentId>)
        ensures
            component_ids@.no_duplicates(),
            component_ids@.to_set() == column_map(*self).dom(),
    {
        self.inner.keys().copied().collect()
    }
}

/// A set of row numbers.
#[verifier::external_body]
pub struct RowSet {
    inner: hashbrown::HashSet<bus::Width>,
}

/// What a `RowSet` holds.
pub uninterp spec fn row_set(rows: RowSet) -> Set<bus::Width>;

impl View for RowSet {
    type V = Set<bus::Width>;

    open spec fn view(&self) -> Set<bus::Width> {
        row_set(*self)
    }
}

impl RowSet {
    /// `hashbrown::HashSet::new`: the new set is empty.
    #[verifier::external_body]
    pub(crate) fn new() -> (rows: Self)
        ensures
            row_set(rows) == Set::<bus::Width>::empty(),
    {
        RowSet { inner: hashbrown::HashSet::new() }
    }

    /// `hashbrown::HashSet::insert`: the item is in the set, and the others stay. Returns
    /// whether it was absent before.
    #[verifier::external_body]
    pub(crate) fn insert(&mut self, row: bus::Width) -> (absent: bool)
        ensures
            row_set(*final(self)) == row_set(*old(self)).insert(row),
            absent == !row_set(*old(self)).contains(row),
    {
        self.inner.insert(row)
    }

    /// `hashbrown::HashSet::remove`: the item is not in the set, and the others stay. Returns
    /// whether it was present before.
    #[verifier::external_body]
    pub(crate) fn remove(&mut self, row: bus::Width) -> (present: bool)
        ensures
            row_set(*final(self)) == row_set(*old(self)).remove(row),
            present == row_set(*old(self)).contains(row),
    {
        self.inner.remove(&row)
    }

    /// `hashbrown::HashSet::contains`: whether the item is in the set.
    #[verifier::external_body]
    pub(crate) fn contains(&self, row: bus::Width) -> (found: bool)
        ensures
            found == row_set(*self).contains(row),
    {
        self.inner.contains(&row)
    }

    /// The first item that `hashbrown::HashSet::iter` yields: some item of the set, `None` if
    /// the set is empty. Which item comes first is left open.
    #[verifier::external_body]
    pub(crate) fn any(&self) -> (row: Option<bus::Width>)
        ensures
            match row {
                Some(row) => row_set(*self).contains(row),
                None => row_set(*self) == Set::<bus::Width>::empty(),
            },
    {
        self.inner.iter().next().copied()
    }

    /// `hashbrown::HashSet::len`: the number of items.
    #[verifier::external_body]
    pub(crate) fn len(&self) -> (count: usize)
        ensures
            count == row_set(*self).len(),
    {
        self.inner.len()
    }
}

} // verus!
