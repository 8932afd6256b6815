//! Tuples of up to sixteen components.

use crate::storage::collections::ComponentId;
use crate::storage::column::RowIndex;
use crate::storage::component::{ColumnConstruction, Component};
use crate::storage::layout::Layout;
use crate::storage::table::ComponentTable;
use crate::storage::tuples::{
    restore, ComponentSet, ReduceArgument, StorageAccessor, StorageInsert,
};
use vstd::prelude::*;

verus! {

impl<A: Component> ComponentSet for (A,) {
    open spec fn spec_columns() -> Seq<(ComponentId, Layout)> {
        seq![
            (A::spec_id(), crate::storage::component::layout_of::<A>()),
        ]
    }

    open spec fn encoded_by(self, parts: Seq<Seq<u8>>) -> bool {
        &&& parts.len() == 1
        &&& self.0.encoded_by(parts[0])
    }

    proof fn lemma_encoded(a: Self, b: Self, parts: Seq<Seq<u8>>) {
        A::lemma_encoded(a.0, b.0);
    }

    fn components() -> (component_ids: Vec<ComponentId>) {
        vec![A::id()]
    }

    fn columns() -> (columns: Vec<ColumnConstruction>) {
        vec![
            ColumnConstruction::new::<A>(),
        ]
    }
}

impl<A: Component> StorageInsert for (A,) {
    fn get_values(self) -> (values: Vec<(ComponentId, Vec<u8>)>) {
        let values = vec![
            (A::id(), self.0.into_bytes()),
        ];
        assert(crate::storage::component::ids(crate::storage::component::images(values@))
            =~= crate::storage::tuples::column_ids(Self::spec_columns()));
        values
    }
}

impl<A: Component> ReduceArgument for (A,) {
    fn build(storage: &ComponentTable, row: RowIndex) -> (values: Option<Self>) {
        if storage.is_row_safe(row) {
            proof {
                let columns = Self::spec_columns();
                let held = storage.rows()[row.0];
                let parts = crate::storage::tuples::row_parts(columns, held);
                let v = choose|v: Self| #[trigger]
                    crate::storage::tuples::row_holds::<Self>(held, v);
                assert(columns[0].0 == A::spec_id());
                assert(v.0.encoded_by(parts[0]));
            }
            Some((
                restore::<A>(storage, row),
            ))
        } else {
            None
        }
    }
}

impl<A: Component> StorageAccessor for (A,) {
    fn access(storage: &mut ComponentTable, row: RowIndex) -> (parts: Option<Vec<&mut [u8]>>) {
        let component_ids = [A::id()];
        assert(component_ids@ =~= crate::storage::tuples::column_ids(Self::spec_columns()));
        storage.access_row_raw(row, component_ids)
    }
}

impl<A: Component, B: Component> ComponentSet for (A, B) {
    open spec fn spec_columns() -> Seq<(ComponentId, Layout)> {
        seq![
            (A::spec_id(), crate::storage::component::layout_of::<A>()),
            (B::spec_id(), crate::storage::component::layout_of::<B>()),
        ]
    }

    open spec fn encoded_by(self, parts: Seq<Seq<u8>>) -> bool {
        &&& parts.len() == 2
        &&& self.0.encoded_by(parts[0])
        &&& self.1.encoded_by(parts[1])
    }

    proof fn lemma_encoded(a: Self, b: Self, parts: Seq<Seq<u8>>) {
        A::lemma_encoded(a.0, b.0);
        B::lemma_encoded(a.1, b.1);
    }

    fn components() -> (component_ids: Vec<ComponentId>) {
        vec![A::id(), B::id()]
    }

    fn columns() -> (columns: Vec<ColumnConstruction>) {
        vec![
            ColumnConstruction::new::<A>(),
            ColumnConstruction::new::<B>(),
        ]
    }
}

impl<A: Component, B: Component> StorageInsert for (A, B) {
    fn get_values(self) -> (values: Vec<(ComponentId, Vec<u8>)>) {
        let values = vec![
            (A::id(), self.0.into_bytes()),
            (B::id(), self.1.into_bytes()),
        ];
        assert(crate::storage::component::ids(crate::storage::component::images(values@))
            =~= crate::storage::tuples::column_ids(Self::spec_columns()));
        values
    }
}

impl<A: Component, B: Component> ReduceArgument for (A, B) {
    fn build(storage: &ComponentTable, row: RowIndex) -> (values: Option<Self>) {
        if storage.is_row_safe(row) {
            proof {
                let columns = Self::spec_columns();
                let held = storage.rows()[row.0];
                let parts = crate::storage::tuples::row_parts(columns, held);
                let v = choose|v: Self| #[trigger]
                    crate::storage::tuples::row_holds::<Self>(held, v);
                assert(columns[0].0 == A::spec_id());
                assert(v.0.encoded_by(parts[0]));
                assert(columns[1].0 == B::spec_id());
                assert(v.1.encoded_by(parts[1]));
            }
            Some((
                restore::<A>(storage, row),
                restore::<B>(storage, row),
            ))
        } else {
            None
        }
    }
}

impl<A: Component, B: Component> StorageAccessor for (A, B) {
    fn access(storage: &mut ComponentTable, row: RowIndex) -> (parts: Option<Vec<&mut [u8]>>) {
        let component_ids = [A::id(), B::id()];
        assert(component_ids@ =~= crate::storage::tuples::column_ids(Self::spec_columns()));
        storage.access_row_raw(row, component_ids)
    }
}

impl<A: Component, B: Component, C: Component> ComponentSet for (A, B, C) {
    open spec fn spec_columns() -> Seq<(ComponentId, Layout)> {
        seq![
            (A::spec_id(), crate::storage::component::layout_of::<A>()),
            (B::spec_id(), crate::storage::component::layout_of::<B>()),
            (C::spec_id(), crate::storage::component::layout_of::<C>()),
        ]
    }

    open spec fn encoded_by(self, parts: Seq<Seq<u8>>) -> bool {
        &&& parts.len() == 3
        &&& self.0.encoded_by(parts[0])
        &&& self.1.encoded_by(parts[1])
        &&& self.2.encoded_by(parts[2])
    }

    proof fn lemma_encoded(a: Self, b: Self, parts: Seq<Seq<u8>>) {
        A::lemma_encoded(a.0, b.0);
        B::lemma_encoded(a.1, b.1);
        C::lemma_encoded(a.2, b.2);
    }

    fn components() -> (component_ids: Vec<ComponentId>) {
        vec![A::id(), B::id(), C::id()]
    }

    fn columns() -> (columns: Vec<ColumnConstruction>) {
        vec![
            ColumnConstruction::new::<A>(),
            ColumnConstruction::new::<B>(),
            ColumnConstruction::new::<C>(),
        ]
    }
}

impl<A: Component, B: Component, C: Component> StorageInsert for (A, B, C) {
    fn get_values(self) -> (values: Vec<(ComponentId, Vec<u8>)>) {
        let values = vec![
            (A::id(), self.0.into_bytes()),
            (B::id(), self.1.into_bytes()),
            (C::id(), self.2.into_bytes()),
        ];
        assert(crate::storage::component::ids(crate::storage::component::images(values@))
            =~= crate::storage::tuples::column_ids(Self::spec_columns()));
        values
    }
}

impl<A: Component, B: Component, C: Component> ReduceArgument for (A, B, C) {
    fn build(storage: &ComponentTable, row: RowIndex) -> (values: Option<Self>) {
        if storage.is_row_safe(row) {
            proof {
                let columns = Self::spec_columns();
                let held = storage.rows()[row.0];
                let parts = crate::storage::tuples::row_parts(columns, held);
                let v = choose|v: Self| #[trigger]
                    crate::storage::tuples::row_holds::<Self>(held, v);
                assert(columns[0].0 == A::spec_id());
                assert(v.0.encoded_by(parts[0]));
                assert(columns[1].0 == B::spec_id());
                assert(v.1.encoded_by(parts[1]));
                assert(columns[2].0 == C::spec_id());
                assert(v.2.encoded_by(parts[2]));
            }
            Some((
                restore::<A>(storage, row),
                restore::<B>(storage, row),
                restore::<C>(storage, row),
            ))
        } else {
            None
        }
    }
}

impl<A: Component, B: Component, C: Component> StorageAccessor for (A, B, C) {
    fn access(storage: &mut ComponentTable, row: RowIndex) -> (parts: Option<Vec<&mut [u8]>>) {
        let component_ids = [A::id(), B::id(), C::id()];
        assert(component_ids@ =~= crate::storage::tuples::column_ids(Self::spec_columns()));
        storage.access_row_raw(row, component_ids)
    }
}

impl<A: Component, B: Component, C: Component, D: Component> ComponentSet for (A, B, C, D) {
    open spec fn spec_columns() -> Seq<(ComponentId, Layout)> {
        seq![
            (A::spec_id(), crate::storage::component::layout_of::<A>()),
            (B::spec_id(), crate::storage::component::layout_of::<B>()),
            (C::spec_id(), crate::storage::component::layout_of::<C>()),
            (D::spec_id(), crate::storage::component::layout_of::<D>()),
        ]
    }

    open spec fn encoded_by(self, parts: Seq<Seq<u8>>) -> bool {
        &&& parts.len() == 4
        &&& self.0.encoded_by(parts[0])
        &&& self.1.encoded_by(parts[1])
        &&& self.2.encoded_by(parts[2])
        &&& self.3.encoded_by(parts[3])
    }

    proof fn lemma_encoded(a: Self, b: Self, parts: Seq<Seq<u8>>) {
        A::lemma_encoded(a.0, b.0);
        B::lemma_encoded(a.1, b.1);
        C::lemma_encoded(a.2, b.2);
        D::lemma_encoded(a.3, b.3);
    }

    fn components() -> (component_ids: Vec<ComponentId>) {
        vec![A::id(), B::id(), C::id(), D::id()]
    }

    fn columns() -> (columns: Vec<ColumnConstruction>) {
        vec![
            ColumnConstruction::new::<A>(),
            ColumnConstruction::new::<B>(),
            ColumnConstruction::new::<C>(),
            ColumnConstruction::new::<D>(),
        ]
    }
}

impl<A: Component, B: Component, C: Component, D: Component> StorageInsert for (A, B, C, D) {
    fn get_values(self) -> (values: Vec<(ComponentId, Vec<u8>)>) {
        let values = vec![
            (A::id(), self.0.into_bytes()),
            (B::id(), self.1.into_bytes()),
            (C::id(), self.2.into_bytes()),
            (D::id(), self.3.into_bytes()),
        ];
        assert(crate::storage::component::ids(crate::storage::component::images(values@))
            =~= crate::storage::tuples::column_ids(Self::spec_columns()));
        values
    }
}

impl<A: Component, B: Component, C: Component, D: Component> ReduceArgument for (A, B, C, D) {
    fn build(storage: &ComponentTable, row: RowIndex) -> (values: Option<Self>) {
        if storage.is_row_safe(row) {
            proof {
                let columns = Self::spec_columns();
                let held = storage.rows()[row.0];
                let parts = crate::storage::tuples::row_parts(columns, held);
                let v = choose|v: Self| #[trigger]
                    crate::storage::tuples::row_holds::<Self>(held, v);
                assert(columns[0].0 == A::spec_id());
                assert(v.0.encoded_by(parts[0]));
                assert(columns[1].0 == B::spec_id());
                assert(v.1.encoded_by(parts[1]));
                assert(columns[2].0 == C::spec_id());
                assert(v.2.encoded_by(parts[2]));
                assert(columns[3].0 == D::spec_id());
                assert(v.3.encoded_by(parts[3]));
            }
            Some((
                restore::<A>(storage, row),
                restore::<B>(storage, row),
                restore::<C>(storage, row),
                restore::<D>(storage, row),
            ))
        } else {
            None
        }
    }
}

impl<A: Component, B: Component, C: Component, D: Component> StorageAccessor for (A, B, C, D) {
    fn access(storage: &mut ComponentTable, row: RowIndex) -> (parts: Option<Vec<&mut [u8]>>) {
        let component_ids = [A::id(), B::id(), C::id(), D::id()];
        assert(component_ids@ =~= crate::storage::tuples::column_ids(Self::spec_columns()));
        storage.access_row_raw(row, component_ids)
    }
}

impl<
    A: Component,
    B: Component,
    C: Component,
    D: Component,
    E: Component,
> ComponentSet for (A, B, C, D, E) {
    open spec fn spec_columns() -> Seq<(ComponentId, Layout)> {
        seq![
            (A::spec_id(), crate::storage::component::layout_of::<A>()),
            (B::spec_id(), crate::storage::component::layout_of::<B>()),
            (C::spec_id(), crate::storage::component::layout_of::<C>()),
            (D::spec_id(), crate::storage::component::layout_of::<D>()),
            (E::spec_id(), crate::storage::component::layout_of::<E>()),
        ]
    }

    open spec fn encoded_by(self, parts: Seq<Seq<u8>>) -> bool {
        &&& parts.len() == 5
        &&& self.0.encoded_by(parts[0])
        &&& self.1.encoded_by(parts[1])
        &&& self.2.encoded_by(parts[2])
        &&& self.3.encoded_by(parts[3])
        &&& self.4.encoded_by(parts[4])
    }

    proof fn lemma_encoded(a: Self, b: Self, parts: Seq<Seq<u8>>) {
        A::lemma_encoded(a.0, b.0);
        B::lemma_encoded(a.1, b.1);
        C::lemma_encoded(a.2, b.2);
        D::lemma_encoded(a.3, b.3);
        E::lemma_encoded(a.4, b.4);
    }

    fn components() -> (component_ids: Vec<ComponentId>) {
        vec![A::id(), B::id(), C::id(), D::id(), E::id()]
    }

    fn columns() -> (columns: Vec<ColumnConstruction>) {
        vec![
            ColumnConstruction::new::<A>(),
            ColumnConstruction::new::<B>(),
            ColumnConstruction::new::<C>(),
            ColumnConstruction::new::<D>(),
            ColumnConstruction::new::<E>(),
        ]
    }
}

impl<
    A: Component,
    B: Component,
    C: Component,
    D: Component,
    E: Component,
> StorageInsert for (A, B, C, D, E) {
    fn get_values(self) -> (values: Vec<(ComponentId, Vec<u8>)>) {
        let values = vec![
            (A::id(), self.0.into_bytes()),
            (B::id(), self.1.into_bytes()),
            (C::id(), self.2.into_bytes()),
            (D::id(), self.3.into_bytes()),
            (E::id(), self.4.into_bytes()),
        ];
        assert(crate::storage::component::ids(crate::storage::component::images(values@))
            =~= crate::storage::tuples::column_ids(Self::spec_columns()));
        values
    }
}

impl<
    A: Component,
    B: Component,
    C: Component,
    D: Component,
    E: Component,
> ReduceArgument for (A, B, C, D, E) {
    fn build(storage: &ComponentTable, row: RowIndex) -> (values: Option<Self>) {
        if storage.is_row_safe(row) {
            proof {
                let columns = Self::spec_columns();
                let held = storage.rows()[row.0];
                let parts = crate::storage::tuples::row_parts(columns, held);
                let v = choose|v: Self| #[trigger]
                    crate::storage::tuples::row_holds::<Self>(held, v);
                assert(columns[0].0 == A::spec_id());
                assert(v.0.encoded_by(parts[0]));
                assert(columns[1].0 == B::spec_id());
                assert(v.1.encoded_by(parts[1]));
                assert(columns[2].0 == C::spec_id());
                assert(v.2.encoded_by(parts[2]));
                assert(columns[3].0 == D::spec_id());
                assert(v.3.encoded_by(parts[3]));
                assert(columns[4].0 == E::spec_id());
                assert(v.4.encoded_by(parts[4]));
            }
            Some((
                restore::<A>(storage, row),
                restore::<B>(storage, row),
                restore::<C>(storage, row),
                restore::<D>(storage, row),
                restore::<E>(storage, row),
            ))
        } else {
            None
        }
    }
}

impl<
    A: Component,
    B: Component,
    C: Component,
    D: Component,
    E: Component,
> StorageAccessor for (A, B, C, D, E) {
    fn access(storage: &mut ComponentTable, row: RowIndex) -> (parts: Option<Vec<&mut [u8]>>) {
        let component_ids = [A::id(), B::id(), C::id(), D::id(), E::id()];
        assert(component_ids@ =~= crate::storage::tuples::column_ids(Self::spec_columns()));
        storage.access_row_raw(row, component_ids)
    }
}

impl<
    A: Component,
    B: Component,
    C: Component,
    D: Component,
    E: Component,
    F: Component,
> ComponentSet for (A, B, C, D, E, F) {
    open spec fn spec_columns() -> Seq<(ComponentId, Layout)> {
        seq![
            (A::spec_id(), crate::storage::component::layout_of::<A>()),
            (B::spec_id(), crate::storage::component::layout_of::<B>()),
            (C::spec_id(), crate::storage::component::layout_of::<C>()),
            (D::spec_id(), crate::storage::component::layout_of::<D>()),
            (E::spec_id(), crate::storage::component::layout_of::<E>()),
            (F::spec_id(), crate::storage::component::layout_of::<F>()),
        ]
    }

    open spec fn encoded_by(self, parts: Seq<Seq<u8>>) -> bool {
        &&& parts.len() == 6
        &&& self.0.encoded_by(parts[0])
        &&& self.1.encoded_by(parts[1])
        &&& self.2.encoded_by(parts[2])
        &&& self.3.encoded_by(parts[3])
        &&& self.4.encoded_by(parts[4])
        &&& self.5.encoded_by(parts[5])
    }

    proof fn lemma_encoded(a: Self, b: Self, parts: Seq<Seq<u8>>) {
        A::lemma_encoded(a.0, b.0);
        B::lemma_encoded(a.1, b.1);
        C::lemma_encoded(a.2, b.2);
        D::lemma_encoded(a.3, b.3);
        E::lemma_encoded(a.4, b.4);
        F::lemma_encoded(a.5, b.5);
    }

    fn components() -> (component_ids: Vec<ComponentId>) {
        vec![A::id(), B::id(), C::id(), D::id(), E::id(), F::id()]
    }

    fn columns() -> (columns: Vec<ColumnConstruction>) {
        vec![
            ColumnConstruction::new::<A>(),
            ColumnConstruction::new::<B>(),
            ColumnConstruction::new::<C>(),
            ColumnConstruction::new::<D>(),
            ColumnConstruction::new::<E>(),
            ColumnConstruction::new::<F>(),
        ]
    }
}

impl<
    A: Component,
    B: Component,
    C: Component,
    D: Component,
    E: Component,
    F: Component,
> StorageInsert for (A, B, C, D, E, F) {
    fn get_values(self) -> (values: Vec<(ComponentId, Vec<u8>)>) {
        let values = vec![
            (A::id(), self.0.into_bytes()),
            (B::id(), self.1.into_bytes()),
            (C::id(), self.2.into_bytes()),
            (D::id(), self.3.into_bytes()),
            (E::id(), self.4.into_bytes()),
            (F::id(), self.5.into_bytes()),
        ];
        assert(crate::storage::component::ids(crate::storage::component::images(values@))
            =~= crate::storage::tuples::column_ids(Self::spec_columns()));
        values
    }
}

impl<
    A: Component,
    B: Component,
    C: Component,
    D: Component,
    E: Component,
    F: Component,
> ReduceArgument for (A, B, C, D, E, F) {
    fn build(storage: &ComponentTable, row: RowIndex) -> (values: Option<Self>) {
        if storage.is_row_safe(row) {
            proof {
                let columns = Self::spec_columns();
                let held = storage.rows()[row.0];
                let parts = crate::storage::tuples::row_parts(columns, held);
                let v = choose|v: Self| #[trigger]
                    crate::storage::tuples::row_holds::<Self>(held, v);
                assert(columns[0].0 == A::spec_id());
                assert(v.0.encoded_by(parts[0]));
                assert(columns[1].0 == B::spec_id());
                assert(v.1.encoded_by(parts[1]));
                assert(columns[2].0 == C::spec_id());
                assert(v.2.encoded_by(parts[2]));
                assert(columns[3].0 == D::spec_id());
                assert(v.3.encoded_by(parts[3]));
                assert(columns[4].0 == E::spec_id());
                assert(v.4.encoded_by(parts[4]));
                assert(columns[5].0 == F::spec_id());
                assert(v.5.encoded_by(parts[5]));
            }
            Some((
                restore::<A>(storage, row),
                restore::<B>(storage, row),
                restore::<C>(storage, row),
                restore::<D>(storage, row),
                restore::<E>(storage, row),
                restore::<F>(storage, row),
            ))
        } else {
            None
        }
    }
}

impl<
    A: Component,
    B: Component,
    C: Component,
    D: Component,
    E: Component,
    F: Component,
> StorageAccessor for (A, B, C, D, E, F) {
    fn access(storage: &mut ComponentTable, row: RowIndex) -> (parts: Option<Vec<&mut [u8]>>) {
        let component_ids = [A::id(), B::id(), C::id(), D::id(), E::id(), F::id()];
        assert(component_ids@ =~= crate::storage::tuples::column_ids(Self::spec_columns()));
        storage.access_row_raw(row, component_ids)
    }
}

impl<
    A: Component,
    B: Component,
    C: Component,
    D: Component,
    E: Component,
    F: Component,
    G: Component,
> ComponentSet for (A, B, C, D, E, F, G) {
    open spec fn spec_columns() -> Seq<(ComponentId, Layout)> {
        seq![
            (A::spec_id(), crate::storage::component::layout_of::<A>()),
            (B::spec_id(), crate::storage::component::layout_of::<B>()),
            (C::spec_id(), crate::storage::component::layout_of::<C>()),
            (D::spec_id(), crate::storage::component::layout_of::<D>()),
            (E::spec_id(), crate::storage::component::layout_of::<E>()),
            (F::spec_id(), crate::storage::component::layout_of::<F>()),
            (G::spec_id(), crate::storage::component::layout_of::<G>()),
        ]
    }

    open spec fn encoded_by(self, parts: Seq<Seq<u8>>) -> bool {
        &&& parts.len() == 7
        &&& self.0.encoded_by(parts[0])
        &&& self.1.encoded_by(parts[1])
        &&& self.2.encoded_by(parts[2])
        &&& self.3.encoded_by(parts[3])
        &&& self.4.encoded_by(parts[4])
        &&& self.5.encoded_by(parts[5])
        &&& self.6.encoded_by(parts[6])
    }

    proof fn lemma_encoded(a: Self, b: Self, parts: Seq<Seq<u8>>) {
        A::lemma_encoded(a.0, b.0);
        B::lemma_encoded(a.1, b.1);
        C::lemma_encoded(a.2, b.2);
        D::lemma_encoded(a.3, b.3);
        E::lemma_encoded(a.4, b.4);
        F::lemma_encoded(a.5, b.5);
        G::lemma_encoded(a.6, b.6);
    }

    fn components() -> (component_ids: Vec<ComponentId>) {
        vec![A::id(), B::id(), C::id(), D::id(), E::id(), F::id(), G::id()]
    }

    fn columns() -> (columns: Vec<ColumnConstruction>) {
        vec![
            ColumnConstruction::new::<A>(),
            ColumnConstruction::new::<B>(),
            ColumnConstruction::new::<C>(),
            ColumnConstruction::new::<D>(),
            ColumnConstruction::new::<E>(),
            ColumnConstruction::new::<F>(),
            ColumnConstruction::new::<G>(),
        ]
    }
}

impl<
    A: Component,
    B: Component,
    C: Component,
    D: Component,
    E: Component,
    F: Component,
    G: Component,
> StorageInsert for (A, B, C, D, E, F, G) {
    fn get_values(self) -> (values: Vec<(ComponentId, Vec<u8>)>) {
        let values = vec![
            (A::id(), self.0.into_bytes()),
            (B::id(), self.1.into_bytes()),
            (C::id(), self.2.into_bytes()),
            (D::id(), self.3.into_bytes()),
            (E::id(), self.4.into_bytes()),
            (F::id(), self.5.into_bytes()),
            (G::id(), self.6.into_bytes()),
        ];
        assert(crate::storage::component::ids(crate::storage::component::images(values@))
            =~= crate::storage::tuples::column_ids(Self::spec_columns()));
        values
    }
}

impl<
    A: Component,
    B: Component,
    C: Component,
    D: Component,
    E: Component,
    F: Component,
    G: Component,
> ReduceArgument for (A, B, C, D, E, F, G) {
    fn build(storage: &ComponentTable, row: RowIndex) -> (values: Option<Self>) {
        if storage.is_row_safe(row) {
            proof {
                let columns = Self::spec_columns();
                let held = storage.rows()[row.0];
                let parts = crate::storage::tuples::row_parts(columns, held);
                let v = choose|v: Self| #[trigger]
                    crate::storage::tuples::row_holds::<Self>(held, v);
                assert(columns[0].0 == A::spec_id());
                assert(v.0.encoded_by(parts[0]));
                assert(columns[1].0 == B::spec_id());
                assert(v.1.encoded_by(parts[1]));
                assert(columns[2].0 == C::spec_id());
                assert(v.2.encoded_by(parts[2]));
                assert(columns[3].0 == D::spec_id());
                assert(v.3.encoded_by(parts[3]));
                assert(columns[4].0 == E::spec_id());
                assert(v.4.encoded_by(parts[4]));
                assert(columns[5].0 == F::spec_id());
                assert(v.5.encoded_by(parts[5]));
                assert(columns[6].0 == G::spec_id());
                assert(v.6.encoded_by(parts[6]));
            }
            Some((
                restore::<A>(storage, row),
                restore::<B>(storage, row),
                restore::<C>(storage, row),
                restore::<D>(storage, row),
                restore::<E>(storage, row),
                restore::<F>(storage, row),
                restore::<G>(storage, row),
            ))
        } else {
            None
        }
    }
}

impl<
    A: Component,
    B: Component,
    C: Component,
    D: Component,
    E: Component,
    F: Component,
    G: Component,
> StorageAccessor for (A, B, C, D, E, F, G) {
    fn access(storage: &mut ComponentTable, row: RowIndex) -> (parts: Option<Vec<&mut [u8]>>) {
        let component_ids = [A::id(), B::id(), C::id(), D::id(), E::id(), F::id(), G::id()];
        assert(component_ids@ =~= crate::storage::tuples::column_ids(Self::spec_columns()));
        storage.access_row_raw(row, component_ids)
    }
}

impl<
    A: Component,
    B: Component,
    C: Component,
    D: Component,
    E: Component,
    F: Component,
    G: Component,
    H: Component,
> ComponentSet for (A, B, C, D, E, F, G, H) {
    open spec fn spec_columns() -> Seq<(ComponentId, Layout)> {
        seq![
            (A::spec_id(), crate::storage::component::layout_of::<A>()),
            (B::spec_id(), crate::storage::component::layout_of::<B>()),
            (C::spec_id(), crate::storage::component::layout_of::<C>()),
            (D::spec_id(), crate::storage::component::layout_of::<D>()),
            (E::spec_id(), crate::storage::component::layout_of::<E>()),
            (F::spec_id(), crate::storage::component::layout_of::<F>()),
            (G::spec_id(), crate::storage::component::layout_of::<G>()),
            (H::spec_id(), crate::storage::component::layout_of::<H>()),
        ]
    }

    open spec fn encoded_by(self, parts: Seq<Seq<u8>>) -> bool {
        &&& parts.len() == 8
        &&& self.0.encoded_by(parts[0])
        &&& self.1.encoded_by(parts[1])
        &&& self.2.encoded_by(parts[2])
        &&& self.3.encoded_by(parts[3])
        &&& self.4.encoded_by(parts[4])
        &&& self.5.encoded_by(parts[5])
        &&& self.6.encoded_by(parts[6])
        &&& self.7.encoded_by(parts[7])
    }

    proof fn lemma_encoded(a: Self, b: Self, parts: Seq<Seq<u8>>) {
        A::lemma_encoded(a.0, b.0);
        B::lemma_encoded(a.1, b.1);
        C::lemma_encoded(a.2, b.2);
        D::lemma_encoded(a.3, b.3);
        E::lemma_encoded(a.4, b.4);
        F::lemma_encoded(a.5, b.5);
        G::lemma_encoded(a.6, b.6);
        H::lemma_encoded(a.7, b.7);
    }

    fn components() -> (component_ids: Vec<ComponentId>) {
        vec![A::id(), B::id(), C::id(), D::id(), E::id(), F::id(), G::id(), H::id()]
    }

    fn columns() -> (columns: Vec<ColumnConstruction>) {
        vec![
            ColumnConstruction::new::<A>(),
            ColumnConstruction::new::<B>(),
            ColumnConstruction::new::<C>(),
            ColumnConstruction::new::<D>(),
            ColumnConstruction::new::<E>(),
            ColumnConstruction::new::<F>(),
            ColumnConstruction::new::<G>(),
            ColumnConstruction::new::<H>(),
        ]
    }
}

impl<
    A: Component,
    B: Component,
    C: Component,
    D: Component,
    E: Component,
    F: Component,
    G: Component,
    H: Component,
> StorageInsert for (A, B, C, D, E, F, G, H) {
    fn get_values(self) -> (values: Vec<(ComponentId, Vec<u8>)>) {
        let values = vec![
            (A::id(), self.0.into_bytes()),
            (B::id(), self.1.into_bytes()),
            (C::id(), self.2.into_bytes()),
            (D::id(), self.3.into_bytes()),
            (E::id(), self.4.into_bytes()),
            (F::id(), self.5.into_bytes()),
            (G::id(), self.6.into_bytes()),
            (H::id(), self.7.into_bytes()),
        ];
        assert(crate::storage::component::ids(crate::storage::component::images(values@))
            =~= crate::storage::tuples::column_ids(Self::spec_columns()));
        values
    }
}

impl<
    A: Component,
    B: Component,
    C: Component,
    D: Component,
    E: Component,
    F: Component,
    G: Component,
    H: Component,
> ReduceArgument for (A, B, C, D, E, F, G, H) {
    fn build(storage: &ComponentTable, row: RowIndex) -> (values: Option<Self>) {
        if storage.is_row_safe(row) {
            proof {
                let columns = Self::spec_columns();
                let held = storage.rows()[row.0];
                let parts = crate::storage::tuples::row_parts(columns, held);
                let v = choose|v: Self| #[trigger]
                    crate::storage::tuples::row_holds::<Self>(held, v);
                assert(columns[0].0 == A::spec_id());
                assert(v.0.encoded_by(parts[0]));
                assert(columns[1].0 == B::spec_id());
                assert(v.1.encoded_by(parts[1]));
                assert(columns[2].0 == C::spec_id());
                assert(v.2.encoded_by(parts[2]));
                assert(columns[3].0 == D::spec_id());
                assert(v.3.encoded_by(parts[3]));
                assert(columns[4].0 == E::spec_id());
                assert(v.4.encoded_by(parts[4]));
                assert(columns[5].0 == F::spec_id());
                assert(v.5.encoded_by(parts[5]));
                assert(columns[6].0 == G::spec_id());
                assert(v.6.encoded_by(parts[6]));
                assert(columns[7].0 == H::spec_id());
                assert(v.7.encoded_by(parts[7]));
            }
            Some((
                restore::<A>(storage, row),
                restore::<B>(storage, row),
                restore::<C>(storage, row),
                restore::<D>(storage, row),
                restore::<E>(storage, row),
                restore::<F>(storage, row),
                restore::<G>(storage, row),
                restore::<H>(storage, row),
            ))
        } else {
            None
        }
    }
}

impl<
    A: Component,
    B: Component,
    C: Component,
    D: Component,
    E: Component,
    F: Component,
    G: Component,
    H: Component,
> StorageAccessor for (A, B, C, D, E, F, G, H) {
    fn access(storage: &mut ComponentTable, row: RowIndex) -> (parts: Option<Vec<&mut [u8]>>) {
        let component_ids = [
            A::id(),
            B::id(),
            C::id(),
            D::id(),
            E::id(),
            F::id(),
            G::id(),
            H::id(),
        ];
        assert(component_ids@ =~= crate::storage::tuples::column_ids(Self::spec_columns()));
        storage.access_row_raw(row, component_ids)
    }
}

impl<
    A: Component,
    B: Component,
    C: Component,
    D: Component,
    E: Component,
    F: Component,
    G: Component,
    H: Component,
    I: Component,
> ComponentSet for (A, B, C, D, E, F, G, H, I) {
    open spec fn spec_columns() -> Seq<(ComponentId, Layout)> {
        seq![
            (A::spec_id(), crate::storage::component::layout_of::<A>()),
            (B::spec_id(), crate::storage::component::layout_of::<B>()),
            (C::spec_id(), crate::storage::component::layout_of::<C>()),
            (D::spec_id(), crate::storage::component::layout_of::<D>()),
            (E::spec_id(), crate::storage::component::layout_of::<E>()),
            (F::spec_id(), crate::storage::component::layout_of::<F>()),
            (G::spec_id(), crate::storage::component::layout_of::<G>()),
            (H::spec_id(), crate::storage::component::layout_of::<H>()),
            (I::spec_id(), crate::storage::component::layout_of::<I>()),
        ]
    }

    open spec fn encoded_by(self, parts: Seq<Seq<u8>>) -> bool {
        &&& parts.len() == 9
        &&& self.0.encoded_by(parts[0])
        &&& self.1.encoded_by(parts[1])
        &&& self.2.encoded_by(parts[2])
        &&& self.3.encoded_by(parts[3])
        &&& self.4.encoded_by(parts[4])
        &&& self.5.encoded_by(parts[5])
        &&& self.6.encoded_by(parts[6])
        &&& self.7.encoded_by(parts[7])
        &&& self.8.encoded_by(parts[8])
    }

    proof fn lemma_encoded(a: Self, b: Self, parts: Seq<Seq<u8>>) {
        A::lemma_encoded(a.0, b.0);
        B::lemma_encoded(a.1, b.1);
        C::lemma_encoded(a.2, b.2);
        D::lemma_encoded(a.3, b.3);
        E::lemma_encoded(a.4, b.4);
        F::lemma_encoded(a.5, b.5);
        G::lemma_encoded(a.6, b.6);
        H::lemma_encoded(a.7, b.7);
        I::lemma_encoded(a.8, b.8);
    }

    fn components() -> (component_ids: Vec<ComponentId>) {
        vec![
            A::id(),
            B::id(),
            C::id(),
            D::id(),
            E::id(),
            F::id(),
            G::id(),
            H::id(),
            I::id(),
        ]
    }

    fn columns() -> (columns: Vec<ColumnConstruction>) {
        vec![
            ColumnConstruction::new::<A>(),
            ColumnConstruction::new::<B>(),
            ColumnConstruction::new::<C>(),
            ColumnConstruction::new::<D>(),
            ColumnConstruction::new::<E>(),
            ColumnConstruction::new::<F>(),
            ColumnConstruction::new::<G>(),
            ColumnConstruction::new::<H>(),
            ColumnConstruction::new::<I>(),
        ]
    }
}

impl<
    A: Component,
    B: Component,
    C: Component,
    D: Component,
    E: Component,
    F: Component,
    G: Component,
    H: Component,
    I: Component,
> StorageInsert for (A, B, C, D, E, F, G, H, I) {
    fn get_values(self) -> (values: Vec<(ComponentId, Vec<u8>)>) {
        let values = vec![
            (A::id(), self.0.into_bytes()),
            (B::id(), self.1.into_bytes()),
            (C::id(), self.2.into_bytes()),
            (D::id(), self.3.into_bytes()),
            (E::id(), self.4.into_bytes()),
            (F::id(), self.5.into_bytes()),
            (G::id(), self.6.into_bytes()),
            (H::id(), self.7.into_bytes()),
            (I::id(), self.8.into_bytes()),
        ];
        assert(crate::storage::component::ids(crate::storage::component::images(values@))
            =~= crate::storage::tuples::column_ids(Self::spec_columns()));
        values
    }
}

impl<
    A: Component,
    B: Component,
    C: Component,
    D: Component,
    E: Component,
    F: Component,
    G: Component,
    H: Component,
    I: Component,
> ReduceArgument for (A, B, C, D, E, F, G, H, I) {
    fn build(storage: &ComponentTable, row: RowIndex) -> (values: Option<Self>) {
        if storage.is_row_safe(row) {
            proof {
                let columns = Self::spec_columns();
                let held = storage.rows()[row.0];
                let parts = crate::storage::tuples::row_parts(columns, held);
                let v = choose|v: Self| #[trigger]
                    crate::storage::tuples::row_holds::<Self>(held, v);
                assert(columns[0].0 == A::spec_id());
                assert(v.0.encoded_by(parts[0]));
                assert(columns[1].0 == B::spec_id());
                assert(v.1.encoded_by(parts[1]));
                assert(columns[2].0 == C::spec_id());
                assert(v.2.encoded_by(parts[2]));
                assert(columns[3].0 == D::spec_id());
                assert(v.3.encoded_by(parts[3]));
                assert(columns[4].0 == E::spec_id());
                assert(v.4.encoded_by(parts[4]));
                assert(columns[5].0 == F::spec_id());
                assert(v.5.encoded_by(parts[5]));
                assert(columns[6].0 == G::spec_id());
                assert(v.6.encoded_by(parts[6]));
                assert(columns[7].0 == H::spec_id());
                assert(v.7.encoded_by(parts[7]));
                assert(columns[8].0 == I::spec_id());
                assert(v.8.encoded_by(parts[8]));
            }
            Some((
                restore::<A>(storage, row),
                restore::<B>(storage, row),
                restore::<C>(storage, row),
                restore::<D>(storage, row),
                restore::<E>(storage, row),
                restore::<F>(storage, row),
                restore::<G>(storage, row),
                restore::<H>(storage, row),
                restore::<I>(storage, row),
            ))
        } else {
            None
        }
    }
}

impl<
    A: Component,
    B: Component,
    C: Component,
    D: Component,
    E: Component,
    F: Component,
    G: Component,
    H: Component,
    I: Component,
> StorageAccessor for (A, B, C, D, E, F, G, H, I) {
    fn access(storage: &mut ComponentTable, row: RowIndex) -> (parts: Option<Vec<&mut [u8]>>) {
        let component_ids = [
            A::id(),
            B::id(),
            C::id(),
            D::id(),
            E::id(),
            F::id(),
            G::id(),
            H::id(),
            I::id(),
        ];
        assert(component_ids@ =~= crate::storage::tuples::column_ids(Self::spec_columns()));
        storage.access_row_raw(row, component_ids)
    }
}

impl<
    A: Component,
    B: Component,
    C: Component,
    D: Component,
    E: Component,
    F: Component,
    G: Component,
    H: Component,
    I: Component,
    J: Component,
> ComponentSet for (A, B, C, D, E, F, G, H, I, J) {
    open spec fn spec_columns() -> Seq<(ComponentId, Layout)> {
        seq![
            (A::spec_id(), crate::storage::component::layout_of::<A>()),
            (B::spec_id(), crate::storage::component::layout_of::<B>()),
            (C::spec_id(), crate::storage::component::layout_of::<C>()),
            (D::spec_id(), crate::storage::component::layout_of::<D>()),
            (E::spec_id(), crate::storage::component::layout_of::<E>()),
            (F::spec_id(), crate::storage::component::layout_of::<F>()),
            (G::spec_id(), crate::storage::component::layout_of::<G>()),
            (H::spec_id(), crate::storage::component::layout_of::<H>()),
            (I::spec_id(), crate::storage::component::layout_of::<I>()),
            (J::spec_id(), crate::storage::component::layout_of::<J>()),
        ]
    }

    open spec fn encoded_by(self, parts: Seq<Seq<u8>>) -> bool {
        &&& parts.len() == 10
        &&& self.0.encoded_by(parts[0])
        &&& self.1.encoded_by(parts[1])
        &&& self.2.encoded_by(parts[2])
        &&& self.3.encoded_by(parts[3])
        &&& self.4.encoded_by(parts[4])
        &&& self.5.encoded_by(parts[5])
        &&& self.6.encoded_by(parts[6])
        &&& self.7.encoded_by(parts[7])
        &&& self.8.encoded_by(parts[8])
        &&& self.9.encoded_by(parts[9])
    }

    proof fn lemma_encoded(a: Self, b: Self, parts: Seq<Seq<u8>>) {
        A::lemma_encoded(a.0, b.0);
        B::lemma_encoded(a.1, b.1);
        C::lemma_encoded(a.2, b.2);
        D::lemma_encoded(a.3, b.3);
        E::lemma_encoded(a.4, b.4);
        F::lemma_encoded(a.5, b.5);
        G::lemma_encoded(a.6, b.6);
        H::lemma_encoded(a.7, b.7);
        I::lemma_encoded(a.8, b.8);
        J::lemma_encoded(a.9, b.9);
    }

    fn components() -> (component_ids: Vec<ComponentId>) {
        vec![
            A::id(),
            B::id(),
            C::id(),
            D::id(),
            E::id(),
            F::id(),
            G::id(),
            H::id(),
            I::id(),
            J::id(),
        ]
    }

    fn columns() -> (columns: Vec<ColumnConstruction>) {
        vec![
            ColumnConstruction::new::<A>(),
            ColumnConstruction::new::<B>(),
            ColumnConstruction::new::<C>(),
            ColumnConstruction::new::<D>(),
            ColumnConstruction::new::<E>(),
            ColumnConstruction::new::<F>(),
            ColumnConstruction::new::<G>(),
            ColumnConstruction::new::<H>(),
            ColumnConstruction::new::<I>(),
            ColumnConstruction::new::<J>(),
        ]
    }
}

impl<
    A: Component,
    B: Component,
    C: Component,
    D: Component,
    E: Component,
    F: Component,
    G: Component,
    H: Component,
    I: Component,
    J: Component,
> StorageInsert for (A, B, C, D, E, F, G, H, I, J) {
    fn get_values(self) -> (values: Vec<(ComponentId, Vec<u8>)>) {
        let values = vec![
            (A::id(), self.0.into_bytes()),
            (B::id(), self.1.into_bytes()),
            (C::id(), self.2.into_bytes()),
            (D::id(), self.3.into_bytes()),
            (E::id(), self.4.into_bytes()),
            (F::id(), self.5.into_bytes()),
            (G::id(), self.6.into_bytes()),
            (H::id(), self.7.into_bytes()),
            (I::id(), self.8.into_bytes()),
            (J::id(), self.9.into_bytes()),
        ];
        assert(crate::storage::component::ids(crate::storage::component::images(values@))
            =~= crate::storage::tuples::column_ids(Self::spec_columns()));
        values
    }
}

impl<
    A: Component,
    B: Component,
    C: Component,
    D: Component,
    E: Component,
    F: Component,
    G: Component,
    H: Component,
    I: Component,
    J: Component,
> ReduceArgument for (A, B, C, D, E, F, G, H, I, J) {
    fn build(storage: &ComponentTable, row: RowIndex) -> (values: Option<Self>) {
        if storage.is_row_safe(row) {
            proof {
                let columns = Self::spec_columns();
                let held = storage.rows()[row.0];
                let parts = crate::storage::tuples::row_parts(columns, held);
                let v = choose|v: Self| #[trigger]
                    crate::storage::tuples::row_holds::<Self>(held, v);
                assert(columns[0].0 == A::spec_id());
                assert(v.0.encoded_by(parts[0]));
                assert(columns[1].0 == B::spec_id());
                assert(v.1.encoded_by(parts[1]));
                assert(columns[2].0 == C::spec_id());
                assert(v.2.encoded_by(parts[2]));
                assert(columns[3].0 == D::spec_id());
                assert(v.3.encoded_by(parts[3]));
                assert(columns[4].0 == E::spec_id());
                assert(v.4.encoded_by(parts[4]));
                assert(columns[5].0 == F::spec_id());
                assert(v.5.encoded_by(parts[5]));
                assert(columns[6].0 == G::spec_id());
                assert(v.6.encoded_by(parts[6]));
                assert(columns[7].0 == H::spec_id());
                assert(v.7.encoded_by(parts[7]));
                assert(columns[8].0 == I::spec_id());
                assert(v.8.encoded_by(parts[8]));
                assert(columns[9].0 == J::spec_id());
                assert(v.9.encoded_by(parts[9]));
            }
            Some((
                restore::<A>(storage, row),
                restore::<B>(storage, row),
                restore::<C>(storage, row),
                restore::<D>(storage, row),
                restore::<E>(storage, row),
                restore::<F>(storage, row),
                restore::<G>(storage, row),
                restore::<H>(storage, row),
                restore::<I>(storage, row),
                restore::<J>(storage, row),
            ))
        } else {
            None
        }
    }
}

impl<
    A: Component,
    B: Component,
    C: Component,
    D: Component,
    E: Component,
    F: Component,
    G: Component,
    H: Component,
    I: Component,
    J: Component,
> StorageAccessor for (A, B, C, D, E, F, G, H, I, J) {
    fn access(storage: &mut ComponentTable, row: RowIndex) -> (parts: Option<Vec<&mut [u8]>>) {
        let component_ids = [
            A::id(),
            B::id(),
            C::id(),
            D::id(),
            E::id(),
            F::id(),
            G::id(),
            H::id(),
            I::id(),
            J::id(),
        ];
        assert(component_ids@ =~= crate::storage::tuples::column_ids(Self::spec_columns()));
        storage.access_row_raw(row, component_ids)
    }
}

impl<
    A: Component,
    B: Component,
    C: Component,
    D: Component,
    E: Component,
    F: Component,
    G: Component,
    H: Component,
    I: Component,
    J: Component,
    K: Component,
> ComponentSet for (A, B, C, D, E, F, G, H, I, J, K) {
    open spec fn spec_columns() -> Seq<(ComponentId, Layout)> {
        seq![
            (A::spec_id(), crate::storage::component::layout_of::<A>()),
            (B::spec_id(), crate::storage::component::layout_of::<B>()),
            (C::spec_id(), crate::storage::component::layout_of::<C>()),
            (D::spec_id(), crate::storage::component::layout_of::<D>()),
            (E::spec_id(), crate::storage::component::layout_of::<E>()),
            (F::spec_id(), crate::storage::component::layout_of::<F>()),
            (G::spec_id(), crate::storage::component::layout_of::<G>()),
            (H::spec_id(), crate::storage::component::layout_of::<H>()),
            (I::spec_id(), crate::storage::component::layout_of::<I>()),
            (J::spec_id(), crate::storage::component::layout_of::<J>()),
            (K::spec_id(), crate::storage::component::layout_of::<K>()),
        ]
    }

    open spec fn encoded_by(self, parts: Seq<Seq<u8>>) -> bool {
        &&& parts.len() == 11
        &&& self.0.encoded_by(parts[0])
        &&& self.1.encoded_by(parts[1])
        &&& self.2.encoded_by(parts[2])
        &&& self.3.encoded_by(parts[3])
        &&& self.4.encoded_by(parts[4])
        &&& self.5.encoded_by(parts[5])
        &&& self.6.encoded_by(parts[6])
        &&& self.7.encoded_by(parts[7])
        &&& self.8.encoded_by(parts[8])
        &&& self.9.encoded_by(parts[9])
        &&& self.10.encoded_by(parts[10])
    }

    proof fn lemma_encoded(a: Self, b: Self, parts: Seq<Seq<u8>>) {
        A::lemma_encoded(a.0, b.0);
        B::lemma_encoded(a.1, b.1);
        C::lemma_encoded(a.2, b.2);
        D::lemma_encoded(a.3, b.3);
        E::lemma_encoded(a.4, b.4);
        F::lemma_encoded(a.5, b.5);
        G::lemma_encoded(a.6, b.6);
        H::lemma_encoded(a.7, b.7);
        I::lemma_encoded(a.8, b.8);
        J::lemma_encoded(a.9, b.9);
        K::lemma_encoded(a.10, b.10);
    }

    fn components() -> (component_ids: Vec<ComponentId>) {
        vec![
            A::id(),
            B::id(),
            C::id(),
            D::id(),
            E::id(),
            F::id(),
            G::id(),
            H::id(),
            I::id(),
            J::id(),
            K::id(),
        ]
    }

    fn columns() -> (columns: Vec<ColumnConstruction>) {
        vec![
            ColumnConstruction::new::<A>(),
            ColumnConstruction::new::<B>(),
            ColumnConstruction::new::<C>(),
            ColumnConstruction::new::<D>(),
            ColumnConstruction::new::<E>(),
            ColumnConstruction::new::<F>(),
            ColumnConstruction::new::<G>(),
            ColumnConstruction::new::<H>(),
            ColumnConstruction::new::<I>(),
            ColumnConstruction::new::<J>(),
            ColumnConstruction::new::<K>(),
        ]
    }
}

impl<
    A: Component,
    B: Component,
    C: Component,
    D: Component,
    E: Component,
    F: Component,
    G: Component,
    H: Component,
    I: Component,
    J: Component,
    K: Component,
> StorageInsert for (A, B, C, D, E, F, G, H, I, J, K) {
    fn get_values(self) -> (values: Vec<(ComponentId, Vec<u8>)>) {
        let values = vec![
            (A::id(), self.0.into_bytes()),
            (B::id(), self.1.into_bytes()),
            (C::id(), self.2.into_bytes()),
            (D::id(), self.3.into_bytes()),
            (E::id(), self.4.into_bytes()),
            (F::id(), self.5.into_bytes()),
            (G::id(), self.6.into_bytes()),
            (H::id(), self.7.into_bytes()),
            (I::id(), self.8.into_bytes()),
            (J::id(), self.9.into_bytes()),
            (K::id(), self.10.into_bytes()),
        ];
        assert(crate::storage::component::ids(crate::storage::component::images(values@))
            =~= crate::storage::tuples::column_ids(Self::spec_columns()));
        values
    }
}

impl<
    A: Component,
    B: Component,
    C: Component,
    D: Component,
    E: Component,
    F: Component,
    G: Component,
    H: Component,
    I: Component,
    J: Component,
    K: Component,
> ReduceArgument for (A, B, C, D, E, F, G, H, I, J, K) {
    fn build(storage: &ComponentTable, row: RowIndex) -> (values: Option<Self>) {
        if storage.is_row_safe(row) {
            proof {
                let columns = Self::spec_columns();
                let held = storage.rows()[row.0];
                let parts = crate::storage::tuples::row_parts(columns, held);
                let v = choose|v: Self| #[trigger]
                    crate::storage::tuples::row_holds::<Self>(held, v);
                assert(columns[0].0 == A::spec_id());
                assert(v.0.encoded_by(parts[0]));
                assert(columns[1].0 == B::spec_id());
                assert(v.1.encoded_by(parts[1]));
                assert(columns[2].0 == C::spec_id());
                assert(v.2.encoded_by(parts[2]));
                assert(columns[3].0 == D::spec_id());
                assert(v.3.encoded_by(parts[3]));
                assert(columns[4].0 == E::spec_id());
                assert(v.4.encoded_by(parts[4]));
                assert(columns[5].0 == F::spec_id());
                assert(v.5.encoded_by(parts[5]));
                assert(columns[6].0 == G::spec_id());
                assert(v.6.encoded_by(parts[6]));
                assert(columns[7].0 == H::spec_id());
                assert(v.7.encoded_by(parts[7]));
                assert(columns[8].0 == I::spec_id());
                assert(v.8.encoded_by(parts[8]));
                assert(columns[9].0 == J::spec_id());
                assert(v.9.encoded_by(parts[9]));
                assert(columns[10].0 == K::spec_id());
                assert(v.10.encoded_by(parts[10]));
            }
            Some((
                restore::<A>(storage, row),
                restore::<B>(storage, row),
                restore::<C>(storage, row),
                restore::<D>(storage, row),
                restore::<E>(storage, row),
                restore::<F>(storage, row),
                restore::<G>(storage, row),
                restore::<H>(storage, row),
                restore::<I>(storage, row),
                restore::<J>(storage, row),
                restore::<K>(storage, row),
            ))
        } else {
            None
        }
    }
}

impl<
    A: Component,
    B: Component,
    C: Component,
    D: Component,
    E: Component,
    F: Component,
    G: Component,
    H: Component,
    I: Component,
    J: Component,
    K: Component,
> StorageAccessor for (A, B, C, D, E, F, G, H, I, J, K) {
    fn access(storage: &mut ComponentTable, row: RowIndex) -> (parts: Option<Vec<&mut [u8]>>) {
        let component_ids = [
            A::id(),
            B::id(),
            C::id(),
            D::id(),
            E::id(),
            F::id(),
            G::id(),
            H::id(),
            I::id(),
            J::id(),
            K::id(),
        ];
        assert(component_ids@ =~= crate::storage::tuples::column_ids(Self::spec_columns()));
        storage.access_row_raw(row, component_ids)
    }
}

impl<
    A: Component,
    B: Component,
    C: Component,
    D: Component,
    E: Component,
    F: Component,
    G: Component,
    H: Component,
    I: Component,
    J: Component,
    K: Component,
    L: Component,
> ComponentSet for (A, B, C, D, E, F, G, H, I, J, K, L) {
    open spec fn spec_columns() -> Seq<(ComponentId, Layout)> {
        seq![
            (A::spec_id(), crate::storage::component::layout_of::<A>()),
            (B::spec_id(), crate::storage::component::layout_of::<B>()),
            (C::spec_id(), crate::storage::component::layout_of::<C>()),
            (D::spec_id(), crate::storage::component::layout_of::<D>()),
            (E::spec_id(), crate::storage::component::layout_of::<E>()),
            (F::spec_id(), crate::storage::component::layout_of::<F>()),
            (G::spec_id(), crate::storage::component::layout_of::<G>()),
            (H::spec_id(), crate::storage::component::layout_of::<H>()),
            (I::spec_id(), crate::storage::component::layout_of::<I>()),
            (J::spec_id(), crate::storage::component::layout_of::<J>()),
            (K::spec_id(), crate::storage::component::layout_of::<K>()),
            (L::spec_id(), crate::storage::component::layout_of::<L>()),
        ]
    }

    open spec fn encoded_by(self, parts: Seq<Seq<u8>>) -> bool {
        &&& parts.len() == 12
        &&& self.0.encoded_by(parts[0])
        &&& self.1.encoded_by(parts[1])
        &&& self.2.encoded_by(parts[2])
        &&& self.3.encoded_by(parts[3])
        &&& self.4.encoded_by(parts[4])
        &&& self.5.encoded_by(parts[5])
        &&& self.6.encoded_by(parts[6])
        &&& self.7.encoded_by(parts[7])
        &&& self.8.encoded_by(parts[8])
        &&& self.9.encoded_by(parts[9])
        &&& self.10.encoded_by(parts[10])
        &&& self.11.encoded_by(parts[11])
    }

    proof fn lemma_encoded(a: Self, b: Self, parts: Seq<Seq<u8>>) {
        A::lemma_encoded(a.0, b.0);
        B::lemma_encoded(a.1, b.1);
        C::lemma_encoded(a.2, b.2);
        D::lemma_encoded(a.3, b.3);
        E::lemma_encoded(a.4, b.4);
        F::lemma_encoded(a.5, b.5);
        G::lemma_encoded(a.6, b.6);
        H::lemma_encoded(a.7, b.7);
        I::lemma_encoded(a.8, b.8);
        J::lemma_encoded(a.9, b.9);
        K::lemma_encoded(a.10, b.10);
        L::lemma_encoded(a.11, b.11);
    }

    fn components() -> (component_ids: Vec<ComponentId>) {
        vec![
            A::id(),
            B::id(),
            C::id(),
            D::id(),
            E::id(),
            F::id(),
            G::id(),
            H::id(),
            I::id(),
            J::id(),
            K::id(),
            L::id(),
        ]
    }

    fn columns() -> (columns: Vec<ColumnConstruction>) {
        vec![
            ColumnConstruction::new::<A>(),
            ColumnConstruction::new::<B>(),
            ColumnConstruction::new::<C>(),
            ColumnConstruction::new::<D>(),
            ColumnConstruction::new::<E>(),
            ColumnConstruction::new::<F>(),
            ColumnConstruction::new::<G>(),
            ColumnConstruction::new::<H>(),
            ColumnConstruction::new::<I>(),
            ColumnConstruction::new::<J>(),
            ColumnConstruction::new::<K>(),
            ColumnConstruction::new::<L>(),
        ]
    }
}

impl<
    A: Component,
    B: Component,
    C: Component,
    D: Component,
    E: Component,
    F: Component,
    G: Component,
    H: Component,
    I: Component,
    J: Component,
    K: Component,
    L: Component,
> StorageInsert for (A, B, C, D, E, F, G, H, I, J, K, L) {
    fn get_values(self) -> (values: Vec<(ComponentId, Vec<u8>)>) {
        let values = vec![
            (A::id(), self.0.into_bytes()),
            (B::id(), self.1.into_bytes()),
            (C::id(), self.2.into_bytes()),
            (D::id(), self.3.into_bytes()),
            (E::id(), self.4.into_bytes()),
            (F::id(), self.5.into_bytes()),
            (G::id(), self.6.into_bytes()),
            (H::id(), self.7.into_bytes()),
            (I::id(), self.8.into_bytes()),
            (J::id(), self.9.into_bytes()),
            (K::id(), self.10.into_bytes()),
            (L::id(), self.11.into_bytes()),
        ];
        assert(crate::storage::component::ids(crate::storage::component::images(values@))
            =~= crate::storage::tuples::column_ids(Self::spec_columns()));
        values
    }
}

impl<
    A: Component,
    B: Component,
    C: Component,
    D: Component,
    E: Component,
    F: Component,
    G: Component,
    H: Component,
    I: Component,
    J: Component,
    K: Component,
    L: Component,
> ReduceArgument for (A, B, C, D, E, F, G, H, I, J, K, L) {
    fn build(storage: &ComponentTable, row: RowIndex) -> (values: Option<Self>) {
        if storage.is_row_safe(row) {
            proof {
                let columns = Self::spec_columns();
                let held = storage.rows()[row.0];
                let parts = crate::storage::tuples::row_parts(columns, held);
                let v = choose|v: Self| #[trigger]
                    crate::storage::tuples::row_holds::<Self>(held, v);
                assert(columns[0].0 == A::spec_id());
                assert(v.0.encoded_by(parts[0]));
                assert(columns[1].0 == B::spec_id());
                assert(v.1.encoded_by(parts[1]));
                assert(columns[2].0 == C::spec_id());
                assert(v.2.encoded_by(parts[2]));
                assert(columns[3].0 == D::spec_id());
                assert(v.3.encoded_by(parts[3]));
                assert(columns[4].0 == E::spec_id());
                assert(v.4.encoded_by(parts[4]));
                assert(columns[5].0 == F::spec_id());
                assert(v.5.encoded_by(parts[5]));
                assert(columns[6].0 == G::spec_id());
                assert(v.6.encoded_by(parts[6]));
                assert(columns[7].0 == H::spec_id());
                assert(v.7.encoded_by(parts[7]));
                assert(columns[8].0 == I::spec_id());
                assert(v.8.encoded_by(parts[8]));
                assert(columns[9].0 == J::spec_id());
                assert(v.9.encoded_by(parts[9]));
                assert(columns[10].0 == K::spec_id());
                assert(v.10.encoded_by(parts[10]));
                assert(columns[11].0 == L::spec_id());
                assert(v.11.encoded_by(parts[11]));
            }
            Some((
                restore::<A>(storage, row),
                restore::<B>(storage, row),
                restore::<C>(storage, row),
                restore::<D>(storage, row),
                restore::<E>(storage, row),
                restore::<F>(storage, row),
                restore::<G>(storage, row),
                restore::<H>(storage, row),
                restore::<I>(storage, row),
                restore::<J>(storage, row),
                restore::<K>(storage, row),
                restore::<L>(storage, row),
            ))
        } else {
            None
        }
    }
}

impl<
    A: Component,
    B: Component,
    C: Component,
    D: Component,
    E: Component,
    F: Component,
    G: Component,
    H: Component,
    I: Component,
    J: Component,
    K: Component,
    L: Component,
> StorageAccessor for (A, B, C, D, E, F, G, H, I, J, K, L) {
    fn access(storage: &mut ComponentTable, row: RowIndex) -> (parts: Option<Vec<&mut [u8]>>) {
        let component_ids = [
            A::id(),
            B::id(),
            C::id(),
            D::id(),
            E::id(),
            F::id(),
            G::id(),
            H::id(),
            I::id(),
            J::id(),
            K::id(),
            L::id(),
        ];
        assert(component_ids@ =~= crate::storage::tuples::column_ids(Self::spec_columns()));
        storage.access_row_raw(row, component_ids)
    }
}

impl<
    A: Component,
    B: Component,
    C: Component,
    D: Component,
    E: Component,
    F: Component,
    G: Component,
    H: Component,
    I: Component,
    J: Component,
    K: Component,
    L: Component,
    M: Component,
> ComponentSet for (A, B, C, D, E, F, G, H, I, J, K, L, M) {
    open spec fn spec_columns() -> Seq<(ComponentId, Layout)> {
        seq![
            (A::spec_id(), crate::storage::component::layout_of::<A>()),
            (B::spec_id(), crate::storage::component::layout_of::<B>()),
            (C::spec_id(), crate::storage::component::layout_of::<C>()),
            (D::spec_id(), crate::storage::component::layout_of::<D>()),
            (E::spec_id(), crate::storage::component::layout_of::<E>()),
            (F::spec_id(), crate::storage::component::layout_of::<F>()),
            (G::spec_id(), crate::storage::component::layout_of::<G>()),
            (H::spec_id(), crate::storage::component::layout_of::<H>()),
            (I::spec_id(), crate::storage::component::layout_of::<I>()),
            (J::spec_id(), crate::storage::component::layout_of::<J>()),
            (K::spec_id(), crate::storage::component::layout_of::<K>()),
            (L::spec_id(), crate::storage::component::layout_of::<L>()),
            (M::spec_id(), crate::storage::component::layout_of::<M>()),
        ]
    }

    open spec fn encoded_by(self, parts: Seq<Seq<u8>>) -> bool {
        &&& parts.len() == 13
        &&& self.0.encoded_by(parts[0])
        &&& self.1.encoded_by(parts[1])
        &&& self.2.encoded_by(parts[2])
        &&& self.3.encoded_by(parts[3])
        &&& self.4.encoded_by(parts[4])
        &&& self.5.encoded_by(parts[5])
        &&& self.6.encoded_by(parts[6])
        &&& self.7.encoded_by(parts[7])
        &&& self.8.encoded_by(parts[8])
        &&& self.9.encoded_by(parts[9])
        &&& self.10.encoded_by(parts[10])
        &&& self.11.encoded_by(parts[11])
        &&& self.12.encoded_by(parts[12])
    }

    proof fn lemma_encoded(a: Self, b: Self, parts: Seq<Seq<u8>>) {
        A::lemma_encoded(a.0, b.0);
        B::lemma_encoded(a.1, b.1);
        C::lemma_encoded(a.2, b.2);
        D::lemma_encoded(a.3, b.3);
        E::lemma_encoded(a.4, b.4);
        F::lemma_encoded(a.5, b.5);
        G::lemma_encoded(a.6, b.6);
        H::lemma_encoded(a.7, b.7);
        I::lemma_encoded(a.8, b.8);
        J::lemma_encoded(a.9, b.9);
        K::lemma_encoded(a.10, b.10);
        L::lemma_encoded(a.11, b.11);
        M::lemma_encoded(a.12, b.12);
    }

    fn components() -> (component_ids: Vec<ComponentId>) {
        vec![
            A::id(),
            B::id(),
            C::id(),
            D::id(),
            E::id(),
            F::id(),
            G::id(),
            H::id(),
            I::id(),
            J::id(),
            K::id(),
            L::id(),
            M::id(),
        ]
    }

    fn columns() -> (columns: Vec<ColumnConstruction>) {
        vec![
            ColumnConstruction::new::<A>(),
            ColumnConstruction::new::<B>(),
            ColumnConstruction::new::<C>(),
            ColumnConstruction::new::<D>(),
            ColumnConstruction::new::<E>(),
            ColumnConstruction::new::<F>(),
            ColumnConstruction::new::<G>(),
            ColumnConstruction::new::<H>(),
            ColumnConstruction::new::<I>(),
            ColumnConstruction::new::<J>(),
            ColumnConstruction::new::<K>(),
            ColumnConstruction::new::<L>(),
            ColumnConstruction::new::<M>(),
        ]
    }
}

impl<
    A: Component,
    B: Component,
    C: Component,
    D: Component,
    E: Component,
    F: Component,
    G: Component,
    H: Component,
    I: Component,
    J: Component,
    K: Component,
    L: Component,
    M: Component,
> StorageInsert for (A, B, C, D, E, F, G, H, I, J, K, L, M) {
    fn get_values(self) -> (values: Vec<(ComponentId, Vec<u8>)>) {
        let values = vec![
            (A::id(), self.0.into_bytes()),
            (B::id(), self.1.into_bytes()),
            (C::id(), self.2.into_bytes()),
            (D::id(), self.3.into_bytes()),
            (E::id(), self.4.into_bytes()),
            (F::id(), self.5.into_bytes()),
            (G::id(), self.6.into_bytes()),
            (H::id(), self.7.into_bytes()),
            (I::id(), self.8.into_bytes()),
            (J::id(), self.9.into_bytes()),
            (K::id(), self.10.into_bytes()),
            (L::id(), self.11.into_bytes()),
            (M::id(), self.12.into_bytes()),
        ];
        assert(crate::storage::component::ids(crate::storage::component::images(values@))
            =~= crate::storage::tuples::column_ids(Self::spec_columns()));
        values
    }
}

impl<
    A: Component,
    B: Component,
    C: Component,
    D: Component,
    E: Component,
    F: Component,
    G: Component,
    H: Component,
    I: Component,
    J: Component,
    K: Component,
    L: Component,
    M: Component,
> ReduceArgument for (A, B, C, D, E, F, G, H, I, J, K, L, M) {
    fn build(storage: &ComponentTable, row: RowIndex) -> (values: Option<Self>) {
        if storage.is_row_safe(row) {
            proof {
                let columns = Self::spec_columns();
                let held = storage.rows()[row.0];
                let parts = crate::storage::tuples::row_parts(columns, held);
                let v = choose|v: Self| #[trigger]
                    crate::storage::tuples::row_holds::<Self>(held, v);
                assert(columns[0].0 == A::spec_id());
                assert(v.0.encoded_by(parts[0]));
                assert(columns[1].0 == B::spec_id());
                assert(v.1.encoded_by(parts[1]));
                assert(columns[2].0 == C::spec_id());
                assert(v.2.encoded_by(parts[2]));
                assert(columns[3].0 == D::spec_id());
                assert(v.3.encoded_by(parts[3]));
                assert(columns[4].0 == E::spec_id());
                assert(v.4.encoded_by(parts[4]));
                assert(columns[5].0 == F::spec_id());
                assert(v.5.encoded_by(parts[5]));
                assert(columns[6].0 == G::spec_id());
                assert(v.6.encoded_by(parts[6]));
                assert(columns[7].0 == H::spec_id());
                assert(v.7.encoded_by(parts[7]));
                assert(columns[8].0 == I::spec_id());
                assert(v.8.encoded_by(parts[8]));
                assert(columns[9].0 == J::spec_id());
                assert(v.9.encoded_by(parts[9]));
                assert(columns[10].0 == K::spec_id());
                assert(v.10.encoded_by(parts[10]));
                assert(columns[11].0 == L::spec_id());
                assert(v.11.encoded_by(parts[11]));
                assert(columns[12].0 == M::spec_id());
                assert(v.12.encoded_by(parts[12]));
            }
            Some((
                restore::<A>(storage, row),
                restore::<B>(storage, row),
                restore::<C>(storage, row),
                restore::<D>(storage, row),
                restore::<E>(storage, row),
                restore::<F>(storage, row),
                restore::<G>(storage, row),
                restore::<H>(storage, row),
                restore::<I>(storage, row),
                restore::<J>(storage, row),
                restore::<K>(storage, row),
                restore::<L>(storage, row),
                restore::<M>(storage, row),
            ))
        } else {
            None
        }
    }
}

impl<
    A: Component,
    B: Component,
    C: Component,
    D: Component,
    E: Component,
    F: Component,
    G: Component,
    H: Component,
    I: Component,
    J: Component,
    K: Component,
    L: Component,
    M: Component,
> StorageAccessor for (A, B, C, D, E, F, G, H, I, J, K, L, M) {
    fn access(storage: &mut ComponentTable, row: RowIndex) -> (parts: Option<Vec<&mut [u8]>>) {
        let component_ids = [
            A::id(),
            B::id(),
            C::id(),
            D::id(),
            E::id(),
            F::id(),
            G::id(),
            H::id(),
            I::id(),
            J::id(),
            K::id(),
            L::id(),
            M::id(),
        ];
        assert(component_ids@ =~= crate::storage::tuples::column_ids(Self::spec_columns()));
        storage.access_row_raw(row, component_ids)
    }
}

impl<
    A: Component,
    B: Component,
    C: Component,
    D: Component,
    E: Component,
    F: Component,
    G: Component,
    H: Component,
    I: Component,
    J: Component,
    K: Component,
    L: Component,
    M: Component,
    N: Component,
> ComponentSet for (A, B, C, D, E, F, G, H, I, J, K, L, M, N) {
    open spec fn spec_columns() -> Seq<(ComponentId, Layout)> {
        seq![
            (A::spec_id(), crate::storage::component::layout_of::<A>()),
            (B::spec_id(), crate::storage::component::layout_of::<B>()),
            (C::spec_id(), crate::storage::component::layout_of::<C>()),
            (D::spec_id(), crate::storage::component::layout_of::<D>()),
            (E::spec_id(), crate::storage::component::layout_of::<E>()),
            (F::spec_id(), crate::storage::component::layout_of::<F>()),
            (G::spec_id(), crate::storage::component::layout_of::<G>()),
            (H::spec_id(), crate::storage::component::layout_of::<H>()),
            (I::spec_id(), crate::storage::component::layout_of::<I>()),
            (J::spec_id(), crate::storage::component::layout_of::<J>()),
            (K::spec_id(), crate::storage::component::layout_of::<K>()),
            (L::spec_id(), crate::storage::component::layout_of::<L>()),
            (M::spec_id(), crate::storage::component::layout_of::<M>()),
            (N::spec_id(), crate::storage::component::layout_of::<N>()),
        ]
    }

    open spec fn encoded_by(self, parts: Seq<Seq<u8>>) -> bool {
        &&& parts.len() == 14
        &&& self.0.encoded_by(parts[0])
        &&& self.1.encoded_by(parts[1])
        &&& self.2.encoded_by(parts[2])
        &&& self.3.encoded_by(parts[3])
        &&& self.4.encoded_by(parts[4])
        &&& self.5.encoded_by(parts[5])
        &&& self.6.encoded_by(parts[6])
        &&& self.7.encoded_by(parts[7])
        &&& self.8.encoded_by(parts[8])
        &&& self.9.encoded_by(parts[9])
        &&& self.10.encoded_by(parts[10])
        &&& self.11.encoded_by(parts[11])
        &&& self.12.encoded_by(parts[12])
        &&& self.13.encoded_by(parts[13])
    }

    proof fn lemma_encoded(a: Self, b: Self, parts: Seq<Seq<u8>>) {
        A::lemma_encoded(a.0, b.0);
        B::lemma_encoded(a.1, b.1);
        C::lemma_encoded(a.2, b.2);
        D::lemma_encoded(a.3, b.3);
        E::lemma_encoded(a.4, b.4);
        F::lemma_encoded(a.5, b.5);
        G::lemma_encoded(a.6, b.6);
        H::lemma_encoded(a.7, b.7);
        I::lemma_encoded(a.8, b.8);
        J::lemma_encoded(a.9, b.9);
        K::lemma_encoded(a.10, b.10);
        L::lemma_encoded(a.11, b.11);
        M::lemma_encoded(a.12, b.12);
        N::lemma_encoded(a.13, b.13);
    }

    fn components() -> (component_ids: Vec<ComponentId>) {
        vec![
            A::id(),
            B::id(),
            C::id(),
            D::id(),
            E::id(),
            F::id(),
            G::id(),
            H::id(),
            I::id(),
            J::id(),
            K::id(),
            L::id(),
            M::id(),
            N::id(),
        ]
    }

    fn columns() -> (columns: Vec<ColumnConstruction>) {
        vec![
            ColumnConstruction::new::<A>(),
            ColumnConstruction::new::<B>(),
            ColumnConstruction::new::<C>(),
            ColumnConstruction::new::<D>(),
            ColumnConstruction::new::<E>(),
            ColumnConstruction::new::<F>(),
            ColumnConstruction::new::<G>(),
            ColumnConstruction::new::<H>(),
            ColumnConstruction::new::<I>(),
            ColumnConstruction::new::<J>(),
            ColumnConstruction::new::<K>(),
            ColumnConstruction::new::<L>(),
            ColumnConstruction::new::<M>(),
            ColumnConstruction::new::<N>(),
        ]
    }
}

impl<
    A: Component,
    B: Component,
    C: Component,
    D: Component,
    E: Component,
    F: Component,
    G: Component,
    H: Component,
    I: Component,
    J: Component,
    K: Component,
    L: Component,
    M: Component,
    N: Component,
> StorageInsert for (A, B, C, D, E, F, G, H, I, J, K, L, M, N) {
    fn get_values(self) -> (values: Vec<(ComponentId, Vec<u8>)>) {
        let values = vec![
            (A::id(), self.0.into_bytes()),
            (B::id(), self.1.into_bytes()),
            (C::id(), self.2.into_bytes()),
            (D::id(), self.3.into_bytes()),
            (E::id(), self.4.into_bytes()),
            (F::id(), self.5.into_bytes()),
            (G::id(), self.6.into_bytes()),
            (H::id(), self.7.into_bytes()),
            (I::id(), self.8.into_bytes()),
            (J::id(), self.9.into_bytes()),
            (K::id(), self.10.into_bytes()),
            (L::id(), self.11.into_bytes()),
            (M::id(), self.12.into_bytes()),
            (N::id(), self.13.into_bytes()),
        ];
        assert(crate::storage::component::ids(crate::storage::component::images(values@))
            =~= crate::storage::tuples::column_ids(Self::spec_columns()));
        values
    }
}

impl<
    A: Component,
    B: Component,
    C: Component,
    D: Component,
    E: Component,
    F: Component,
    G: Component,
    H: Component,
    I: Component,
    J: Component,
    K: Component,
    L: Component,
    M: Component,
    N: Component,
> ReduceArgument for (A, B, C, D, E, F, G, H, I, J, K, L, M, N) {
    fn build(storage: &ComponentTable, row: RowIndex) -> (values: Option<Self>) {
        if storage.is_row_safe(row) {
            proof {
                let columns = Self::spec_columns();
                let held = storage.rows()[row.0];
                let parts = crate::storage::tuples::row_parts(columns, held);
                let v = choose|v: Self| #[trigger]
                    crate::storage::tuples::row_holds::<Self>(held, v);
                assert(columns[0].0 == A::spec_id());
                assert(v.0.encoded_by(parts[0]));
                assert(columns[1].0 == B::spec_id());
                assert(v.1.encoded_by(parts[1]));
                assert(columns[2].0 == C::spec_id());
                assert(v.2.encoded_by(parts[2]));
                assert(columns[3].0 == D::spec_id());
                assert(v.3.encoded_by(parts[3]));
                assert(columns[4].0 == E::spec_id());
                assert(v.4.encoded_by(parts[4]));
                assert(columns[5].0 == F::spec_id());
                assert(v.5.encoded_by(parts[5]));
                assert(columns[6].0 == G::spec_id());
                assert(v.6.encoded_by(parts[6]));
                assert(columns[7].0 == H::spec_id());
                assert(v.7.encoded_by(parts[7]));
                assert(columns[8].0 == I::spec_id());
                assert(v.8.encoded_by(parts[8]));
                assert(columns[9].0 == J::spec_id());
                assert(v.9.encoded_by(parts[9]));
                assert(columns[10].0 == K::spec_id());
                assert(v.10.encoded_by(parts[10]));
                assert(columns[11].0 == L::spec_id());
                assert(v.11.encoded_by(parts[11]));
                assert(columns[12].0 == M::spec_id());
                assert(v.12.encoded_by(parts[12]));
                assert(columns[13].0 == N::spec_id());
                assert(v.13.encoded_by(parts[13]));
            }
            Some((
                restore::<A>(storage, row),
                restore::<B>(storage, row),
                restore::<C>(storage, row),
                restore::<D>(storage, row),
                restore::<E>(storage, row),
                restore::<F>(storage, row),
                restore::<G>(storage, row),
                restore::<H>(storage, row),
                restore::<I>(storage, row),
                restore::<J>(storage, row),
                restore::<K>(storage, row),
                restore::<L>(storage, row),
                restore::<M>(storage, row),
                restore::<N>(storage, row),
            ))
        } else {
            None
        }
    }
}

impl<
    A: Component,
    B: Component,
    C: Component,
    D: Component,
    E: Component,
    F: Component,
    G: Component,
    H: Component,
    I: Component,
    J: Component,
    K: Component,
    L: Component,
    M: Component,
    N: Component,
> StorageAccessor for (A, B, C, D, E, F, G, H, I, J, K, L, M, N) {
    fn access(storage: &mut ComponentTable, row: RowIndex) -> (parts: Option<Vec<&mut [u8]>>) {
        let component_ids = [
            A::id(),
            B::id(),
            C::id(),
            D::id(),
            E::id(),
            F::id(),
            G::id(),
            H::id(),
            I::id(),
            J::id(),
            K::id(),
            L::id(),
            M::id(),
            N::id(),
        ];
        assert(component_ids@ =~= crate::storage::tuples::column_ids(Self::spec_columns()));
        storage.access_row_raw(row, component_ids)
    }
}

impl<
    A: Component,
    B: Component,
    C: Component,
    D: Component,
    E: Component,
    F: Component,
    G: Component,
    H: Component,
    I: Component,
    J: Component,
    K: Component,
    L: Component,
    M: Component,
    N: Component,
    O: Component,
> ComponentSet for (A, B, C, D, E, F, G, H, I, J, K, L, M, N, O) {
    open spec fn spec_columns() -> Seq<(ComponentId, Layout)> {
        seq![
            (A::spec_id(), crate::storage::component::layout_of::<A>()),
            (B::spec_id(), crate::storage::component::layout_of::<B>()),
            (C::spec_id(), crate::storage::component::layout_of::<C>()),
            (D::spec_id(), crate::storage::component::layout_of::<D>()),
            (E::spec_id(), crate::storage::component::layout_of::<E>()),
            (F::spec_id(), crate::storage::component::layout_of::<F>()),
            (G::spec_id(), crate::storage::component::layout_of::<G>()),
            (H::spec_id(), crate::storage::component::layout_of::<H>()),
            (I::spec_id(), crate::storage::component::layout_of::<I>()),
            (J::spec_id(), crate::storage::component::layout_of::<J>()),
            (K::spec_id(), crate::storage::component::layout_of::<K>()),
            (L::spec_id(), crate::storage::component::layout_of::<L>()),
            (M::spec_id(), crate::storage::component::layout_of::<M>()),
            (N::spec_id(), crate::storage::component::layout_of::<N>()),
            (O::spec_id(), crate::storage::component::layout_of::<O>()),
        ]
    }

    open spec fn encoded_by(self, parts: Seq<Seq<u8>>) -> bool {
        &&& parts.len() == 15
        &&& self.0.encoded_by(parts[0])
        &&& self.1.encoded_by(parts[1])
        &&& self.2.encoded_by(parts[2])
        &&& self.3.encoded_by(parts[3])
        &&& self.4.encoded_by(parts[4])
        &&& self.5.encoded_by(parts[5])
        &&& self.6.encoded_by(parts[6])
        &&& self.7.encoded_by(parts[7])
        &&& self.8.encoded_by(parts[8])
        &&& self.9.encoded_by(parts[9])
        &&& self.10.encoded_by(parts[10])
        &&& self.11.encoded_by(parts[11])
        &&& self.12.encoded_by(parts[12])
        &&& self.13.encoded_by(parts[13])
        &&& self.14.encoded_by(parts[14])
    }

    proof fn lemma_encoded(a: Self, b: Self, parts: Seq<Seq<u8>>) {
        A::lemma_encoded(a.0, b.0);
        B::lemma_encoded(a.1, b.1);
        C::lemma_encoded(a.2, b.2);
        D::lemma_encoded(a.3, b.3);
        E::lemma_encoded(a.4, b.4);
        F::lemma_encoded(a.5, b.5);
        G::lemma_encoded(a.6, b.6);
        H::lemma_encoded(a.7, b.7);
        I::lemma_encoded(a.8, b.8);
        J::lemma_encoded(a.9, b.9);
        K::lemma_encoded(a.10, b.10);
        L::lemma_encoded(a.11, b.11);
        M::lemma_encoded(a.12, b.12);
        N::lemma_encoded(a.13, b.13);
        O::lemma_encoded(a.14, b.14);
    }

    fn components() -> (component_ids: Vec<ComponentId>) {
        vec![
            A::id(),
            B::id(),
            C::id(),
            D::id(),
            E::id(),
            F::id(),
            G::id(),
            H::id(),
            I::id(),
            J::id(),
            K::id(),
            L::id(),
            M::id(),
            N::id(),
            O::id(),
        ]
    }

    fn columns() -> (columns: Vec<ColumnConstruction>) {
        vec![
            ColumnConstruction::new::<A>(),
            ColumnConstruction::new::<B>(),
            ColumnConstruction::new::<C>(),
            ColumnConstruction::new::<D>(),
            ColumnConstruction::new::<E>(),
            ColumnConstruction::new::<F>(),
            ColumnConstruction::new::<G>(),
            ColumnConstruction::new::<H>(),
            ColumnConstruction::new::<I>(),
            ColumnConstruction::new::<J>(),
            ColumnConstruction::new::<K>(),
            ColumnConstruction::new::<L>(),
            ColumnConstruction::new::<M>(),
            ColumnConstruction::new::<N>(),
            ColumnConstruction::new::<O>(),
        ]
    }
}

impl<
    A: Component,
    B: Component,
    C: Component,
    D: Component,
    E: Component,
    F: Component,
    G: Component,
    H: Component,
    I: Component,
    J: Component,
    K: Component,
    L: Component,
    M: Component,
    N: Component,
    O: Component,
> StorageInsert for (A, B, C, D, E, F, G, H, I, J, K, L, M, N, O) {
    fn get_values(self) -> (values: Vec<(ComponentId, Vec<u8>)>) {
        let values = vec![
            (A::id(), self.0.into_bytes()),
            (B::id(), self.1.into_bytes()),
            (C::id(), self.2.into_bytes()),
            (D::id(), self.3.into_bytes()),
            (E::id(), self.4.into_bytes()),
            (F::id(), self.5.into_bytes()),
            (G::id(), self.6.into_bytes()),
            (H::id(), self.7.into_bytes()),
            (I::id(), self.8.into_bytes()),
            (J::id(), self.9.into_bytes()),
            (K::id(), self.10.into_bytes()),
            (L::id(), self.11.into_bytes()),
            (M::id(), self.12.into_bytes()),
            (N::id(), self.13.into_bytes()),
            (O::id(), self.14.into_bytes()),
        ];
        assert(crate::storage::component::ids(crate::storage::component::images(values@))
            =~= crate::storage::tuples::column_ids(Self::spec_columns()));
        values
    }
}

impl<
    A: Component,
    B: Component,
    C: Component,
    D: Component,
    E: Component,
    F: Component,
    G: Component,
    H: Component,
    I: Component,
    J: Component,
    K: Component,
    L: Component,
    M: Component,
    N: Component,
    O: Component,
> ReduceArgument for (A, B, C, D, E, F, G, H, I, J, K, L, M, N, O) {
    fn build(storage: &ComponentTable, row: RowIndex) -> (values: Option<Self>) {
        if storage.is_row_safe(row) {
            proof {
                let columns = Self::spec_columns();
                let held = storage.rows()[row.0];
                let parts = crate::storage::tuples::row_parts(columns, held);
                let v = choose|v: Self| #[trigger]
                    crate::storage::tuples::row_holds::<Self>(held, v);
                assert(columns[0].0 == A::spec_id());
                assert(v.0.encoded_by(parts[0]));
                assert(columns[1].0 == B::spec_id());
                assert(v.1.encoded_by(parts[1]));
                assert(columns[2].0 == C::spec_id());
                assert(v.2.encoded_by(parts[2]));
                assert(columns[3].0 == D::spec_id());
                assert(v.3.encoded_by(parts[3]));
                assert(columns[4].0 == E::spec_id());
                assert(v.4.encoded_by(parts[4]));
                assert(columns[5].0 == F::spec_id());
                assert(v.5.encoded_by(parts[5]));
                assert(columns[6].0 == G::spec_id());
                assert(v.6.encoded_by(parts[6]));
                assert(columns[7].0 == H::spec_id());
                assert(v.7.encoded_by(parts[7]));
                assert(columns[8].0 == I::spec_id());
                assert(v.8.encoded_by(parts[8]));
                assert(columns[9].0 == J::spec_id());
                assert(v.9.encoded_by(parts[9]));
                assert(columns[10].0 == K::spec_id());
                assert(v.10.encoded_by(parts[10]));
                assert(columns[11].0 == L::spec_id());
                assert(v.11.encoded_by(parts[11]));
                assert(columns[12].0 == M::spec_id());
                assert(v.12.encoded_by(parts[12]));
                assert(columns[13].0 == N::spec_id());
                assert(v.13.encoded_by(parts[13]));
                assert(columns[14].0 == O::spec_id());
                assert(v.14.encoded_by(parts[14]));
            }
            Some((
                restore::<A>(storage, row),
                restore::<B>(storage, row),
                restore::<C>(storage, row),
                restore::<D>(storage, row),
                restore::<E>(storage, row),
                restore::<F>(storage, row),
                restore::<G>(storage, row),
                restore::<H>(storage, row),
                restore::<I>(storage, row),
                restore::<J>(storage, row),
                restore::<K>(storage, row),
                restore::<L>(storage, row),
                restore::<M>(storage, row),
                restore::<N>(storage, row),
                restore::<O>(storage, row),
            ))
        } else {
            None
        }
    }
}

impl<
    A: Component,
    B: Component,
    C: Component,
    D: Component,
    E: Component,
    F: Component,
    G: Component,
    H: Component,
    I: Component,
    J: Component,
    K: Component,
    L: Component,
    M: Component,
    N: Component,
    O: Component,
> StorageAccessor for (A, B, C, D, E, F, G, H, I, J, K, L, M, N, O) {
    fn access(storage: &mut ComponentTable, row: RowIndex) -> (parts: Option<Vec<&mut [u8]>>) {
        let component_ids = [
            A::id(),
            B::id(),
            C::id(),
            D::id(),
            E::id(),
            F::id(),
            G::id(),
            H::id(),
            I::id(),
            J::id(),
            K::id(),
            L::id(),
            M::id(),
            N::id(),
            O::id(),
        ];
        assert(component_ids@ =~= crate::storage::tuples::column_ids(Self::spec_columns()));
        storage.access_row_raw(row, component_ids)
    }
}

impl<
    A: Component,
    B: Component,
    C: Component,
    D: Component,
    E: Component,
    F: Component,
    G: Component,
    H: Component,
    I: Component,
    J: Component,
    K: Component,
    L: Component,
    M: Component,
    N: Component,
    O: Component,
    P: Component,
> ComponentSet for (A, B, C, D, E, F, G, H, I, J, K, L, M, N, O, P) {
    open spec fn spec_columns() -> Seq<(ComponentId, Layout)> {
        seq![
            (A::spec_id(), crate::storage::component::layout_of::<A>()),
            (B::spec_id(), crate::storage::component::layout_of::<B>()),
            (C::spec_id(), crate::storage::component::layout_of::<C>()),
            (D::spec_id(), crate::storage::component::layout_of::<D>()),
            (E::spec_id(), crate::storage::component::layout_of::<E>()),
            (F::spec_id(), crate::storage::component::layout_of::<F>()),
            (G::spec_id(), crate::storage::component::layout_of::<G>()),
            (H::spec_id(), crate::storage::component::layout_of::<H>()),
            (I::spec_id(), crate::storage::component::layout_of::<I>()),
            (J::spec_id(), crate::storage::component::layout_of::<J>()),
            (K::spec_id(), crate::storage::component::layout_of::<K>()),
            (L::spec_id(), crate::storage::component::layout_of::<L>()),
            (M::spec_id(), crate::storage::component::layout_of::<M>()),
            (N::spec_id(), crate::storage::component::layout_of::<N>()),
            (O::spec_id(), crate::storage::component::layout_of::<O>()),
            (P::spec_id(), crate::storage::component::layout_of::<P>()),
        ]
    }

    open spec fn encoded_by(self, parts: Seq<Seq<u8>>) -> bool {
        &&& parts.len() == 16
        &&& self.0.encoded_by(parts[0])
        &&& self.1.encoded_by(parts[1])
        &&& self.2.encoded_by(parts[2])
        &&& self.3.encoded_by(parts[3])
        &&& self.4.encoded_by(parts[4])
        &&& self.5.encoded_by(parts[5])
        &&& self.6.encoded_by(parts[6])
        &&& self.7.encoded_by(parts[7])
        &&& self.8.encoded_by(parts[8])
        &&& self.9.encoded_by(parts[9])
        &&& self.10.encoded_by(parts[10])
        &&& self.11.encoded_by(parts[11])
        &&& self.12.encoded_by(parts[12])
        &&& self.13.encoded_by(parts[13])
        &&& self.14.encoded_by(parts[14])
        &&& self.15.encoded_by(parts[15])
    }

    proof fn lemma_encoded(a: Self, b: Self, parts: Seq<Seq<u8>>) {
        A::lemma_encoded(a.0, b.0);
        B::lemma_encoded(a.1, b.1);
        C::lemma_encoded(a.2, b.2);
        D::lemma_encoded(a.3, b.3);
        E::lemma_encoded(a.4, b.4);
        F::lemma_encoded(a.5, b.5);
        G::lemma_encoded(a.6, b.6);
        H::lemma_encoded(a.7, b.7);
        I::lemma_encoded(a.8, b.8);
        J::lemma_encoded(a.9, b.9);
        K::lemma_encoded(a.10, b.10);
        L::lemma_encoded(a.11, b.11);
        M::lemma_encoded(a.12, b.12);
        N::lemma_encoded(a.13, b.13);
        O::lemma_encoded(a.14, b.14);
        P::lemma_encoded(a.15, b.15);
    }

    fn components() -> (component_ids: Vec<ComponentId>) {
        vec![
            A::id(),
            B::id(),
            C::id(),
            D::id(),
            E::id(),
            F::id(),
            G::id(),
            H::id(),
            I::id(),
            J::id(),
            K::id(),
            L::id(),
            M::id(),
            N::id(),
            O::id(),
            P::id(),
        ]
    }

    fn columns() -> (columns: Vec<ColumnConstruction>) {
        vec![
            ColumnConstruction::new::<A>(),
            ColumnConstruction::new::<B>(),
            ColumnConstruction::new::<C>(),
            ColumnConstruction::new::<D>(),
            ColumnConstruction::new::<E>(),
            ColumnConstruction::new::<F>(),
            ColumnConstruction::new::<G>(),
            ColumnConstruction::new::<H>(),
            ColumnConstruction::new::<I>(),
            ColumnConstruction::new::<J>(),
            ColumnConstruction::new::<K>(),
            ColumnConstruction::new::<L>(),
            ColumnConstruction::new::<M>(),
            ColumnConstruction::new::<N>(),
            ColumnConstruction::new::<O>(),
            ColumnConstruction::new::<P>(),
        ]
    }
}

impl<
    A: Component,
    B: Component,
    C: Component,
    D: Component,
    E: Component,
    F: Component,
    G: Component,
    H: Component,
    I: Component,
    J: Component,
    K: Component,
    L: Component,
    M: Component,
    N: Component,
    O: Component,
    P: Component,
> StorageInsert for (A, B, C, D, E, F, G, H, I, J, K, L, M, N, O, P) {
    fn get_values(self) -> (values: Vec<(ComponentId, Vec<u8>)>) {
        let values = vec![
            (A::id(), self.0.into_bytes()),
            (B::id(), self.1.into_bytes()),
            (C::id(), self.2.into_bytes()),
            (D::id(), self.3.into_bytes()),
            (E::id(), self.4.into_bytes()),
            (F::id(), self.5.into_bytes()),
            (G::id(), self.6.into_bytes()),
            (H::id(), self.7.into_bytes()),
            (I::id(), self.8.into_bytes()),
            (J::id(), self.9.into_bytes()),
            (K::id(), self.10.into_bytes()),
            (L::id(), self.11.into_bytes()),
            (M::id(), self.12.into_bytes()),
            (N::id(), self.13.into_bytes()),
            (O::id(), self.14.into_bytes()),
            (P::id(), self.15.into_bytes()),
        ];
        assert(crate::storage::component::ids(crate::storage::component::images(values@))
            =~= crate::storage::tuples::column_ids(Self::spec_columns()));
        values
    }
}

impl<
    A: Component,
    B: Component,
    C: Component,
    D: Component,
    E: Component,
    F: Component,
    G: Component,
    H: Component,
    I: Component,
    J: Component,
    K: Component,
    L: Component,
    M: Component,
    N: Component,
    O: Component,
    P: Component,
> ReduceArgument for (A, B, C, D, E, F, G, H, I, J, K, L, M, N, O, P) {
    fn build(storage: &ComponentTable, row: RowIndex) -> (values: Option<Self>) {
        if storage.is_row_safe(row) {
            proof {
                let columns = Self::spec_columns();
                let held = storage.rows()[row.0];
                let parts = crate::storage::tuples::row_parts(columns, held);
                let v = choose|v: Self| #[trigger]
                    crate::storage::tuples::row_holds::<Self>(held, v);
                assert(columns[0].0 == A::spec_id());
                assert(v.0.encoded_by(parts[0]));
                assert(columns[1].0 == B::spec_id());
                assert(v.1.encoded_by(parts[1]));
                assert(columns[2].0 == C::spec_id());
                assert(v.2.encoded_by(parts[2]));
                assert(columns[3].0 == D::spec_id());
                assert(v.3.encoded_by(parts[3]));
                assert(columns[4].0 == E::spec_id());
                assert(v.4.encoded_by(parts[4]));
                assert(columns[5].0 == F::spec_id());
                assert(v.5.encoded_by(parts[5]));
                assert(columns[6].0 == G::spec_id());
                assert(v.6.encoded_by(parts[6]));
                assert(columns[7].0 == H::spec_id());
                assert(v.7.encoded_by(parts[7]));
                assert(columns[8].0 == I::spec_id());
                assert(v.8.encoded_by(parts[8]));
                assert(columns[9].0 == J::spec_id());
                assert(v.9.encoded_by(parts[9]));
                assert(columns[10].0 == K::spec_id());
                assert(v.10.encoded_by(parts[10]));
                assert(columns[11].0 == L::spec_id());
                assert(v.11.encoded_by(parts[11]));
                assert(columns[12].0 == M::spec_id());
                assert(v.12.encoded_by(parts[12]));
                assert(columns[13].0 == N::spec_id());
                assert(v.13.encoded_by(parts[13]));
                assert(columns[14].0 == O::spec_id());
                assert(v.14.encoded_by(parts[14]));
                assert(columns[15].0 == P::spec_id());
                assert(v.15.encoded_by(parts[15]));
            }
            Some((
                restore::<A>(storage, row),
                restore::<B>(storage, row),
                restore::<C>(storage, row),
                restore::<D>(storage, row),
                restore::<E>(storage, row),
                restore::<F>(storage, row),
                restore::<G>(storage, row),
                restore::<H>(storage, row),
                restore::<I>(storage, row),
                restore::<J>(storage, row),
                restore::<K>(storage, row),
                restore::<L>(storage, row),
                restore::<M>(storage, row),
                restore::<N>(storage, row),
                restore::<O>(storage, row),
                restore::<P>(storage, row),
            ))
        } else {
            None
        }
    }
}

impl<
    A: Component,
    B: Component,
    C: Component,
    D: Component,
    E: Component,
    F: Component,
    G: Component,
    H: Component,
    I: Component,
    J: Component,
    K: Component,
    L: Component,
    M: Component,
    N: Component,
    O: Component,
    P: Component,
> StorageAccessor for (A, B, C, D, E, F, G, H, I, J, K, L, M, N, O, P) {
    fn access(storage: &mut ComponentTable, row: RowIndex) -> (parts: Option<Vec<&mut [u8]>>) {
        let component_ids = [
            A::id(),
            B::id(),
            C::id(),
            D::id(),
            E::id(),
            F::id(),
            G::id(),
            H::id(),
            I::id(),
            J::id(),
            K::id(),
            L::id(),
            M::id(),
            N::id(),
            O::id(),
            P::id(),
        ];
        assert(component_ids@ =~= crate::storage::tuples::column_ids(Self::spec_columns()));
        storage.access_row_raw(row, component_ids)
    }
}

} // verus!
