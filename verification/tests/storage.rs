use micro_ecs::storage::column::{Column, RowIndex};
use micro_ecs::storage::component::{Component, UniqueId};
use micro_ecs::storage::layout::{array_layout, padding_needed_for, repeat_layout, Layout};
use micro_ecs::storage::table::{ComponentTable, INITIAL_ROW_ALLOCATION};
use micro_ecs::storage::tuples::ComponentSet;
use micro_ecs::ComponentId;
use std::sync::atomic::{AtomicBool, Ordering};
use std::sync::Arc;

/// The values that the bytes in a table own, by the number that the bytes are.
struct Owned(Vec<Option<Detector>>);

struct Detector(Arc<AtomicBool>);

impl Drop for Detector {
    fn drop(&mut self) {
        self.0.store(true, Ordering::SeqCst);
    }
}

impl Owned {
    fn keep(&mut self, detector: Detector) -> DropDetector {
        self.0.push(Some(detector));
        DropDetector(self.0.len() - 1)
    }

    fn drop_all(&mut self, dropped: Vec<(ComponentId, Vec<u8>)>) {
        for (component_id, bytes) in dropped {
            assert_eq!(component_id, DropDetector::id());
            let index = DropDetector::from_bytes(&bytes).0;
            assert!(self.0[index].take().is_some());
        }
    }
}

#[derive(Debug, PartialEq)]
struct DropDetector(usize);

impl UniqueId for DropDetector {
    fn id() -> ComponentId {
        11
    }
}

impl Component for DropDetector {
    fn lemma_encoded(_: Self, _: Self) {}

    fn into_bytes(self) -> Vec<u8> {
        self.0.to_ne_bytes().to_vec()
    }

    fn from_bytes(bytes: &[u8]) -> Self {
        DropDetector(usize::from_ne_bytes(bytes.try_into().unwrap()))
    }
}

#[derive(Debug, PartialEq)]
struct Small(u16);

impl UniqueId for Small {
    fn id() -> ComponentId {
        12
    }
}

impl Component for Small {
    fn lemma_encoded(_: Self, _: Self) {}

    fn into_bytes(self) -> Vec<u8> {
        self.0.to_ne_bytes().to_vec()
    }

    fn from_bytes(bytes: &[u8]) -> Self {
        Small(u16::from_ne_bytes(bytes.try_into().unwrap()))
    }
}

#[test]
fn table_manipulation() {
    let mut owned = Owned(Vec::new());

    // Start by testing our drop detector.
    let drop_marker = Arc::new(AtomicBool::new(false));
    let drop_detector = Detector(drop_marker.clone());

    assert!(!drop_marker.load(Ordering::SeqCst));

    drop(drop_detector);

    assert!(drop_marker.load(Ordering::SeqCst));

    let mut table =
        ComponentTable::empty_type().extend(<(DropDetector,)>::columns().remove(0));

    // Verify initial state.
    assert_eq!(table.next_row.0, 0);
    assert_eq!(table.allocated_rows, 0);
    assert_eq!(table.free_row_count(), 0);
    assert!(!table.is_row_safe(RowIndex(0)));
    assert!(!table.is_row_safe(RowIndex(1)));
    assert!(table.access_row::<(DropDetector,)>(RowIndex(0)).is_none());
    assert!(table.access_row::<(DropDetector,)>(RowIndex(1)).is_none());

    // Test allocation.
    let drop_marker = Arc::new(AtomicBool::new(false));
    let row = table.insert_row((owned.keep(Detector(drop_marker.clone())),));

    assert_eq!(table.next_row.0, 1);
    assert_eq!(table.allocated_rows, INITIAL_ROW_ALLOCATION);
    assert_eq!(table.free_row_count(), 0);
    assert!(table.is_row_safe(RowIndex(0)));
    assert!(!table.is_row_safe(RowIndex(1)));
    assert!(table.access_row::<(DropDetector,)>(RowIndex(0)).is_some());
    assert!(table.access_row::<(DropDetector,)>(RowIndex(1)).is_none());
    assert!(!drop_marker.load(Ordering::SeqCst));

    // Test drop.
    owned.drop_all(table.drop_row(row));
    assert_eq!(table.next_row.0, 1);
    assert_eq!(table.allocated_rows, INITIAL_ROW_ALLOCATION);
    assert_eq!(table.free_row_count(), 1);
    assert!(!table.is_row_safe(RowIndex(0)));
    assert!(!table.is_row_safe(RowIndex(1)));
    assert!(table.access_row::<(DropDetector,)>(RowIndex(0)).is_none());
    assert!(table.access_row::<(DropDetector,)>(RowIndex(1)).is_none());
    assert!(drop_marker.load(Ordering::SeqCst));

    // Test reallocation.
    let drop_markers = core::array::from_fn::<_, 5, _>(|_i| Arc::new(AtomicBool::new(false)));
    let rows = core::array::from_fn::<_, 5, _>(|i| {
        table.insert_row((owned.keep(Detector(drop_markers[i].clone())),))
    });
    assert_eq!(
        rows,
        [
            RowIndex(0),
            RowIndex(1),
            RowIndex(2),
            RowIndex(3),
            RowIndex(4),
        ]
    );

    assert_eq!(table.next_row.0, 5);
    assert_eq!(table.allocated_rows, INITIAL_ROW_ALLOCATION * 2);
    assert_eq!(table.free_row_count(), 0);
    for drop_marker in &drop_markers {
        assert!(!drop_marker.load(Ordering::SeqCst));
    }
}

#[test]
fn freed_rows_are_dropped_once() {
    let mut owned = Owned(Vec::new());
    let mut table = ComponentTable::empty_type().extend(<(DropDetector,)>::columns().remove(0));
    let marker = Arc::new(AtomicBool::new(false));
    let row = table.insert_row((owned.keep(Detector(marker.clone())),));
    assert_eq!(table.drop_row(row).len(), 1);
    assert_eq!(table.drop_row(row).len(), 0);
    assert_eq!(table.free_row_count(), 1);
}

#[test]
fn given_up_tables_hand_out_rows_in_use() {
    let mut table = ComponentTable::empty_type()
        .extend(<(DropDetector,)>::columns().remove(0))
        .extend(<(Small,)>::columns().remove(0));
    for i in 0..3 {
        table.insert_row((Small(i as u16), DropDetector(i + 100)));
    }
    table.drop_row(RowIndex(1));
    let mut dropped: Vec<(usize, ComponentId, Vec<u8>)> = table
        .drop()
        .into_iter()
        .map(|(row, component_id, bytes)| (row.0, component_id, bytes))
        .collect();
    dropped.sort();
    assert_eq!(
        dropped,
        vec![
            (0, 11, 100usize.to_ne_bytes().to_vec()),
            (0, 12, 0u16.to_ne_bytes().to_vec()),
            (2, 11, 102usize.to_ne_bytes().to_vec()),
            (2, 12, 2u16.to_ne_bytes().to_vec()),
        ]
    );
}

#[test]
fn rows_move_between_tables() {
    let mut small = ComponentTable::empty_type().extend(<(Small,)>::columns().remove(0));
    let mut both = small.extend(<(DropDetector,)>::columns().remove(0));
    let row = small.insert_row((Small(500),));
    let other = small.insert_row((Small(501),));

    let moved = small.extend_row_to_other(&mut both, row, (DropDetector(8),));
    assert!(!small.is_row_safe(row));
    assert!(both.is_row_safe(moved));
    let mut values = both.iter_row(moved);
    values.sort();
    assert_eq!(
        values,
        vec![
            (11, 8usize.to_ne_bytes().to_vec()),
            (12, 500u16.to_ne_bytes().to_vec())
        ]
    );

    let (back, (removed,)) = both.reduce_row_to_other::<(DropDetector,)>(&mut small, moved);
    assert_eq!(removed, DropDetector(8));
    assert_eq!(back, row);
    assert!(!both.is_row_safe(moved));
    assert_eq!(small.read_component(back, 12), &500u16.to_ne_bytes());
    assert_eq!(small.read_component(other, 12), &501u16.to_ne_bytes());
}

#[test]
fn rows_in_use_are_gone_over_in_order() {
    let mut table = ComponentTable::empty_type().extend(<(Small,)>::columns().remove(0));
    for i in 0..6 {
        table.insert_row((Small(i * 10),));
    }
    table.drop_row(RowIndex(0));
    table.drop_row(RowIndex(3));

    let mut seen = Vec::new();
    let mut from = RowIndex(0);
    while let Some((row, mut parts)) = table.iter::<(Small,)>(from) {
        seen.push((row.0, Small::from_bytes(&*parts[0]).0));
        parts[0].copy_from_slice(&(row.0 as u16).to_ne_bytes());
        from = RowIndex(row.0 + 1);
    }
    assert_eq!(seen, vec![(1, 10), (2, 20), (4, 40), (5, 50)]);
    assert_eq!(table.read_component(RowIndex(4), 12), &4u16.to_ne_bytes());
}

#[test]
fn raw_rows_ignore_components_that_are_not_stored() {
    let mut table = ComponentTable::empty_type().extend(<(Small,)>::columns().remove(0));
    let row = table.insert_row_raw(&vec![(99, vec![1, 2, 3]), (12, vec![7, 8])]);
    assert_eq!(table.iter_row(row), vec![(12, vec![7, 8])]);
    assert!(table.contains_component(12));
    assert!(!table.contains_component(99));
    assert_eq!(table.iter_component_ids(), vec![12]);
}

#[test]
fn a_given_free_row_is_reused() {
    let mut table = ComponentTable::empty_type().extend(<(Small,)>::columns().remove(0));
    for i in 0..3 {
        table.insert_row((Small(i),));
    }
    table.drop_row(RowIndex(0));
    table.drop_row(RowIndex(2));
    let row = table.insert_row_at(Some(2), &vec![(12, vec![5, 6])]);
    assert_eq!(row, RowIndex(2));
    assert_eq!(table.free_row_count(), 1);
    assert_eq!(table.next_row, RowIndex(3));
}

#[test]
fn several_components_are_accessed_at_once() {
    let mut table = ComponentTable::empty_type()
        .extend(<(DropDetector,)>::columns().remove(0))
        .extend(<(Small,)>::columns().remove(0));
    let first = table.insert_row((DropDetector(1), Small(2)));
    let second = table.insert_row((DropDetector(3), Small(4)));
    {
        let mut parts = table.access_row_raw(second, [12, 11]).unwrap();
        assert_eq!(&*parts[0], &4u16.to_ne_bytes());
        assert_eq!(&*parts[1], &3usize.to_ne_bytes());
        parts[0].copy_from_slice(&40u16.to_ne_bytes());
        parts[1].copy_from_slice(&30usize.to_ne_bytes());
    }
    assert_eq!(table.read_component(first, 12), &2u16.to_ne_bytes());
    assert_eq!(table.read_component(first, 11), &1usize.to_ne_bytes());
    assert_eq!(table.read_component(second, 12), &40u16.to_ne_bytes());
    assert_eq!(table.read_component(second, 11), &30usize.to_ne_bytes());
    assert!(table.access_row_raw(RowIndex(2), [12, 11]).is_none());
}

#[test]
fn tables_grow_and_shrink_by_columns() {
    let empty = ComponentTable::empty_type();
    assert_eq!(empty.iter_component_ids(), vec![]);
    let both = empty
        .extend(<(DropDetector,)>::columns().remove(0))
        .extend(<(Small,)>::columns().remove(0));
    let mut ids = both.iter_component_ids();
    ids.sort();
    assert_eq!(ids, vec![11, 12]);
    assert_eq!(both.reduce(11).iter_component_ids(), vec![12]);
    assert_eq!(both.reduce(77).iter_component_ids().len(), 2);
}

#[test]
fn columns_keep_elements_when_they_grow() {
    let mut column = Column::new::<u32>();
    assert_eq!(column.element_layout, Layout { size: 4, align: 4 });
    assert!(column.allocation.is_none());
    column.resize(2);
    column.set_element(RowIndex(0), &[1, 2, 3, 4]);
    column.set_element(RowIndex(1), &[5, 6, 7, 8]);
    column.resize(5);
    assert_eq!(column.read_element(RowIndex(0)), &[1, 2, 3, 4]);
    assert_eq!(column.read_element(RowIndex(1)), &[5, 6, 7, 8]);
    column.access_element_mut(RowIndex(1))[2] = 70;
    assert_eq!(column.drop_row(RowIndex(1)), vec![5, 6, 70, 8]);
    let other = Column::inherit_type(&column);
    assert_eq!(other.element_layout, column.element_layout);
    assert!(other.allocation.is_none());
}

#[test]
fn layouts_are_padded() {
    let layout = Layout { size: 5, align: 4 };
    assert_eq!(padding_needed_for(&layout, 4), 3);
    assert_eq!(padding_needed_for(&layout, 1), 0);
    assert_eq!(padding_needed_for(&layout, 8), 3);
    assert_eq!(padding_needed_for(&Layout { size: 8, align: 4 }, 8), 0);
    let (repeated, stride) = repeat_layout(&layout, 3).unwrap();
    assert_eq!((repeated.size, repeated.align, stride), (24, 4, 8));
    assert!(repeat_layout(&layout, usize::MAX).is_none());
    let array = array_layout(&Layout { size: 8, align: 4 }, 6).unwrap();
    assert_eq!((array.size, array.align), (48, 4));
    assert!(array_layout(&Layout { size: 8, align: 4 }, usize::MAX).is_none());
}

#[test]
fn memory_is_doubled() {
    let mut table = ComponentTable::empty_type().extend(<(Small,)>::columns().remove(0));
    let mut seen = vec![table.allocated_rows];
    for i in 0..40 {
        table.insert_row((Small(i),));
        if seen.last() != Some(&table.allocated_rows) {
            seen.push(table.allocated_rows);
        }
    }
    assert_eq!(seen, vec![0, 4, 8, 16, 32, 64]);
}

#[test]
fn an_inserted_row_is_read_back() {
    let mut table = ComponentTable::empty_type()
        .extend(<(DropDetector,)>::columns().remove(0))
        .extend(<(Small,)>::columns().remove(0));
    let inserted = vec![(12, vec![7, 8]), (11, 900usize.to_ne_bytes().to_vec())];
    let row = table.insert_row_raw(&inserted);
    let mut read = table.iter_row(row);
    read.sort();
    let mut expected = inserted.clone();
    expected.sort();
    assert_eq!(read, expected);
}
