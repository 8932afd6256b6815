use micro_ecs::bus;
use micro_ecs::storage::column::RowIndex;
use micro_ecs::storage::component::{Component, UniqueId};
use micro_ecs::{ArcheTypeId, ComponentId, EntityId, World, EMPTY_ARCHE_TYPE_ID};

#[derive(Debug, PartialEq)]
struct A(i32);

impl UniqueId for A {
    fn id() -> ComponentId {
        1
    }
}

impl Component for A {
    fn lemma_encoded(_: Self, _: Self) {}

    fn into_bytes(self) -> Vec<u8> {
        self.0.to_ne_bytes().to_vec()
    }

    fn from_bytes(bytes: &[u8]) -> Self {
        A(i32::from_ne_bytes(bytes.try_into().unwrap()))
    }
}

#[derive(Debug, PartialEq)]
struct B(f32);

impl UniqueId for B {
    fn id() -> ComponentId {
        2
    }
}

impl Component for B {
    fn lemma_encoded(_: Self, _: Self) {}

    fn into_bytes(self) -> Vec<u8> {
        self.0.to_ne_bytes().to_vec()
    }

    fn from_bytes(bytes: &[u8]) -> Self {
        B(f32::from_ne_bytes(bytes.try_into().unwrap()))
    }
}

#[derive(Debug, PartialEq)]
struct C([u8; 3]);

impl UniqueId for C {
    fn id() -> ComponentId {
        30
    }
}

impl Component for C {
    fn lemma_encoded(_: Self, _: Self) {}

    fn into_bytes(self) -> Vec<u8> {
        self.0.to_vec()
    }

    fn from_bytes(bytes: &[u8]) -> Self {
        C(bytes.try_into().unwrap())
    }
}

#[test]
fn create_entity() {
    let mut world = World::default();

    let entity_id = world.create_empty_entity();
    assert!(world.entity_exists(entity_id));
}

#[test]
fn insert_remove_components() {
    let mut world = World::default();

    let component_id_a: ComponentId = A::id();
    let component_id_b: ComponentId = B::id();

    const EMPTY_ARCHE_TYPE: ArcheTypeId = ArcheTypeId(EMPTY_ARCHE_TYPE_ID);
    const ARCHE_TYPE_A: ArcheTypeId = ArcheTypeId(1);
    const ARCHE_TYPE_B: ArcheTypeId = ArcheTypeId(3);
    const ARCHE_TYPE_AB: ArcheTypeId = ArcheTypeId(2);

    let entity_id = world.create_empty_entity();

    // Insert and remove a bunch of components. Make sure we keep our arche types right.
    let mut entity = world.access_entity(entity_id).unwrap();
    assert!(!entity.has_component::<A>());
    assert!(!entity.has_component::<B>());
    assert_eq!(entity.arche_type_id(), EMPTY_ARCHE_TYPE);

    entity.insert_components((A(42),));
    assert!(entity.has_component::<A>());
    assert!(!entity.has_component::<B>());
    assert_eq!(entity.arche_type_id(), ARCHE_TYPE_A);

    let (old_a,) = entity.remove_components::<(A,)>();
    assert_eq!(old_a.0, 42);
    assert!(!entity.has_component::<A>());
    assert!(!entity.has_component::<B>());
    assert_eq!(entity.arche_type_id(), EMPTY_ARCHE_TYPE);

    entity.insert_components((A(32), B(3.00)));
    assert!(entity.has_component::<A>());
    assert!(entity.has_component::<B>());
    assert_eq!(entity.arche_type_id(), ARCHE_TYPE_AB);

    let (old_a,) = entity.remove_components::<(A,)>();
    assert_eq!(old_a.0, 32);
    assert!(!entity.has_component::<A>());
    assert!(entity.has_component::<B>());
    assert_eq!(entity.arche_type_id(), ARCHE_TYPE_B);

    let (old_b,) = entity.remove_components::<(B,)>();
    assert_eq!(old_b.0, 3.00);
    assert!(!entity.has_component::<A>());
    assert!(!entity.has_component::<B>());
    assert_eq!(entity.arche_type_id(), EMPTY_ARCHE_TYPE);

    entity.insert_components((B(5.00), A(24)));
    assert!(entity.has_component::<A>());
    assert!(entity.has_component::<B>());
    assert_eq!(entity.arche_type_id(), ARCHE_TYPE_AB);

    {
        let parts = entity.access_components_mut::<(A, B)>();
        assert_eq!(A::from_bytes(&*parts[0]).0, 24);
        assert_eq!(B::from_bytes(&*parts[1]).0, 5.00);
    }

    let (a, b) = entity.remove_components::<(A, B)>();
    assert_eq!(a.0, 24);
    assert_eq!(b.0, 5.00);

    let mut dropped = Vec::new();
    let drop_result = world.drop_entity(entity_id, &mut dropped);
    assert!(drop_result);
    assert!(dropped.is_empty());

    // Let's verify the arche type graph.
    let arche_type = world
        .arche_types
        .arche_types
        .get(EMPTY_ARCHE_TYPE.0)
        .unwrap();
    assert_eq!(arche_type.get_added(component_id_a), Some(ARCHE_TYPE_A));
    assert_eq!(arche_type.get_added(component_id_b), Some(ARCHE_TYPE_B));
    assert_eq!(arche_type.count_neighbors(), (2, 0));

    let arche_type = world.arche_types.arche_types.get(ARCHE_TYPE_A.0).unwrap();
    assert_eq!(arche_type.get_added(component_id_b), Some(ARCHE_TYPE_AB));
    assert_eq!(arche_type.get_removed(component_id_a), Some(EMPTY_ARCHE_TYPE));
    assert_eq!(arche_type.count_neighbors(), (1, 1));

    let arche_type = world.arche_types.arche_types.get(ARCHE_TYPE_B.0).unwrap();
    assert_eq!(arche_type.get_added(component_id_a), Some(ARCHE_TYPE_AB));
    assert_eq!(arche_type.get_removed(component_id_b), Some(EMPTY_ARCHE_TYPE));
    assert_eq!(arche_type.count_neighbors(), (1, 1));
}

#[test]
fn component_id_size() {
    assert_eq!(
        core::mem::size_of::<ComponentId>(),
        core::mem::size_of::<bus::Width>()
    );
}

#[test]
fn entity_ids_are_never_reused() {
    let mut world = World::default();
    let mut dropped = Vec::new();

    let first = world.create_empty_entity();
    let second = world.create_empty_entity();
    assert_eq!(first.get(), 1);
    assert_eq!(second.get(), 2);
    assert_ne!(first, second);

    assert!(world.drop_entity(first, &mut dropped));
    assert!(!world.entity_exists(first));
    assert!(world.entity_exists(second));

    let third = world.create_empty_entity();
    assert_eq!(third.get(), 3);
    assert!(!world.entity_exists(first));
}

#[test]
fn missing_entities_are_told() {
    let mut world = World::default();
    let mut dropped = vec![(7, vec![1, 2])];
    let entity_id = world.create_empty_entity();

    assert!(world.drop_entity(entity_id, &mut dropped));
    assert!(!world.drop_entity(entity_id, &mut dropped));
    assert!(world.access_entity(entity_id).is_none());
    assert_eq!(dropped, vec![(7, vec![1, 2])]);
}

#[test]
fn dropping_an_entity_hands_out_its_components() {
    let mut world = World::default();
    let entity_id = world.create_empty_entity();
    world
        .access_entity(entity_id)
        .unwrap()
        .insert_components((A(9), C([1, 2, 3])));

    let mut dropped = vec![(99, vec![0])];
    assert!(world.drop_entity(entity_id, &mut dropped));
    assert_eq!(dropped[0], (99, vec![0]));
    let mut handed_out = dropped[1..].to_vec();
    handed_out.sort();
    assert_eq!(
        handed_out,
        vec![(1, 9i32.to_ne_bytes().to_vec()), (30, vec![1, 2, 3])]
    );
}

#[test]
fn entities_do_not_disturb_each_other() {
    let mut world = World::default();
    let ids: Vec<EntityId> = (0..20).map(|_| world.create_empty_entity()).collect();
    for (i, id) in ids.iter().enumerate() {
        let mut entity = world.access_entity(*id).unwrap();
        entity.insert_components((A(i as i32),));
        if i % 2 == 0 {
            entity.insert_components((B(i as f32),));
        }
        if i % 3 == 0 {
            entity.insert_components((C([i as u8; 3]),));
        }
    }

    let mut dropped = Vec::new();
    for id in ids.iter().skip(5).step_by(5) {
        assert!(world.drop_entity(*id, &mut dropped));
    }

    for (i, id) in ids.iter().enumerate() {
        if i >= 5 && i % 5 == 0 {
            assert!(!world.entity_exists(*id));
            continue;
        }
        let mut entity = world.access_entity(*id).unwrap();
        assert_eq!(entity.has_component::<B>(), i % 2 == 0);
        assert_eq!(entity.has_component::<C>(), i % 3 == 0);
        if i % 2 == 0 {
            assert_eq!(entity.remove_components::<(B,)>(), (B(i as f32),));
        }
        if i % 3 == 0 {
            assert_eq!(entity.remove_components::<(C,)>(), (C([i as u8; 3]),));
        }
        assert_eq!(entity.remove_components::<(A,)>(), (A(i as i32),));
        assert_eq!(entity.arche_type_id().0, EMPTY_ARCHE_TYPE_ID);
    }
}

#[test]
fn what_is_written_is_read() {
    let mut world = World::default();
    let first = world.create_empty_entity();
    let second = world.create_empty_entity();
    world
        .access_entity(first)
        .unwrap()
        .insert_components((A(1), C([4, 5, 6])));
    world
        .access_entity(second)
        .unwrap()
        .insert_components((C([7, 8, 9]), A(2)));

    {
        let mut entity = world.access_entity(first).unwrap();
        let mut parts = entity.access_components_mut::<(C, A)>();
        assert_eq!(parts.len(), 2);
        assert_eq!(&*parts[0], &[4, 5, 6]);
        parts[0][1] = 50;
        parts[1].copy_from_slice(&77i32.to_ne_bytes());
    }

    let mut entity = world.access_entity(first).unwrap();
    assert_eq!(entity.remove_components::<(A, C)>(), (A(77), C([4, 50, 6])));
    let mut entity = world.access_entity(second).unwrap();
    assert_eq!(entity.remove_components::<(A, C)>(), (A(2), C([7, 8, 9])));
}

#[test]
fn order_of_insertion_does_not_matter() {
    let mut world = World::default();
    let first = world.create_empty_entity();
    let second = world.create_empty_entity();
    let third = world.create_empty_entity();

    let mut entity = world.access_entity(first).unwrap();
    entity.insert_components((A(1), B(2.0), C([3; 3])));
    let arche_type_id = entity.arche_type_id();
    let table = &entity.arche_type().component_table;
    assert_eq!(table.next_row.0, 1);
    assert_eq!(table.allocated_rows, 4);
    assert_eq!(table.free_row_count(), 0);
    assert!(table.is_row_safe(RowIndex(0)));

    let mut entity = world.access_entity(second).unwrap();
    entity.insert_components((C([3; 3]), A(1), B(2.0)));
    assert_eq!(entity.arche_type_id(), arche_type_id);

    let mut entity = world.access_entity(third).unwrap();
    entity.insert_components((B(2.0),));
    entity.insert_components((C([3; 3]),));
    entity.insert_components((A(1),));
    assert_eq!(entity.arche_type_id(), arche_type_id);
}

#[test]
fn inserting_nothing_changes_nothing() {
    let mut world = World::default();
    let entity_id = world.create_empty_entity();
    let mut entity = world.access_entity(entity_id).unwrap();
    entity.insert_components((A(5),));
    let arche_type_id = entity.arche_type_id();
    entity.insert_components(());
    assert_eq!(entity.arche_type_id(), arche_type_id);
    assert_eq!(entity.remove_components::<(A,)>(), (A(5),));
}

#[test]
fn giving_up_a_world_hands_out_everything() {
    let mut world = World::default();
    let first = world.create_empty_entity();
    let second = world.create_empty_entity();
    let third = world.create_empty_entity();
    world.access_entity(first).unwrap().insert_components((A(1),));
    world.access_entity(second).unwrap().insert_components((A(2), C([0; 3])));
    world.access_entity(third).unwrap().insert_components((A(3),));
    world.access_entity(third).unwrap().remove_components::<(A,)>();

    let mut all: Vec<(ComponentId, Vec<u8>)> = world
        .drop()
        .into_iter()
        .flatten()
        .map(|(_row, component_id, bytes)| (component_id, bytes))
        .collect();
    all.sort();
    let mut expected = vec![
        (1, 1i32.to_ne_bytes().to_vec()),
        (1, 2i32.to_ne_bytes().to_vec()),
        (30, vec![0, 0, 0]),
    ];
    expected.sort();
    assert_eq!(all, expected);
}

#[test]
fn arche_types_are_found_by_their_sorted_components() {
    let mut world = World::default();
    let entity_id = world.create_empty_entity();
    let mut entity = world.access_entity(entity_id).unwrap();
    entity.insert_components((C([1; 3]), B(0.5), A(3)));
    let arche_type_id = entity.arche_type_id();

    assert_eq!(arche_type_id.0, 3);
    assert_eq!(world.arche_types.find_arche_type(&[1, 2, 30]), Some(arche_type_id));
    assert_eq!(world.arche_types.find_arche_type(&[30, 2, 1]), None);
    assert_eq!(world.arche_types.find_arche_type(&[]), Some(ArcheTypeId(0)));
    assert_eq!(world.arche_types.find_arche_type(&[30]), Some(ArcheTypeId(1)));
    assert_eq!(world.arche_types.find_arche_type(&[2, 30]), Some(ArcheTypeId(2)));
    assert_eq!(world.arche_types.find_arche_type(&[1]), None);
}

#[test]
fn numbers_are_components() {
    let mut world = World::default();
    let entity_id = world.create_empty_entity();
    let mut entity = world.access_entity(entity_id).unwrap();
    entity.insert_components((7u32, A(-1), 0x0102_0304_0506_0708u64));
    assert!(entity.has_component::<u32>());
    assert!(entity.has_component::<u64>());
    {
        let mut parts = entity.access_components_mut::<(u64, u32)>();
        assert_eq!(&*parts[0], &[8, 7, 6, 5, 4, 3, 2, 1]);
        assert_eq!(&*parts[1], &[7, 0, 0, 0]);
        parts[1][1] = 1;
    }
    assert_eq!(entity.remove_components::<(u32,)>(), (263,));
    assert_eq!(entity.remove_components::<(u64, A)>(), (0x0102_0304_0506_0708, A(-1)));
}

#[test]
fn removing_and_inserting_again_leads_back() {
    let mut world = World::default();
    let entity_id = world.create_empty_entity();
    let mut entity = world.access_entity(entity_id).unwrap();
    entity.insert_components((A(1), B(2.5), C([3; 3])));
    let arche_type_id = entity.arche_type_id();

    let removed = entity.remove_components::<(C, A)>();
    assert_eq!(removed, (C([3; 3]), A(1)));
    assert_ne!(entity.arche_type_id(), arche_type_id);
    entity.insert_components(removed);
    assert_eq!(entity.arche_type_id(), arche_type_id);
    assert_eq!(
        entity.remove_components::<(A, B, C)>(),
        (A(1), B(2.5), C([3; 3]))
    );
}

#[test]
fn known_arche_types_keep_their_numbers() {
    let mut world = World::default();
    let first = world.create_empty_entity();
    let second = world.create_empty_entity();
    let mut entity = world.access_entity(first).unwrap();
    entity.insert_components((A(1), B(2.5)));
    assert_eq!(entity.arche_type_id(), ArcheTypeId(2));

    let mut entity = world.access_entity(second).unwrap();
    entity.insert_components((C([0; 3]), B(0.0), A(0)));
    assert_eq!(entity.arche_type_id(), ArcheTypeId(5));
    assert_eq!(world.access_entity(first).unwrap().arche_type_id(), ArcheTypeId(2));
    assert_eq!(world.arche_types.find_arche_type(&[1]), Some(ArcheTypeId(1)));
    assert_eq!(world.arche_types.find_arche_type(&[1, 2]), Some(ArcheTypeId(2)));
    assert_eq!(world.arche_types.find_arche_type(&[30]), Some(ArcheTypeId(3)));
    assert_eq!(world.arche_types.find_arche_type(&[2, 30]), Some(ArcheTypeId(4)));
}
