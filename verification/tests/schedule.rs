use micro_ecs::arche_type::graph::{ArcheTypeGraph, Change};
use micro_ecs::schedule::collections::RequestSet;
use micro_ecs::schedule::error::{
    AddSystemError, ComponentConflictError, ResourceConflictError, StageConflictError,
    SystemParameterConflictError,
};
use micro_ecs::schedule::query::{IntoSystemParameterRequest, Query, With, Without};
use micro_ecs::schedule::request::{ComponentRequest, ResourceRequest, SystemParameterRequest};
use micro_ecs::schedule::stage::{Schedule, Stage};
use micro_ecs::schedule::system::{BoxedSystem, IntoSystem, System};
use micro_ecs::storage::component::{Component, UniqueId};
use micro_ecs::{ArcheTypeId, ComponentId};

struct A(u8);
struct B(u8);
struct C(u8);

impl UniqueId for A {
    fn id() -> ComponentId {
        1
    }
}

impl UniqueId for B {
    fn id() -> ComponentId {
        2
    }
}

impl UniqueId for C {
    fn id() -> ComponentId {
        3
    }
}

impl Component for A {
    fn lemma_encoded(_: Self, _: Self) {}

    fn into_bytes(self) -> Vec<u8> {
        vec![self.0]
    }

    fn from_bytes(bytes: &[u8]) -> Self {
        A(bytes[0])
    }
}

impl Component for B {
    fn lemma_encoded(_: Self, _: Self) {}

    fn into_bytes(self) -> Vec<u8> {
        vec![self.0]
    }

    fn from_bytes(bytes: &[u8]) -> Self {
        B(bytes[0])
    }
}

impl Component for C {
    fn lemma_encoded(_: Self, _: Self) {}

    fn into_bytes(self) -> Vec<u8> {
        vec![self.0]
    }

    fn from_bytes(bytes: &[u8]) -> Self {
        C(bytes[0])
    }
}

#[test]
fn system_query_validation() {
    fn empty_system() {}
    assert!(empty_system.into_system("empty_system").is_ok());

    fn simple_system(_: Query<(&A, &mut B), (Without<C>,)>) {}
    assert!(simple_system.into_system("simple_system").is_ok());

    fn two_non_conflicting_queries(
        _: Query<(&A, &mut B), (Without<C>,)>,
        _: Query<(&C,), (Without<A>, Without<B>)>,
    ) {
    }
    assert!(two_non_conflicting_queries
        .into_system("two_non_conflicting_queries")
        .is_ok());

    fn two_conflicting_queries(_: Query<(&A, &mut C), ()>, _: Query<(&C,), ()>) {}
    assert!(two_conflicting_queries
        .into_system("two_conflicting_queries")
        .is_err());

    fn two_conflict_avoiding_queries(
        _: Query<(&A, &mut C), ()>,
        _: Query<(&C,), (Without<A>,)>,
    ) {
    }
    assert!(two_conflict_avoiding_queries
        .into_system("two_conflict_avoiding_queries")
        .is_ok());

    fn two_conflict_avoiding_queries_using_only_filters(
        _: Query<(&mut C,), (With<A>,)>,
        _: Query<(&C,), (Without<A>,)>,
    ) {
    }
    assert!(two_conflict_avoiding_queries_using_only_filters
        .into_system("two_conflict_avoiding_queries_using_only_filters")
        .is_ok());

    fn multiple_immutable_references(_: Query<(&C, &B), ()>, _: Query<(&C, &A), ()>) {}
    assert!(multiple_immutable_references
        .into_system("multiple_immutable_references")
        .is_ok());

    fn multiple_mutable_references(_: Query<(&mut C, &B), ()>, _: Query<(&mut C, &A), ()>) {}
    assert!(multiple_mutable_references
        .into_system("multiple_mutable_references")
        .is_err());
}

#[test]
fn system_resource_validation() {
    fn empty_system() {}
    assert!(empty_system.into_system("empty_system").is_ok());

    fn non_conflicting_system(_: &A, _: &B) {}
    assert!(non_conflicting_system
        .into_system("non_conflicting_system")
        .is_ok());

    fn non_conflicting_system_mut(_: &mut A, _: &mut B) {}
    assert!(non_conflicting_system_mut
        .into_system("non_conflicting_system_mut")
        .is_ok());

    fn multiple_immutable_references(_: &A, _: &A) {}
    assert!(multiple_immutable_references
        .into_system("multiple_immutable_references")
        .is_ok());

    fn mutable_aliace(_: &mut A, _: &mut A) {}
    assert!(mutable_aliace.into_system("mutable_aliace").is_err());

    fn immutable_and_mutable(_: &mut A, _: &A) {}
    assert!(immutable_and_mutable
        .into_system("immutable_and_mutable")
        .is_err());
}

#[test]
fn build_stage() {
    fn mutable_resource(_: &mut A) {}

    let mut stage = Stage::default();
    assert!(stage.add_system(mutable_resource, "mutable_resource").is_ok());
    assert!(stage.add_system(mutable_resource, "mutable_resource").is_err());

    assert!(Stage::from_systems(vec![]).is_ok());
    assert!(
        Stage::from_systems(vec![mutable_resource.into_system("mutable_resource").unwrap()])
            .is_ok()
    );
    assert!(Stage::from_systems(vec![
        mutable_resource.into_system("mutable_resource").unwrap(),
        mutable_resource.into_system("mutable_resource").unwrap()
    ])
    .is_err());
}

#[test]
fn build_schedule() {
    let schedule = Schedule::new(vec![]);
    assert_eq!(schedule.stage_count(), 0);

    fn system_a() {}
    fn system_b() {}

    let schedule = Schedule::new(vec![Stage::from_systems(vec![
        system_a.into_system("system_a").unwrap(),
        system_b.into_system("system_b").unwrap(),
    ])
    .unwrap()]);

    assert_eq!(schedule.stage_count(), 1);
}

fn requests(list: &[ComponentRequest]) -> RequestSet {
    let mut requests = RequestSet::new();
    for request in list {
        requests.insert(*request);
    }
    requests
}

#[test]
fn request_sets_hold_what_was_inserted() {
    let list = [
        ComponentRequest::Component(5),
        ComponentRequest::ComponentMut(5),
        ComponentRequest::With(6),
        ComponentRequest::Without(7),
    ];
    let mut set = requests(&list);
    set.insert(ComponentRequest::With(6));
    for request in list {
        assert!(set.contains(request));
    }
    assert!(!set.contains(ComponentRequest::Without(6)));
    assert!(!set.contains(ComponentRequest::Component(6)));
    let all = set.iter();
    assert_eq!(all.len(), 4);
    for request in list {
        assert!(all.contains(&request));
    }
    let copy = set.clone();
    assert!(copy.same(&set));
    set.insert(ComponentRequest::With(8));
    assert!(!copy.same(&set));
    assert_eq!(RequestSet::new().iter().len(), 0);
}

#[test]
fn overlap_is_ruled_out_by_filters() {
    let check = SystemParameterRequest::check_for_component_overlap;
    let none = requests(&[]);
    let reads = requests(&[ComponentRequest::Component(1)]);
    let writes = requests(&[ComponentRequest::ComponentMut(1)]);
    let with = requests(&[ComponentRequest::With(1)]);
    let without = requests(&[ComponentRequest::Without(1)]);
    let without_other = requests(&[ComponentRequest::Without(2)]);
    for demanding in [&reads, &writes, &with] {
        assert!(!check(demanding, &without));
        assert!(!check(&without, demanding));
        assert!(check(demanding, &without_other));
        assert!(check(demanding, demanding));
        assert!(check(demanding, &none));
    }
    assert!(check(&without, &without));
}

#[test]
fn component_conflicts_are_told_apart() {
    let check = SystemParameterRequest::check_for_component_conflict;
    let reads = requests(&[ComponentRequest::Component(4)]);
    let writes = requests(&[ComponentRequest::ComponentMut(4)]);
    let both = requests(&[ComponentRequest::Component(4), ComponentRequest::ComponentMut(4)]);
    let elsewhere = requests(&[ComponentRequest::ComponentMut(4), ComponentRequest::Without(9)]);
    let there = requests(&[ComponentRequest::ComponentMut(4), ComponentRequest::With(9)]);
    assert_eq!(check(&reads, &reads), Ok(()));
    assert_eq!(
        check(&reads, &writes),
        Err(ComponentConflictError::MutableAndImmutableBorrow(4))
    );
    assert_eq!(
        check(&writes, &reads),
        Err(ComponentConflictError::MutableAndImmutableBorrow(4))
    );
    assert_eq!(check(&writes, &writes), Err(ComponentConflictError::MutableAliacing(4)));
    assert_eq!(check(&writes, &both), Err(ComponentConflictError::MutableAliacing(4)));
    assert_eq!(check(&elsewhere, &there), Ok(()));
}

#[test]
fn first_conflict_in_order_is_reported() {
    let theirs = requests(&[ComponentRequest::ComponentMut(1), ComponentRequest::Component(2)]);
    let check = SystemParameterRequest::check_requests_in_order;
    assert_eq!(
        check(
            &vec![
                ComponentRequest::With(1),
                ComponentRequest::Component(2),
                ComponentRequest::ComponentMut(2),
                ComponentRequest::ComponentMut(1),
            ],
            &theirs
        ),
        Err(ComponentConflictError::MutableAndImmutableBorrow(2))
    );
    assert_eq!(
        check(
            &vec![ComponentRequest::ComponentMut(1), ComponentRequest::ComponentMut(2)],
            &theirs
        ),
        Err(ComponentConflictError::MutableAliacing(1))
    );
    assert_eq!(check(&vec![], &theirs), Ok(()));
}

#[test]
fn resource_conflicts_are_told_apart() {
    let check = SystemParameterRequest::check_for_resource_conflict;
    let read = ResourceRequest::Resource(1);
    let write = ResourceRequest::ResourceMut(1);
    let write_other = ResourceRequest::ResourceMut(2);
    assert_eq!(check(&read, &read), Ok(()));
    assert_eq!(
        check(&read, &write),
        Err(ResourceConflictError::MutableAndImmutableBorrow(1))
    );
    assert_eq!(
        check(&write, &read),
        Err(ResourceConflictError::MutableAndImmutableBorrow(1))
    );
    assert_eq!(check(&write, &write), Err(ResourceConflictError::MutableAliacing(1)));
    assert_eq!(check(&write, &write_other), Ok(()));
    assert_eq!(check(&read, &write_other), Ok(()));
}

#[test]
fn queries_and_resources_do_not_conflict() {
    let query = SystemParameterRequest::Query(requests(&[ComponentRequest::ComponentMut(1)]));
    let resource = SystemParameterRequest::Resource(ResourceRequest::ResourceMut(1));
    assert_eq!(query.check_for_parameter_conflict(&resource), Ok(()));
    assert_eq!(resource.check_for_parameter_conflict(&query), Ok(()));
    assert_eq!(
        query.check_for_parameter_conflict(&query.clone()),
        Err(SystemParameterConflictError::Component(
            ComponentConflictError::MutableAliacing(1)
        ))
    );
    assert_eq!(
        resource.check_for_parameter_conflict(&resource.clone()),
        Err(SystemParameterConflictError::Resource(
            ResourceConflictError::MutableAliacing(1)
        ))
    );
    assert!(query == query.clone());
    assert!(resource == resource.clone());
    assert!(query != resource);
}

#[test]
fn query_collects_arguments_and_filters() {
    let request = <Query<(&A, &mut B), (With<C>, Without<A>)>>::into_system_parameter_request();
    assert!(
        request
            == SystemParameterRequest::Query(requests(&[
                ComponentRequest::Component(1),
                ComponentRequest::ComponentMut(2),
                ComponentRequest::With(3),
                ComponentRequest::Without(1),
            ]))
    );
}

#[test]
fn first_pair_of_parameters_in_conflict_is_reported() {
    fn system(_: &A, _: &mut B, _: &mut C, _: &mut C, _: &B) {}
    match system.into_system("system") {
        Err(error) => assert_eq!(
            error,
            SystemParameterConflictError::Resource(
                ResourceConflictError::MutableAndImmutableBorrow(2)
            )
        ),
        Ok(_) => panic!("the parameters are in conflict"),
    }
}

#[test]
fn sixteen_parameters_are_compared_with_each_other() {
    fn fine(
        _: &A,
        _: &A,
        _: &A,
        _: &A,
        _: &A,
        _: &A,
        _: &A,
        _: &A,
        _: &A,
        _: &A,
        _: &A,
        _: &A,
        _: &A,
        _: &A,
        _: &B,
        _: &mut C,
    ) {
    }
    let boxed = fine.into_system("fine").unwrap();
    assert_eq!(boxed.system.parameters().len(), 16);

    fn last_two(
        _: &A,
        _: &A,
        _: &A,
        _: &A,
        _: &A,
        _: &A,
        _: &A,
        _: &A,
        _: &A,
        _: &A,
        _: &A,
        _: &A,
        _: &A,
        _: &A,
        _: &C,
        _: &mut C,
    ) {
    }
    assert!(last_two.into_system("last_two").is_err());
}

#[test]
fn systems_keep_name_and_parameters() {
    fn system(_: &A, _: &mut B) {}
    let boxed = system.into_system("a system").unwrap();
    assert_eq!(boxed.system.name(), "a system");
    let parameters = boxed.system.parameters();
    assert!(parameters[0] == SystemParameterRequest::Resource(ResourceRequest::Resource(1)));
    assert!(parameters[1] == SystemParameterRequest::Resource(ResourceRequest::ResourceMut(2)));
}

#[test]
fn systems_are_the_same_by_name_and_parameters() {
    fn reads(_: &A) {}
    fn writes(_: &mut A) {}
    let a = reads.into_system("a").unwrap();
    assert!(a.same(&reads.into_system("a").unwrap()));
    assert!(!a.same(&reads.into_system("b").unwrap()));
    assert!(!a.same(&writes.into_system("a").unwrap()));

    let stage = Stage::from_systems(vec![reads.into_system("a").unwrap()]).unwrap();
    assert!(stage == Stage::from_systems(vec![reads.into_system("a").unwrap()]).unwrap());
    assert!(stage != Stage::from_systems(vec![writes.into_system("a").unwrap()]).unwrap());
    assert!(stage != Stage::default());
}

#[test]
fn conflicting_systems_are_named() {
    fn reads(_: &B, _: &A) {}
    fn writes(_: &C, _: &mut A) {}
    fn twice(_: &mut A, _: &mut A) {}
    let mut stage = Stage::default();
    assert!(stage.add_system(reads, "reads").is_ok());
    match stage.add_system(writes, "writes") {
        Err(AddSystemError::SystemConflict(StageConflictError {
            source,
            system_a,
            system_b,
        })) => {
            assert_eq!(
                source,
                SystemParameterConflictError::Resource(
                    ResourceConflictError::MutableAndImmutableBorrow(1)
                )
            );
            assert_eq!(system_a, "reads");
            assert_eq!(system_b, "writes");
        }
        _ => panic!("the systems are in conflict"),
    }
    match stage.add_system(twice, "twice") {
        Err(AddSystemError::ConvertToSystem(error)) => assert_eq!(
            error,
            SystemParameterConflictError::Resource(ResourceConflictError::MutableAliacing(1))
        ),
        _ => panic!("the parameters are in conflict"),
    }
    assert_eq!(stage.iter_systems().len(), 1);
    assert_eq!(stage.iter_systems()[0].system.name(), "reads");
}

struct Handmade;

impl System for Handmade {
    fn name(&self) -> &'static str {
        "handmade"
    }

    fn parameters(&self) -> &[SystemParameterRequest] {
        &[]
    }
}

#[test]
fn stages_are_gone_through_in_order() {
    fn reads(_: &A) {}
    let first = Stage::from_systems(vec![reads.into_system("first").unwrap()]).unwrap();
    let second = Stage::from_systems(vec![
        BoxedSystem {
            system: Box::new(Handmade),
        },
        reads.into_system("second").unwrap(),
    ])
    .unwrap();
    let schedule = Schedule::new(vec![first, second]);
    let mut names = Vec::new();
    schedule.iter_stages(|stage| {
        names.push(
            stage
                .iter_systems()
                .iter()
                .map(|boxed| boxed.system.name())
                .collect::<Vec<_>>(),
        );
    });
    assert_eq!(names, vec![vec!["first"], vec!["handmade", "second"]]);

    let mut calls = 0;
    Schedule::new(vec![]).iter_stages(|_stage| calls += 1);
    assert_eq!(calls, 0);
}

#[test]
fn a_state_goes_through_the_stages_in_order() {
    fn system() {}
    let stages = ["a", "b", "c"].map(|name| {
        Stage::from_systems(vec![system.into_system(name).unwrap()]).unwrap()
    });
    let schedule = Schedule::new(stages.into_iter().collect());
    assert_eq!(schedule.stage_count(), 3);
    let names = schedule.fold_stages(String::from("-"), |names, stage| {
        names + stage.iter_systems()[0].system.name()
    });
    assert_eq!(names, "-abc");
    assert_eq!(Schedule::new(vec![]).fold_stages(5, |number, _stage| number + 1), 5);
}

#[test]
fn queries_go_over_matching_arche_types() {
    let mut graph = ArcheTypeGraph::new();
    let empty = ArcheTypeId(0);
    let a = graph.arche_type_change::<(A,)>(empty, Change::Add);
    let ab = graph.arche_type_change::<(B,)>(a, Change::Add);
    let b = graph.arche_type_change::<(A,)>(ab, Change::Remove);
    let abc = graph.arche_type_change::<(C,)>(ab, Change::Add);
    assert_eq!((a.0, ab.0, b.0, abc.0), (1, 2, 3, 4));

    let find = |list: &[ComponentRequest]| {
        let mut found = SystemParameterRequest::iter_arche_types(
            &requests(list),
            &graph.arche_type_lookup,
        );
        found.sort_by_key(|id| id.0);
        found
    };
    assert_eq!(find(&[]), vec![empty, a, ab, b, abc]);
    assert_eq!(find(&[ComponentRequest::Component(1)]), vec![a, ab, abc]);
    assert_eq!(find(&[ComponentRequest::ComponentMut(2)]), vec![ab, b, abc]);
    assert_eq!(
        find(&[ComponentRequest::With(1), ComponentRequest::Without(3)]),
        vec![a, ab]
    );
    assert_eq!(find(&[ComponentRequest::Without(1), ComponentRequest::Without(2)]), vec![empty]);
    assert_eq!(find(&[ComponentRequest::Component(3), ComponentRequest::Without(1)]), vec![]);

    let selected = SystemParameterRequest::select_arche_types(
        &vec![ComponentRequest::With(2)],
        &vec![
            (vec![2, 9], ArcheTypeId(7)),
            (vec![9], ArcheTypeId(8)),
            (vec![2], ArcheTypeId(5)),
        ],
    );
    assert_eq!(selected, vec![ArcheTypeId(7), ArcheTypeId(5)]);

    let repeated = SystemParameterRequest::select_arche_types(
        &vec![],
        &vec![(vec![1], ArcheTypeId(4)), (vec![2], ArcheTypeId(4))],
    );
    assert_eq!(repeated, vec![ArcheTypeId(4), ArcheTypeId(4)]);
}
