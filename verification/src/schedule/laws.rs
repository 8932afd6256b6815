//! What holds of requests and stages as a whole.

use crate::arche_type::graph::ArcheTypeGraph;
use crate::arche_type::ArcheTypeId;
use crate::schedule::error::SystemParameterConflictError;
use crate::schedule::request::{ComponentRequest, Parameter, ResourceRequest};
use crate::schedule::stage::Stage;
use crate::storage::ComponentId;
use vstd::prelude::*;

verus! {

/// An error is given for parameters that are in conflict, and only for those.
pub proof fn lemma_error_means_conflict(ours: Parameter, theirs: Parameter)
    ensures
        crate::schedule::request::compatible(ours, theirs) <==> forall|
            error: SystemParameterConflictError,
        | !#[trigger] crate::schedule::request::conflicts_with(ours, theirs, error),
{
    match (ours, theirs) {
        (Parameter::Query(x), Parameter::Query(y)) => {
            if !crate::schedule::request::compatible(ours, theirs) {
                let request = choose|request: ComponentRequest|
                    x.contains(request) && #[trigger] crate::schedule::request::request_conflict(
                        request,
                        y,
                    ) is Some;
                let error = crate::schedule::request::request_conflict(request, y)->0;
                assert(crate::schedule::request::request_conflict(request, y) == Some(error));
                assert(crate::schedule::request::component_conflict(x, y, error));
                assert(crate::schedule::request::conflicts_with(
                    ours,
                    theirs,
                    SystemParameterConflictError::Component(error),
                ));
            } else {
                assert forall|error: SystemParameterConflictError|
                    !#[trigger] crate::schedule::request::conflicts_with(ours, theirs, error) by {
                    if crate::schedule::request::conflicts_with(ours, theirs, error) {
                        let inner = error->Component_0;
                        let request = choose|request: ComponentRequest|
                            x.contains(request)
                                && #[trigger] crate::schedule::request::request_conflict(request, y)
                                == Some(inner);
                        assert(crate::schedule::request::request_conflict(request, y) is None);
                    }
                }
            }
        },
        (Parameter::Resource(x), Parameter::Resource(y)) => {
            if !crate::schedule::request::compatible(ours, theirs) {
                let error = crate::schedule::request::resource_conflict(x, y)->0;
                assert(crate::schedule::request::conflicts_with(
                    ours,
                    theirs,
                    SystemParameterConflictError::Resource(error),
                ));
            }
        },
        _ => {},
    }
}

/// It does not matter which of two parameters is checked against the other.
pub proof fn lemma_compatible_is_symmetric(a: Parameter, b: Parameter)
    ensures
        crate::schedule::request::compatible(a, b) == crate::schedule::request::compatible(b, a),
{
    if crate::schedule::request::compatible(a, b) {
        lemma_compatible_turned(a, b);
    }
    if crate::schedule::request::compatible(b, a) {
        lemma_compatible_turned(b, a);
    }
}

/// What can be used at the same time, can be so the other way round.
proof fn lemma_compatible_turned(a: Parameter, b: Parameter)
    requires
        crate::schedule::request::compatible(a, b),
    ensures
        crate::schedule::request::compatible(b, a),
{
    match (a, b) {
        (Parameter::Query(x), Parameter::Query(y)) => {
            if crate::schedule::request::overlaps(y, x) {
                assert(crate::schedule::request::overlaps(x, y));
                assert forall|request: ComponentRequest| y.contains(request) implies (
                #[trigger] crate::schedule::request::request_conflict(request, x)) is None by {
                    match request {
                        ComponentRequest::Component(c) => {
                            assert(crate::schedule::request::request_conflict(
                                ComponentRequest::ComponentMut(c),
                                y,
                            ) is Some);
                        },
                        ComponentRequest::ComponentMut(c) => {
                            assert(crate::schedule::request::request_conflict(
                                ComponentRequest::ComponentMut(c),
                                y,
                            ) is Some);
                            assert(crate::schedule::request::request_conflict(
                                ComponentRequest::Component(c),
                                y,
                            ) is Some);
                        },
                        _ => {},
                    }
                }
            }
        },
        _ => {},
    }
}

/// Queries that share an entity overlap.
pub proof fn lemma_shared_entity_means_overlap(
    ours: Set<ComponentRequest>,
    theirs: Set<ComponentRequest>,
    components: Set<ComponentId>,
)
    requires
        crate::schedule::request::selects(ours, components),
        crate::schedule::request::selects(theirs, components),
    ensures
        crate::schedule::request::overlaps(ours, theirs),
{
}

/// Queries that overlap can share an entity, if each of them can have one at all.
pub proof fn lemma_overlap_means_shared_entity(
    ours: Set<ComponentRequest>,
    theirs: Set<ComponentRequest>,
    our_components: Set<ComponentId>,
    their_components: Set<ComponentId>,
)
    requires
        crate::schedule::request::overlaps(ours, theirs),
        crate::schedule::request::selects(ours, our_components),
        crate::schedule::request::selects(theirs, their_components),
    ensures
        exists|components: Set<ComponentId>|
            {
                &&& #[trigger] crate::schedule::request::selects(ours, components)
                &&& crate::schedule::request::selects(theirs, components)
            },
{
    let components = Set::new(
        |c: ComponentId|
            crate::schedule::request::demands(ours, c) || crate::schedule::request::demands(
                theirs,
                c,
            ),
    );
    assert(crate::schedule::request::selects(ours, components));
    assert(crate::schedule::request::selects(theirs, components));
}

/// The query writes the component.
pub open spec fn writes(requests: Set<ComponentRequest>, c: ComponentId) -> bool {
    requests.contains(ComponentRequest::ComponentMut(c))
}

/// The query reads or writes the component.
pub open spec fn touches(requests: Set<ComponentRequest>, c: ComponentId) -> bool {
    ||| requests.contains(ComponentRequest::Component(c))
    ||| requests.contains(ComponentRequest::ComponentMut(c))
}

/// Of two queries that can be used at the same time, none writes a component of an entity that
/// the other one reads or writes.
pub proof fn lemma_compatible_queries_do_not_alias(
    ours: Set<ComponentRequest>,
    theirs: Set<ComponentRequest>,
    components: Set<ComponentId>,
    c: ComponentId,
)
    requires
        crate::schedule::request::compatible(Parameter::Query(ours), Parameter::Query(theirs)),
        crate::schedule::request::selects(ours, components),
        crate::schedule::request::selects(theirs, components),
    ensures
        !(writes(ours, c) && touches(theirs, c)),
        !(touches(ours, c) && writes(theirs, c)),
{
    lemma_shared_entity_means_overlap(ours, theirs, components);
    if ours.contains(ComponentRequest::Component(c)) {
        assert(crate::schedule::request::request_conflict(
            ComponentRequest::Component(c),
            theirs,
        ) is None);
    }
    if ours.contains(ComponentRequest::ComponentMut(c)) {
        assert(crate::schedule::request::request_conflict(
            ComponentRequest::ComponentMut(c),
            theirs,
        ) is None);
    }
}

/// The resource that is requested.
pub open spec fn resource_id(request: ResourceRequest) -> ComponentId {
    match request {
        ResourceRequest::Resource(c) => c,
        ResourceRequest::ResourceMut(c) => c,
    }
}

/// Resources are in conflict exactly if they are the same and one of them is written.
pub proof fn lemma_resource_conflict(ours: ResourceRequest, theirs: ResourceRequest)
    ensures
        crate::schedule::request::compatible(Parameter::Resource(ours), Parameter::Resource(theirs))
            <==> {
            ||| resource_id(ours) != resource_id(theirs)
            ||| ours is Resource && theirs is Resource
        },
{
}

/// Any two parameters of different systems of a stage can be used at the same time.
pub proof fn lemma_stage_is_safe(stage: Stage, i: int, j: int, a: int, b: int)
    requires
        stage.wf(),
        0 <= i < stage.systems@.len(),
        0 <= j < stage.systems@.len(),
        i != j,
        0 <= a < stage.systems@[i].system.spec_parameters().len(),
        0 <= b < stage.systems@[j].system.spec_parameters().len(),
    ensures
        crate::schedule::request::compatible(
            stage.systems@[i].system.spec_parameters()[a],
            stage.systems@[j].system.spec_parameters()[b],
        ),
{
    let lists = crate::schedule::stage::parameter_lists(stage.systems@);
    let ours = stage.systems@[i].system.spec_parameters();
    let theirs = stage.systems@[j].system.spec_parameters();
    assert(lists[i] == ours);
    assert(lists[j] == theirs);
    if i < j {
        assert(crate::schedule::stage::systems_compatible(lists[i], lists[j]));
        assert(crate::schedule::request::compatible(theirs[b], ours[a]));
        lemma_compatible_is_symmetric(theirs[b], ours[a]);
    } else {
        assert(crate::schedule::stage::systems_compatible(lists[j], lists[i]));
        assert(crate::schedule::request::compatible(ours[a], theirs[b]));
    }
}

/// Systems of a stage can be run in parallel: of the queries of two of them, none writes a
/// component of an entity that the other one reads or writes.
pub proof fn lemma_systems_of_a_stage_do_not_alias(
    stage: Stage,
    i: int,
    j: int,
    ours: Set<ComponentRequest>,
    theirs: Set<ComponentRequest>,
    components: Set<ComponentId>,
    c: ComponentId,
)
    requires
        stage.wf(),
        0 <= i < stage.systems@.len(),
        0 <= j < stage.systems@.len(),
        i != j,
        stage.systems@[i].system.spec_parameters().contains(Parameter::Query(ours)),
        stage.systems@[j].system.spec_parameters().contains(Parameter::Query(theirs)),
        crate::schedule::request::selects(ours, components),
        crate::schedule::request::selects(theirs, components),
    ensures
        !(writes(ours, c) && touches(theirs, c)),
        !(touches(ours, c) && writes(theirs, c)),
{
    let a = stage.systems@[i].system.spec_parameters().index_of(Parameter::Query(ours));
    let b = stage.systems@[j].system.spec_parameters().index_of(Parameter::Query(theirs));
    lemma_stage_is_safe(stage, i, j, a, b);
    lemma_compatible_queries_do_not_alias(ours, theirs, components, c);
}

/// A query goes over exactly the arche types whose components it selects, and over each of them
/// once.
pub proof fn lemma_query_goes_over_matching_arche_types(
    graph: ArcheTypeGraph,
    requests: Set<ComponentRequest>,
    id: ArcheTypeId,
)
    requires
        graph.wf(),
    ensures
        graph.arche_type_lookup@.is_injective(),
        (exists|key: Seq<ComponentId>| #[trigger]
            graph.arche_type_lookup@.contains_key(key) && graph.arche_type_lookup@[key] == id
                && crate::schedule::request::selects(requests, key.to_set())) <==> {
            &&& id.0 < graph.graph().len()
            &&& crate::schedule::request::selects(
                requests,
                graph.graph()[id.0 as int].layouts.dom(),
            )
        },
{
    let lookup = graph.arche_type_lookup@;
    assert(graph.graph().len() == graph.arche_types@.len());
    assert forall|k: Seq<ComponentId>, l: Seq<ComponentId>|
        k != l && lookup.dom().contains(k) && lookup.dom().contains(l) implies #[trigger] lookup[k]
        != #[trigger] lookup[l] by {
        if lookup[k] == lookup[l] {
            assert(lookup.contains_key(k) && lookup.contains_key(l));
            crate::arche_type::key::lemma_key_unique(
                k,
                l,
                graph.graph()[lookup[k].0 as int].layouts.dom(),
            );
        }
    }
    if id.0 < graph.graph().len() && crate::schedule::request::selects(
        requests,
        graph.graph()[id.0 as int].layouts.dom(),
    ) {
        assert(graph.listed(id.0 as int));
        let key = choose|key: Seq<ComponentId>| #[trigger]
            lookup.contains_key(key) && lookup[key].0 == id.0;
        assert(lookup[key] == id);
    }
}

/// Going over the stages of a schedule hands out each of them once, in the order in which they
/// were supplied: a step that notes down the stage that it is called with has noted down the
/// stages, behind what it had before.
pub proof fn lemma_stages_come_in_order<S, F: Fn(S, &Stage) -> S>(
    stages: Seq<Stage>,
    step: F,
    states: Seq<S>,
    noted: spec_fn(S) -> Seq<Stage>,
)
    requires
        crate::schedule::stage::goes_through(stages, step, states),
        states.len() == stages.len() + 1,
        forall|s: S, stage: &Stage, t: S| #[trigger]
            call_ensures(step, (s, stage), t) ==> noted(t) == noted(s).push(*stage),
    ensures
        noted(states.last()) == noted(states.first()) + stages,
{
    lemma_first_stages_come_in_order(stages, step, states, noted, stages.len() as int);
    assert(stages.take(stages.len() as int) =~= stages);
}

/// The same for some of the stages.
proof fn lemma_first_stages_come_in_order<S, F: Fn(S, &Stage) -> S>(
    stages: Seq<Stage>,
    step: F,
    states: Seq<S>,
    noted: spec_fn(S) -> Seq<Stage>,
    n: int,
)
    requires
        crate::schedule::stage::goes_through(stages, step, states),
        states.len() == stages.len() + 1,
        forall|s: S, stage: &Stage, t: S| #[trigger]
            call_ensures(step, (s, stage), t) ==> noted(t) == noted(s).push(*stage),
        0 <= n <= stages.len(),
    ensures
        noted(states[n]) == noted(states[0]) + stages.take(n),
    decreases n,
{
    if n == 0 {
        assert(noted(states[0]) + stages.take(0) =~= noted(states[0]));
    } else {
        lemma_first_stages_come_in_order(stages, step, states, noted, n - 1);
        let stage = &stages[n - 1];
        assert(call_ensures(step, (states[n - 1], stage), states[n]));
        assert(noted(states[0]) + stages.take(n) =~= (noted(states[0]) + stages.take(n - 1)).push(
            *stage,
        ));
    }
}

} // verus!
