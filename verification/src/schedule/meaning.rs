//! What requests, systems and stages mean, in terms of what is read and written.

use crate::arche_type::ArcheTypeId;
use crate::schedule::error::{
    ComponentConflictError, ResourceConflictError, StageConflictError, SystemParameterConflictError,
};
use crate::schedule::request::{
    ComponentRequest, Parameter, ResourceRequest, SystemParameterRequest,
};
use crate::schedule::stage::Stage;
use crate::schedule::system::BoxedSystem;
use crate::storage::ComponentId;
use vstd::prelude::*;

verus! {

/// Two parameters can be used at the same time exactly if they are of different kinds, or if they
/// are resources of which both are read or that are not the same, or if they are queries of which
/// one has a component that the other must not have, or of which none writes a component that
/// the other reads or writes.
pub proof fn lemma_compatible_by_accesses(ours: Parameter, theirs: Parameter)
    ensures
        crate::schedule::request::compatible(ours, theirs) <==> match (ours, theirs) {
            (Parameter::Query(x), Parameter::Query(y)) => {
                ||| exists|c: ComponentId| #[trigger]
                    y.contains(ComponentRequest::Without(c)) && {
                        ||| x.contains(ComponentRequest::Component(c))
                        ||| x.contains(ComponentRequest::ComponentMut(c))
                        ||| x.contains(ComponentRequest::With(c))
                    }
                ||| exists|c: ComponentId| #[trigger]
                    x.contains(ComponentRequest::Without(c)) && {
                        ||| y.contains(ComponentRequest::Component(c))
                        ||| y.contains(ComponentRequest::ComponentMut(c))
                        ||| y.contains(ComponentRequest::With(c))
                    }
                ||| forall|c: ComponentId|
                    #![trigger x.contains(ComponentRequest::ComponentMut(c))]
                    #![trigger y.contains(ComponentRequest::ComponentMut(c))]
                    {
                        &&& x.contains(ComponentRequest::ComponentMut(c)) ==> {
                            &&& !y.contains(ComponentRequest::ComponentMut(c))
                            &&& !y.contains(ComponentRequest::Component(c))
                        }
                        &&& y.contains(ComponentRequest::ComponentMut(c)) ==> {
                            &&& !x.contains(ComponentRequest::ComponentMut(c))
                            &&& !x.contains(ComponentRequest::Component(c))
                        }
                    }
            },
            (
                Parameter::Resource(ResourceRequest::Resource(_)),
                Parameter::Resource(ResourceRequest::Resource(_)),
            ) => true,
            (
                Parameter::Resource(ResourceRequest::Resource(a)),
                Parameter::Resource(ResourceRequest::ResourceMut(b)),
            ) => a != b,
            (
                Parameter::Resource(ResourceRequest::ResourceMut(a)),
                Parameter::Resource(ResourceRequest::Resource(b)),
            ) => a != b,
            (
                Parameter::Resource(ResourceRequest::ResourceMut(a)),
                Parameter::Resource(ResourceRequest::ResourceMut(b)),
            ) => a != b,
            (Parameter::Query(_), Parameter::Resource(_)) => true,
            (Parameter::Resource(_), Parameter::Query(_)) => true,
        },
{
    match (ours, theirs) {
        (Parameter::Query(x), Parameter::Query(y)) => {
            lemma_overlap_by_requests(x, y);
            if crate::schedule::request::overlaps(x, y) {
                if crate::schedule::request::components_compatible(x, y) {
                    assert forall|c: ComponentId|
                        #![trigger x.contains(ComponentRequest::ComponentMut(c))]
                        #![trigger y.contains(ComponentRequest::ComponentMut(c))]
                        {
                            &&& x.contains(ComponentRequest::ComponentMut(c)) ==> {
                                &&& !y.contains(ComponentRequest::ComponentMut(c))
                                &&& !y.contains(ComponentRequest::Component(c))
                            }
                            &&& y.contains(ComponentRequest::ComponentMut(c)) ==> {
                                &&& !x.contains(ComponentRequest::ComponentMut(c))
                                &&& !x.contains(ComponentRequest::Component(c))
                            }
                        } by {
                        let written = ComponentRequest::ComponentMut(c);
                        let read = ComponentRequest::Component(c);
                        assert(x.contains(written)
                            ==> crate::schedule::request::request_conflict(written, y) is None);
                        assert(x.contains(read)
                            ==> crate::schedule::request::request_conflict(read, y) is None);
                    }
                }
            }
        },
        _ => {},
    }
}

/// A query and a resource are never in conflict.
pub proof fn lemma_query_and_resource_are_compatible(
    requests: Set<ComponentRequest>,
    resource: ResourceRequest,
    error: SystemParameterConflictError,
)
    ensures
        crate::schedule::request::compatible(
            Parameter::Query(requests),
            Parameter::Resource(resource),
        ),
        crate::schedule::request::compatible(
            Parameter::Resource(resource),
            Parameter::Query(requests),
        ),
        !crate::schedule::request::conflicts_with(
            Parameter::Query(requests),
            Parameter::Resource(resource),
            error,
        ),
        !crate::schedule::request::conflicts_with(
            Parameter::Resource(resource),
            Parameter::Query(requests),
            error,
        ),
{
}

/// Two queries overlap exactly if none has a component that the other must not have.
pub proof fn lemma_overlap_by_requests(x: Set<ComponentRequest>, y: Set<ComponentRequest>)
    ensures
        crate::schedule::request::overlaps(x, y) <==> {
            &&& forall|c: ComponentId| #[trigger]
                y.contains(ComponentRequest::Without(c)) ==> {
                    &&& !x.contains(ComponentRequest::Component(c))
                    &&& !x.contains(ComponentRequest::ComponentMut(c))
                    &&& !x.contains(ComponentRequest::With(c))
                }
            &&& forall|c: ComponentId| #[trigger]
                x.contains(ComponentRequest::Without(c)) ==> {
                    &&& !y.contains(ComponentRequest::Component(c))
                    &&& !y.contains(ComponentRequest::ComponentMut(c))
                    &&& !y.contains(ComponentRequest::With(c))
                }
        },
{
    if crate::schedule::request::overlaps(x, y) {
        assert forall|c: ComponentId| #[trigger]
            y.contains(ComponentRequest::Without(c)) implies {
            &&& !x.contains(ComponentRequest::Component(c))
            &&& !x.contains(ComponentRequest::ComponentMut(c))
            &&& !x.contains(ComponentRequest::With(c))
        } by {
            assert(crate::schedule::request::excludes(y, c));
        }
        assert forall|c: ComponentId| #[trigger]
            x.contains(ComponentRequest::Without(c)) implies {
            &&& !y.contains(ComponentRequest::Component(c))
            &&& !y.contains(ComponentRequest::ComponentMut(c))
            &&& !y.contains(ComponentRequest::With(c))
        } by {
            assert(crate::schedule::request::excludes(x, c));
        }
    }
}

/// The conflict that is reported is one that there is. Aliasing means that both parameters write
/// the same thing, and else one of them reads what the other one writes. Of a component that our
/// query writes and their query both reads and writes, aliasing is reported.
pub proof fn lemma_error_by_accesses(
    ours: Parameter,
    theirs: Parameter,
    error: SystemParameterConflictError,
)
    ensures
        crate::schedule::request::conflicts_with(ours, theirs, error) <==> {
            &&& !crate::schedule::request::compatible(ours, theirs)
            &&& match error {
                SystemParameterConflictError::Component(
                    ComponentConflictError::MutableAliacing(c),
                ) => {
                    &&& ours is Query && theirs is Query
                    &&& ours->Query_0.contains(ComponentRequest::ComponentMut(c))
                    &&& theirs->Query_0.contains(ComponentRequest::ComponentMut(c))
                },
                SystemParameterConflictError::Component(
                    ComponentConflictError::MutableAndImmutableBorrow(c),
                ) => {
                    &&& ours is Query && theirs is Query
                    &&& {
                        ||| {
                            &&& ours->Query_0.contains(ComponentRequest::Component(c))
                            &&& theirs->Query_0.contains(ComponentRequest::ComponentMut(c))
                        }
                        ||| {
                            &&& ours->Query_0.contains(ComponentRequest::ComponentMut(c))
                            &&& theirs->Query_0.contains(ComponentRequest::Component(c))
                            &&& !theirs->Query_0.contains(ComponentRequest::ComponentMut(c))
                        }
                    }
                },
                SystemParameterConflictError::Resource(
                    ResourceConflictError::MutableAliacing(c),
                ) => {
                    &&& ours == Parameter::Resource(ResourceRequest::ResourceMut(c))
                    &&& theirs == Parameter::Resource(ResourceRequest::ResourceMut(c))
                },
                SystemParameterConflictError::Resource(
                    ResourceConflictError::MutableAndImmutableBorrow(c),
                ) => {
                    ||| {
                        &&& ours == Parameter::Resource(ResourceRequest::Resource(c))
                        &&& theirs == Parameter::Resource(ResourceRequest::ResourceMut(c))
                    }
                    ||| {
                        &&& ours == Parameter::Resource(ResourceRequest::ResourceMut(c))
                        &&& theirs == Parameter::Resource(ResourceRequest::Resource(c))
                    }
                },
            }
        },
{
    match (ours, theirs, error) {
        (
            Parameter::Query(x),
            Parameter::Query(y),
            SystemParameterConflictError::Component(error),
        ) => {
            let c = match error {
                ComponentConflictError::MutableAliacing(c) => c,
                ComponentConflictError::MutableAndImmutableBorrow(c) => c,
            };
            assert(x.contains(ComponentRequest::ComponentMut(c))
                && crate::schedule::request::request_conflict(
                ComponentRequest::ComponentMut(c),
                y,
            ) == Some(error) ==> crate::schedule::request::component_conflict(x, y, error)
                || !crate::schedule::request::overlaps(x, y));
            assert(x.contains(ComponentRequest::Component(c))
                && crate::schedule::request::request_conflict(
                ComponentRequest::Component(c),
                y,
            ) == Some(error) ==> crate::schedule::request::component_conflict(x, y, error)
                || !crate::schedule::request::overlaps(x, y));
            if crate::schedule::request::component_conflict(x, y, error) {
                let request = choose|request: ComponentRequest|
                    x.contains(request) && #[trigger] crate::schedule::request::request_conflict(
                        request,
                        y,
                    ) == Some(error);
                assert(!crate::schedule::request::components_compatible(x, y));
            }
        },
        _ => {},
    }
}

/// Checking queries or resources by themselves is checking them as parameters.
pub proof fn lemma_checks_agree(
    x: Set<ComponentRequest>,
    y: Set<ComponentRequest>,
    component_error: ComponentConflictError,
    a: ResourceRequest,
    b: ResourceRequest,
    resource_error: ResourceConflictError,
)
    ensures
        crate::schedule::request::components_compatible(x, y)
            <==> crate::schedule::request::compatible(Parameter::Query(x), Parameter::Query(y)),
        crate::schedule::request::component_conflict(x, y, component_error)
            <==> crate::schedule::request::conflicts_with(
            Parameter::Query(x),
            Parameter::Query(y),
            SystemParameterConflictError::Component(component_error),
        ),
        crate::schedule::request::resource_conflict(a, b) is None
            <==> crate::schedule::request::compatible(
            Parameter::Resource(a),
            Parameter::Resource(b),
        ),
        crate::schedule::request::resource_conflict(a, b) == Some(resource_error)
            <==> crate::schedule::request::conflicts_with(
            Parameter::Resource(a),
            Parameter::Resource(b),
            SystemParameterConflictError::Resource(resource_error),
        ),
{
}

/// What one request is in conflict with: reading with writing, and writing with writing before
/// reading. Filters are in conflict with nothing.
pub proof fn lemma_request_conflict_by_accesses(
    c: ComponentId,
    theirs: Set<ComponentRequest>,
)
    ensures
        ({
            let written = theirs.contains(ComponentRequest::ComponentMut(c));
            let read = theirs.contains(ComponentRequest::Component(c));
            let ours_read = crate::schedule::request::request_conflict(
                ComponentRequest::Component(c),
                theirs,
            );
            let ours_written = crate::schedule::request::request_conflict(
                ComponentRequest::ComponentMut(c),
                theirs,
            );
            &&& ours_read is None <==> !written
            &&& written ==> ours_read == Some(ComponentConflictError::MutableAndImmutableBorrow(c))
            &&& ours_written is None <==> !written && !read
            &&& written ==> ours_written == Some(ComponentConflictError::MutableAliacing(c))
            &&& !written && read ==> ours_written == Some(
                ComponentConflictError::MutableAndImmutableBorrow(c),
            )
        }),
        crate::schedule::request::request_conflict(ComponentRequest::With(c), theirs) is None,
        crate::schedule::request::request_conflict(ComponentRequest::Without(c), theirs) is None,
{
}

/// An entity is part of a query exactly if every request is met by its components.
pub proof fn lemma_selects_by_requests(
    requests: Set<ComponentRequest>,
    components: Set<ComponentId>,
)
    ensures
        crate::schedule::request::selects(requests, components) <==> forall|
            request: ComponentRequest,
        | #[trigger]
            requests.contains(request) ==> match request {
                ComponentRequest::Component(c) => components.contains(c),
                ComponentRequest::ComponentMut(c) => components.contains(c),
                ComponentRequest::With(c) => components.contains(c),
                ComponentRequest::Without(c) => !components.contains(c),
            },
{
    if crate::schedule::request::selects(requests, components) {
        assert forall|request: ComponentRequest| #[trigger]
            requests.contains(request) implies match request {
            ComponentRequest::Component(c) => components.contains(c),
            ComponentRequest::ComponentMut(c) => components.contains(c),
            ComponentRequest::With(c) => components.contains(c),
            ComponentRequest::Without(c) => !components.contains(c),
        } by {
            match request {
                ComponentRequest::Without(c) => {
                    assert(crate::schedule::request::excludes(requests, c));
                },
                ComponentRequest::Component(c)
                | ComponentRequest::ComponentMut(c)
                | ComponentRequest::With(c) => {
                    assert(crate::schedule::request::demands(requests, c));
                },
            }
        }
    }
}

/// Selecting from two lists in a row selects from the one and then from the other, and a list of
/// one arche type is selected if its components meet the requests.
pub proof fn lemma_selection_goes_list_by_list(
    requests: Set<ComponentRequest>,
    first: Seq<(Vec<ComponentId>, ArcheTypeId)>,
    second: Seq<(Vec<ComponentId>, ArcheTypeId)>,
    entry: (Vec<ComponentId>, ArcheTypeId),
)
    ensures
        crate::schedule::request::selected(requests, first + second)
            == crate::schedule::request::selected(requests, first)
            + crate::schedule::request::selected(requests, second),
        crate::schedule::request::selected(requests, seq![entry])
            == if crate::schedule::request::selects(requests, entry.0@.to_set()) {
            seq![entry.1]
        } else {
            seq![]
        },
    decreases second.len(),
{
    reveal_with_fuel(crate::schedule::request::selected, 2);
    assert(seq![entry].drop_last() =~= seq![]);
    assert(seq![].push(entry.1) =~= seq![entry.1]);
    if second.len() == 0 {
        assert(first + second =~= first);
        assert(crate::schedule::request::selected(requests, first) + seq![]
            =~= crate::schedule::request::selected(requests, first));
    } else {
        lemma_selection_goes_list_by_list(requests, first, second.drop_last(), entry);
        assert((first + second).drop_last() =~= first + second.drop_last());
        assert((first + second).last() == second.last());
    }
}

/// A list of a lookup has as many entries as there are keys, every key is there, and every entry
/// is that of its key.
pub proof fn lemma_lookup_is_listed(
    entries: Seq<(Vec<ComponentId>, ArcheTypeId)>,
    lookup: Map<Seq<ComponentId>, ArcheTypeId>,
)
    requires
        crate::schedule::request::lists_lookup(entries, lookup),
    ensures
        entries.map_values(
            |entry: (Vec<ComponentId>, ArcheTypeId)| entry.0@,
        ).no_duplicates(),
        entries.map_values(|entry: (Vec<ComponentId>, ArcheTypeId)| entry.0@).to_set()
            == lookup.dom(),
        forall|i: int|
            0 <= i < entries.len() ==> lookup[(#[trigger] entries[i]).0@] == entries[i].1,
{
    let keys = entries.map_values(|entry: (Vec<ComponentId>, ArcheTypeId)| entry.0@);
    assert forall|i: int, j: int|
        0 <= i < keys.len() && 0 <= j < keys.len() && i != j implies keys[i] != keys[j] by {
        assert(entries[i].0@ != entries[j].0@);
    }
    assert forall|key: Seq<ComponentId>| keys.to_set().contains(key) <==> lookup.dom().contains(
        key,
    ) by {
        if keys.contains(key) {
            let i = keys.index_of(key);
            assert(entries[i].0@ == key);
        }
        if lookup.contains_key(key) {
            let i = choose|i: int| 0 <= i < entries.len() && (#[trigger] entries[i]).0@ == key;
            assert(keys[i] == key);
        }
    }
    assert(keys.to_set() =~= lookup.dom());
}

/// What a request stands for: a query for the set of its requests, and a resource for itself.
pub proof fn lemma_request_stands_for(request: SystemParameterRequest)
    ensures
        match request {
            SystemParameterRequest::Query(requests) => request@ == Parameter::Query(requests@),
            SystemParameterRequest::Resource(resource) => request@ == Parameter::Resource(
                resource,
            ),
        },
{
}

/// The requests of a system, one for each parameter, in order.
pub proof fn lemma_parameters_of_each(requests: Seq<SystemParameterRequest>)
    ensures
        crate::schedule::system::parameters_of(requests).len() == requests.len(),
        forall|i: int|
            0 <= i < requests.len() ==> #[trigger] crate::schedule::system::parameters_of(
                requests,
            )[i] == requests[i]@,
{
}

/// A system is made of parameters exactly if every two of them can be used at the same time. Where
/// it is refused, the error is one of two parameters that are in conflict, and no two parameters
/// that come earlier are in conflict.
pub proof fn lemma_system_is_refused_for_conflicts(
    parameters: Seq<Parameter>,
    i: int,
    j: int,
    error: SystemParameterConflictError,
)
    ensures
        crate::schedule::system::all_compatible(parameters) <==> forall|a: int, b: int|
            0 <= a < b < parameters.len() ==> crate::schedule::request::compatible(
                #[trigger] parameters[a],
                #[trigger] parameters[b],
            ),
        crate::schedule::system::first_conflict(parameters, i, j, error) <==> {
            &&& 0 <= i < j < parameters.len()
            &&& crate::schedule::request::conflicts_with(parameters[i], parameters[j], error)
            &&& forall|a: int, b: int|
                0 <= a < b < parameters.len() && a < i ==> crate::schedule::request::compatible(
                    #[trigger] parameters[a],
                    #[trigger] parameters[b],
                )
            &&& forall|b: int|
                i < b < j ==> crate::schedule::request::compatible(
                    parameters[i],
                    #[trigger] parameters[b],
                )
        },
        crate::schedule::system::first_conflict(parameters, i, j, error)
            ==> !crate::schedule::system::all_compatible(parameters),
{
    if crate::schedule::system::first_conflict(parameters, i, j, error) {
        lemma_error_by_accesses(parameters[i], parameters[j], error);
    }
}

/// A system is let into a stage exactly if each of its parameters can be used at the same time as
/// each parameter of each system of the stage.
pub proof fn lemma_system_is_admitted(systems: Seq<BoxedSystem>, new: Seq<Parameter>)
    ensures
        crate::schedule::stage::admitted(crate::schedule::stage::parameter_lists(systems), new)
            <==> forall|i: int, a: int, b: int|
            0 <= i < systems.len() && 0 <= a < systems[i].system.spec_parameters().len() && 0 <= b
                < new.len() ==> crate::schedule::request::compatible(
                #[trigger] new[b],
                #[trigger] systems[i].system.spec_parameters()[a],
            ),
{
    let lists = crate::schedule::stage::parameter_lists(systems);
    assert(lists.len() == systems.len());
    assert(forall|i: int|
        0 <= i < systems.len() ==> #[trigger] lists[i] == systems[i].system.spec_parameters());
    if crate::schedule::stage::admitted(lists, new) {
        assert forall|i: int, a: int, b: int|
            0 <= i < systems.len() && 0 <= a < systems[i].system.spec_parameters().len() && 0 <= b
                < new.len() implies crate::schedule::request::compatible(
            #[trigger] new[b],
            #[trigger] systems[i].system.spec_parameters()[a],
        ) by {
            assert(crate::schedule::stage::systems_compatible(lists[i], new));
            assert(lists[i][a] == systems[i].system.spec_parameters()[a]);
        }
    } else {
        let i = choose|i: int|
            0 <= i < lists.len() && !crate::schedule::stage::systems_compatible(
                #[trigger] lists[i],
                new,
            );
        let (a, b) = choose|a: int, b: int|
            0 <= a < lists[i].len() && 0 <= b < new.len() && !crate::schedule::request::compatible(
                #[trigger] new[b],
                #[trigger] lists[i][a],
            );
        assert(lists[i][a] == systems[i].system.spec_parameters()[a]);
    }
}

/// Where a system is not let into a stage, the error has the names of the first system of the
/// stage that it is in conflict with and of itself, and the conflict is that of the first
/// parameters of the two that are in conflict: theirs are gone through one after the other, and
/// ours for each of them.
pub proof fn lemma_system_is_rejected(
    systems: Seq<BoxedSystem>,
    new: BoxedSystem,
    error: StageConflictError,
)
    requires
        crate::schedule::stage::rejected(systems, new, error),
    ensures
        exists|i: int, a: int, b: int|
            {
                &&& 0 <= i < systems.len()
                &&& error.system_a@ == systems[i].system.spec_name()
                &&& error.system_b@ == new.system.spec_name()
                &&& 0 <= a < systems[i].system.spec_parameters().len()
                &&& 0 <= b < new.system.spec_parameters().len()
                &&& crate::schedule::request::conflicts_with(
                    #[trigger] new.system.spec_parameters()[b],
                    #[trigger] systems[i].system.spec_parameters()[a],
                    error.source,
                )
                &&& forall|k: int, c: int, d: int|
                    0 <= k < systems.len() && 0 <= c < systems[k].system.spec_parameters().len()
                        && 0 <= d < new.system.spec_parameters().len() && (k < i || (k == i && (c
                        < a || (c == a && d < b)))) ==> crate::schedule::request::compatible(
                        #[trigger] new.system.spec_parameters()[d],
                        #[trigger] systems[k].system.spec_parameters()[c],
                    )
            },
        !crate::schedule::stage::admitted(
            crate::schedule::stage::parameter_lists(systems),
            new.system.spec_parameters(),
        ),
{
    let lists = crate::schedule::stage::parameter_lists(systems);
    let names = crate::schedule::stage::names(systems);
    let ours = new.system.spec_parameters();
    assert(lists.len() == systems.len());
    assert(names.len() == systems.len());
    let (i, a, b) = choose|i: int, a: int, b: int|
        {
            &&& 0 <= i < systems.len()
            &&& #[trigger] crate::schedule::stage::first_system_conflict(
                lists[i],
                ours,
                a,
                b,
                error.source,
            )
            &&& error.system_a@ == names[i]
            &&& error.system_b@ == new.system.spec_name()
            &&& crate::schedule::stage::admitted(lists.take(i), ours)
        };
    assert(lists[i] == systems[i].system.spec_parameters());
    assert(names[i] == systems[i].system.spec_name());
    let theirs = systems[i].system.spec_parameters();
    assert forall|k: int, c: int, d: int|
        0 <= k < systems.len() && 0 <= c < systems[k].system.spec_parameters().len() && 0 <= d
            < ours.len() && (k < i || (k == i && (c < a || (c == a && d < b)))) implies
        crate::schedule::request::compatible(
        #[trigger] ours[d],
        #[trigger] systems[k].system.spec_parameters()[c],
    ) by {
        assert(lists[k] == systems[k].system.spec_parameters());
        if k < i {
            assert(lists.take(i)[k] == lists[k]);
            assert(crate::schedule::stage::systems_compatible(lists.take(i)[k], ours));
        }
        assert(lists[k][c] == systems[k].system.spec_parameters()[c]);
    }
    assert(crate::schedule::request::conflicts_with(ours[b], theirs[a], error.source));
    lemma_error_by_accesses(ours[b], theirs[a], error.source);
    lemma_system_is_admitted(systems, ours);
}

/// The systems of a stage can be run in parallel: each parameter of one can be used at the same
/// time as each parameter of a system before it.
pub proof fn lemma_stage_is_free_of_conflicts(systems: Seq<BoxedSystem>)
    ensures
        crate::schedule::stage::conflict_free(crate::schedule::stage::parameter_lists(systems))
            <==> forall|i: int, j: int, a: int, b: int|
            0 <= i < j < systems.len() && 0 <= a < systems[i].system.spec_parameters().len() && 0
                <= b < systems[j].system.spec_parameters().len()
                ==> crate::schedule::request::compatible(
                #[trigger] systems[j].system.spec_parameters()[b],
                #[trigger] systems[i].system.spec_parameters()[a],
            ),
{
    let lists = crate::schedule::stage::parameter_lists(systems);
    assert(lists.len() == systems.len());
    assert(forall|i: int|
        0 <= i < systems.len() ==> #[trigger] lists[i] == systems[i].system.spec_parameters());
    if crate::schedule::stage::conflict_free(lists) {
        assert forall|i: int, j: int, a: int, b: int|
            0 <= i < j < systems.len() && 0 <= a < systems[i].system.spec_parameters().len() && 0
                <= b < systems[j].system.spec_parameters().len() implies
            crate::schedule::request::compatible(
            #[trigger] systems[j].system.spec_parameters()[b],
            #[trigger] systems[i].system.spec_parameters()[a],
        ) by {
            assert(crate::schedule::stage::systems_compatible(lists[i], lists[j]));
            assert(lists[i][a] == systems[i].system.spec_parameters()[a]);
            assert(lists[j][b] == systems[j].system.spec_parameters()[b]);
        }
    } else {
        let (i, j) = choose|i: int, j: int|
            #![trigger lists[i], lists[j]]
            0 <= i < j < lists.len() && !crate::schedule::stage::systems_compatible(
                lists[i],
                lists[j],
            );
        let (a, b) = choose|a: int, b: int|
            0 <= a < lists[i].len() && 0 <= b < lists[j].len()
                && !crate::schedule::request::compatible(
                #[trigger] lists[j][b],
                #[trigger] lists[i][a],
            );
        assert(lists[i][a] == systems[i].system.spec_parameters()[a]);
        assert(lists[j][b] == systems[j].system.spec_parameters()[b]);
    }
}

/// A stage is in order exactly if its systems are free of conflicts.
pub proof fn lemma_stage_in_order(stage: Stage)
    ensures
        stage.wf() <==> crate::schedule::stage::conflict_free(
            crate::schedule::stage::parameter_lists(stage.systems@),
        ),
{
}

/// Stages are the same exactly if they have systems of the same names and with the same
/// parameters, in the same order.
pub proof fn lemma_same_stages(a: Stage, b: Stage)
    ensures
        vstd::std_specs::cmp::PartialEqSpec::eq_spec(&a, &b) <==> {
            &&& a.systems@.len() == b.systems@.len()
            &&& forall|i: int|
                #![trigger a.systems@[i]]
                0 <= i < a.systems@.len() ==> {
                    &&& a.systems@[i].system.spec_name() == b.systems@[i].system.spec_name()
                    &&& a.systems@[i].system.spec_parameters()
                        == b.systems@[i].system.spec_parameters()
                }
        },
{
    let (ours, theirs) = (a.systems@, b.systems@);
    let (our_names, their_names) = (
        crate::schedule::stage::names(ours),
        crate::schedule::stage::names(theirs),
    );
    let (our_lists, their_lists) = (
        crate::schedule::stage::parameter_lists(ours),
        crate::schedule::stage::parameter_lists(theirs),
    );
    assert(our_names.len() == ours.len() && our_lists.len() == ours.len());
    assert(their_names.len() == theirs.len() && their_lists.len() == theirs.len());
    if vstd::std_specs::cmp::PartialEqSpec::eq_spec(&a, &b) {
        assert forall|i: int| #![trigger ours[i]] 0 <= i < ours.len() implies {
            &&& ours[i].system.spec_name() == theirs[i].system.spec_name()
            &&& ours[i].system.spec_parameters() == theirs[i].system.spec_parameters()
        } by {
            assert(our_names[i] == their_names[i]);
            assert(our_lists[i] == their_lists[i]);
        }
    }
    if ours.len() == theirs.len() && (forall|i: int|
        #![trigger ours[i]]
        0 <= i < ours.len() ==> {
            &&& ours[i].system.spec_name() == theirs[i].system.spec_name()
            &&& ours[i].system.spec_parameters() == theirs[i].system.spec_parameters()
        }) {
        assert forall|i: int| 0 <= i < ours.len() implies our_names[i] == their_names[i]
            && our_lists[i] == their_lists[i] by {
            assert(ours[i].system.spec_name() == theirs[i].system.spec_name());
        }
        assert(our_names =~= their_names);
        assert(our_lists =~= their_lists);
    }
}

/// Requests are the same exactly if they stand for the same.
pub proof fn lemma_same_requests(a: SystemParameterRequest, b: SystemParameterRequest)
    ensures
        vstd::std_specs::cmp::PartialEqSpec::eq_spec(&a, &b) <==> match (a, b) {
            (SystemParameterRequest::Query(x), SystemParameterRequest::Query(y)) => x@ == y@,
            (SystemParameterRequest::Resource(x), SystemParameterRequest::Resource(y)) => x == y,
            _ => false,
        },
{
}

/// The states of going over stages: each call gets the state that the one before it left behind
/// and the next stage.
pub proof fn lemma_states_follow_stages<S, F: Fn(S, &Stage) -> S>(
    stages: Seq<Stage>,
    step: F,
    states: Seq<S>,
    i: int,
)
    requires
        crate::schedule::stage::goes_through(stages, step, states),
        0 <= i < states.len() - 1,
    ensures
        i < stages.len(),
        call_ensures(step, (states[i], &stages[i]), states[i + 1]),
{
}

} // verus!
