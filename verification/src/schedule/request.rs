//! What systems request, and which requests conflict.

use crate::arche_type::collections::ArcheTypeLookup;
use crate::arche_type::ArcheTypeId;
use crate::schedule::collections::RequestSet;
use crate::schedule::error::{
    ComponentConflictError, ResourceConflictError, SystemParameterConflictError,
};
use crate::storage::ComponentId;
use vstd::prelude::*;

verus! {

/// A resource that a system reads or writes.
#[derive(Debug, Clone, Copy, Hash, Eq, PartialEq, Structural)]
pub enum ResourceRequest {
    Resource(ComponentId),
    ResourceMut(ComponentId),
}

/// What a query asks of the components of an entity.
#[derive(Debug, Clone, Copy, Hash, Eq, PartialEq, Structural)]
pub enum ComponentRequest {
    Component(ComponentId),
    ComponentMut(ComponentId),
    With(ComponentId),
    Without(ComponentId),
}

/// What a parameter of a system requests.
#[derive(Debug)]
pub enum SystemParameterRequest {
    Query(RequestSet),
    Resource(ResourceRequest),
}

/// What a parameter of a system requests, as a mathematical value.
pub enum Parameter {
    Query(Set<ComponentRequest>),
    Resource(ResourceRequest),
}

impl View for SystemParameterRequest {
    type V = Parameter;

    open spec fn view(&self) -> Parameter {
        match *self {
            SystemParameterRequest::Query(requests) => Parameter::Query(requests@),
            SystemParameterRequest::Resource(request) => Parameter::Resource(request),
        }
    }
}

/// The entity must have the component.
pub open spec fn demands(requests: Set<ComponentRequest>, c: ComponentId) -> bool {
    ||| requests.contains(ComponentRequest::Component(c))
    ||| requests.contains(ComponentRequest::ComponentMut(c))
    ||| requests.contains(ComponentRequest::With(c))
}

/// The entity must not have the component.
pub open spec fn excludes(requests: Set<ComponentRequest>, c: ComponentId) -> bool {
    requests.contains(ComponentRequest::Without(c))
}

/// Entities with the given components are part of the query.
pub open spec fn selects(requests: Set<ComponentRequest>, components: Set<ComponentId>) -> bool {
    forall|c: ComponentId|
        #![trigger components.contains(c)]
        #![trigger demands(requests, c)]
        #![trigger excludes(requests, c)]
        {
            &&& demands(requests, c) ==> components.contains(c)
            &&& excludes(requests, c) ==> !components.contains(c)
        }
}

/// No component is demanded by one query and excluded by the other.
pub open spec fn overlaps(ours: Set<ComponentRequest>, theirs: Set<ComponentRequest>) -> bool {
    forall|c: ComponentId|
        #![trigger demands(ours, c)]
        #![trigger demands(theirs, c)]
        #![trigger excludes(ours, c)]
        #![trigger excludes(theirs, c)]
        {
            &&& !(demands(ours, c) && excludes(theirs, c))
            &&& !(excludes(ours, c) && demands(theirs, c))
        }
}

/// The conflict of one request with those of another query, if the queries overlap.
pub open spec fn request_conflict(
    our_request: ComponentRequest,
    theirs: Set<ComponentRequest>,
) -> Option<ComponentConflictError> {
    match our_request {
        ComponentRequest::Component(c) => if theirs.contains(ComponentRequest::ComponentMut(c)) {
            Some(ComponentConflictError::MutableAndImmutableBorrow(c))
        } else {
            None
        },
        ComponentRequest::ComponentMut(c) => if theirs.contains(
            ComponentRequest::ComponentMut(c),
        ) {
            Some(ComponentConflictError::MutableAliacing(c))
        } else if theirs.contains(ComponentRequest::Component(c)) {
            Some(ComponentConflictError::MutableAndImmutableBorrow(c))
        } else {
            None
        },
        _ => None,
    }
}

/// The error is that of one of the requests, and the queries overlap.
pub open spec fn component_conflict(
    ours: Set<ComponentRequest>,
    theirs: Set<ComponentRequest>,
    error: ComponentConflictError,
) -> bool {
    &&& overlaps(ours, theirs)
    &&& exists|request: ComponentRequest|
        ours.contains(request) && #[trigger] request_conflict(request, theirs) == Some(error)
}

/// The queries do not overlap, or no request is in conflict.
pub open spec fn components_compatible(
    ours: Set<ComponentRequest>,
    theirs: Set<ComponentRequest>,
) -> bool {
    overlaps(ours, theirs) ==> forall|request: ComponentRequest|
        ours.contains(request) ==> #[trigger] request_conflict(request, theirs) is None
}

/// The conflict of two resource requests.
pub open spec fn resource_conflict(
    our_request: ResourceRequest,
    their_request: ResourceRequest,
) -> Option<ResourceConflictError> {
    match (our_request, their_request) {
        (ResourceRequest::Resource(_), ResourceRequest::Resource(_)) => None,
        (ResourceRequest::ResourceMut(ours), ResourceRequest::ResourceMut(theirs)) => if ours
            == theirs {
            Some(ResourceConflictError::MutableAliacing(ours))
        } else {
            None
        },
        (ResourceRequest::Resource(ours), ResourceRequest::ResourceMut(theirs)) => if ours
            == theirs {
            Some(ResourceConflictError::MutableAndImmutableBorrow(ours))
        } else {
            None
        },
        (ResourceRequest::ResourceMut(ours), ResourceRequest::Resource(theirs)) => if ours
            == theirs {
            Some(ResourceConflictError::MutableAndImmutableBorrow(ours))
        } else {
            None
        },
    }
}

/// Two parameters can be used at the same time.
pub open spec fn compatible(ours: Parameter, theirs: Parameter) -> bool {
    match (ours, theirs) {
        (Parameter::Query(ours), Parameter::Query(theirs)) => components_compatible(ours, theirs),
        (Parameter::Resource(ours), Parameter::Resource(theirs)) => resource_conflict(
            ours,
            theirs,
        ) is None,
        _ => true,
    }
}

/// The error is one that two parameters give.
pub open spec fn conflicts_with(
    ours: Parameter,
    theirs: Parameter,
    error: SystemParameterConflictError,
) -> bool {
    match (ours, theirs, error) {
        (
            Parameter::Query(ours),
            Parameter::Query(theirs),
            SystemParameterConflictError::Component(error),
        ) => component_conflict(ours, theirs, error),
        (
            Parameter::Resource(ours),
            Parameter::Resource(theirs),
            SystemParameterConflictError::Resource(error),
        ) => resource_conflict(ours, theirs) == Some(error),
        _ => false,
    }
}

impl SystemParameterRequest {
    /// Whether entities with the given components are part of the query.
    fn check_components(
        component_requests: &Vec<ComponentRequest>,
        components: &Vec<ComponentId>,
    ) -> (selected: bool)
        ensures
            selected == selects(component_requests@.to_set(), components@.to_set()),
    {
        let mut k: usize = 0;
        while k < component_requests.len()
            invariant
                k <= component_requests.len(),
                forall|i: int|
                    0 <= i < k ==> match #[trigger] component_requests@[i] {
                        ComponentRequest::Without(c) => !components@.contains(c),
                        ComponentRequest::Component(c) => components@.contains(c),
                        ComponentRequest::ComponentMut(c) => components@.contains(c),
                        ComponentRequest::With(c) => components@.contains(c),
                    },
            decreases component_requests.len() - k,
        {
            let request = component_requests[k];
            proof {
                assert(component_requests@.to_set().contains(request));
            }
            match request {
                ComponentRequest::Component(component_id)
                | ComponentRequest::ComponentMut(component_id)
                | ComponentRequest::With(component_id) => {
                    // Arche type must contain this component.
                    if !contains(components, component_id) {
                        assert(demands(component_requests@.to_set(), component_id));
                        return false;
                    }
                },
                ComponentRequest::Without(component_id) => {
                    // Arche type must not contain this component.
                    if contains(components, component_id) {
                        assert(excludes(component_requests@.to_set(), component_id));
                        return false;
                    }
                },
            }
            k += 1;
        }
        proof {
            let requests = component_requests@.to_set();
            assert forall|c: ComponentId| {
                &&& #[trigger] demands(requests, c) ==> components@.to_set().contains(c)
                &&& #[trigger] excludes(requests, c) ==> !components@.to_set().contains(c)
            } by {
                if requests.contains(ComponentRequest::Component(c)) {
                    let i = component_requests@.index_of(ComponentRequest::Component(c));
                    assert(component_requests@[i] == ComponentRequest::Component(c));
                }
                if requests.contains(ComponentRequest::ComponentMut(c)) {
                    let i = component_requests@.index_of(ComponentRequest::ComponentMut(c));
                    assert(component_requests@[i] == ComponentRequest::ComponentMut(c));
                }
                if requests.contains(ComponentRequest::With(c)) {
                    let i = component_requests@.index_of(ComponentRequest::With(c));
                    assert(component_requests@[i] == ComponentRequest::With(c));
                }
                if requests.contains(ComponentRequest::Without(c)) {
                    let i = component_requests@.index_of(ComponentRequest::Without(c));
                    assert(component_requests@[i] == ComponentRequest::Without(c));
                }
            }
        }
        true
    }
}

/// The numbers of the arche types, in the order of the list, whose entities are part of the query.
pub open spec fn selected(
    requests: Set<ComponentRequest>,
    entries: Seq<(Vec<ComponentId>, ArcheTypeId)>,
) -> Seq<ArcheTypeId>
    decreases entries.len(),
{
    if entries.len() == 0 {
        seq![]
    } else {
        let found = selected(requests, entries.drop_last());
        if selects(requests, entries.last().0@.to_set()) {
            found.push(entries.last().1)
        } else {
            found
        }
    }
}

/// The list has each key of the lookup once, with its arche type.
pub open spec fn lists_lookup(
    entries: Seq<(Vec<ComponentId>, ArcheTypeId)>,
    lookup: Map<Seq<ComponentId>, ArcheTypeId>,
) -> bool {
    &&& forall|i: int, j: int|
        #![trigger entries[i], entries[j]]
        0 <= i < j < entries.len() ==> entries[i].0@ != entries[j].0@
    &&& forall|i: int|
        #![trigger entries[i]]
        0 <= i < entries.len() ==> lookup.contains_key(entries[i].0@) && lookup[entries[i].0@]
            == entries[i].1
    &&& forall|key: Seq<ComponentId>| #[trigger]
        lookup.contains_key(key) ==> exists|i: int|
            0 <= i < entries.len() && (#[trigger] entries[i]).0@ == key
}

/// The numbers that are selected, and where they come from.
proof fn lemma_selected(
    requests: Set<ComponentRequest>,
    entries: Seq<(Vec<ComponentId>, ArcheTypeId)>,
)
    ensures
        forall|id: ArcheTypeId| #[trigger]
            selected(requests, entries).contains(id) <==> exists|i: int|
                0 <= i < entries.len() && (#[trigger] entries[i]).1 == id && selects(
                    requests,
                    entries[i].0@.to_set(),
                ),
        (forall|i: int, j: int|
            #![trigger entries[i], entries[j]]
            0 <= i < j < entries.len() ==> entries[i].1 != entries[j].1) ==> selected(
            requests,
            entries,
        ).no_duplicates(),
    decreases entries.len(),
{
    let ids = selected(requests, entries);
    if entries.len() > 0 {
        let rest = entries.drop_last();
        let last = entries.last();
        let found = selected(requests, rest);
        lemma_selected(requests, rest);
        assert forall|id: ArcheTypeId| #[trigger]
            ids.contains(id) <==> exists|i: int|
                0 <= i < entries.len() && (#[trigger] entries[i]).1 == id && selects(
                    requests,
                    entries[i].0@.to_set(),
                ) by {
            if ids.contains(id) {
                let k = ids.index_of(id);
                if k < found.len() {
                    assert(found[k] == id);
                    assert(found.contains(id));
                    let i = choose|i: int|
                        0 <= i < rest.len() && (#[trigger] rest[i]).1 == id && selects(
                            requests,
                            rest[i].0@.to_set(),
                        );
                    assert(entries[i] == rest[i]);
                } else {
                    assert(entries[entries.len() - 1] == last);
                }
            }
            if exists|i: int|
                0 <= i < entries.len() && (#[trigger] entries[i]).1 == id && selects(
                    requests,
                    entries[i].0@.to_set(),
                ) {
                let i = choose|i: int|
                    0 <= i < entries.len() && (#[trigger] entries[i]).1 == id && selects(
                        requests,
                        entries[i].0@.to_set(),
                    );
                if i < rest.len() {
                    assert(rest[i] == entries[i]);
                    assert(found.contains(id));
                    assert(ids[found.index_of(id)] == id);
                } else {
                    assert(ids[found.len() as int] == id);
                }
            }
        }
        if forall|i: int, j: int|
            #![trigger entries[i], entries[j]]
            0 <= i < j < entries.len() ==> entries[i].1 != entries[j].1 {
            assert forall|i: int, j: int|
                #![trigger rest[i], rest[j]]
                0 <= i < j < rest.len() implies rest[i].1 != rest[j].1 by {
                assert(entries[i] == rest[i] && entries[j] == rest[j]);
            }
            assert(!found.contains(last.1)) by {
                if found.contains(last.1) {
                    let i = choose|i: int|
                        0 <= i < rest.len() && (#[trigger] rest[i]).1 == last.1 && selects(
                            requests,
                            rest[i].0@.to_set(),
                        );
                    assert(entries[i] == rest[i]);
                    assert(entries[entries.len() - 1] == last);
                }
            }
        }
    }
}

impl SystemParameterRequest {
    /// The arche types in the list whose entities are part of the query.
    pub fn select_arche_types(
        component_requests: &Vec<ComponentRequest>,
        entries: &Vec<(Vec<ComponentId>, ArcheTypeId)>,
    ) -> (found: Vec<ArcheTypeId>)
        ensures
            found@ == selected(component_requests@.to_set(), entries@),
    {
        let mut found: Vec<ArcheTypeId> = Vec::new();
        let mut k: usize = 0;
        while k < entries.len()
            invariant
                k <= entries.len(),
                found@ == selected(component_requests@.to_set(), entries@.take(k as int)),
            decreases entries.len() - k,
        {
            assert(entries@.take(k + 1).drop_last() =~= entries@.take(k as int));
            if Self::check_components(component_requests, &entries[k].0) {
                found.push(entries[k].1);
            }
            k += 1;
        }
        assert(entries@.take(k as int) =~= entries@);
        found
    }

    /// The arche types whose entities are part of the query, one for each list of components in
    /// the lookup that the query selects. Their order is left open.
    pub fn iter_arche_types(
        component_requests: &RequestSet,
        arche_type_lookup: &ArcheTypeLookup,
    ) -> (found: Vec<ArcheTypeId>)
        ensures
            exists|entries: Seq<(Vec<ComponentId>, ArcheTypeId)>|
                {
                    &&& #[trigger] lists_lookup(entries, arche_type_lookup@)
                    &&& found@ == selected(component_requests@, entries)
                },
            forall|id: ArcheTypeId| #[trigger]
                found@.contains(id) <==> exists|key: Seq<ComponentId>| #[trigger]
                    arche_type_lookup@.contains_key(key) && arche_type_lookup@[key] == id
                        && selects(component_requests@, key.to_set()),
            arche_type_lookup@.is_injective() ==> found@.no_duplicates(),
    {
        let entries = arche_type_lookup.entries();
        let found = Self::select_arche_types(&component_requests.iter(), &entries);
        proof {
            assert(lists_lookup(entries@, arche_type_lookup@));
            lemma_selected(component_requests@, entries@);
            assert forall|id: ArcheTypeId| #[trigger]
                found@.contains(id) <==> exists|key: Seq<ComponentId>| #[trigger]
                    arche_type_lookup@.contains_key(key) && arche_type_lookup@[key] == id
                        && selects(component_requests@, key.to_set()) by {
                if found@.contains(id) {
                    let i = choose|i: int|
                        0 <= i < entries@.len() && (#[trigger] entries@[i]).1 == id && selects(
                            component_requests@,
                            entries@[i].0@.to_set(),
                        );
                    assert(arche_type_lookup@.contains_key(entries@[i].0@));
                }
                if exists|key: Seq<ComponentId>| #[trigger]
                    arche_type_lookup@.contains_key(key) && arche_type_lookup@[key] == id
                        && selects(component_requests@, key.to_set()) {
                    let key = choose|key: Seq<ComponentId>| #[trigger]
                        arche_type_lookup@.contains_key(key) && arche_type_lookup@[key] == id
                            && selects(component_requests@, key.to_set());
                    let i = choose|i: int|
                        0 <= i < entries@.len() && (#[trigger] entries@[i]).0@ == key;
                    assert(entries@[i].1 == id);
                }
            }
            if arche_type_lookup@.is_injective() {
                assert forall|i: int, j: int|
                    #![trigger entries@[i], entries@[j]]
                    0 <= i < j < entries@.len() implies entries@[i].1 != entries@[j].1 by {
                    assert(arche_type_lookup@.contains_key(entries@[i].0@));
                    assert(arche_type_lookup@.contains_key(entries@[j].0@));
                }
            }
        }
        found
    }

    /// Whether there is no component that one query demands and the other excludes.
    pub fn check_for_component_overlap(
        our_requests: &RequestSet,
        their_requests: &RequestSet,
    ) -> (overlap: bool)
        ensures
            overlap == overlaps(our_requests@, their_requests@),
    {
        let requests = our_requests.iter();
        let mut k: usize = 0;
        while k < requests.len()
            invariant
                k <= requests.len(),
                requests@.to_set() == our_requests@,
                forall|i: int|
                    0 <= i < k ==> match #[trigger] requests@[i] {
                        ComponentRequest::Without(c) => !demands(their_requests@, c),
                        ComponentRequest::Component(c) => !excludes(their_requests@, c),
                        ComponentRequest::ComponentMut(c) => !excludes(their_requests@, c),
                        ComponentRequest::With(c) => !excludes(their_requests@, c),
                    },
            decreases requests.len() - k,
        {
            let our_request = requests[k];
            assert(requests@.to_set().contains(our_request));
            match our_request {
                ComponentRequest::With(component_id)
                | ComponentRequest::Component(component_id)
                | ComponentRequest::ComponentMut(component_id) => {
                    if their_requests.contains(ComponentRequest::Without(component_id)) {
                        // Other query demands they not have this component, which means we can't
                        // overlap.
                        assert(demands(our_requests@, component_id));
                        return false;
                    }
                },
                ComponentRequest::Without(component_id) => {
                    if their_requests.contains(ComponentRequest::With(component_id))
                        || their_requests.contains(ComponentRequest::Component(component_id))
                        || their_requests.contains(ComponentRequest::ComponentMut(component_id)) {
                        // Other query demands they have this component, which means we can't
                        // overlap.
                        assert(excludes(our_requests@, component_id));
                        return false;
                    }
                },
            }
            k += 1;
        }
        proof {
            assert forall|c: ComponentId| {
                &&& !(#[trigger] demands(our_requests@, c) && excludes(their_requests@, c))
                &&& !(#[trigger] excludes(our_requests@, c) && demands(their_requests@, c))
            } by {
                let all = requests@;
                if our_requests@.contains(ComponentRequest::Component(c)) {
                    assert(all.to_set().contains(ComponentRequest::Component(c)));
                    assert(all[all.index_of(ComponentRequest::Component(c))]
                        == ComponentRequest::Component(c));
                }
                if our_requests@.contains(ComponentRequest::ComponentMut(c)) {
                    assert(all.to_set().contains(ComponentRequest::ComponentMut(c)));
                    assert(all[all.index_of(ComponentRequest::ComponentMut(c))]
                        == ComponentRequest::ComponentMut(c));
                }
                if our_requests@.contains(ComponentRequest::With(c)) {
                    assert(all.to_set().contains(ComponentRequest::With(c)));
                    assert(all[all.index_of(ComponentRequest::With(c))]
                        == ComponentRequest::With(c));
                }
                if our_requests@.contains(ComponentRequest::Without(c)) {
                    assert(all.to_set().contains(ComponentRequest::Without(c)));
                    assert(all[all.index_of(ComponentRequest::Without(c))]
                        == ComponentRequest::Without(c));
                }
            }
        }
        true
    }

    /// The conflict of the first of the requests that is in conflict.
    pub fn check_requests_in_order(
        our_requests: &Vec<ComponentRequest>,
        their_requests: &RequestSet,
    ) -> (checked: Result<(), ComponentConflictError>)
        ensures
            match checked {
                Ok(_) => forall|i: int|
                    0 <= i < our_requests@.len() ==> request_conflict(
                        #[trigger] our_requests@[i],
                        their_requests@,
                    ) is None,
                Err(error) => exists|i: int|
                    {
                        &&& 0 <= i < our_requests@.len()
                        &&& request_conflict(#[trigger] our_requests@[i], their_requests@) == Some(
                            error,
                        )
                        &&& forall|j: int|
                            0 <= j < i ==> request_conflict(
                                #[trigger] our_requests@[j],
                                their_requests@,
                            ) is None
                    },
            },
    {
        let mut k: usize = 0;
        while k < our_requests.len()
            invariant
                k <= our_requests.len(),
                forall|i: int|
                    0 <= i < k ==> request_conflict(
                        #[trigger] our_requests@[i],
                        their_requests@,
                    ) is None,
            decreases our_requests.len() - k,
        {
            let our_request = our_requests[k];
            assert(our_requests@[k as int] == our_request);
            match our_request {
                ComponentRequest::Component(component_id) => {
                    if their_requests.contains(ComponentRequest::ComponentMut(component_id)) {
                        // Mutable reference while we have an immutable reference.
                        return Err(ComponentConflictError::MutableAndImmutableBorrow(component_id));
                    }
                },
                ComponentRequest::ComponentMut(component_id) => {
                    if their_requests.contains(ComponentRequest::ComponentMut(component_id)) {
                        // We both have a mutable reference.
                        return Err(ComponentConflictError::MutableAliacing(component_id));
                    }
                    if their_requests.contains(ComponentRequest::Component(component_id)) {
                        // We have a mutable reference while they have an immutable reference.
                        return Err(ComponentConflictError::MutableAndImmutableBorrow(component_id));
                    }
                },
                _ => {},
            }
            k += 1;
        }
        Ok(())
    }

    /// Check for mutable aliasing, and for mutable and immutable borrows. Queries that cannot
    /// overlap are not in conflict. If there are several conflicts, which of them is reported is
    /// left open.
    pub fn check_for_component_conflict(
        our_requests: &RequestSet,
        their_requests: &RequestSet,
    ) -> (checked: Result<(), ComponentConflictError>)
        ensures
            checked is Ok <==> components_compatible(our_requests@, their_requests@),
            checked matches Err(error) ==> component_conflict(
                our_requests@,
                their_requests@,
                error,
            ),
    {
        // Do we have a `Without` or `With` filter to make sure we can't overlap?
        if !Self::check_for_component_overlap(our_requests, their_requests) {
            return Ok(());
        }
        let requests = our_requests.iter();
        let checked = Self::check_requests_in_order(&requests, their_requests);
        proof {
            match checked {
                Ok(_) => {
                    assert forall|request: ComponentRequest|
                        our_requests@.contains(request) implies #[trigger] request_conflict(
                        request,
                        their_requests@,
                    ) is None by {
                        assert(requests@.to_set().contains(request));
                        assert(requests@[requests@.index_of(request)] == request);
                    }
                },
                Err(error) => {
                    let i = choose|i: int|
                        {
                            &&& 0 <= i < requests@.len()
                            &&& request_conflict(#[trigger] requests@[i], their_requests@) == Some(
                                error,
                            )
                        };
                    assert(requests@.to_set().contains(requests@[i]));
                },
            }
        }
        checked
    }

    /// Check whether two resources can be used at the same time.
    pub fn check_for_resource_conflict(
        our_request: &ResourceRequest,
        their_request: &ResourceRequest,
    ) -> (checked: Result<(), ResourceConflictError>)
        ensures
            match checked {
                Ok(_) => resource_conflict(*our_request, *their_request) is None,
                Err(error) => resource_conflict(*our_request, *their_request) == Some(error),
            },
    {
        match (*our_request, *their_request) {
            // Both are immutable. Even if they're accessing the same component, that's not an
            // error.
            (ResourceRequest::Resource(_), ResourceRequest::Resource(_)) => Ok(()),
            (
                ResourceRequest::Resource(our_resource_id),
                ResourceRequest::ResourceMut(their_resource_id),
            )
            | (
                ResourceRequest::ResourceMut(our_resource_id),
                ResourceRequest::Resource(their_resource_id),
            ) => {
                if our_resource_id == their_resource_id {
                    Err(ResourceConflictError::MutableAndImmutableBorrow(our_resource_id))
                } else {
                    Ok(())
                }
            },
            (
                ResourceRequest::ResourceMut(our_resource_id),
                ResourceRequest::ResourceMut(their_resource_id),
            ) => {
                if our_resource_id == their_resource_id {
                    Err(ResourceConflictError::MutableAliacing(our_resource_id))
                } else {
                    Ok(())
                }
            },
        }
    }

    /// Check whether two parameters can be used at the same time. If there are several
    /// conflicts, which of them is reported is left open.
    pub fn check_for_parameter_conflict(&self, other: &Self) -> (checked: Result<
        (),
        SystemParameterConflictError,
    >)
        ensures
            checked is Ok <==> compatible(self@, other@),
            checked matches Err(error) ==> conflicts_with(self@, other@, error),
    {
        match (self, other) {
            (
                SystemParameterRequest::Query(our_requests),
                SystemParameterRequest::Query(their_requests),
            ) => match Self::check_for_component_conflict(our_requests, their_requests) {
                Ok(_) => Ok(()),
                Err(error) => Err(SystemParameterConflictError::from(error)),
            },
            (
                SystemParameterRequest::Resource(our_request),
                SystemParameterRequest::Resource(their_request),
            ) => match Self::check_for_resource_conflict(our_request, their_request) {
                Ok(_) => Ok(()),
                Err(error) => Err(SystemParameterConflictError::from(error)),
            },
            // If they are not the same kind of request, then they can't conflict.
            _ => Ok(()),
        }
    }
}

impl Clone for SystemParameterRequest {
    /// The same request.
    fn clone(&self) -> (copy: Self)
        ensures
            copy@ == self@,
    {
        match self {
            SystemParameterRequest::Query(requests) => SystemParameterRequest::Query(
                requests.clone(),
            ),
            SystemParameterRequest::Resource(request) => SystemParameterRequest::Resource(*request),
        }
    }
}

impl PartialEq for SystemParameterRequest {
    fn eq(&self, other: &Self) -> (same: bool) {
        match (self, other) {
            (SystemParameterRequest::Query(ours), SystemParameterRequest::Query(theirs)) => {
                ours.same(theirs)
            },
            (SystemParameterRequest::Resource(ours), SystemParameterRequest::Resource(theirs)) => {
                *ours == *theirs
            },
            _ => false,
        }
    }
}

impl vstd::std_specs::cmp::PartialEqSpecImpl for SystemParameterRequest {
    open spec fn obeys_eq_spec() -> bool {
        true
    }

    open spec fn eq_spec(&self, other: &Self) -> bool {
        self@ == other@
    }
}

impl Eq for SystemParameterRequest {

}

/// Whether the component is in the list.
fn contains(components: &Vec<ComponentId>, component_id: ComponentId) -> (found: bool)
    ensures
        found == components@.contains(component_id),
{
    let mut k: usize = 0;
    while k < components.len()
        invariant
            k <= components.len(),
            forall|i: int| 0 <= i < k ==> components@[i] != component_id,
        decreases components.len() - k,
    {
        if components[k] == component_id {
            return true;
        }
        k += 1;
    }
    false
}

} // verus!
