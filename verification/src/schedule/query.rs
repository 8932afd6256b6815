//! Queries, and what they request of entities.

use crate::schedule::collections::RequestSet;
use crate::schedule::request::{
    ComponentRequest, Parameter, ResourceRequest, SystemParameterRequest,
};
use crate::storage::component::UniqueId;
use std::marker::PhantomData;
use vstd::prelude::*;

verus! {

/// A type that can be the parameter of a system.
pub trait IntoSystemParameterRequest {
    /// What the parameter requests.
    spec fn spec_parameter() -> Parameter;

    /// What the parameter requests.
    fn into_system_parameter_request() -> (request: SystemParameterRequest)
        ensures
            request@ == Self::spec_parameter(),
    ;
}

impl<'a, T: UniqueId> IntoSystemParameterRequest for &'a T {
    open spec fn spec_parameter() -> Parameter {
        Parameter::Resource(ResourceRequest::Resource(T::spec_id()))
    }

    fn into_system_parameter_request() -> (request: SystemParameterRequest) {
        SystemParameterRequest::Resource(ResourceRequest::Resource(T::id()))
    }
}

impl<'a, T: UniqueId> IntoSystemParameterRequest for &'a mut T {
    open spec fn spec_parameter() -> Parameter {
        Parameter::Resource(ResourceRequest::ResourceMut(T::spec_id()))
    }

    fn into_system_parameter_request() -> (request: SystemParameterRequest) {
        SystemParameterRequest::Resource(ResourceRequest::ResourceMut(T::id()))
    }
}

/// The entities that have the components of `Q`, and that the filters `F` let through.
pub struct Query<Q: QueryArguments, F: QueryFilters> {
    _query_arguments: PhantomData<Q>,
    _query_filters: PhantomData<F>,
}

impl<Q: QueryArguments, F: QueryFilters> IntoSystemParameterRequest for Query<Q, F> {
    open spec fn spec_parameter() -> Parameter {
        Parameter::Query((Q::spec_requests() + F::spec_requests()).to_set())
    }

    fn into_system_parameter_request() -> (request: SystemParameterRequest) {
        let mut requests = Q::iter();
        let mut filters = F::iter();
        requests.append(&mut filters);
        assert(requests@ =~= Q::spec_requests() + F::spec_requests());
        let mut component_requests = RequestSet::new();
        let mut k: usize = 0;
        while k < requests.len()
            invariant
                k <= requests.len(),
                forall|i: int| 0 <= i < k ==> component_requests@.contains(#[trigger] requests@[i]),
                forall|r: ComponentRequest| #[trigger]
                    component_requests@.contains(r) ==> requests@.contains(r),
            decreases requests.len() - k,
        {
            component_requests.insert(requests[k]);
            k += 1;
        }
        proof {
            assert forall|r: ComponentRequest| requests@.to_set().contains(r) implies
                component_requests@.contains(r) by {
                assert(requests@[requests@.index_of(r)] == r);
            }
            assert(component_requests@ =~= requests@.to_set());
        }
        SystemParameterRequest::Query(component_requests)
    }
}

/// A component that a query reads or writes.
pub trait QueryArgument {
    /// What is requested.
    spec fn spec_request() -> ComponentRequest;

    /// What is requested.
    fn into_component_request() -> (request: ComponentRequest)
        ensures
            request == Self::spec_request(),
    ;
}

impl<'a, T: UniqueId> QueryArgument for &'a T {
    open spec fn spec_request() -> ComponentRequest {
        ComponentRequest::Component(T::spec_id())
    }

    fn into_component_request() -> (request: ComponentRequest) {
        ComponentRequest::Component(T::id())
    }
}

impl<'a, T: UniqueId> QueryArgument for &'a mut T {
    open spec fn spec_request() -> ComponentRequest {
        ComponentRequest::ComponentMut(T::spec_id())
    }

    fn into_component_request() -> (request: ComponentRequest) {
        ComponentRequest::ComponentMut(T::id())
    }
}

/// The components that a query reads or writes.
pub trait QueryArguments {
    /// What is requested, in order.
    spec fn spec_requests() -> Seq<ComponentRequest>;

    /// What is requested, in order.
    fn iter() -> (requests: Vec<ComponentRequest>)
        ensures
            requests@ == Self::spec_requests(),
    ;
}

/// A condition on the entities of a query.
pub trait QueryFilter {
    /// What is requested.
    spec fn spec_request() -> ComponentRequest;

    /// What is requested.
    fn into_component_request() -> (request: ComponentRequest)
        ensures
            request == Self::spec_request(),
    ;
}

/// Only accepts entities without a particular component.
pub struct Without<T: UniqueId> {
    _type: PhantomData<T>,
}

impl<T: UniqueId> QueryFilter for Without<T> {
    open spec fn spec_request() -> ComponentRequest {
        ComponentRequest::Without(T::spec_id())
    }

    fn into_component_request() -> (request: ComponentRequest) {
        ComponentRequest::Without(T::id())
    }
}

/// Only accepts entities with a particular component.
pub struct With<T: UniqueId> {
    _type: PhantomData<T>,
}

impl<T: UniqueId> QueryFilter for With<T> {
    open spec fn spec_request() -> ComponentRequest {
        ComponentRequest::With(T::spec_id())
    }

    fn into_component_request() -> (request: ComponentRequest) {
        ComponentRequest::With(T::id())
    }
}

/// The conditions on the entities of a query.
pub trait QueryFilters {
    /// What is requested, in order.
    spec fn spec_requests() -> Seq<ComponentRequest>;

    /// What is requested, in order.
    fn iter() -> (requests: Vec<ComponentRequest>)
        ensures
            requests@ == Self::spec_requests(),
    ;
}

impl QueryArguments for () {
    open spec fn spec_requests() -> Seq<ComponentRequest> {
        seq![]
    }

    fn iter() -> (requests: Vec<ComponentRequest>) {
        Vec::new()
    }
}

impl QueryFilters for () {
    open spec fn spec_requests() -> Seq<ComponentRequest> {
        seq![]
    }

    fn iter() -> (requests: Vec<ComponentRequest>) {
        Vec::new()
    }
}

} // verus!
