//! What holds of queries and systems with several parts, part by part.

use crate::schedule::query::{
    IntoSystemParameterRequest, Query, QueryArgument, QueryArguments, QueryFilter, QueryFilters,
    With, Without,
};
use crate::schedule::request::{ComponentRequest, Parameter, ResourceRequest};
use crate::schedule::system::SystemParameters;
use crate::storage::component::UniqueId;
use vstd::prelude::*;

verus! {

/// A reference as an argument of a query reads the component, and a mutable one writes it.
pub proof fn lemma_references_as_arguments<'a, T: UniqueId>()
    ensures
        <&'a T as QueryArgument>::spec_request() == ComponentRequest::Component(T::spec_id()),
        <&'a mut T as QueryArgument>::spec_request() == ComponentRequest::ComponentMut(
            T::spec_id(),
        ),
{
}

/// The filters of a query ask for a component to be there, or not to be there.
pub proof fn lemma_filters<T: UniqueId>()
    ensures
        <With<T> as QueryFilter>::spec_request() == ComponentRequest::With(T::spec_id()),
        <Without<T> as QueryFilter>::spec_request() == ComponentRequest::Without(T::spec_id()),
{
}

/// A reference as a parameter of a system reads the resource, and a mutable one writes it.
pub proof fn lemma_references_as_parameters<'a, T: UniqueId>()
    ensures
        <&'a T as IntoSystemParameterRequest>::spec_parameter() == Parameter::Resource(
            ResourceRequest::Resource(T::spec_id()),
        ),
        <&'a mut T as IntoSystemParameterRequest>::spec_parameter() == Parameter::Resource(
            ResourceRequest::ResourceMut(T::spec_id()),
        ),
{
}

/// A query requests what its arguments and its filters request, and nothing else.
pub proof fn lemma_query_requests<Q: QueryArguments, F: QueryFilters>()
    ensures
        <Query<Q, F> as IntoSystemParameterRequest>::spec_parameter() is Query,
        forall|i: int|
            0 <= i < Q::spec_requests().len() ==> <Query<
                Q,
                F,
            > as IntoSystemParameterRequest>::spec_parameter()->Query_0.contains(
                #[trigger] Q::spec_requests()[i],
            ),
        forall|i: int|
            0 <= i < F::spec_requests().len() ==> <Query<
                Q,
                F,
            > as IntoSystemParameterRequest>::spec_parameter()->Query_0.contains(
                #[trigger] F::spec_requests()[i],
            ),
        forall|request: ComponentRequest| #[trigger]
            <Query<Q, F> as IntoSystemParameterRequest>::spec_parameter()->Query_0.contains(request)
                ==> {
                ||| exists|i: int|
                    0 <= i < Q::spec_requests().len() && #[trigger] Q::spec_requests()[i] == request
                ||| exists|i: int|
                    0 <= i < F::spec_requests().len() && #[trigger] F::spec_requests()[i] == request
            },
{
    let all = Q::spec_requests() + F::spec_requests();
    assert forall|i: int| 0 <= i < Q::spec_requests().len() implies all.to_set().contains(
        #[trigger] Q::spec_requests()[i],
    ) by {
        assert(all[i] == Q::spec_requests()[i]);
    }
    assert forall|i: int| 0 <= i < F::spec_requests().len() implies all.to_set().contains(
        #[trigger] F::spec_requests()[i],
    ) by {
        assert(all[Q::spec_requests().len() + i] == F::spec_requests()[i]);
    }
    assert forall|request: ComponentRequest| #[trigger] all.to_set().contains(request) implies {
        ||| exists|i: int|
            0 <= i < Q::spec_requests().len() && #[trigger] Q::spec_requests()[i] == request
        ||| exists|i: int|
            0 <= i < F::spec_requests().len() && #[trigger] F::spec_requests()[i] == request
    } by {
        let i = all.index_of(request);
        if i < Q::spec_requests().len() {
            assert(Q::spec_requests()[i] == request);
        } else {
            assert(F::spec_requests()[i - Q::spec_requests().len()] == request);
        }
    }
}

/// Queries without arguments or filters request nothing on their account, and a system without
/// parameters requests nothing at all.
pub proof fn lemma_no_parts()
    ensures
        <() as QueryArguments>::spec_requests().len() == 0,
        <() as QueryFilters>::spec_requests().len() == 0,
        <() as SystemParameters>::spec_parameters().len() == 0,
{
}

/// The one argument of a query: it has the request of that one.
pub proof fn lemma_one_argument<A: QueryArgument>()
    ensures
        <(A,) as QueryArguments>::spec_requests().len() == 1,
        <(A,) as QueryArguments>::spec_requests()[0] == A::spec_request(),
{
}

/// The one filter of a query: it has the request of that one.
pub proof fn lemma_one_filter<A: QueryFilter>()
    ensures
        <(A,) as QueryFilters>::spec_requests().len() == 1,
        <(A,) as QueryFilters>::spec_requests()[0] == A::spec_request(),
{
}

/// The one parameter of a system: it has the request of that one.
pub proof fn lemma_one_parameter<A: IntoSystemParameterRequest>()
    ensures
        <(A,) as SystemParameters>::spec_parameters().len() == 1,
        <(A,) as SystemParameters>::spec_parameters()[0] == A::spec_parameter(),
{
}

/// The two arguments of a query: there is a request for each of them, in order.
pub proof fn lemma_two_arguments<A: QueryArgument, B: QueryArgument>()
    ensures
        <(A, B) as QueryArguments>::spec_requests().len() == 2,
        <(A, B) as QueryArguments>::spec_requests()[0] == A::spec_request(),
        <(A, B) as QueryArguments>::spec_requests()[1] == B::spec_request(),
{
}

/// The two filters of a query: there is a request for each of them, in order.
pub proof fn lemma_two_filters<A: QueryFilter, B: QueryFilter>()
    ensures
        <(A, B) as QueryFilters>::spec_requests().len() == 2,
        <(A, B) as QueryFilters>::spec_requests()[0] == A::spec_request(),
        <(A, B) as QueryFilters>::spec_requests()[1] == B::spec_request(),
{
}

/// The two parameters of a system: there is a request for each of them, in order.
pub proof fn lemma_two_parameters<
    A: IntoSystemParameterRequest,
    B: IntoSystemParameterRequest,
>()
    ensures
        <(A, B) as SystemParameters>::spec_parameters().len() == 2,
        <(A, B) as SystemParameters>::spec_parameters()[0] == A::spec_parameter(),
        <(A, B) as SystemParameters>::spec_parameters()[1] == B::spec_parameter(),
{
}

/// The three arguments of a query: there is a request for each of them, in order.
pub proof fn lemma_three_arguments<A: QueryArgument, B: QueryArgument, C: QueryArgument>()
    ensures
        <(A, B, C) as QueryArguments>::spec_requests().len() == 3,
        <(A, B, C) as QueryArguments>::spec_requests()[0] == A::spec_request(),
        <(A, B, C) as QueryArguments>::spec_requests()[1] == B::spec_request(),
        <(A, B, C) as QueryArguments>::spec_requests()[2] == C::spec_request(),
{
}

/// The three filters of a query: there is a request for each of them, in order.
pub proof fn lemma_three_filters<A: QueryFilter, B: QueryFilter, C: QueryFilter>()
    ensures
        <(A, B, C) as QueryFilters>::spec_requests().len() == 3,
        <(A, B, C) as QueryFilters>::spec_requests()[0] == A::spec_request(),
        <(A, B, C) as QueryFilters>::spec_requests()[1] == B::spec_request(),
        <(A, B, C) as QueryFilters>::spec_requests()[2] == C::spec_request(),
{
}

/// The three parameters of a system: there is a request for each of them, in order.
pub proof fn lemma_three_parameters<
    A: IntoSystemParameterRequest,
    B: IntoSystemParameterRequest,
    C: IntoSystemParameterRequest,
>()
    ensures
        <(A, B, C) as SystemParameters>::spec_parameters().len() == 3,
        <(A, B, C) as SystemParameters>::spec_parameters()[0] == A::spec_parameter(),
        <(A, B, C) as SystemParameters>::spec_parameters()[1] == B::spec_parameter(),
        <(A, B, C) as SystemParameters>::spec_parameters()[2] == C::spec_parameter(),
{
}

/// The four arguments of a query: there is a request for each of them, in order.
pub proof fn lemma_four_arguments<
    A: QueryArgument,
    B: QueryArgument,
    C: QueryArgument,
    D: QueryArgument,
>()
    ensures
        <(A, B, C, D) as QueryArguments>::spec_requests().len() == 4,
        <(A, B, C, D) as QueryArguments>::spec_requests()[0] == A::spec_request(),
        <(A, B, C, D) as QueryArguments>::spec_requests()[1] == B::spec_request(),
        <(A, B, C, D) as QueryArguments>::spec_requests()[2] == C::spec_request(),
        <(A, B, C, D) as QueryArguments>::spec_requests()[3] == D::spec_request(),
{
}

/// The four filters of a query: there is a request for each of them, in order.
pub proof fn lemma_four_filters<
    A: QueryFilter,
    B: QueryFilter,
    C: QueryFilter,
    D: QueryFilter,
>()
    ensures
        <(A, B, C, D) as QueryFilters>::spec_requests().len() == 4,
        <(A, B, C, D) as QueryFilters>::spec_requests()[0] == A::spec_request(),
        <(A, B, C, D) as QueryFilters>::spec_requests()[1] == B::spec_request(),
        <(A, B, C, D) as QueryFilters>::spec_requests()[2] == C::spec_request(),
        <(A, B, C, D) as QueryFilters>::spec_requests()[3] == D::spec_request(),
{
}

/// The four parameters of a system: there is a request for each of them, in order.
pub proof fn lemma_four_parameters<
    A: IntoSystemParameterRequest,
    B: IntoSystemParameterRequest,
    C: IntoSystemParameterRequest,
    D: IntoSystemParameterRequest,
>()
    ensures
        <(A, B, C, D) as SystemParameters>::spec_parameters().len() == 4,
        <(A, B, C, D) as SystemParameters>::spec_parameters()[0] == A::spec_parameter(),
        <(A, B, C, D) as SystemParameters>::spec_parameters()[1] == B::spec_parameter(),
        <(A, B, C, D) as SystemParameters>::spec_parameters()[2] == C::spec_parameter(),
        <(A, B, C, D) as SystemParameters>::spec_parameters()[3] == D::spec_parameter(),
{
}

/// The five arguments of a query: there is a request for each of them, in order.
pub proof fn lemma_five_arguments<
    A: QueryArgument,
    B: QueryArgument,
    C: QueryArgument,
    D: QueryArgument,
    E: QueryArgument,
>()
    ensures
        <(A, B, C, D, E) as QueryArguments>::spec_requests().len() == 5,
        <(A, B, C, D, E) as QueryArguments>::spec_requests()[0] == A::spec_request(),
        <(A, B, C, D, E) as QueryArguments>::spec_requests()[1] == B::spec_request(),
        <(A, B, C, D, E) as QueryArguments>::spec_requests()[2] == C::spec_request(),
        <(A, B, C, D, E) as QueryArguments>::spec_requests()[3] == D::spec_request(),
        <(A, B, C, D, E) as QueryArguments>::spec_requests()[4] == E::spec_request(),
{
}

/// The five filters of a query: there is a request for each of them, in order.
pub proof fn lemma_five_filters<
    A: QueryFilter,
    B: QueryFilter,
    C: QueryFilter,
    D: QueryFilter,
    E: QueryFilter,
>()
    ensures
        <(A, B, C, D, E) as QueryFilters>::spec_requests().len() == 5,
        <(A, B, C, D, E) as QueryFilters>::spec_requests()[0] == A::spec_request(),
        <(A, B, C, D, E) as QueryFilters>::spec_requests()[1] == B::spec_request(),
        <(A, B, C, D, E) as QueryFilters>::spec_requests()[2] == C::spec_request(),
        <(A, B, C, D, E) as QueryFilters>::spec_requests()[3] == D::spec_request(),
        <(A, B, C, D, E) as QueryFilters>::spec_requests()[4] == E::spec_request(),
{
}

/// The five parameters of a system: there is a request for each of them, in order.
pub proof fn lemma_five_parameters<
    A: IntoSystemParameterRequest,
    B: IntoSystemParameterRequest,
    C: IntoSystemParameterRequest,
    D: IntoSystemParameterRequest,
    E: IntoSystemParameterRequest,
>()
    ensures
        <(A, B, C, D, E) as SystemParameters>::spec_parameters().len() == 5,
        <(A, B, C, D, E) as SystemParameters>::spec_parameters()[0] == A::spec_parameter(),
        <(A, B, C, D, E) as SystemParameters>::spec_parameters()[1] == B::spec_parameter(),
        <(A, B, C, D, E) as SystemParameters>::spec_parameters()[2] == C::spec_parameter(),
        <(A, B, C, D, E) as SystemParameters>::spec_parameters()[3] == D::spec_parameter(),
        <(A, B, C, D, E) as SystemParameters>::spec_parameters()[4] == E::spec_parameter(),
{
}

/// The six arguments of a query: there is a request for each of them, in order.
pub proof fn lemma_six_arguments<
    A: QueryArgument,
    B: QueryArgument,
    C: QueryArgument,
    D: QueryArgument,
    E: QueryArgument,
    F: QueryArgument,
>()
    ensures
        <(A, B, C, D, E, F) as QueryArguments>::spec_requests().len() == 6,
        <(A, B, C, D, E, F) as QueryArguments>::spec_requests()[0] == A::spec_request(),
        <(A, B, C, D, E, F) as QueryArguments>::spec_requests()[1] == B::spec_request(),
        <(A, B, C, D, E, F) as QueryArguments>::spec_requests()[2] == C::spec_request(),
        <(A, B, C, D, E, F) as QueryArguments>::spec_requests()[3] == D::spec_request(),
        <(A, B, C, D, E, F) as QueryArguments>::spec_requests()[4] == E::spec_request(),
        <(A, B, C, D, E, F) as QueryArguments>::spec_requests()[5] == F::spec_request(),
{
}

/// The six filters of a query: there is a request for each of them, in order.
pub proof fn lemma_six_filters<
    A: QueryFilter,
    B: QueryFilter,
    C: QueryFilter,
    D: QueryFilter,
    E: QueryFilter,
    F: QueryFilter,
>()
    ensures
        <(A, B, C, D, E, F) as QueryFilters>::spec_requests().len() == 6,
        <(A, B, C, D, E, F) as QueryFilters>::spec_requests()[0] == A::spec_request(),
        <(A, B, C, D, E, F) as QueryFilters>::spec_requests()[1] == B::spec_request(),
        <(A, B, C, D, E, F) as QueryFilters>::spec_requests()[2] == C::spec_request(),
        <(A, B, C, D, E, F) as QueryFilters>::spec_requests()[3] == D::spec_request(),
        <(A, B, C, D, E, F) as QueryFilters>::spec_requests()[4] == E::spec_request(),
        <(A, B, C, D, E, F) as QueryFilters>::spec_requests()[5] == F::spec_request(),
{
}

/// The six parameters of a system: there is a request for each of them, in order.
pub proof fn lemma_six_parameters<
    A: IntoSystemParameterRequest,
    B: IntoSystemParameterRequest,
    C: IntoSystemParameterRequest,
    D: IntoSystemParameterRequest,
    E: IntoSystemParameterRequest,
    F: IntoSystemParameterRequest,
>()
    ensures
        <(A, B, C, D, E, F) as SystemParameters>::spec_parameters().len() == 6,
        <(A, B, C, D, E, F) as SystemParameters>::spec_parameters()[0] == A::spec_parameter(),
        <(A, B, C, D, E, F) as SystemParameters>::spec_parameters()[1] == B::spec_parameter(),
        <(A, B, C, D, E, F) as SystemParameters>::spec_parameters()[2] == C::spec_parameter(),
        <(A, B, C, D, E, F) as SystemParameters>::spec_parameters()[3] == D::spec_parameter(),
        <(A, B, C, D, E, F) as SystemParameters>::spec_parameters()[4] == E::spec_parameter(),
        <(A, B, C, D, E, F) as SystemParameters>::spec_parameters()[5] == F::spec_parameter(),
{
}

/// The seven arguments of a query: there is a request for each of them, in order.
pub proof fn lemma_seven_arguments<
    A: QueryArgument,
    B: QueryArgument,
    C: QueryArgument,
    D: QueryArgument,
    E: QueryArgument,
    F: QueryArgument,
    G: QueryArgument,
>()
    ensures
        <(A, B, C, D, E, F, G) as QueryArguments>::spec_requests().len() == 7,
        <(A, B, C, D, E, F, G) as QueryArguments>::spec_requests()[0] == A::spec_request(),
        <(A, B, C, D, E, F, G) as QueryArguments>::spec_requests()[1] == B::spec_request(),
        <(A, B, C, D, E, F, G) as QueryArguments>::spec_requests()[2] == C::spec_request(),
        <(A, B, C, D, E, F, G) as QueryArguments>::spec_requests()[3] == D::spec_request(),
        <(A, B, C, D, E, F, G) as QueryArguments>::spec_requests()[4] == E::spec_request(),
        <(A, B, C, D, E, F, G) as QueryArguments>::spec_requests()[5] == F::spec_request(),
        <(A, B, C, D, E, F, G) as QueryArguments>::spec_requests()[6] == G::spec_request(),
{
}

/// The seven filters of a query: there is a request for each of them, in order.
pub proof fn lemma_seven_filters<
    A: QueryFilter,
    B: QueryFilter,
    C: QueryFilter,
    D: QueryFilter,
    E: QueryFilter,
    F: QueryFilter,
    G: QueryFilter,
>()
    ensures
        <(A, B, C, D, E, F, G) as QueryFilters>::spec_requests().len() == 7,
        <(A, B, C, D, E, F, G) as QueryFilters>::spec_requests()[0] == A::spec_request(),
        <(A, B, C, D, E, F, G) as QueryFilters>::spec_requests()[1] == B::spec_request(),
        <(A, B, C, D, E, F, G) as QueryFilters>::spec_requests()[2] == C::spec_request(),
        <(A, B, C, D, E, F, G) as QueryFilters>::spec_requests()[3] == D::spec_request(),
        <(A, B, C, D, E, F, G) as QueryFilters>::spec_requests()[4] == E::spec_request(),
        <(A, B, C, D, E, F, G) as QueryFilters>::spec_requests()[5] == F::spec_request(),
        <(A, B, C, D, E, F, G) as QueryFilters>::spec_requests()[6] == G::spec_request(),
{
}

/// The seven parameters of a system: there is a request for each of them, in order.
pub proof fn lemma_seven_parameters<
    A: IntoSystemParameterRequest,
    B: IntoSystemParameterRequest,
    C: IntoSystemParameterRequest,
    D: IntoSystemParameterRequest,
    E: IntoSystemParameterRequest,
    F: IntoSystemParameterRequest,
    G: IntoSystemParameterRequest,
>()
    ensures
        <(A, B, C, D, E, F, G) as SystemParameters>::spec_parameters().len() == 7,
        <(A, B, C, D, E, F, G) as SystemParameters>::spec_parameters()[0] == A::spec_parameter(),
        <(A, B, C, D, E, F, G) as SystemParameters>::spec_parameters()[1] == B::spec_parameter(),
        <(A, B, C, D, E, F, G) as SystemParameters>::spec_parameters()[2] == C::spec_parameter(),
        <(A, B, C, D, E, F, G) as SystemParameters>::spec_parameters()[3] == D::spec_parameter(),
        <(A, B, C, D, E, F, G) as SystemParameters>::spec_parameters()[4] == E::spec_parameter(),
        <(A, B, C, D, E, F, G) as SystemParameters>::spec_parameters()[5] == F::spec_parameter(),
        <(A, B, C, D, E, F, G) as SystemParameters>::spec_parameters()[6] == G::spec_parameter(),
{
}

/// The eight arguments of a query: there is a request for each of them, in order.
pub proof fn lemma_eight_arguments<
    A: QueryArgument,
    B: QueryArgument,
    C: QueryArgument,
    D: QueryArgument,
    E: QueryArgument,
    F: QueryArgument,
    G: QueryArgument,
    H: QueryArgument,
>()
    ensures
        <(A, B, C, D, E, F, G, H) as QueryArguments>::spec_requests().len() == 8,
        <(A, B, C, D, E, F, G, H) as QueryArguments>::spec_requests()[0] == A::spec_request(),
        <(A, B, C, D, E, F, G, H) as QueryArguments>::spec_requests()[1] == B::spec_request(),
        <(A, B, C, D, E, F, G, H) as QueryArguments>::spec_requests()[2] == C::spec_request(),
        <(A, B, C, D, E, F, G, H) as QueryArguments>::spec_requests()[3] == D::spec_request(),
        <(A, B, C, D, E, F, G, H) as QueryArguments>::spec_requests()[4] == E::spec_request(),
        <(A, B, C, D, E, F, G, H) as QueryArguments>::spec_requests()[5] == F::spec_request(),
        <(A, B, C, D, E, F, G, H) as QueryArguments>::spec_requests()[6] == G::spec_request(),
        <(A, B, C, D, E, F, G, H) as QueryArguments>::spec_requests()[7] == H::spec_request(),
{
}

/// The eight filters of a query: there is a request for each of them, in order.
pub proof fn lemma_eight_filters<
    A: QueryFilter,
    B: QueryFilter,
    C: QueryFilter,
    D: QueryFilter,
    E: QueryFilter,
    F: QueryFilter,
    G: QueryFilter,
    H: QueryFilter,
>()
    ensures
        <(A, B, C, D, E, F, G, H) as QueryFilters>::spec_requests().len() == 8,
        <(A, B, C, D, E, F, G, H) as QueryFilters>::spec_requests()[0] == A::spec_request(),
        <(A, B, C, D, E, F, G, H) as QueryFilters>::spec_requests()[1] == B::spec_request(),
        <(A, B, C, D, E, F, G, H) as QueryFilters>::spec_requests()[2] == C::spec_request(),
        <(A, B, C, D, E, F, G, H) as QueryFilters>::spec_requests()[3] == D::spec_request(),
        <(A, B, C, D, E, F, G, H) as QueryFilters>::spec_requests()[4] == E::spec_request(),
        <(A, B, C, D, E, F, G, H) as QueryFilters>::spec_requests()[5] == F::spec_request(),
        <(A, B, C, D, E, F, G, H) as QueryFilters>::spec_requests()[6] == G::spec_request(),
        <(A, B, C, D, E, F, G, H) as QueryFilters>::spec_requests()[7] == H::spec_request(),
{
}

/// The eight parameters of a system: there is a request for each of them, in order.
pub proof fn lemma_eight_parameters<
    A: IntoSystemParameterRequest,
    B: IntoSystemParameterRequest,
    C: IntoSystemParameterRequest,
    D: IntoSystemParameterRequest,
    E: IntoSystemParameterRequest,
    F: IntoSystemParameterRequest,
    G: IntoSystemParameterRequest,
    H: IntoSystemParameterRequest,
>()
    ensures
        <(A, B, C, D, E, F, G, H) as SystemParameters>::spec_parameters().len() == 8,
        <(A, B, C, D, E, F, G, H) as SystemParameters>::spec_parameters()[0]
            == A::spec_parameter(),
        <(A, B, C, D, E, F, G, H) as SystemParameters>::spec_parameters()[1]
            == B::spec_parameter(),
        <(A, B, C, D, E, F, G, H) as SystemParameters>::spec_parameters()[2]
            == C::spec_parameter(),
        <(A, B, C, D, E, F, G, H) as SystemParameters>::spec_parameters()[3]
            == D::spec_parameter(),
        <(A, B, C, D, E, F, G, H) as SystemParameters>::spec_parameters()[4]
            == E::spec_parameter(),
        <(A, B, C, D, E, F, G, H) as SystemParameters>::spec_parameters()[5]
            == F::spec_parameter(),
        <(A, B, C, D, E, F, G, H) as SystemParameters>::spec_parameters()[6]
            == G::spec_parameter(),
        <(A, B, C, D, E, F, G, H) as SystemParameters>::spec_parameters()[7]
            == H::spec_parameter(),
{
}

/// The nine arguments of a query: there is a request for each of them, in order.
pub proof fn lemma_nine_arguments<
    A: QueryArgument,
    B: QueryArgument,
    C: QueryArgument,
    D: QueryArgument,
    E: QueryArgument,
    F: QueryArgument,
    G: QueryArgument,
    H: QueryArgument,
    I: QueryArgument,
>()
    ensures
        <(A, B, C, D, E, F, G, H, I) as QueryArguments>::spec_requests().len() == 9,
        <(A, B, C, D, E, F, G, H, I) as QueryArguments>::spec_requests()[0] == A::spec_request(),
        <(A, B, C, D, E, F, G, H, I) as QueryArguments>::spec_requests()[1] == B::spec_request(),
        <(A, B, C, D, E, F, G, H, I) as QueryArguments>::spec_requests()[2] == C::spec_request(),
        <(A, B, C, D, E, F, G, H, I) as QueryArguments>::spec_requests()[3] == D::spec_request(),
        <(A, B, C, D, E, F, G, H, I) as QueryArguments>::spec_requests()[4] == E::spec_request(),
        <(A, B, C, D, E, F, G, H, I) as QueryArguments>::spec_requests()[5] == F::spec_request(),
        <(A, B, C, D, E, F, G, H, I) as QueryArguments>::spec_requests()[6] == G::spec_request(),
        <(A, B, C, D, E, F, G, H, I) as QueryArguments>::spec_requests()[7] == H::spec_request(),
        <(A, B, C, D, E, F, G, H, I) as QueryArguments>::spec_requests()[8] == I::spec_request(),
{
}

/// The nine filters of a query: there is a request for each of them, in order.
pub proof fn lemma_nine_filters<
    A: QueryFilter,
    B: QueryFilter,
    C: QueryFilter,
    D: QueryFilter,
    E: QueryFilter,
    F: QueryFilter,
    G: QueryFilter,
    H: QueryFilter,
    I: QueryFilter,
>()
    ensures
        <(A, B, C, D, E, F, G, H, I) as QueryFilters>::spec_requests().len() == 9,
        <(A, B, C, D, E, F, G, H, I) as QueryFilters>::spec_requests()[0] == A::spec_request(),
        <(A, B, C, D, E, F, G, H, I) as QueryFilters>::spec_requests()[1] == B::spec_request(),
        <(A, B, C, D, E, F, G, H, I) as QueryFilters>::spec_requests()[2] == C::spec_request(),
        <(A, B, C, D, E, F, G, H, I) as QueryFilters>::spec_requests()[3] == D::spec_request(),
        <(A, B, C, D, E, F, G, H, I) as QueryFilters>::spec_requests()[4] == E::spec_request(),
        <(A, B, C, D, E, F, G, H, I) as QueryFilters>::spec_requests()[5] == F::spec_request(),
        <(A, B, C, D, E, F, G, H, I) as QueryFilters>::spec_requests()[6] == G::spec_request(),
        <(A, B, C, D, E, F, G, H, I) as QueryFilters>::spec_requests()[7] == H::spec_request(),
        <(A, B, C, D, E, F, G, H, I) as QueryFilters>::spec_requests()[8] == I::spec_request(),
{
}

/// The nine parameters of a system: there is a request for each of them, in order.
pub proof fn lemma_nine_parameters<
    A: IntoSystemParameterRequest,
    B: IntoSystemParameterRequest,
    C: IntoSystemParameterRequest,
    D: IntoSystemParameterRequest,
    E: IntoSystemParameterRequest,
    F: IntoSystemParameterRequest,
    G: IntoSystemParameterRequest,
    H: IntoSystemParameterRequest,
    I: IntoSystemParameterRequest,
>()
    ensures
        <(A, B, C, D, E, F, G, H, I) as SystemParameters>::spec_parameters().len() == 9,
        <(A, B, C, D, E, F, G, H, I) as SystemParameters>::spec_parameters()[0]
            == A::spec_parameter(),
        <(A, B, C, D, E, F, G, H, I) as SystemParameters>::spec_parameters()[1]
            == B::spec_parameter(),
        <(A, B, C, D, E, F, G, H, I) as SystemParameters>::spec_parameters()[2]
            == C::spec_parameter(),
        <(A, B, C, D, E, F, G, H, I) as SystemParameters>::spec_parameters()[3]
            == D::spec_parameter(),
        <(A, B, C, D, E, F, G, H, I) as SystemParameters>::spec_parameters()[4]
            == E::spec_parameter(),
        <(A, B, C, D, E, F, G, H, I) as SystemParameters>::spec_parameters()[5]
            == F::spec_parameter(),
        <(A, B, C, D, E, F, G, H, I) as SystemParameters>::spec_parameters()[6]
            == G::spec_parameter(),
        <(A, B, C, D, E, F, G, H, I) as SystemParameters>::spec_parameters()[7]
            == H::spec_parameter(),
        <(A, B, C, D, E, F, G, H, I) as SystemParameters>::spec_parameters()[8]
            == I::spec_parameter(),
{
}

/// The ten arguments of a query: there is a request for each of them, in order.
pub proof fn lemma_ten_arguments<
    A: QueryArgument,
    B: QueryArgument,
    C: QueryArgument,
    D: QueryArgument,
    E: QueryArgument,
    F: QueryArgument,
    G: QueryArgument,
    H: QueryArgument,
    I: QueryArgument,
    J: QueryArgument,
>()
    ensures
        <(A, B, C, D, E, F, G, H, I, J) as QueryArguments>::spec_requests().len() == 10,
        <(A, B, C, D, E, F, G, H, I, J) as QueryArguments>::spec_requests()[0]
            == A::spec_request(),
        <(A, B, C, D, E, F, G, H, I, J) as QueryArguments>::spec_requests()[1]
            == B::spec_request(),
        <(A, B, C, D, E, F, G, H, I, J) as QueryArguments>::spec_requests()[2]
            == C::spec_request(),
        <(A, B, C, D, E, F, G, H, I, J) as QueryArguments>::spec_requests()[3]
            == D::spec_request(),
        <(A, B, C, D, E, F, G, H, I, J) as QueryArguments>::spec_requests()[4]
            == E::spec_request(),
        <(A, B, C, D, E, F, G, H, I, J) as QueryArguments>::spec_requests()[5]
            == F::spec_request(),
        <(A, B, C, D, E, F, G, H, I, J) as QueryArguments>::spec_requests()[6]
            == G::spec_request(),
        <(A, B, C, D, E, F, G, H, I, J) as QueryArguments>::spec_requests()[7]
            == H::spec_request(),
        <(A, B, C, D, E, F, G, H, I, J) as QueryArguments>::spec_requests()[8]
            == I::spec_request(),
        <(A, B, C, D, E, F, G, H, I, J) as QueryArguments>::spec_requests()[9]
            == J::spec_request(),
{
}

/// The ten filters of a query: there is a request for each of them, in order.
pub proof fn lemma_ten_filters<
    A: QueryFilter,
    B: QueryFilter,
    C: QueryFilter,
    D: QueryFilter,
    E: QueryFilter,
    F: QueryFilter,
    G: QueryFilter,
    H: QueryFilter,
    I: QueryFilter,
    J: QueryFilter,
>()
    ensures
        <(A, B, C, D, E, F, G, H, I, J) as QueryFilters>::spec_requests().len() == 10,
        <(A, B, C, D, E, F, G, H, I, J) as QueryFilters>::spec_requests()[0] == A::spec_request(),
        <(A, B, C, D, E, F, G, H, I, J) as QueryFilters>::spec_requests()[1] == B::spec_request(),
        <(A, B, C, D, E, F, G, H, I, J) as QueryFilters>::spec_requests()[2] == C::spec_request(),
        <(A, B, C, D, E, F, G, H, I, J) as QueryFilters>::spec_requests()[3] == D::spec_request(),
        <(A, B, C, D, E, F, G, H, I, J) as QueryFilters>::spec_requests()[4] == E::spec_request(),
        <(A, B, C, D, E, F, G, H, I, J) as QueryFilters>::spec_requests()[5] == F::spec_request(),
        <(A, B, C, D, E, F, G, H, I, J) as QueryFilters>::spec_requests()[6] == G::spec_request(),
        <(A, B, C, D, E, F, G, H, I, J) as QueryFilters>::spec_requests()[7] == H::spec_request(),
        <(A, B, C, D, E, F, G, H, I, J) as QueryFilters>::spec_requests()[8] == I::spec_request(),
        <(A, B, C, D, E, F, G, H, I, J) as QueryFilters>::spec_requests()[9] == J::spec_request(),
{
}

/// The ten parameters of a system: there is a request for each of them, in order.
pub proof fn lemma_ten_parameters<
    A: IntoSystemParameterRequest,
    B: IntoSystemParameterRequest,
    C: IntoSystemParameterRequest,
    D: IntoSystemParameterRequest,
    E: IntoSystemParameterRequest,
    F: IntoSystemParameterRequest,
    G: IntoSystemParameterRequest,
    H: IntoSystemParameterRequest,
    I: IntoSystemParameterRequest,
    J: IntoSystemParameterRequest,
>()
    ensures
        <(A, B, C, D, E, F, G, H, I, J) as SystemParameters>::spec_parameters().len() == 10,
        <(A, B, C, D, E, F, G, H, I, J) as SystemParameters>::spec_parameters()[0]
            == A::spec_parameter(),
        <(A, B, C, D, E, F, G, H, I, J) as SystemParameters>::spec_parameters()[1]
            == B::spec_parameter(),
        <(A, B, C, D, E, F, G, H, I, J) as SystemParameters>::spec_parameters()[2]
            == C::spec_parameter(),
        <(A, B, C, D, E, F, G, H, I, J) as SystemParameters>::spec_parameters()[3]
            == D::spec_parameter(),
        <(A, B, C, D, E, F, G, H, I, J) as SystemParameters>::spec_parameters()[4]
            == E::spec_parameter(),
        <(A, B, C, D, E, F, G, H, I, J) as SystemParameters>::spec_parameters()[5]
            == F::spec_parameter(),
        <(A, B, C, D, E, F, G, H, I, J) as SystemParameters>::spec_parameters()[6]
            == G::spec_parameter(),
        <(A, B, C, D, E, F, G, H, I, J) as SystemParameters>::spec_parameters()[7]
            == H::spec_parameter(),
        <(A, B, C, D, E, F, G, H, I, J) as SystemParameters>::spec_parameters()[8]
            == I::spec_parameter(),
        <(A, B, C, D, E, F, G, H, I, J) as SystemParameters>::spec_parameters()[9]
            == J::spec_parameter(),
{
}

/// The eleven arguments of a query: there is a request for each of them, in order.
pub proof fn lemma_eleven_arguments<
    A: QueryArgument,
    B: QueryArgument,
    C: QueryArgument,
    D: QueryArgument,
    E: QueryArgument,
    F: QueryArgument,
    G: QueryArgument,
    H: QueryArgument,
    I: QueryArgument,
    J: QueryArgument,
    K: QueryArgument,
>()
    ensures
        <(A, B, C, D, E, F, G, H, I, J, K) as QueryArguments>::spec_requests().len() == 11,
        <(A, B, C, D, E, F, G, H, I, J, K) as QueryArguments>::spec_requests()[0]
            == A::spec_request(),
        <(A, B, C, D, E, F, G, H, I, J, K) as QueryArguments>::spec_requests()[1]
            == B::spec_request(),
        <(A, B, C, D, E, F, G, H, I, J, K) as QueryArguments>::spec_requests()[2]
            == C::spec_request(),
        <(A, B, C, D, E, F, G, H, I, J, K) as QueryArguments>::spec_requests()[3]
            == D::spec_request(),
        <(A, B, C, D, E, F, G, H, I, J, K) as QueryArguments>::spec_requests()[4]
            == E::spec_request(),
        <(A, B, C, D, E, F, G, H, I, J, K) as QueryArguments>::spec_requests()[5]
            == F::spec_request(),
        <(A, B, C, D, E, F, G, H, I, J, K) as QueryArguments>::spec_requests()[6]
            == G::spec_request(),
        <(A, B, C, D, E, F, G, H, I, J, K) as QueryArguments>::spec_requests()[7]
            == H::spec_request(),
        <(A, B, C, D, E, F, G, H, I, J, K) as QueryArguments>::spec_requests()[8]
            == I::spec_request(),
        <(A, B, C, D, E, F, G, H, I, J, K) as QueryArguments>::spec_requests()[9]
            == J::spec_request(),
        <(A, B, C, D, E, F, G, H, I, J, K) as QueryArguments>::spec_requests()[10]
            == K::spec_request(),
{
}

/// The eleven filters of a query: there is a request for each of them, in order.
pub proof fn lemma_eleven_filters<
    A: QueryFilter,
    B: QueryFilter,
    C: QueryFilter,
    D: QueryFilter,
    E: QueryFilter,
    F: QueryFilter,
    G: QueryFilter,
    H: QueryFilter,
    I: QueryFilter,
    J: QueryFilter,
    K: QueryFilter,
>()
    ensures
        <(A, B, C, D, E, F, G, H, I, J, K) as QueryFilters>::spec_requests().len() == 11,
        <(A, B, C, D, E, F, G, H, I, J, K) as QueryFilters>::spec_requests()[0]
            == A::spec_request(),
        <(A, B, C, D, E, F, G, H, I, J, K) as QueryFilters>::spec_requests()[1]
            == B::spec_request(),
        <(A, B, C, D, E, F, G, H, I, J, K) as QueryFilters>::spec_requests()[2]
            == C::spec_request(),
        <(A, B, C, D, E, F, G, H, I, J, K) as QueryFilters>::spec_requests()[3]
            == D::spec_request(),
        <(A, B, C, D, E, F, G, H, I, J, K) as QueryFilters>::spec_requests()[4]
            == E::spec_request(),
        <(A, B, C, D, E, F, G, H, I, J, K) as QueryFilters>::spec_requests()[5]
            == F::spec_request(),
        <(A, B, C, D, E, F, G, H, I, J, K) as QueryFilters>::spec_requests()[6]
            == G::spec_request(),
        <(A, B, C, D, E, F, G, H, I, J, K) as QueryFilters>::spec_requests()[7]
            == H::spec_request(),
        <(A, B, C, D, E, F, G, H, I, J, K) as QueryFilters>::spec_requests()[8]
            == I::spec_request(),
        <(A, B, C, D, E, F, G, H, I, J, K) as QueryFilters>::spec_requests()[9]
            == J::spec_request(),
        <(A, B, C, D, E, F, G, H, I, J, K) as QueryFilters>::spec_requests()[10]
            == K::spec_request(),
{
}

/// The eleven parameters of a system: there is a request for each of them, in order.
pub proof fn lemma_eleven_parameters<
    A: IntoSystemParameterRequest,
    B: IntoSystemParameterRequest,
    C: IntoSystemParameterRequest,
    D: IntoSystemParameterRequest,
    E: IntoSystemParameterRequest,
    F: IntoSystemParameterRequest,
    G: IntoSystemParameterRequest,
    H: IntoSystemParameterRequest,
    I: IntoSystemParameterRequest,
    J: IntoSystemParameterRequest,
    K: IntoSystemParameterRequest,
>()
    ensures
        <(A, B, C, D, E, F, G, H, I, J, K) as SystemParameters>::spec_parameters().len() == 11,
        <(A, B, C, D, E, F, G, H, I, J, K) as SystemParameters>::spec_parameters()[0]
            == A::spec_parameter(),
        <(A, B, C, D, E, F, G, H, I, J, K) as SystemParameters>::spec_parameters()[1]
            == B::spec_parameter(),
        <(A, B, C, D, E, F, G, H, I, J, K) as SystemParameters>::spec_parameters()[2]
            == C::spec_parameter(),
        <(A, B, C, D, E, F, G, H, I, J, K) as SystemParameters>::spec_parameters()[3]
            == D::spec_parameter(),
        <(A, B, C, D, E, F, G, H, I, J, K) as SystemParameters>::spec_parameters()[4]
            == E::spec_parameter(),
        <(A, B, C, D, E, F, G, H, I, J, K) as SystemParameters>::spec_parameters()[5]
            == F::spec_parameter(),
        <(A, B, C, D, E, F, G, H, I, J, K) as SystemParameters>::spec_parameters()[6]
            == G::spec_parameter(),
        <(A, B, C, D, E, F, G, H, I, J, K) as SystemParameters>::spec_parameters()[7]
            == H::spec_parameter(),
        <(A, B, C, D, E, F, G, H, I, J, K) as SystemParameters>::spec_parameters()[8]
            == I::spec_parameter(),
        <(A, B, C, D, E, F, G, H, I, J, K) as SystemParameters>::spec_parameters()[9]
            == J::spec_parameter(),
        <(A, B, C, D, E, F, G, H, I, J, K) as SystemParameters>::spec_parameters()[10]
            == K::spec_parameter(),
{
}

/// The twelve arguments of a query: there is a request for each of them, in order.
pub proof fn lemma_twelve_arguments<
    A: QueryArgument,
    B: QueryArgument,
    C: QueryArgument,
    D: QueryArgument,
    E: QueryArgument,
    F: QueryArgument,
    G: QueryArgument,
    H: QueryArgument,
    I: QueryArgument,
    J: QueryArgument,
    K: QueryArgument,
    L: QueryArgument,
>()
    ensures
        <(A, B, C, D, E, F, G, H, I, J, K, L) as QueryArguments>::spec_requests().len() == 12,
        <(A, B, C, D, E, F, G, H, I, J, K, L) as QueryArguments>::spec_requests()[0]
            == A::spec_request(),
        <(A, B, C, D, E, F, G, H, I, J, K, L) as QueryArguments>::spec_requests()[1]
            == B::spec_request(),
        <(A, B, C, D, E, F, G, H, I, J, K, L) as QueryArguments>::spec_requests()[2]
            == C::spec_request(),
        <(A, B, C, D, E, F, G, H, I, J, K, L) as QueryArguments>::spec_requests()[3]
            == D::spec_request(),
        <(A, B, C, D, E, F, G, H, I, J, K, L) as QueryArguments>::spec_requests()[4]
            == E::spec_request(),
        <(A, B, C, D, E, F, G, H, I, J, K, L) as QueryArguments>::spec_requests()[5]
            == F::spec_request(),
        <(A, B, C, D, E, F, G, H, I, J, K, L) as QueryArguments>::spec_requests()[6]
            == G::spec_request(),
        <(A, B, C, D, E, F, G, H, I, J, K, L) as QueryArguments>::spec_requests()[7]
            == H::spec_request(),
        <(A, B, C, D, E, F, G, H, I, J, K, L) as QueryArguments>::spec_requests()[8]
            == I::spec_request(),
        <(A, B, C, D, E, F, G, H, I, J, K, L) as QueryArguments>::spec_requests()[9]
            == J::spec_request(),
        <(A, B, C, D, E, F, G, H, I, J, K, L) as QueryArguments>::spec_requests()[10]
            == K::spec_request(),
        <(A, B, C, D, E, F, G, H, I, J, K, L) as QueryArguments>::spec_requests()[11]
            == L::spec_request(),
{
}

/// The twelve filters of a query: there is a request for each of them, in order.
pub proof fn lemma_twelve_filters<
    A: QueryFilter,
    B: QueryFilter,
    C: QueryFilter,
    D: QueryFilter,
    E: QueryFilter,
    F: QueryFilter,
    G: QueryFilter,
    H: QueryFilter,
    I: QueryFilter,
    J: QueryFilter,
    K: QueryFilter,
    L: QueryFilter,
>()
    ensures
        <(A, B, C, D, E, F, G, H, I, J, K, L) as QueryFilters>::spec_requests().len() == 12,
        <(A, B, C, D, E, F, G, H, I, J, K, L) as QueryFilters>::spec_requests()[0]
            == A::spec_request(),
        <(A, B, C, D, E, F, G, H, I, J, K, L) as QueryFilters>::spec_requests()[1]
            == B::spec_request(),
        <(A, B, C, D, E, F, G, H, I, J, K, L) as QueryFilters>::spec_requests()[2]
            == C::spec_request(),
        <(A, B, C, D, E, F, G, H, I, J, K, L) as QueryFilters>::spec_requests()[3]
            == D::spec_request(),
        <(A, B, C, D, E, F, G, H, I, J, K, L) as QueryFilters>::spec_requests()[4]
            == E::spec_request(),
        <(A, B, C, D, E, F, G, H, I, J, K, L) as QueryFilters>::spec_requests()[5]
            == F::spec_request(),
        <(A, B, C, D, E, F, G, H, I, J, K, L) as QueryFilters>::spec_requests()[6]
            == G::spec_request(),
        <(A, B, C, D, E, F, G, H, I, J, K, L) as QueryFilters>::spec_requests()[7]
            == H::spec_request(),
        <(A, B, C, D, E, F, G, H, I, J, K, L) as QueryFilters>::spec_requests()[8]
            == I::spec_request(),
        <(A, B, C, D, E, F, G, H, I, J, K, L) as QueryFilters>::spec_requests()[9]
            == J::spec_request(),
        <(A, B, C, D, E, F, G, H, I, J, K, L) as QueryFilters>::spec_requests()[10]
            == K::spec_request(),
        <(A, B, C, D, E, F, G, H, I, J, K, L) as QueryFilters>::spec_requests()[11]
            == L::spec_request(),
{
}

/// The twelve parameters of a system: there is a request for each of them, in order.
pub proof fn lemma_twelve_parameters<
    A: IntoSystemParameterRequest,
    B: IntoSystemParameterRequest,
    C: IntoSystemParameterRequest,
    D: IntoSystemParameterRequest,
    E: IntoSystemParameterRequest,
    F: IntoSystemParameterRequest,
    G: IntoSystemParameterRequest,
    H: IntoSystemParameterRequest,
    I: IntoSystemParameterRequest,
    J: IntoSystemParameterRequest,
    K: IntoSystemParameterRequest,
    L: IntoSystemParameterRequest,
>()
    ensures
        <(A, B, C, D, E, F, G, H, I, J, K, L) as SystemParameters>::spec_parameters().len() == 12,
        <(A, B, C, D, E, F, G, H, I, J, K, L) as SystemParameters>::spec_parameters()[0]
            == A::spec_parameter(),
        <(A, B, C, D, E, F, G, H, I, J, K, L) as SystemParameters>::spec_parameters()[1]
            == B::spec_parameter(),
        <(A, B, C, D, E, F, G, H, I, J, K, L) as SystemParameters>::spec_parameters()[2]
            == C::spec_parameter(),
        <(A, B, C, D, E, F, G, H, I, J, K, L) as SystemParameters>::spec_parameters()[3]
            == D::spec_parameter(),
        <(A, B, C, D, E, F, G, H, I, J, K, L) as SystemParameters>::spec_parameters()[4]
            == E::spec_parameter(),
        <(A, B, C, D, E, F, G, H, I, J, K, L) as SystemParameters>::spec_parameters()[5]
            == F::spec_parameter(),
        <(A, B, C, D, E, F, G, H, I, J, K, L) as SystemParameters>::spec_parameters()[6]
            == G::spec_parameter(),
        <(A, B, C, D, E, F, G, H, I, J, K, L) as SystemParameters>::spec_parameters()[7]
            == H::spec_parameter(),
        <(A, B, C, D, E, F, G, H, I, J, K, L) as SystemParameters>::spec_parameters()[8]
            == I::spec_parameter(),
        <(A, B, C, D, E, F, G, H, I, J, K, L) as SystemParameters>::spec_parameters()[9]
            == J::spec_parameter(),
        <(A, B, C, D, E, F, G, H, I, J, K, L) as SystemParameters>::spec_parameters()[10]
            == K::spec_parameter(),
        <(A, B, C, D, E, F, G, H, I, J, K, L) as SystemParameters>::spec_parameters()[11]
            == L::spec_parameter(),
{
}

/// The thirteen arguments of a query: there is a request for each of them, in order.
pub proof fn lemma_thirteen_arguments<
    A: QueryArgument,
    B: QueryArgument,
    C: QueryArgument,
    D: QueryArgument,
    E: QueryArgument,
    F: QueryArgument,
    G: QueryArgument,
    H: QueryArgument,
    I: QueryArgument,
    J: QueryArgument,
    K: QueryArgument,
    L: QueryArgument,
    M: QueryArgument,
>()
    ensures
        <(A, B, C, D, E, F, G, H, I, J, K, L, M) as QueryArguments>::spec_requests().len() == 13,
        <(A, B, C, D, E, F, G, H, I, J, K, L, M) as QueryArguments>::spec_requests()[0]
            == A::spec_request(),
        <(A, B, C, D, E, F, G, H, I, J, K, L, M) as QueryArguments>::spec_requests()[1]
            == B::spec_request(),
        <(A, B, C, D, E, F, G, H, I, J, K, L, M) as QueryArguments>::spec_requests()[2]
            == C::spec_request(),
        <(A, B, C, D, E, F, G, H, I, J, K, L, M) as QueryArguments>::spec_requests()[3]
            == D::spec_request(),
        <(A, B, C, D, E, F, G, H, I, J, K, L, M) as QueryArguments>::spec_requests()[4]
            == E::spec_request(),
        <(A, B, C, D, E, F, G, H, I, J, K, L, M) as QueryArguments>::spec_requests()[5]
            == F::spec_request(),
        <(A, B, C, D, E, F, G, H, I, J, K, L, M) as QueryArguments>::spec_requests()[6]
            == G::spec_request(),
        <(A, B, C, D, E, F, G, H, I, J, K, L, M) as QueryArguments>::spec_requests()[7]
            == H::spec_request(),
        <(A, B, C, D, E, F, G, H, I, J, K, L, M) as QueryArguments>::spec_requests()[8]
            == I::spec_request(),
        <(A, B, C, D, E, F, G, H, I, J, K, L, M) as QueryArguments>::spec_requests()[9]
            == J::spec_request(),
        <(A, B, C, D, E, F, G, H, I, J, K, L, M) as QueryArguments>::spec_requests()[10]
            == K::spec_request(),
        <(A, B, C, D, E, F, G, H, I, J, K, L, M) as QueryArguments>::spec_requests()[11]
            == L::spec_request(),
        <(A, B, C, D, E, F, G, H, I, J, K, L, M) as QueryArguments>::spec_requests()[12]
            == M::spec_request(),
{
}

/// The thirteen filters of a query: there is a request for each of them, in order.
pub proof fn lemma_thirteen_filters<
    A: QueryFilter,
    B: QueryFilter,
    C: QueryFilter,
    D: QueryFilter,
    E: QueryFilter,
    F: QueryFilter,
    G: QueryFilter,
    H: QueryFilter,
    I: QueryFilter,
    J: QueryFilter,
    K: QueryFilter,
    L: QueryFilter,
    M: QueryFilter,
>()
    ensures
        <(A, B, C, D, E, F, G, H, I, J, K, L, M) as QueryFilters>::spec_requests().len() == 13,
        <(A, B, C, D, E, F, G, H, I, J, K, L, M) as QueryFilters>::spec_requests()[0]
            == A::spec_request(),
        <(A, B, C, D, E, F, G, H, I, J, K, L, M) as QueryFilters>::spec_requests()[1]
            == B::spec_request(),
        <(A, B, C, D, E, F, G, H, I, J, K, L, M) as QueryFilters>::spec_requests()[2]
            == C::spec_request(),
        <(A, B, C, D, E, F, G, H, I, J, K, L, M) as QueryFilters>::spec_requests()[3]
            == D::spec_request(),
        <(A, B, C, D, E, F, G, H, I, J, K, L, M) as QueryFilters>::spec_requests()[4]
            == E::spec_request(),
        <(A, B, C, D, E, F, G, H, I, J, K, L, M) as QueryFilters>::spec_requests()[5]
            == F::spec_request(),
        <(A, B, C, D, E, F, G, H, I, J, K, L, M) as QueryFilters>::spec_requests()[6]
            == G::spec_request(),
        <(A, B, C, D, E, F, G, H, I, J, K, L, M) as QueryFilters>::spec_requests()[7]
            == H::spec_request(),
        <(A, B, C, D, E, F, G, H, I, J, K, L, M) as QueryFilters>::spec_requests()[8]
            == I::spec_request(),
        <(A, B, C, D, E, F, G, H, I, J, K, L, M) as QueryFilters>::spec_requests()[9]
            == J::spec_request(),
        <(A, B, C, D, E, F, G, H, I, J, K, L, M) as QueryFilters>::spec_requests()[10]
            == K::spec_request(),
        <(A, B, C, D, E, F, G, H, I, J, K, L, M) as QueryFilters>::spec_requests()[11]
            == L::spec_request(),
        <(A, B, C, D, E, F, G, H, I, J, K, L, M) as QueryFilters>::spec_requests()[12]
            == M::spec_request(),
{
}

/// The thirteen parameters of a system: there is a request for each of them, in order.
pub proof fn lemma_thirteen_parameters<
    A: IntoSystemParameterRequest,
    B: IntoSystemParameterRequest,
    C: IntoSystemParameterRequest,
    D: IntoSystemParameterRequest,
    E: IntoSystemParameterRequest,
    F: IntoSystemParameterRequest,
    G: IntoSystemParameterRequest,
    H: IntoSystemParameterRequest,
    I: IntoSystemParameterRequest,
    J: IntoSystemParameterRequest,
    K: IntoSystemParameterRequest,
    L: IntoSystemParameterRequest,
    M: IntoSystemParameterRequest,
>()
    ensures
        <(A, B, C, D, E, F, G, H, I, J, K, L, M) as SystemParameters>::spec_parameters().len()
            == 13,
        <(A, B, C, D, E, F, G, H, I, J, K, L, M) as SystemParameters>::spec_parameters()[0]
            == A::spec_parameter(),
        <(A, B, C, D, E, F, G, H, I, J, K, L, M) as SystemParameters>::spec_parameters()[1]
            == B::spec_parameter(),
        <(A, B, C, D, E, F, G, H, I, J, K, L, M) as SystemParameters>::spec_parameters()[2]
            == C::spec_parameter(),
        <(A, B, C, D, E, F, G, H, I, J, K, L, M) as SystemParameters>::spec_parameters()[3]
            == D::spec_parameter(),
        <(A, B, C, D, E, F, G, H, I, J, K, L, M) as SystemParameters>::spec_parameters()[4]
            == E::spec_parameter(),
        <(A, B, C, D, E, F, G, H, I, J, K, L, M) as SystemParameters>::spec_parameters()[5]
            == F::spec_parameter(),
        <(A, B, C, D, E, F, G, H, I, J, K, L, M) as SystemParameters>::spec_parameters()[6]
            == G::spec_parameter(),
        <(A, B, C, D, E, F, G, H, I, J, K, L, M) as SystemParameters>::spec_parameters()[7]
            == H::spec_parameter(),
        <(A, B, C, D, E, F, G, H, I, J, K, L, M) as SystemParameters>::spec_parameters()[8]
            == I::spec_parameter(),
        <(A, B, C, D, E, F, G, H, I, J, K, L, M) as SystemParameters>::spec_parameters()[9]
            == J::spec_parameter(),
        <(A, B, C, D, E, F, G, H, I, J, K, L, M) as SystemParameters>::spec_parameters()[10]
            == K::spec_parameter(),
        <(A, B, C, D, E, F, G, H, I, J, K, L, M) as SystemParameters>::spec_parameters()[11]
            == L::spec_parameter(),
        <(A, B, C, D, E, F, G, H, I, J, K, L, M) as SystemParameters>::spec_parameters()[12]
            == M::spec_parameter(),
{
}

/// The fourteen arguments of a query: there is a request for each of them, in order.
pub proof fn lemma_fourteen_arguments<
    A: QueryArgument,
    B: QueryArgument,
    C: QueryArgument,
    D: QueryArgument,
    E: QueryArgument,
    F: QueryArgument,
    G: QueryArgument,
    H: QueryArgument,
    I: QueryArgument,
    J: QueryArgument,
    K: QueryArgument,
    L: QueryArgument,
    M: QueryArgument,
    N: QueryArgument,
>()
    ensures
        <(A, B, C, D, E, F, G, H, I, J, K, L, M, N) as QueryArguments>::spec_requests().len() == 14,
        <(A, B, C, D, E, F, G, H, I, J, K, L, M, N) as QueryArguments>::spec_requests()[0]
            == A::spec_request(),
        <(A, B, C, D, E, F, G, H, I, J, K, L, M, N) as QueryArguments>::spec_requests()[1]
            == B::spec_request(),
        <(A, B, C, D, E, F, G, H, I, J, K, L, M, N) as QueryArguments>::spec_requests()[2]
            == C::spec_request(),
        <(A, B, C, D, E, F, G, H, I, J, K, L, M, N) as QueryArguments>::spec_requests()[3]
            == D::spec_request(),
        <(A, B, C, D, E, F, G, H, I, J, K, L, M, N) as QueryArguments>::spec_requests()[4]
            == E::spec_request(),
        <(A, B, C, D, E, F, G, H, I, J, K, L, M, N) as QueryArguments>::spec_requests()[5]
            == F::spec_request(),
        <(A, B, C, D, E, F, G, H, I, J, K, L, M, N) as QueryArguments>::spec_requests()[6]
            == G::spec_request(),
        <(A, B, C, D, E, F, G, H, I, J, K, L, M, N) as QueryArguments>::spec_requests()[7]
            == H::spec_request(),
        <(A, B, C, D, E, F, G, H, I, J, K, L, M, N) as QueryArguments>::spec_requests()[8]
            == I::spec_request(),
        <(A, B, C, D, E, F, G, H, I, J, K, L, M, N) as QueryArguments>::spec_requests()[9]
            == J::spec_request(),
        <(A, B, C, D, E, F, G, H, I, J, K, L, M, N) as QueryArguments>::spec_requests()[10]
            == K::spec_request(),
        <(A, B, C, D, E, F, G, H, I, J, K, L, M, N) as QueryArguments>::spec_requests()[11]
            == L::spec_request(),
        <(A, B, C, D, E, F, G, H, I, J, K, L, M, N) as QueryArguments>::spec_requests()[12]
            == M::spec_request(),
        <(A, B, C, D, E, F, G, H, I, J, K, L, M, N) as QueryArguments>::spec_requests()[13]
            == N::spec_request(),
{
}

/// The fourteen filters of a query: there is a request for each of them, in order.
pub proof fn lemma_fourteen_filters<
    A: QueryFilter,
    B: QueryFilter,
    C: QueryFilter,
    D: QueryFilter,
    E: QueryFilter,
    F: QueryFilter,
    G: QueryFilter,
    H: QueryFilter,
    I: QueryFilter,
    J: QueryFilter,
    K: QueryFilter,
    L: QueryFilter,
    M: QueryFilter,
    N: QueryFilter,
>()
    ensures
        <(A, B, C, D, E, F, G, H, I, J, K, L, M, N) as QueryFilters>::spec_requests().len() == 14,
        <(A, B, C, D, E, F, G, H, I, J, K, L, M, N) as QueryFilters>::spec_requests()[0]
            == A::spec_request(),
        <(A, B, C, D, E, F, G, H, I, J, K, L, M, N) as QueryFilters>::spec_requests()[1]
            == B::spec_request(),
        <(A, B, C, D, E, F, G, H, I, J, K, L, M, N) as QueryFilters>::spec_requests()[2]
            == C::spec_request(),
        <(A, B, C, D, E, F, G, H, I, J, K, L, M, N) as QueryFilters>::spec_requests()[3]
            == D::spec_request(),
        <(A, B, C, D, E, F, G, H, I, J, K, L, M, N) as QueryFilters>::spec_requests()[4]
            == E::spec_request(),
        <(A, B, C, D, E, F, G, H, I, J, K, L, M, N) as QueryFilters>::spec_requests()[5]
            == F::spec_request(),
        <(A, B, C, D, E, F, G, H, I, J, K, L, M, N) as QueryFilters>::spec_requests()[6]
            == G::spec_request(),
        <(A, B, C, D, E, F, G, H, I, J, K, L, M, N) as QueryFilters>::spec_requests()[7]
            == H::spec_request(),
        <(A, B, C, D, E, F, G, H, I, J, K, L, M, N) as QueryFilters>::spec_requests()[8]
            == I::spec_request(),
        <(A, B, C, D, E, F, G, H, I, J, K, L, M, N) as QueryFilters>::spec_requests()[9]
            == J::spec_request(),
        <(A, B, C, D, E, F, G, H, I, J, K, L, M, N) as QueryFilters>::spec_requests()[10]
            == K::spec_request(),
        <(A, B, C, D, E, F, G, H, I, J, K, L, M, N) as QueryFilters>::spec_requests()[11]
            == L::spec_request(),
        <(A, B, C, D, E, F, G, H, I, J, K, L, M, N) as QueryFilters>::spec_requests()[12]
            == M::spec_request(),
        <(A, B, C, D, E, F, G, H, I, J, K, L, M, N) as QueryFilters>::spec_requests()[13]
            == N::spec_request(),
{
}

/// The fourteen parameters of a system: there is a request for each of them, in order.
pub proof fn lemma_fourteen_parameters<
    A: IntoSystemParameterRequest,
    B: IntoSystemParameterRequest,
    C: IntoSystemParameterRequest,
    D: IntoSystemParameterRequest,
    E: IntoSystemParameterRequest,
    F: IntoSystemParameterRequest,
    G: IntoSystemParameterRequest,
    H: IntoSystemParameterRequest,
    I: IntoSystemParameterRequest,
    J: IntoSystemParameterRequest,
    K: IntoSystemParameterRequest,
    L: IntoSystemParameterRequest,
    M: IntoSystemParameterRequest,
    N: IntoSystemParameterRequest,
>()
    ensures
        <(A, B, C, D, E, F, G, H, I, J, K, L, M, N) as SystemParameters>::spec_parameters().len()
            == 14,
        <(A, B, C, D, E, F, G, H, I, J, K, L, M, N) as SystemParameters>::spec_parameters()[0]
            == A::spec_parameter(),
        <(A, B, C, D, E, F, G, H, I, J, K, L, M, N) as SystemParameters>::spec_parameters()[1]
            == B::spec_parameter(),
        <(A, B, C, D, E, F, G, H, I, J, K, L, M, N) as SystemParameters>::spec_parameters()[2]
            == C::spec_parameter(),
        <(A, B, C, D, E, F, G, H, I, J, K, L, M, N) as SystemParameters>::spec_parameters()[3]
            == D::spec_parameter(),
        <(A, B, C, D, E, F, G, H, I, J, K, L, M, N) as SystemParameters>::spec_parameters()[4]
            == E::spec_parameter(),
        <(A, B, C, D, E, F, G, H, I, J, K, L, M, N) as SystemParameters>::spec_parameters()[5]
            == F::spec_parameter(),
        <(A, B, C, D, E, F, G, H, I, J, K, L, M, N) as SystemParameters>::spec_parameters()[6]
            == G::spec_parameter(),
        <(A, B, C, D, E, F, G, H, I, J, K, L, M, N) as SystemParameters>::spec_parameters()[7]
            == H::spec_parameter(),
        <(A, B, C, D, E, F, G, H, I, J, K, L, M, N) as SystemParameters>::spec_parameters()[8]
            == I::spec_parameter(),
        <(A, B, C, D, E, F, G, H, I, J, K, L, M, N) as SystemParameters>::spec_parameters()[9]
            == J::spec_parameter(),
        <(A, B, C, D, E, F, G, H, I, J, K, L, M, N) as SystemParameters>::spec_parameters()[10]
            == K::spec_parameter(),
        <(A, B, C, D, E, F, G, H, I, J, K, L, M, N) as SystemParameters>::spec_parameters()[11]
            == L::spec_parameter(),
        <(A, B, C, D, E, F, G, H, I, J, K, L, M, N) as SystemParameters>::spec_parameters()[12]
            == M::spec_parameter(),
        <(A, B, C, D, E, F, G, H, I, J, K, L, M, N) as SystemParameters>::spec_parameters()[13]
            == N::spec_parameter(),
{
}

/// The fifteen arguments of a query: there is a request for each of them, in order.
pub proof fn lemma_fifteen_arguments<
    A: QueryArgument,
    B: QueryArgument,
    C: QueryArgument,
    D: QueryArgument,
    E: QueryArgument,
    F: QueryArgument,
    G: QueryArgument,
    H: QueryArgument,
    I: QueryArgument,
    J: QueryArgument,
    K: QueryArgument,
    L: QueryArgument,
    M: QueryArgument,
    N: QueryArgument,
    O: QueryArgument,
>()
    ensures
        <(A, B, C, D, E, F, G, H, I, J, K, L, M, N, O) as QueryArguments>::spec_requests().len()
            == 15,
        <(A, B, C, D, E, F, G, H, I, J, K, L, M, N, O) as QueryArguments>::spec_requests()[0]
            == A::spec_request(),
        <(A, B, C, D, E, F, G, H, I, J, K, L, M, N, O) as QueryArguments>::spec_requests()[1]
            == B::spec_request(),
        <(A, B, C, D, E, F, G, H, I, J, K, L, M, N, O) as QueryArguments>::spec_requests()[2]
            == C::spec_request(),
        <(A, B, C, D, E, F, G, H, I, J, K, L, M, N, O) as QueryArguments>::spec_requests()[3]
            == D::spec_request(),
        <(A, B, C, D, E, F, G, H, I, J, K, L, M, N, O) as QueryArguments>::spec_requests()[4]
            == E::spec_request(),
        <(A, B, C, D, E, F, G, H, I, J, K, L, M, N, O) as QueryArguments>::spec_requests()[5]
            == F::spec_request(),
        <(A, B, C, D, E, F, G, H, I, J, K, L, M, N, O) as QueryArguments>::spec_requests()[6]
            == G::spec_request(),
        <(A, B, C, D, E, F, G, H, I, J, K, L, M, N, O) as QueryArguments>::spec_requests()[7]
            == H::spec_request(),
        <(A, B, C, D, E, F, G, H, I, J, K, L, M, N, O) as QueryArguments>::spec_requests()[8]
            == I::spec_request(),
        <(A, B, C, D, E, F, G, H, I, J, K, L, M, N, O) as QueryArguments>::spec_requests()[9]
            == J::spec_request(),
        <(A, B, C, D, E, F, G, H, I, J, K, L, M, N, O) as QueryArguments>::spec_requests()[10]
            == K::spec_request(),
        <(A, B, C, D, E, F, G, H, I, J, K, L, M, N, O) as QueryArguments>::spec_requests()[11]
            == L::spec_request(),
        <(A, B, C, D, E, F, G, H, I, J, K, L, M, N, O) as QueryArguments>::spec_requests()[12]
            == M::spec_request(),
        <(A, B, C, D, E, F, G, H, I, J, K, L, M, N, O) as QueryArguments>::spec_requests()[13]
            == N::spec_request(),
        <(A, B, C, D, E, F, G, H, I, J, K, L, M, N, O) as QueryArguments>::spec_requests()[14]
            == O::spec_request(),
{
}

/// The fifteen filters of a query: there is a request for each of them, in order.
pub proof fn lemma_fifteen_filters<
    A: QueryFilter,
    B: QueryFilter,
    C: QueryFilter,
    D: QueryFilter,
    E: QueryFilter,
    F: QueryFilter,
    G: QueryFilter,
    H: QueryFilter,
    I: QueryFilter,
    J: QueryFilter,
    K: QueryFilter,
    L: QueryFilter,
    M: QueryFilter,
    N: QueryFilter,
    O: QueryFilter,
>()
    ensures
        <(A, B, C, D, E, F, G, H, I, J, K, L, M, N, O) as QueryFilters>::spec_requests().len()
            == 15,
        <(A, B, C, D, E, F, G, H, I, J, K, L, M, N, O) as QueryFilters>::spec_requests()[0]
            == A::spec_request(),
        <(A, B, C, D, E, F, G, H, I, J, K, L, M, N, O) as QueryFilters>::spec_requests()[1]
            == B::spec_request(),
        <(A, B, C, D, E, F, G, H, I, J, K, L, M, N, O) as QueryFilters>::spec_requests()[2]
            == C::spec_request(),
        <(A, B, C, D, E, F, G, H, I, J, K, L, M, N, O) as QueryFilters>::spec_requests()[3]
            == D::spec_request(),
        <(A, B, C, D, E, F, G, H, I, J, K, L, M, N, O) as QueryFilters>::spec_requests()[4]
            == E::spec_request(),
        <(A, B, C, D, E, F, G, H, I, J, K, L, M, N, O) as QueryFilters>::spec_requests()[5]
            == F::spec_request(),
        <(A, B, C, D, E, F, G, H, I, J, K, L, M, N, O) as QueryFilters>::spec_requests()[6]
            == G::spec_request(),
        <(A, B, C, D, E, F, G, H, I, J, K, L, M, N, O) as QueryFilters>::spec_requests()[7]
            == H::spec_request(),
        <(A, B, C, D, E, F, G, H, I, J, K, L, M, N, O) as QueryFilters>::spec_requests()[8]
            == I::spec_request(),
        <(A, B, C, D, E, F, G, H, I, J, K, L, M, N, O) as QueryFilters>::spec_requests()[9]
            == J::spec_request(),
        <(A, B, C, D, E, F, G, H, I, J, K, L, M, N, O) as QueryFilters>::spec_requests()[10]
            == K::spec_request(),
        <(A, B, C, D, E, F, G, H, I, J, K, L, M, N, O) as QueryFilters>::spec_requests()[11]
            == L::spec_request(),
        <(A, B, C, D, E, F, G, H, I, J, K, L, M, N, O) as QueryFilters>::spec_requests()[12]
            == M::spec_request(),
        <(A, B, C, D, E, F, G, H, I, J, K, L, M, N, O) as QueryFilters>::spec_requests()[13]
            == N::spec_request(),
        <(A, B, C, D, E, F, G, H, I, J, K, L, M, N, O) as QueryFilters>::spec_requests()[14]
            == O::spec_request(),
{
}

/// The fifteen parameters of a system: there is a request for each of them, in order.
pub proof fn lemma_fifteen_parameters<
    A: IntoSystemParameterRequest,
    B: IntoSystemParameterRequest,
    C: IntoSystemParameterRequest,
    D: IntoSystemParameterRequest,
    E: IntoSystemParameterRequest,
    F: IntoSystemParameterRequest,
    G: IntoSystemParameterRequest,
    H: IntoSystemParameterRequest,
    I: IntoSystemParameterRequest,
    J: IntoSystemParameterRequest,
    K: IntoSystemParameterRequest,
    L: IntoSystemParameterRequest,
    M: IntoSystemParameterRequest,
    N: IntoSystemParameterRequest,
    O: IntoSystemParameterRequest,
>()
    ensures
        <(A, B, C, D, E, F, G, H, I, J, K, L, M, N, O) as SystemParameters>::spec_parameters().len()
            == 15,
        <(A, B, C, D, E, F, G, H, I, J, K, L, M, N, O) as SystemParameters>::spec_parameters()[0]
            == A::spec_parameter(),
        <(A, B, C, D, E, F, G, H, I, J, K, L, M, N, O) as SystemParameters>::spec_parameters()[1]
            == B::spec_parameter(),
        <(A, B, C, D, E, F, G, H, I, J, K, L, M, N, O) as SystemParameters>::spec_parameters()[2]
            == C::spec_parameter(),
        <(A, B, C, D, E, F, G, H, I, J, K, L, M, N, O) as SystemParameters>::spec_parameters()[3]
            == D::spec_parameter(),
        <(A, B, C, D, E, F, G, H, I, J, K, L, M, N, O) as SystemParameters>::spec_parameters()[4]
            == E::spec_parameter(),
        <(A, B, C, D, E, F, G, H, I, J, K, L, M, N, O) as SystemParameters>::spec_parameters()[5]
            == F::spec_parameter(),
        <(A, B, C, D, E, F, G, H, I, J, K, L, M, N, O) as SystemParameters>::spec_parameters()[6]
            == G::spec_parameter(),
        <(A, B, C, D, E, F, G, H, I, J, K, L, M, N, O) as SystemParameters>::spec_parameters()[7]
            == H::spec_parameter(),
        <(A, B, C, D, E, F, G, H, I, J, K, L, M, N, O) as SystemParameters>::spec_parameters()[8]
            == I::spec_parameter(),
        <(A, B, C, D, E, F, G, H, I, J, K, L, M, N, O) as SystemParameters>::spec_parameters()[9]
            == J::spec_parameter(),
        <(A, B, C, D, E, F, G, H, I, J, K, L, M, N, O) as SystemParameters>::spec_parameters()[10]
            == K::spec_parameter(),
        <(A, B, C, D, E, F, G, H, I, J, K, L, M, N, O) as SystemParameters>::spec_parameters()[11]
            == L::spec_parameter(),
        <(A, B, C, D, E, F, G, H, I, J, K, L, M, N, O) as SystemParameters>::spec_parameters()[12]
            == M::spec_parameter(),
        <(A, B, C, D, E, F, G, H, I, J, K, L, M, N, O) as SystemParameters>::spec_parameters()[13]
            == N::spec_parameter(),
        <(A, B, C, D, E, F, G, H, I, J, K, L, M, N, O) as SystemParameters>::spec_parameters()[14]
            == O::spec_parameter(),
{
}

/// The sixteen arguments of a query: there is a request for each of them, in order.
pub proof fn lemma_sixteen_arguments<
    A: QueryArgument,
    B: QueryArgument,
    C: QueryArgument,
    D: QueryArgument,
    E: QueryArgument,
    F: QueryArgument,
    G: QueryArgument,
    H: QueryArgument,
    I: QueryArgument,
    J: QueryArgument,
    K: QueryArgument,
    L: QueryArgument,
    M: QueryArgument,
    N: QueryArgument,
    O: QueryArgument,
    P: QueryArgument,
>()
    ensures
        <(A, B, C, D, E, F, G, H, I, J, K, L, M, N, O, P) as QueryArguments>::spec_requests().len()
            == 16,
        <(A, B, C, D, E, F, G, H, I, J, K, L, M, N, O, P) as QueryArguments>::spec_requests()[0]
            == A::spec_request(),
        <(A, B, C, D, E, F, G, H, I, J, K, L, M, N, O, P) as QueryArguments>::spec_requests()[1]
            == B::spec_request(),
        <(A, B, C, D, E, F, G, H, I, J, K, L, M, N, O, P) as QueryArguments>::spec_requests()[2]
            == C::spec_request(),
        <(A, B, C, D, E, F, G, H, I, J, K, L, M, N, O, P) as QueryArguments>::spec_requests()[3]
            == D::spec_request(),
        <(A, B, C, D, E, F, G, H, I, J, K, L, M, N, O, P) as QueryArguments>::spec_requests()[4]
            == E::spec_request(),
        <(A, B, C, D, E, F, G, H, I, J, K, L, M, N, O, P) as QueryArguments>::spec_requests()[5]
            == F::spec_request(),
        <(A, B, C, D, E, F, G, H, I, J, K, L, M, N, O, P) as QueryArguments>::spec_requests()[6]
            == G::spec_request(),
        <(A, B, C, D, E, F, G, H, I, J, K, L, M, N, O, P) as QueryArguments>::spec_requests()[7]
            == H::spec_request(),
        <(A, B, C, D, E, F, G, H, I, J, K, L, M, N, O, P) as QueryArguments>::spec_requests()[8]
            == I::spec_request(),
        <(A, B, C, D, E, F, G, H, I, J, K, L, M, N, O, P) as QueryArguments>::spec_requests()[9]
            == J::spec_request(),
        <(A, B, C, D, E, F, G, H, I, J, K, L, M, N, O, P) as QueryArguments>::spec_requests()[10]
            == K::spec_request(),
        <(A, B, C, D, E, F, G, H, I, J, K, L, M, N, O, P) as QueryArguments>::spec_requests()[11]
            == L::spec_request(),
        <(A, B, C, D, E, F, G, H, I, J, K, L, M, N, O, P) as QueryArguments>::spec_requests()[12]
            == M::spec_request(),
        <(A, B, C, D, E, F, G, H, I, J, K, L, M, N, O, P) as QueryArguments>::spec_requests()[13]
            == N::spec_request(),
        <(A, B, C, D, E, F, G, H, I, J, K, L, M, N, O, P) as QueryArguments>::spec_requests()[14]
            == O::spec_request(),
        <(A, B, C, D, E, F, G, H, I, J, K, L, M, N, O, P) as QueryArguments>::spec_requests()[15]
            == P::spec_request(),
{
}

/// The sixteen filters of a query: there is a request for each of them, in order.
pub proof fn lemma_sixteen_filters<
    A: QueryFilter,
    B: QueryFilter,
    C: QueryFilter,
    D: QueryFilter,
    E: QueryFilter,
    F: QueryFilter,
    G: QueryFilter,
    H: QueryFilter,
    I: QueryFilter,
    J: QueryFilter,
    K: QueryFilter,
    L: QueryFilter,
    M: QueryFilter,
    N: QueryFilter,
    O: QueryFilter,
    P: QueryFilter,
>()
    ensures
        <(A, B, C, D, E, F, G, H, I, J, K, L, M, N, O, P) as QueryFilters>::spec_requests().len()
            == 16,
        <(A, B, C, D, E, F, G, H, I, J, K, L, M, N, O, P) as QueryFilters>::spec_requests()[0]
            == A::spec_request(),
        <(A, B, C, D, E, F, G, H, I, J, K, L, M, N, O, P) as QueryFilters>::spec_requests()[1]
            == B::spec_request(),
        <(A, B, C, D, E, F, G, H, I, J, K, L, M, N, O, P) as QueryFilters>::spec_requests()[2]
            == C::spec_request(),
        <(A, B, C, D, E, F, G, H, I, J, K, L, M, N, O, P) as QueryFilters>::spec_requests()[3]
            == D::spec_request(),
        <(A, B, C, D, E, F, G, H, I, J, K, L, M, N, O, P) as QueryFilters>::spec_requests()[4]
            == E::spec_request(),
        <(A, B, C, D, E, F, G, H, I, J, K, L, M, N, O, P) as QueryFilters>::spec_requests()[5]
            == F::spec_request(),
        <(A, B, C, D, E, F, G, H, I, J, K, L, M, N, O, P) as QueryFilters>::spec_requests()[6]
            == G::spec_request(),
        <(A, B, C, D, E, F, G, H, I, J, K, L, M, N, O, P) as QueryFilters>::spec_requests()[7]
            == H::spec_request(),
        <(A, B, C, D, E, F, G, H, I, J, K, L, M, N, O, P) as QueryFilters>::spec_requests()[8]
            == I::spec_request(),
        <(A, B, C, D, E, F, G, H, I, J, K, L, M, N, O, P) as QueryFilters>::spec_requests()[9]
            == J::spec_request(),
        <(A, B, C, D, E, F, G, H, I, J, K, L, M, N, O, P) as QueryFilters>::spec_requests()[10]
            == K::spec_request(),
        <(A, B, C, D, E, F, G, H, I, J, K, L, M, N, O, P) as QueryFilters>::spec_requests()[11]
            == L::spec_request(),
        <(A, B, C, D, E, F, G, H, I, J, K, L, M, N, O, P) as QueryFilters>::spec_requests()[12]
            == M::spec_request(),
        <(A, B, C, D, E, F, G, H, I, J, K, L, M, N, O, P) as QueryFilters>::spec_requests()[13]
            == N::spec_request(),
        <(A, B, C, D, E, F, G, H, I, J, K, L, M, N, O, P) as QueryFilters>::spec_requests()[14]
            == O::spec_request(),
        <(A, B, C, D, E, F, G, H, I, J, K, L, M, N, O, P) as QueryFilters>::spec_requests()[15]
            == P::spec_request(),
{
}

/// The sixteen parameters of a system: there is a request for each of them, in order.
pub proof fn lemma_sixteen_parameters<
    A: IntoSystemParameterRequest,
    B: IntoSystemParameterRequest,
    C: IntoSystemParameterRequest,
    D: IntoSystemParameterRequest,
    E: IntoSystemParameterRequest,
    F: IntoSystemParameterRequest,
    G: IntoSystemParameterRequest,
    H: IntoSystemParameterRequest,
    I: IntoSystemParameterRequest,
    J: IntoSystemParameterRequest,
    K: IntoSystemParameterRequest,
    L: IntoSystemParameterRequest,
    M: IntoSystemParameterRequest,
    N: IntoSystemParameterRequest,
    O: IntoSystemParameterRequest,
    P: IntoSystemParameterRequest,
>()
    ensures
        <(A, B, C, D, E, F, G, H, I, J, K, L, M, N, O, P) as SystemParameters>::spec_parameters().len()
            == 16,
        <(A, B, C, D, E, F, G, H, I, J, K, L, M, N, O, P) as SystemParameters>::spec_parameters()[0]
            == A::spec_parameter(),
        <(A, B, C, D, E, F, G, H, I, J, K, L, M, N, O, P) as SystemParameters>::spec_parameters()[1]
            == B::spec_parameter(),
        <(A, B, C, D, E, F, G, H, I, J, K, L, M, N, O, P) as SystemParameters>::spec_parameters()[2]
            == C::spec_parameter(),
        <(A, B, C, D, E, F, G, H, I, J, K, L, M, N, O, P) as SystemParameters>::spec_parameters()[3]
            == D::spec_parameter(),
        <(A, B, C, D, E, F, G, H, I, J, K, L, M, N, O, P) as SystemParameters>::spec_parameters()[4]
            == E::spec_parameter(),
        <(A, B, C, D, E, F, G, H, I, J, K, L, M, N, O, P) as SystemParameters>::spec_parameters()[5]
            == F::spec_parameter(),
        <(A, B, C, D, E, F, G, H, I, J, K, L, M, N, O, P) as SystemParameters>::spec_parameters()[6]
            == G::spec_parameter(),
        <(A, B, C, D, E, F, G, H, I, J, K, L, M, N, O, P) as SystemParameters>::spec_parameters()[7]
            == H::spec_parameter(),
        <(A, B, C, D, E, F, G, H, I, J, K, L, M, N, O, P) as SystemParameters>::spec_parameters()[8]
            == I::spec_parameter(),
        <(A, B, C, D, E, F, G, H, I, J, K, L, M, N, O, P) as SystemParameters>::spec_parameters()[9]
            == J::spec_parameter(),
        <(A, B, C, D, E, F, G, H, I, J, K, L, M, N, O, P) as SystemParameters>::spec_parameters()[10]
            == K::spec_parameter(),
        <(A, B, C, D, E, F, G, H, I, J, K, L, M, N, O, P) as SystemParameters>::spec_parameters()[11]
            == L::spec_parameter(),
        <(A, B, C, D, E, F, G, H, I, J, K, L, M, N, O, P) as SystemParameters>::spec_parameters()[12]
            == M::spec_parameter(),
        <(A, B, C, D, E, F, G, H, I, J, K, L, M, N, O, P) as SystemParameters>::spec_parameters()[13]
            == N::spec_parameter(),
        <(A, B, C, D, E, F, G, H, I, J, K, L, M, N, O, P) as SystemParameters>::spec_parameters()[14]
            == O::spec_parameter(),
        <(A, B, C, D, E, F, G, H, I, J, K, L, M, N, O, P) as SystemParameters>::spec_parameters()[15]
            == P::spec_parameter(),
{
}

} // verus!
