//! Queries and systems with up to sixteen parts.

use crate::schedule::error::SystemParameterConflictError;
use crate::schedule::query::{
    IntoSystemParameterRequest, QueryArgument, QueryArguments, QueryFilter, QueryFilters,
};
use crate::schedule::request::{ComponentRequest, Parameter, SystemParameterRequest};
use crate::schedule::system::{build_system, BoxedSystem, IntoSystem, SystemParameters};
use vstd::prelude::*;

verus! {

impl<A: QueryArgument> QueryArguments for (A,) {
    open spec fn spec_requests() -> Seq<ComponentRequest> {
        seq![
            A::spec_request(),
        ]
    }

    fn iter() -> (requests: Vec<ComponentRequest>) {
        vec![
            A::into_component_request(),
        ]
    }
}

impl<A: QueryArgument, B: QueryArgument> QueryArguments for (A, B) {
    open spec fn spec_requests() -> Seq<ComponentRequest> {
        seq![
            A::spec_request(),
            B::spec_request(),
        ]
    }

    fn iter() -> (requests: Vec<ComponentRequest>) {
        vec![
            A::into_component_request(),
            B::into_component_request(),
        ]
    }
}

impl<A: QueryArgument, B: QueryArgument, C: QueryArgument> QueryArguments for (A, B, C) {
    open spec fn spec_requests() -> Seq<ComponentRequest> {
        seq![
            A::spec_request(),
            B::spec_request(),
            C::spec_request(),
        ]
    }

    fn iter() -> (requests: Vec<ComponentRequest>) {
        vec![
            A::into_component_request(),
            B::into_component_request(),
            C::into_component_request(),
        ]
    }
}

impl<
    A: QueryArgument,
    B: QueryArgument,
    C: QueryArgument,
    D: QueryArgument,
> QueryArguments for (A, B, C, D) {
    open spec fn spec_requests() -> Seq<ComponentRequest> {
        seq![
            A::spec_request(),
            B::spec_request(),
            C::spec_request(),
            D::spec_request(),
        ]
    }

    fn iter() -> (requests: Vec<ComponentRequest>) {
        vec![
            A::into_component_request(),
            B::into_component_request(),
            C::into_component_request(),
            D::into_component_request(),
        ]
    }
}

impl<
    A: QueryArgument,
    B: QueryArgument,
    C: QueryArgument,
    D: QueryArgument,
    E: QueryArgument,
> QueryArguments for (A, B, C, D, E) {
    open spec fn spec_requests() -> Seq<ComponentRequest> {
        seq![
            A::spec_request(),
            B::spec_request(),
            C::spec_request(),
            D::spec_request(),
            E::spec_request(),
        ]
    }

    fn iter() -> (requests: Vec<ComponentRequest>) {
        vec![
            A::into_component_request(),
            B::into_component_request(),
            C::into_component_request(),
            D::into_component_request(),
            E::into_component_request(),
        ]
    }
}

impl<
    A: QueryArgument,
    B: QueryArgument,
    C: QueryArgument,
    D: QueryArgument,
    E: QueryArgument,
    F: QueryArgument,
> QueryArguments for (A, B, C, D, E, F) {
    open spec fn spec_requests() -> Seq<ComponentRequest> {
        seq![
            A::spec_request(),
            B::spec_request(),
            C::spec_request(),
            D::spec_request(),
            E::spec_request(),
            F::spec_request(),
        ]
    }

    fn iter() -> (requests: Vec<ComponentRequest>) {
        vec![
            A::into_component_request(),
            B::into_component_request(),
            C::into_component_request(),
            D::into_component_request(),
            E::into_component_request(),
            F::into_component_request(),
        ]
    }
}

impl<
    A: QueryArgument,
    B: QueryArgument,
    C: QueryArgument,
    D: QueryArgument,
    E: QueryArgument,
    F: QueryArgument,
    G: QueryArgument,
> QueryArguments for (A, B, C, D, E, F, G) {
    open spec fn spec_requests() -> Seq<ComponentRequest> {
        seq![
            A::spec_request(),
            B::spec_request(),
            C::spec_request(),
            D::spec_request(),
            E::spec_request(),
            F::spec_request(),
            G::spec_request(),
        ]
    }

    fn iter() -> (requests: Vec<ComponentRequest>) {
        vec![
            A::into_component_request(),
            B::into_component_request(),
            C::into_component_request(),
            D::into_component_request(),
            E::into_component_request(),
            F::into_component_request(),
            G::into_component_request(),
        ]
    }
}

impl<
    A: QueryArgument,
    B: QueryArgument,
    C: QueryArgument,
    D: QueryArgument,
    E: QueryArgument,
    F: QueryArgument,
    G: QueryArgument,
    H: QueryArgument,
> QueryArguments for (A, B, C, D, E, F, G, H) {
    open spec fn spec_requests() -> Seq<ComponentRequest> {
        seq![
            A::spec_request(),
            B::spec_request(),
            C::spec_request(),
            D::spec_request(),
            E::spec_request(),
            F::spec_request(),
            G::spec_request(),
            H::spec_request(),
        ]
    }

    fn iter() -> (requests: Vec<ComponentRequest>) {
        vec![
            A::into_component_request(),
            B::into_component_request(),
            C::into_component_request(),
            D::into_component_request(),
            E::into_component_request(),
            F::into_component_request(),
            G::into_component_request(),
            H::into_component_request(),
        ]
    }
}

impl<
    A: QueryArgument,
    B: QueryArgument,
    C: QueryArgument,
    D: QueryArgument,
    E: QueryArgument,
    F: QueryArgument,
    G: QueryArgument,
    H: QueryArgument,
    I: QueryArgument,
> QueryArguments for (A, B, C, D, E, F, G, H, I) {
    open spec fn spec_requests() -> Seq<ComponentRequest> {
        seq![
            A::spec_request(),
            B::spec_request(),
            C::spec_request(),
            D::spec_request(),
            E::spec_request(),
            F::spec_request(),
            G::spec_request(),
            H::spec_request(),
            I::spec_request(),
        ]
    }

    fn iter() -> (requests: Vec<ComponentRequest>) {
        vec![
            A::into_component_request(),
            B::into_component_request(),
            C::into_component_request(),
            D::into_component_request(),
            E::into_component_request(),
            F::into_component_request(),
            G::into_component_request(),
            H::into_component_request(),
            I::into_component_request(),
        ]
    }
}

impl<
    A: QueryArgument,
    B: QueryArgument,
    C: QueryArgument,
    D: QueryArgument,
    E: QueryArgument,
    F: QueryArgument,
    G: QueryArgument,
    H: QueryArgument,
    I: QueryArgument,
    J: QueryArgument,
> QueryArguments for (A, B, C, D, E, F, G, H, I, J) {
    open spec fn spec_requests() -> Seq<ComponentRequest> {
        seq![
            A::spec_request(),
            B::spec_request(),
            C::spec_request(),
            D::spec_request(),
            E::spec_request(),
            F::spec_request(),
            G::spec_request(),
            H::spec_request(),
            I::spec_request(),
            J::spec_request(),
        ]
    }

    fn iter() -> (requests: Vec<ComponentRequest>) {
        vec![
            A::into_component_request(),
            B::into_component_request(),
            C::into_component_request(),
            D::into_component_request(),
            E::into_component_request(),
            F::into_component_request(),
            G::into_component_request(),
            H::into_component_request(),
            I::into_component_request(),
            J::into_component_request(),
        ]
    }
}

impl<
    A: QueryArgument,
    B: QueryArgument,
    C: QueryArgument,
    D: QueryArgument,
    E: QueryArgument,
    F: QueryArgument,
    G: QueryArgument,
    H: QueryArgument,
    I: QueryArgument,
    J: QueryArgument,
    K: QueryArgument,
> QueryArguments for (A, B, C, D, E, F, G, H, I, J, K) {
    open spec fn spec_requests() -> Seq<ComponentRequest> {
        seq![
            A::spec_request(),
            B::spec_request(),
            C::spec_request(),
            D::spec_request(),
            E::spec_request(),
            F::spec_request(),
            G::spec_request(),
            H::spec_request(),
            I::spec_request(),
            J::spec_request(),
            K::spec_request(),
        ]
    }

    fn iter() -> (requests: Vec<ComponentRequest>) {
        vec![
            A::into_component_request(),
            B::into_component_request(),
            C::into_component_request(),
            D::into_component_request(),
            E::into_component_request(),
            F::into_component_request(),
            G::into_component_request(),
            H::into_component_request(),
            I::into_component_request(),
            J::into_component_request(),
            K::into_component_request(),
        ]
    }
}

impl<
    A: QueryArgument,
    B: QueryArgument,
    C: QueryArgument,
    D: QueryArgument,
    E: QueryArgument,
    F: QueryArgument,
    G: QueryArgument,
    H: QueryArgument,
    I: QueryArgument,
    J: QueryArgument,
    K: QueryArgument,
    L: QueryArgument,
> QueryArguments for (A, B, C, D, E, F, G, H, I, J, K, L) {
    open spec fn spec_requests() -> Seq<ComponentRequest> {
        seq![
            A::spec_request(),
            B::spec_request(),
            C::spec_request(),
            D::spec_request(),
            E::spec_request(),
            F::spec_request(),
            G::spec_request(),
            H::spec_request(),
            I::spec_request(),
            J::spec_request(),
            K::spec_request(),
            L::spec_request(),
        ]
    }

    fn iter() -> (requests: Vec<ComponentRequest>) {
        vec![
            A::into_component_request(),
            B::into_component_request(),
            C::into_component_request(),
            D::into_component_request(),
            E::into_component_request(),
            F::into_component_request(),
            G::into_component_request(),
            H::into_component_request(),
            I::into_component_request(),
            J::into_component_request(),
            K::into_component_request(),
            L::into_component_request(),
        ]
    }
}

impl<
    A: QueryArgument,
    B: QueryArgument,
    C: QueryArgument,
    D: QueryArgument,
    E: QueryArgument,
    F: QueryArgument,
    G: QueryArgument,
    H: QueryArgument,
    I: QueryArgument,
    J: QueryArgument,
    K: QueryArgument,
    L: QueryArgument,
    M: QueryArgument,
> QueryArguments for (A, B, C, D, E, F, G, H, I, J, K, L, M) {
    open spec fn spec_requests() -> Seq<ComponentRequest> {
        seq![
            A::spec_request(),
            B::spec_request(),
            C::spec_request(),
            D::spec_request(),
            E::spec_request(),
            F::spec_request(),
            G::spec_request(),
            H::spec_request(),
            I::spec_request(),
            J::spec_request(),
            K::spec_request(),
            L::spec_request(),
            M::spec_request(),
        ]
    }

    fn iter() -> (requests: Vec<ComponentRequest>) {
        vec![
            A::into_component_request(),
            B::into_component_request(),
            C::into_component_request(),
            D::into_component_request(),
            E::into_component_request(),
            F::into_component_request(),
            G::into_component_request(),
            H::into_component_request(),
            I::into_component_request(),
            J::into_component_request(),
            K::into_component_request(),
            L::into_component_request(),
            M::into_component_request(),
        ]
    }
}

impl<
    A: QueryArgument,
    B: QueryArgument,
    C: QueryArgument,
    D: QueryArgument,
    E: QueryArgument,
    F: QueryArgument,
    G: QueryArgument,
    H: QueryArgument,
    I: QueryArgument,
    J: QueryArgument,
    K: QueryArgument,
    L: QueryArgument,
    M: QueryArgument,
    N: QueryArgument,
> QueryArguments for (A, B, C, D, E, F, G, H, I, J, K, L, M, N) {
    open spec fn spec_requests() -> Seq<ComponentRequest> {
        seq![
            A::spec_request(),
            B::spec_request(),
            C::spec_request(),
            D::spec_request(),
            E::spec_request(),
            F::spec_request(),
            G::spec_request(),
            H::spec_request(),
            I::spec_request(),
            J::spec_request(),
            K::spec_request(),
            L::spec_request(),
            M::spec_request(),
            N::spec_request(),
        ]
    }

    fn iter() -> (requests: Vec<ComponentRequest>) {
        vec![
            A::into_component_request(),
            B::into_component_request(),
            C::into_component_request(),
            D::into_component_request(),
            E::into_component_request(),
            F::into_component_request(),
            G::into_component_request(),
            H::into_component_request(),
            I::into_component_request(),
            J::into_component_request(),
            K::into_component_request(),
            L::into_component_request(),
            M::into_component_request(),
            N::into_component_request(),
        ]
    }
}

impl<
    A: QueryArgument,
    B: QueryArgument,
    C: QueryArgument,
    D: QueryArgument,
    E: QueryArgument,
    F: QueryArgument,
    G: QueryArgument,
    H: QueryArgument,
    I: QueryArgument,
    J: QueryArgument,
    K: QueryArgument,
    L: QueryArgument,
    M: QueryArgument,
    N: QueryArgument,
    O: QueryArgument,
> QueryArguments for (A, B, C, D, E, F, G, H, I, J, K, L, M, N, O) {
    open spec fn spec_requests() -> Seq<ComponentRequest> {
        seq![
            A::spec_request(),
            B::spec_request(),
            C::spec_request(),
            D::spec_request(),
            E::spec_request(),
            F::spec_request(),
            G::spec_request(),
            H::spec_request(),
            I::spec_request(),
            J::spec_request(),
            K::spec_request(),
            L::spec_request(),
            M::spec_request(),
            N::spec_request(),
            O::spec_request(),
        ]
    }

    fn iter() -> (requests: Vec<ComponentRequest>) {
        vec![
            A::into_component_request(),
            B::into_component_request(),
            C::into_component_request(),
            D::into_component_request(),
            E::into_component_request(),
            F::into_component_request(),
            G::into_component_request(),
            H::into_component_request(),
            I::into_component_request(),
            J::into_component_request(),
            K::into_component_request(),
            L::into_component_request(),
            M::into_component_request(),
            N::into_component_request(),
            O::into_component_request(),
        ]
    }
}

impl<
    A: QueryArgument,
    B: QueryArgument,
    C: QueryArgument,
    D: QueryArgument,
    E: QueryArgument,
    F: QueryArgument,
    G: QueryArgument,
    H: QueryArgument,
    I: QueryArgument,
    J: QueryArgument,
    K: QueryArgument,
    L: QueryArgument,
    M: QueryArgument,
    N: QueryArgument,
    O: QueryArgument,
    P: QueryArgument,
> QueryArguments for (A, B, C, D, E, F, G, H, I, J, K, L, M, N, O, P) {
    open spec fn spec_requests() -> Seq<ComponentRequest> {
        seq![
            A::spec_request(),
            B::spec_request(),
            C::spec_request(),
            D::spec_request(),
            E::spec_request(),
            F::spec_request(),
            G::spec_request(),
            H::spec_request(),
            I::spec_request(),
            J::spec_request(),
            K::spec_request(),
            L::spec_request(),
            M::spec_request(),
            N::spec_request(),
            O::spec_request(),
            P::spec_request(),
        ]
    }

    fn iter() -> (requests: Vec<ComponentRequest>) {
        vec![
            A::into_component_request(),
            B::into_component_request(),
            C::into_component_request(),
            D::into_component_request(),
            E::into_component_request(),
            F::into_component_request(),
            G::into_component_request(),
            H::into_component_request(),
            I::into_component_request(),
            J::into_component_request(),
            K::into_component_request(),
            L::into_component_request(),
            M::into_component_request(),
            N::into_component_request(),
            O::into_component_request(),
            P::into_component_request(),
        ]
    }
}

impl<A: QueryFilter> QueryFilters for (A,) {
    open spec fn spec_requests() -> Seq<ComponentRequest> {
        seq![
            A::spec_request(),
        ]
    }

    fn iter() -> (requests: Vec<ComponentRequest>) {
        vec![
            A::into_component_request(),
        ]
    }
}

impl<A: QueryFilter, B: QueryFilter> QueryFilters for (A, B) {
    open spec fn spec_requests() -> Seq<ComponentRequest> {
        seq![
            A::spec_request(),
            B::spec_request(),
        ]
    }

    fn iter() -> (requests: Vec<ComponentRequest>) {
        vec![
            A::into_component_request(),
            B::into_component_request(),
        ]
    }
}

impl<A: QueryFilter, B: QueryFilter, C: QueryFilter> QueryFilters for (A, B, C) {
    open spec fn spec_requests() -> Seq<ComponentRequest> {
        seq![
            A::spec_request(),
            B::spec_request(),
            C::spec_request(),
        ]
    }

    fn iter() -> (requests: Vec<ComponentRequest>) {
        vec![
            A::into_component_request(),
            B::into_component_request(),
            C::into_component_request(),
        ]
    }
}

impl<A: QueryFilter, B: QueryFilter, C: QueryFilter, D: QueryFilter> QueryFilters for (A, B, C, D) {
    open spec fn spec_requests() -> Seq<ComponentRequest> {
        seq![
            A::spec_request(),
            B::spec_request(),
            C::spec_request(),
            D::spec_request(),
        ]
    }

    fn iter() -> (requests: Vec<ComponentRequest>) {
        vec![
            A::into_component_request(),
            B::into_component_request(),
            C::into_component_request(),
            D::into_component_request(),
        ]
    }
}

impl<
    A: QueryFilter,
    B: QueryFilter,
    C: QueryFilter,
    D: QueryFilter,
    E: QueryFilter,
> QueryFilters for (A, B, C, D, E) {
    open spec fn spec_requests() -> Seq<ComponentRequest> {
        seq![
            A::spec_request(),
            B::spec_request(),
            C::spec_request(),
            D::spec_request(),
            E::spec_request(),
        ]
    }

    fn iter() -> (requests: Vec<ComponentRequest>) {
        vec![
            A::into_component_request(),
            B::into_component_request(),
            C::into_component_request(),
            D::into_component_request(),
            E::into_component_request(),
        ]
    }
}

impl<
    A: QueryFilter,
    B: QueryFilter,
    C: QueryFilter,
    D: QueryFilter,
    E: QueryFilter,
    F: QueryFilter,
> QueryFilters for (A, B, C, D, E, F) {
    open spec fn spec_requests() -> Seq<ComponentRequest> {
        seq![
            A::spec_request(),
            B::spec_request(),
            C::spec_request(),
            D::spec_request(),
            E::spec_request(),
            F::spec_request(),
        ]
    }

    fn iter() -> (requests: Vec<ComponentRequest>) {
        vec![
            A::into_component_request(),
            B::into_component_request(),
            C::into_component_request(),
            D::into_component_request(),
            E::into_component_request(),
            F::into_component_request(),
        ]
    }
}

impl<
    A: QueryFilter,
    B: QueryFilter,
    C: QueryFilter,
    D: QueryFilter,
    E: QueryFilter,
    F: QueryFilter,
    G: QueryFilter,
> QueryFilters for (A, B, C, D, E, F, G) {
    open spec fn spec_requests() -> Seq<ComponentRequest> {
        seq![
            A::spec_request(),
            B::spec_request(),
            C::spec_request(),
            D::spec_request(),
            E::spec_request(),
            F::spec_request(),
            G::spec_request(),
        ]
    }

    fn iter() -> (requests: Vec<ComponentRequest>) {
        vec![
            A::into_component_request(),
            B::into_component_request(),
            C::into_component_request(),
            D::into_component_request(),
            E::into_component_request(),
            F::into_component_request(),
            G::into_component_request(),
        ]
    }
}

impl<
    A: QueryFilter,
    B: QueryFilter,
    C: QueryFilter,
    D: QueryFilter,
    E: QueryFilter,
    F: QueryFilter,
    G: QueryFilter,
    H: QueryFilter,
> QueryFilters for (A, B, C, D, E, F, G, H) {
    open spec fn spec_requests() -> Seq<ComponentRequest> {
        seq![
            A::spec_request(),
            B::spec_request(),
            C::spec_request(),
            D::spec_request(),
            E::spec_request(),
            F::spec_request(),
            G::spec_request(),
            H::spec_request(),
        ]
    }

    fn iter() -> (requests: Vec<ComponentRequest>) {
        vec![
            A::into_component_request(),
            B::into_component_request(),
            C::into_component_request(),
            D::into_component_request(),
            E::into_component_request(),
            F::into_component_request(),
            G::into_component_request(),
            H::into_component_request(),
        ]
    }
}

impl<
    A: QueryFilter,
    B: QueryFilter,
    C: QueryFilter,
    D: QueryFilter,
    E: QueryFilter,
    F: QueryFilter,
    G: QueryFilter,
    H: QueryFilter,
    I: QueryFilter,
> QueryFilters for (A, B, C, D, E, F, G, H, I) {
    open spec fn spec_requests() -> Seq<ComponentRequest> {
        seq![
            A::spec_request(),
            B::spec_request(),
            C::spec_request(),
            D::spec_request(),
            E::spec_request(),
            F::spec_request(),
            G::spec_request(),
            H::spec_request(),
            I::spec_request(),
        ]
    }

    fn iter() -> (requests: Vec<ComponentRequest>) {
        vec![
            A::into_component_request(),
            B::into_component_request(),
            C::into_component_request(),
            D::into_component_request(),
            E::into_component_request(),
            F::into_component_request(),
            G::into_component_request(),
            H::into_component_request(),
            I::into_component_request(),
        ]
    }
}

impl<
    A: QueryFilter,
    B: QueryFilter,
    C: QueryFilter,
    D: QueryFilter,
    E: QueryFilter,
    F: QueryFilter,
    G: QueryFilter,
    H: QueryFilter,
    I: QueryFilter,
    J: QueryFilter,
> QueryFilters for (A, B, C, D, E, F, G, H, I, J) {
    open spec fn spec_requests() -> Seq<ComponentRequest> {
        seq![
            A::spec_request(),
            B::spec_request(),
            C::spec_request(),
            D::spec_request(),
            E::spec_request(),
            F::spec_request(),
            G::spec_request(),
            H::spec_request(),
            I::spec_request(),
            J::spec_request(),
        ]
    }

    fn iter() -> (requests: Vec<ComponentRequest>) {
        vec![
            A::into_component_request(),
            B::into_component_request(),
            C::into_component_request(),
            D::into_component_request(),
            E::into_component_request(),
            F::into_component_request(),
            G::into_component_request(),
            H::into_component_request(),
            I::into_component_request(),
            J::into_component_request(),
        ]
    }
}

impl<
    A: QueryFilter,
    B: QueryFilter,
    C: QueryFilter,
    D: QueryFilter,
    E: QueryFilter,
    F: QueryFilter,
    G: QueryFilter,
    H: QueryFilter,
    I: QueryFilter,
    J: QueryFilter,
    K: QueryFilter,
> QueryFilters for (A, B, C, D, E, F, G, H, I, J, K) {
    open spec fn spec_requests() -> Seq<ComponentRequest> {
        seq![
            A::spec_request(),
            B::spec_request(),
            C::spec_request(),
            D::spec_request(),
            E::spec_request(),
            F::spec_request(),
            G::spec_request(),
            H::spec_request(),
            I::spec_request(),
            J::spec_request(),
            K::spec_request(),
        ]
    }

    fn iter() -> (requests: Vec<ComponentRequest>) {
        vec![
            A::into_component_request(),
            B::into_component_request(),
            C::into_component_request(),
            D::into_component_request(),
            E::into_component_request(),
            F::into_component_request(),
            G::into_component_request(),
            H::into_component_request(),
            I::into_component_request(),
            J::into_component_request(),
            K::into_component_request(),
        ]
    }
}

impl<
    A: QueryFilter,
    B: QueryFilter,
    C: QueryFilter,
    D: QueryFilter,
    E: QueryFilter,
    F: QueryFilter,
    G: QueryFilter,
    H: QueryFilter,
    I: QueryFilter,
    J: QueryFilter,
    K: QueryFilter,
    L: QueryFilter,
> QueryFilters for (A, B, C, D, E, F, G, H, I, J, K, L) {
    open spec fn spec_requests() -> Seq<ComponentRequest> {
        seq![
            A::spec_request(),
            B::spec_request(),
            C::spec_request(),
            D::spec_request(),
            E::spec_request(),
            F::spec_request(),
            G::spec_request(),
            H::spec_request(),
            I::spec_request(),
            J::spec_request(),
            K::spec_request(),
            L::spec_request(),
        ]
    }

    fn iter() -> (requests: Vec<ComponentRequest>) {
        vec![
            A::into_component_request(),
            B::into_component_request(),
            C::into_component_request(),
            D::into_component_request(),
            E::into_component_request(),
            F::into_component_request(),
            G::into_component_request(),
            H::into_component_request(),
            I::into_component_request(),
            J::into_component_request(),
            K::into_component_request(),
            L::into_component_request(),
        ]
    }
}

impl<
    A: QueryFilter,
    B: QueryFilter,
    C: QueryFilter,
    D: QueryFilter,
    E: QueryFilter,
    F: QueryFilter,
    G: QueryFilter,
    H: QueryFilter,
    I: QueryFilter,
    J: QueryFilter,
    K: QueryFilter,
    L: QueryFilter,
    M: QueryFilter,
> QueryFilters for (A, B, C, D, E, F, G, H, I, J, K, L, M) {
    open spec fn spec_requests() -> Seq<ComponentRequest> {
        seq![
            A::spec_request(),
            B::spec_request(),
            C::spec_request(),
            D::spec_request(),
            E::spec_request(),
            F::spec_request(),
            G::spec_request(),
            H::spec_request(),
            I::spec_request(),
            J::spec_request(),
            K::spec_request(),
            L::spec_request(),
            M::spec_request(),
        ]
    }

    fn iter() -> (requests: Vec<ComponentRequest>) {
        vec![
            A::into_component_request(),
            B::into_component_request(),
            C::into_component_request(),
            D::into_component_request(),
            E::into_component_request(),
            F::into_component_request(),
            G::into_component_request(),
            H::into_component_request(),
            I::into_component_request(),
            J::into_component_request(),
            K::into_component_request(),
            L::into_component_request(),
            M::into_component_request(),
        ]
    }
}

impl<
    A: QueryFilter,
    B: QueryFilter,
    C: QueryFilter,
    D: QueryFilter,
    E: QueryFilter,
    F: QueryFilter,
    G: QueryFilter,
    H: QueryFilter,
    I: QueryFilter,
    J: QueryFilter,
    K: QueryFilter,
    L: QueryFilter,
    M: QueryFilter,
    N: QueryFilter,
> QueryFilters for (A, B, C, D, E, F, G, H, I, J, K, L, M, N) {
    open spec fn spec_requests() -> Seq<ComponentRequest> {
        seq![
            A::spec_request(),
            B::spec_request(),
            C::spec_request(),
            D::spec_request(),
            E::spec_request(),
            F::spec_request(),
            G::spec_request(),
            H::spec_request(),
            I::spec_request(),
            J::spec_request(),
            K::spec_request(),
            L::spec_request(),
            M::spec_request(),
            N::spec_request(),
        ]
    }

    fn iter() -> (requests: Vec<ComponentRequest>) {
        vec![
            A::into_component_request(),
            B::into_component_request(),
            C::into_component_request(),
            D::into_component_request(),
            E::into_component_request(),
            F::into_component_request(),
            G::into_component_request(),
            H::into_component_request(),
            I::into_component_request(),
            J::into_component_request(),
            K::into_component_request(),
            L::into_component_request(),
            M::into_component_request(),
            N::into_component_request(),
        ]
    }
}

impl<
    A: QueryFilter,
    B: QueryFilter,
    C: QueryFilter,
    D: QueryFilter,
    E: QueryFilter,
    F: QueryFilter,
    G: QueryFilter,
    H: QueryFilter,
    I: QueryFilter,
    J: QueryFilter,
    K: QueryFilter,
    L: QueryFilter,
    M: QueryFilter,
    N: QueryFilter,
    O: QueryFilter,
> QueryFilters for (A, B, C, D, E, F, G, H, I, J, K, L, M, N, O) {
    open spec fn spec_requests() -> Seq<ComponentRequest> {
        seq![
            A::spec_request(),
            B::spec_request(),
            C::spec_request(),
            D::spec_request(),
            E::spec_request(),
            F::spec_request(),
            G::spec_request(),
            H::spec_request(),
            I::spec_request(),
            J::spec_request(),
            K::spec_request(),
            L::spec_request(),
            M::spec_request(),
            N::spec_request(),
            O::spec_request(),
        ]
    }

    fn iter() -> (requests: Vec<ComponentRequest>) {
        vec![
            A::into_component_request(),
            B::into_component_request(),
            C::into_component_request(),
            D::into_component_request(),
            E::into_component_request(),
            F::into_component_request(),
            G::into_component_request(),
            H::into_component_request(),
            I::into_component_request(),
            J::into_component_request(),
            K::into_component_request(),
            L::into_component_request(),
            M::into_component_request(),
            N::into_component_request(),
            O::into_component_request(),
        ]
    }
}

impl<
    A: QueryFilter,
    B: QueryFilter,
    C: QueryFilter,
    D: QueryFilter,
    E: QueryFilter,
    F: QueryFilter,
    G: QueryFilter,
    H: QueryFilter,
    I: QueryFilter,
    J: QueryFilter,
    K: QueryFilter,
    L: QueryFilter,
    M: QueryFilter,
    N: QueryFilter,
    O: QueryFilter,
    P: QueryFilter,
> QueryFilters for (A, B, C, D, E, F, G, H, I, J, K, L, M, N, O, P) {
    open spec fn spec_requests() -> Seq<ComponentRequest> {
        seq![
            A::spec_request(),
            B::spec_request(),
            C::spec_request(),
            D::spec_request(),
            E::spec_request(),
            F::spec_request(),
            G::spec_request(),
            H::spec_request(),
            I::spec_request(),
            J::spec_request(),
            K::spec_request(),
            L::spec_request(),
            M::spec_request(),
            N::spec_request(),
            O::spec_request(),
            P::spec_request(),
        ]
    }

    fn iter() -> (requests: Vec<ComponentRequest>) {
        vec![
            A::into_component_request(),
            B::into_component_request(),
            C::into_component_request(),
            D::into_component_request(),
            E::into_component_request(),
            F::into_component_request(),
            G::into_component_request(),
            H::into_component_request(),
            I::into_component_request(),
            J::into_component_request(),
            K::into_component_request(),
            L::into_component_request(),
            M::into_component_request(),
            N::into_component_request(),
            O::into_component_request(),
            P::into_component_request(),
        ]
    }
}

impl SystemParameters for () {
    open spec fn spec_parameters() -> Seq<Parameter> {
        seq![]
    }

    fn requests() -> (requests: Vec<SystemParameterRequest>) {
        let requests: Vec<SystemParameterRequest> = Vec::new();
        assert(crate::schedule::system::parameters_of(requests@) =~= Self::spec_parameters());
        requests
    }
}

impl<A: IntoSystemParameterRequest> SystemParameters for (A,) {
    open spec fn spec_parameters() -> Seq<Parameter> {
        seq![
            A::spec_parameter(),
        ]
    }

    fn requests() -> (requests: Vec<SystemParameterRequest>) {
        let requests = vec![
            A::into_system_parameter_request(),
        ];
        assert(crate::schedule::system::parameters_of(requests@) =~= Self::spec_parameters());
        requests
    }
}

impl<A: IntoSystemParameterRequest, B: IntoSystemParameterRequest> SystemParameters for (A, B) {
    open spec fn spec_parameters() -> Seq<Parameter> {
        seq![
            A::spec_parameter(),
            B::spec_parameter(),
        ]
    }

    fn requests() -> (requests: Vec<SystemParameterRequest>) {
        let requests = vec![
            A::into_system_parameter_request(),
            B::into_system_parameter_request(),
        ];
        assert(crate::schedule::system::parameters_of(requests@) =~= Self::spec_parameters());
        requests
    }
}

impl<
    A: IntoSystemParameterRequest,
    B: IntoSystemParameterRequest,
    C: IntoSystemParameterRequest,
> SystemParameters for (A, B, C) {
    open spec fn spec_parameters() -> Seq<Parameter> {
        seq![
            A::spec_parameter(),
            B::spec_parameter(),
            C::spec_parameter(),
        ]
    }

    fn requests() -> (requests: Vec<SystemParameterRequest>) {
        let requests = vec![
            A::into_system_parameter_request(),
            B::into_system_parameter_request(),
            C::into_system_parameter_request(),
        ];
        assert(crate::schedule::system::parameters_of(requests@) =~= Self::spec_parameters());
        requests
    }
}

impl<
    A: IntoSystemParameterRequest,
    B: IntoSystemParameterRequest,
    C: IntoSystemParameterRequest,
    D: IntoSystemParameterRequest,
> SystemParameters for (A, B, C, D) {
    open spec fn spec_parameters() -> Seq<Parameter> {
        seq![
            A::spec_parameter(),
            B::spec_parameter(),
            C::spec_parameter(),
            D::spec_parameter(),
        ]
    }

    fn requests() -> (requests: Vec<SystemParameterRequest>) {
        let requests = vec![
            A::into_system_parameter_request(),
            B::into_system_parameter_request(),
            C::into_system_parameter_request(),
            D::into_system_parameter_request(),
        ];
        assert(crate::schedule::system::parameters_of(requests@) =~= Self::spec_parameters());
        requests
    }
}

impl<
    A: IntoSystemParameterRequest,
    B: IntoSystemParameterRequest,
    C: IntoSystemParameterRequest,
    D: IntoSystemParameterRequest,
    E: IntoSystemParameterRequest,
> SystemParameters for (A, B, C, D, E) {
    open spec fn spec_parameters() -> Seq<Parameter> {
        seq![
            A::spec_parameter(),
            B::spec_parameter(),
            C::spec_parameter(),
            D::spec_parameter(),
            E::spec_parameter(),
        ]
    }

    fn requests() -> (requests: Vec<SystemParameterRequest>) {
        let requests = vec![
            A::into_system_parameter_request(),
            B::into_system_parameter_request(),
            C::into_system_parameter_request(),
            D::into_system_parameter_request(),
            E::into_system_parameter_request(),
        ];
        assert(crate::schedule::system::parameters_of(requests@) =~= Self::spec_parameters());
        requests
    }
}

impl<
    A: IntoSystemParameterRequest,
    B: IntoSystemParameterRequest,
    C: IntoSystemParameterRequest,
    D: IntoSystemParameterRequest,
    E: IntoSystemParameterRequest,
    F: IntoSystemParameterRequest,
> SystemParameters for (A, B, C, D, E, F) {
    open spec fn spec_parameters() -> Seq<Parameter> {
        seq![
            A::spec_parameter(),
            B::spec_parameter(),
            C::spec_parameter(),
            D::spec_parameter(),
            E::spec_parameter(),
            F::spec_parameter(),
        ]
    }

    fn requests() -> (requests: Vec<SystemParameterRequest>) {
        let requests = vec![
            A::into_system_parameter_request(),
            B::into_system_parameter_request(),
            C::into_system_parameter_request(),
            D::into_system_parameter_request(),
            E::into_system_parameter_request(),
            F::into_system_parameter_request(),
        ];
        assert(crate::schedule::system::parameters_of(requests@) =~= Self::spec_parameters());
        requests
    }
}

impl<
    A: IntoSystemParameterRequest,
    B: IntoSystemParameterRequest,
    C: IntoSystemParameterRequest,
    D: IntoSystemParameterRequest,
    E: IntoSystemParameterRequest,
    F: IntoSystemParameterRequest,
    G: IntoSystemParameterRequest,
> SystemParameters for (A, B, C, D, E, F, G) {
    open spec fn spec_parameters() -> Seq<Parameter> {
        seq![
            A::spec_parameter(),
            B::spec_parameter(),
            C::spec_parameter(),
            D::spec_parameter(),
            E::spec_parameter(),
            F::spec_parameter(),
            G::spec_parameter(),
        ]
    }

    fn requests() -> (requests: Vec<SystemParameterRequest>) {
        let requests = vec![
            A::into_system_parameter_request(),
            B::into_system_parameter_request(),
            C::into_system_parameter_request(),
            D::into_system_parameter_request(),
            E::into_system_parameter_request(),
            F::into_system_parameter_request(),
            G::into_system_parameter_request(),
        ];
        assert(crate::schedule::system::parameters_of(requests@) =~= Self::spec_parameters());
        requests
    }
}

impl<
    A: IntoSystemParameterRequest,
    B: IntoSystemParameterRequest,
    C: IntoSystemParameterRequest,
    D: IntoSystemParameterRequest,
    E: IntoSystemParameterRequest,
    F: IntoSystemParameterRequest,
    G: IntoSystemParameterRequest,
    H: IntoSystemParameterRequest,
> SystemParameters for (A, B, C, D, E, F, G, H) {
    open spec fn spec_parameters() -> Seq<Parameter> {
        seq![
            A::spec_parameter(),
            B::spec_parameter(),
            C::spec_parameter(),
            D::spec_parameter(),
            E::spec_parameter(),
            F::spec_parameter(),
            G::spec_parameter(),
            H::spec_parameter(),
        ]
    }

    fn requests() -> (requests: Vec<SystemParameterRequest>) {
        let requests = vec![
            A::into_system_parameter_request(),
            B::into_system_parameter_request(),
            C::into_system_parameter_request(),
            D::into_system_parameter_request(),
            E::into_system_parameter_request(),
            F::into_system_parameter_request(),
            G::into_system_parameter_request(),
            H::into_system_parameter_request(),
        ];
        assert(crate::schedule::system::parameters_of(requests@) =~= Self::spec_parameters());
        requests
    }
}

impl<
    A: IntoSystemParameterRequest,
    B: IntoSystemParameterRequest,
    C: IntoSystemParameterRequest,
    D: IntoSystemParameterRequest,
    E: IntoSystemParameterRequest,
    F: IntoSystemParameterRequest,
    G: IntoSystemParameterRequest,
    H: IntoSystemParameterRequest,
    I: IntoSystemParameterRequest,
> SystemParameters for (A, B, C, D, E, F, G, H, I) {
    open spec fn spec_parameters() -> Seq<Parameter> {
        seq![
            A::spec_parameter(),
            B::spec_parameter(),
            C::spec_parameter(),
            D::spec_parameter(),
            E::spec_parameter(),
            F::spec_parameter(),
            G::spec_parameter(),
            H::spec_parameter(),
            I::spec_parameter(),
        ]
    }

    fn requests() -> (requests: Vec<SystemParameterRequest>) {
        let requests = vec![
            A::into_system_parameter_request(),
            B::into_system_parameter_request(),
            C::into_system_parameter_request(),
            D::into_system_parameter_request(),
            E::into_system_parameter_request(),
            F::into_system_parameter_request(),
            G::into_system_parameter_request(),
            H::into_system_parameter_request(),
            I::into_system_parameter_request(),
        ];
        assert(crate::schedule::system::parameters_of(requests@) =~= Self::spec_parameters());
        requests
    }
}

impl<
    A: IntoSystemParameterRequest,
    B: IntoSystemParameterRequest,
    C: IntoSystemParameterRequest,
    D: IntoSystemParameterRequest,
    E: IntoSystemParameterRequest,
    F: IntoSystemParameterRequest,
    G: IntoSystemParameterRequest,
    H: IntoSystemParameterRequest,
    I: IntoSystemParameterRequest,
    J: IntoSystemParameterRequest,
> SystemParameters for (A, B, C, D, E, F, G, H, I, J) {
    open spec fn spec_parameters() -> Seq<Parameter> {
        seq![
            A::spec_parameter(),
            B::spec_parameter(),
            C::spec_parameter(),
            D::spec_parameter(),
            E::spec_parameter(),
            F::spec_parameter(),
            G::spec_parameter(),
            H::spec_parameter(),
            I::spec_parameter(),
            J::spec_parameter(),
        ]
    }

    fn requests() -> (requests: Vec<SystemParameterRequest>) {
        let requests = vec![
            A::into_system_parameter_request(),
            B::into_system_parameter_request(),
            C::into_system_parameter_request(),
            D::into_system_parameter_request(),
            E::into_system_parameter_request(),
            F::into_system_parameter_request(),
            G::into_system_parameter_request(),
            H::into_system_parameter_request(),
            I::into_system_parameter_request(),
            J::into_system_parameter_request(),
        ];
        assert(crate::schedule::system::parameters_of(requests@) =~= Self::spec_parameters());
        requests
    }
}

impl<
    A: IntoSystemParameterRequest,
    B: IntoSystemParameterRequest,
    C: IntoSystemParameterRequest,
    D: IntoSystemParameterRequest,
    E: IntoSystemParameterRequest,
    F: IntoSystemParameterRequest,
    G: IntoSystemParameterRequest,
    H: IntoSystemParameterRequest,
    I: IntoSystemParameterRequest,
    J: IntoSystemParameterRequest,
    K: IntoSystemParameterRequest,
> SystemParameters for (A, B, C, D, E, F, G, H, I, J, K) {
    open spec fn spec_parameters() -> Seq<Parameter> {
        seq![
            A::spec_parameter(),
            B::spec_parameter(),
            C::spec_parameter(),
            D::spec_parameter(),
            E::spec_parameter(),
            F::spec_parameter(),
            G::spec_parameter(),
            H::spec_parameter(),
            I::spec_parameter(),
            J::spec_parameter(),
            K::spec_parameter(),
        ]
    }

    fn requests() -> (requests: Vec<SystemParameterRequest>) {
        let requests = vec![
            A::into_system_parameter_request(),
            B::into_system_parameter_request(),
            C::into_system_parameter_request(),
            D::into_system_parameter_request(),
            E::into_system_parameter_request(),
            F::into_system_parameter_request(),
            G::into_system_parameter_request(),
            H::into_system_parameter_request(),
            I::into_system_parameter_request(),
            J::into_system_parameter_request(),
            K::into_system_parameter_request(),
        ];
        assert(crate::schedule::system::parameters_of(requests@) =~= Self::spec_parameters());
        requests
    }
}

impl<
    A: IntoSystemParameterRequest,
    B: IntoSystemParameterRequest,
    C: IntoSystemParameterRequest,
    D: IntoSystemParameterRequest,
    E: IntoSystemParameterRequest,
    F: IntoSystemParameterRequest,
    G: IntoSystemParameterRequest,
    H: IntoSystemParameterRequest,
    I: IntoSystemParameterRequest,
    J: IntoSystemParameterRequest,
    K: IntoSystemParameterRequest,
    L: IntoSystemParameterRequest,
> SystemParameters for (A, B, C, D, E, F, G, H, I, J, K, L) {
    open spec fn spec_parameters() -> Seq<Parameter> {
        seq![
            A::spec_parameter(),
            B::spec_parameter(),
            C::spec_parameter(),
            D::spec_parameter(),
            E::spec_parameter(),
            F::spec_parameter(),
            G::spec_parameter(),
            H::spec_parameter(),
            I::spec_parameter(),
            J::spec_parameter(),
            K::spec_parameter(),
            L::spec_parameter(),
        ]
    }

    fn requests() -> (requests: Vec<SystemParameterRequest>) {
        let requests = vec![
            A::into_system_parameter_request(),
            B::into_system_parameter_request(),
            C::into_system_parameter_request(),
            D::into_system_parameter_request(),
            E::into_system_parameter_request(),
            F::into_system_parameter_request(),
            G::into_system_parameter_request(),
            H::into_system_parameter_request(),
            I::into_system_parameter_request(),
            J::into_system_parameter_request(),
            K::into_system_parameter_request(),
            L::into_system_parameter_request(),
        ];
        assert(crate::schedule::system::parameters_of(requests@) =~= Self::spec_parameters());
        requests
    }
}

impl<
    A: IntoSystemParameterRequest,
    B: IntoSystemParameterRequest,
    C: IntoSystemParameterRequest,
    D: IntoSystemParameterRequest,
    E: IntoSystemParameterRequest,
    F: IntoSystemParameterRequest,
    G: IntoSystemParameterRequest,
    H: IntoSystemParameterRequest,
    I: IntoSystemParameterRequest,
    J: IntoSystemParameterRequest,
    K: IntoSystemParameterRequest,
    L: IntoSystemParameterRequest,
    M: IntoSystemParameterRequest,
> SystemParameters for (A, B, C, D, E, F, G, H, I, J, K, L, M) {
    open spec fn spec_parameters() -> Seq<Parameter> {
        seq![
            A::spec_parameter(),
            B::spec_parameter(),
            C::spec_parameter(),
            D::spec_parameter(),
            E::spec_parameter(),
            F::spec_parameter(),
            G::spec_parameter(),
            H::spec_parameter(),
            I::spec_parameter(),
            J::spec_parameter(),
            K::spec_parameter(),
            L::spec_parameter(),
            M::spec_parameter(),
        ]
    }

    fn requests() -> (requests: Vec<SystemParameterRequest>) {
        let requests = vec![
            A::into_system_parameter_request(),
            B::into_system_parameter_request(),
            C::into_system_parameter_request(),
            D::into_system_parameter_request(),
            E::into_system_parameter_request(),
            F::into_system_parameter_request(),
            G::into_system_parameter_request(),
            H::into_system_parameter_request(),
            I::into_system_parameter_request(),
            J::into_system_parameter_request(),
            K::into_system_parameter_request(),
            L::into_system_parameter_request(),
            M::into_system_parameter_request(),
        ];
        assert(crate::schedule::system::parameters_of(requests@) =~= Self::spec_parameters());
        requests
    }
}

impl<
    A: IntoSystemParameterRequest,
    B: IntoSystemParameterRequest,
    C: IntoSystemParameterRequest,
    D: IntoSystemParameterRequest,
    E: IntoSystemParameterRequest,
    F: IntoSystemParameterRequest,
    G: IntoSystemParameterRequest,
    H: IntoSystemParameterRequest,
    I: IntoSystemParameterRequest,
    J: IntoSystemParameterRequest,
    K: IntoSystemParameterRequest,
    L: IntoSystemParameterRequest,
    M: IntoSystemParameterRequest,
    N: IntoSystemParameterRequest,
> SystemParameters for (A, B, C, D, E, F, G, H, I, J, K, L, M, N) {
    open spec fn spec_parameters() -> Seq<Parameter> {
        seq![
            A::spec_parameter(),
            B::spec_parameter(),
            C::spec_parameter(),
            D::spec_parameter(),
            E::spec_parameter(),
            F::spec_parameter(),
            G::spec_parameter(),
            H::spec_parameter(),
            I::spec_parameter(),
            J::spec_parameter(),
            K::spec_parameter(),
            L::spec_parameter(),
            M::spec_parameter(),
            N::spec_parameter(),
        ]
    }

    fn requests() -> (requests: Vec<SystemParameterRequest>) {
        let requests = vec![
            A::into_system_parameter_request(),
            B::into_system_parameter_request(),
            C::into_system_parameter_request(),
            D::into_system_parameter_request(),
            E::into_system_parameter_request(),
            F::into_system_parameter_request(),
            G::into_system_parameter_request(),
            H::into_system_parameter_request(),
            I::into_system_parameter_request(),
            J::into_system_parameter_request(),
            K::into_system_parameter_request(),
            L::into_system_parameter_request(),
            M::into_system_parameter_request(),
            N::into_system_parameter_request(),
        ];
        assert(crate::schedule::system::parameters_of(requests@) =~= Self::spec_parameters());
        requests
    }
}

impl<
    A: IntoSystemParameterRequest,
    B: IntoSystemParameterRequest,
    C: IntoSystemParameterRequest,
    D: IntoSystemParameterRequest,
    E: IntoSystemParameterRequest,
    F: IntoSystemParameterRequest,
    G: IntoSystemParameterRequest,
    H: IntoSystemParameterRequest,
    I: IntoSystemParameterRequest,
    J: IntoSystemParameterRequest,
    K: IntoSystemParameterRequest,
    L: IntoSystemParameterRequest,
    M: IntoSystemParameterRequest,
    N: IntoSystemParameterRequest,
    O: IntoSystemParameterRequest,
> SystemParameters for (A, B, C, D, E, F, G, H, I, J, K, L, M, N, O) {
    open spec fn spec_parameters() -> Seq<Parameter> {
        seq![
            A::spec_parameter(),
            B::spec_parameter(),
            C::spec_parameter(),
            D::spec_parameter(),
            E::spec_parameter(),
            F::spec_parameter(),
            G::spec_parameter(),
            H::spec_parameter(),
            I::spec_parameter(),
            J::spec_parameter(),
            K::spec_parameter(),
            L::spec_parameter(),
            M::spec_parameter(),
            N::spec_parameter(),
            O::spec_parameter(),
        ]
    }

    fn requests() -> (requests: Vec<SystemParameterRequest>) {
        let requests = vec![
            A::into_system_parameter_request(),
            B::into_system_parameter_request(),
            C::into_system_parameter_request(),
            D::into_system_parameter_request(),
            E::into_system_parameter_request(),
            F::into_system_parameter_request(),
            G::into_system_parameter_request(),
            H::into_system_parameter_request(),
            I::into_system_parameter_request(),
            J::into_system_parameter_request(),
            K::into_system_parameter_request(),
            L::into_system_parameter_request(),
            M::into_system_parameter_request(),
            N::into_system_parameter_request(),
            O::into_system_parameter_request(),
        ];
        assert(crate::schedule::system::parameters_of(requests@) =~= Self::spec_parameters());
        requests
    }
}

impl<
    A: IntoSystemParameterRequest,
    B: IntoSystemParameterRequest,
    C: IntoSystemParameterRequest,
    D: IntoSystemParameterRequest,
    E: IntoSystemParameterRequest,
    F: IntoSystemParameterRequest,
    G: IntoSystemParameterRequest,
    H: IntoSystemParameterRequest,
    I: IntoSystemParameterRequest,
    J: IntoSystemParameterRequest,
    K: IntoSystemParameterRequest,
    L: IntoSystemParameterRequest,
    M: IntoSystemParameterRequest,
    N: IntoSystemParameterRequest,
    O: IntoSystemParameterRequest,
    P: IntoSystemParameterRequest,
> SystemParameters for (A, B, C, D, E, F, G, H, I, J, K, L, M, N, O, P) {
    open spec fn spec_parameters() -> Seq<Parameter> {
        seq![
            A::spec_parameter(),
            B::spec_parameter(),
            C::spec_parameter(),
            D::spec_parameter(),
            E::spec_parameter(),
            F::spec_parameter(),
            G::spec_parameter(),
            H::spec_parameter(),
            I::spec_parameter(),
            J::spec_parameter(),
            K::spec_parameter(),
            L::spec_parameter(),
            M::spec_parameter(),
            N::spec_parameter(),
            O::spec_parameter(),
            P::spec_parameter(),
        ]
    }

    fn requests() -> (requests: Vec<SystemParameterRequest>) {
        let requests = vec![
            A::into_system_parameter_request(),
            B::into_system_parameter_request(),
            C::into_system_parameter_request(),
            D::into_system_parameter_request(),
            E::into_system_parameter_request(),
            F::into_system_parameter_request(),
            G::into_system_parameter_request(),
            H::into_system_parameter_request(),
            I::into_system_parameter_request(),
            J::into_system_parameter_request(),
            K::into_system_parameter_request(),
            L::into_system_parameter_request(),
            M::into_system_parameter_request(),
            N::into_system_parameter_request(),
            O::into_system_parameter_request(),
            P::into_system_parameter_request(),
        ];
        assert(crate::schedule::system::parameters_of(requests@) =~= Self::spec_parameters());
        requests
    }
}

impl<Func> IntoSystem<()> for Func where
    Func: Fn() + 'static,
{
    fn into_system(self, name: &'static str) -> (made: Result<
        BoxedSystem,
        SystemParameterConflictError,
    >) {
        build_system(name, <()>::requests())
    }
}

impl<Func, A> IntoSystem<(A,)> for Func where
    Func: Fn(A) + 'static,
    A: IntoSystemParameterRequest + 'static,
{
    fn into_system(self, name: &'static str) -> (made: Result<
        BoxedSystem,
        SystemParameterConflictError,
    >) {
        build_system(name, <(A,)>::requests())
    }
}

impl<Func, A, B> IntoSystem<(A, B)> for Func where
    Func: Fn(A, B) + 'static,
    A: IntoSystemParameterRequest + 'static,
    B: IntoSystemParameterRequest + 'static,
{
    fn into_system(self, name: &'static str) -> (made: Result<
        BoxedSystem,
        SystemParameterConflictError,
    >) {
        build_system(name, <(A, B)>::requests())
    }
}

impl<Func, A, B, C> IntoSystem<(A, B, C)> for Func where
    Func: Fn(A, B, C) + 'static,
    A: IntoSystemParameterRequest + 'static,
    B: IntoSystemParameterRequest + 'static,
    C: IntoSystemParameterRequest + 'static,
{
    fn into_system(self, name: &'static str) -> (made: Result<
        BoxedSystem,
        SystemParameterConflictError,
    >) {
        build_system(name, <(A, B, C)>::requests())
    }
}

impl<Func, A, B, C, D> IntoSystem<(A, B, C, D)> for Func where
    Func: Fn(A, B, C, D) + 'static,
    A: IntoSystemParameterRequest + 'static,
    B: IntoSystemParameterRequest + 'static,
    C: IntoSystemParameterRequest + 'static,
    D: IntoSystemParameterRequest + 'static,
{
    fn into_system(self, name: &'static str) -> (made: Result<
        BoxedSystem,
        SystemParameterConflictError,
    >) {
        build_system(name, <(A, B, C, D)>::requests())
    }
}

impl<Func, A, B, C, D, E> IntoSystem<(A, B, C, D, E)> for Func where
    Func: Fn(A, B, C, D, E) + 'static,
    A: IntoSystemParameterRequest + 'static,
    B: IntoSystemParameterRequest + 'static,
    C: IntoSystemParameterRequest + 'static,
    D: IntoSystemParameterRequest + 'static,
    E: IntoSystemParameterRequest + 'static,
{
    fn into_system(self, name: &'static str) -> (made: Result<
        BoxedSystem,
        SystemParameterConflictError,
    >) {
        build_system(name, <(A, B, C, D, E)>::requests())
    }
}

impl<Func, A, B, C, D, E, F> IntoSystem<(A, B, C, D, E, F)> for Func where
    Func: Fn(A, B, C, D, E, F) + 'static,
    A: IntoSystemParameterRequest + 'static,
    B: IntoSystemParameterRequest + 'static,
    C: IntoSystemParameterRequest + 'static,
    D: IntoSystemParameterRequest + 'static,
    E: IntoSystemParameterRequest + 'static,
    F: IntoSystemParameterRequest + 'static,
{
    fn into_system(self, name: &'static str) -> (made: Result<
        BoxedSystem,
        SystemParameterConflictError,
    >) {
        build_system(name, <(A, B, C, D, E, F)>::requests())
    }
}

impl<Func, A, B, C, D, E, F, G> IntoSystem<(A, B, C, D, E, F, G)> for Func where
    Func: Fn(A, B, C, D, E, F, G) + 'static,
    A: IntoSystemParameterRequest + 'static,
    B: IntoSystemParameterRequest + 'static,
    C: IntoSystemParameterRequest + 'static,
    D: IntoSystemParameterRequest + 'static,
    E: IntoSystemParameterRequest + 'static,
    F: IntoSystemParameterRequest + 'static,
    G: IntoSystemParameterRequest + 'static,
{
    fn into_system(self, name: &'static str) -> (made: Result<
        BoxedSystem,
        SystemParameterConflictError,
    >) {
        build_system(name, <(A, B, C, D, E, F, G)>::requests())
    }
}

impl<Func, A, B, C, D, E, F, G, H> IntoSystem<(A, B, C, D, E, F, G, H)> for Func where
    Func: Fn(A, B, C, D, E, F, G, H) + 'static,
    A: IntoSystemParameterRequest + 'static,
    B: IntoSystemParameterRequest + 'static,
    C: IntoSystemParameterRequest + 'static,
    D: IntoSystemParameterRequest + 'static,
    E: IntoSystemParameterRequest + 'static,
    F: IntoSystemParameterRequest + 'static,
    G: IntoSystemParameterRequest + 'static,
    H: IntoSystemParameterRequest + 'static,
{
    fn into_system(self, name: &'static str) -> (made: Result<
        BoxedSystem,
        SystemParameterConflictError,
    >) {
        build_system(name, <(A, B, C, D, E, F, G, H)>::requests())
    }
}

impl<
    Func,
    A,
    B,
    C,
    D,
    E,
    F,
    G,
    H,
    I,
> IntoSystem<(A, B, C, D, E, F, G, H, I)> for Func where
    Func: Fn(A, B, C, D, E, F, G, H, I) + 'static,
    A: IntoSystemParameterRequest + 'static,
    B: IntoSystemParameterRequest + 'static,
    C: IntoSystemParameterRequest + 'static,
    D: IntoSystemParameterRequest + 'static,
    E: IntoSystemParameterRequest + 'static,
    F: IntoSystemParameterRequest + 'static,
    G: IntoSystemParameterRequest + 'static,
    H: IntoSystemParameterRequest + 'static,
    I: IntoSystemParameterRequest + 'static,
{
    fn into_system(self, name: &'static str) -> (made: Result<
        BoxedSystem,
        SystemParameterConflictError,
    >) {
        build_system(name, <(A, B, C, D, E, F, G, H, I)>::requests())
    }
}

impl<
    Func,
    A,
    B,
    C,
    D,
    E,
    F,
    G,
    H,
    I,
    J,
> IntoSystem<(A, B, C, D, E, F, G, H, I, J)> for Func where
    Func: Fn(A, B, C, D, E, F, G, H, I, J) + 'static,
    A: IntoSystemParameterRequest + 'static,
    B: IntoSystemParameterRequest + 'static,
    C: IntoSystemParameterRequest + 'static,
    D: IntoSystemParameterRequest + 'static,
    E: IntoSystemParameterRequest + 'static,
    F: IntoSystemParameterRequest + 'static,
    G: IntoSystemParameterRequest + 'static,
    H: IntoSystemParameterRequest + 'static,
    I: IntoSystemParameterRequest + 'static,
    J: IntoSystemParameterRequest + 'static,
{
    fn into_system(self, name: &'static str) -> (made: Result<
        BoxedSystem,
        SystemParameterConflictError,
    >) {
        build_system(name, <(A, B, C, D, E, F, G, H, I, J)>::requests())
    }
}

impl<
    Func,
    A,
    B,
    C,
    D,
    E,
    F,
    G,
    H,
    I,
    J,
    K,
> IntoSystem<(A, B, C, D, E, F, G, H, I, J, K)> for Func where
    Func: Fn(A, B, C, D, E, F, G, H, I, J, K) + 'static,
    A: IntoSystemParameterRequest + 'static,
    B: IntoSystemParameterRequest + 'static,
    C: IntoSystemParameterRequest + 'static,
    D: IntoSystemParameterRequest + 'static,
    E: IntoSystemParameterRequest + 'static,
    F: IntoSystemParameterRequest + 'static,
    G: IntoSystemParameterRequest + 'static,
    H: IntoSystemParameterRequest + 'static,
    I: IntoSystemParameterRequest + 'static,
    J: IntoSystemParameterRequest + 'static,
    K: IntoSystemParameterRequest + 'static,
{
    fn into_system(self, name: &'static str) -> (made: Result<
        BoxedSystem,
        SystemParameterConflictError,
    >) {
        build_system(name, <(A, B, C, D, E, F, G, H, I, J, K)>::requests())
    }
}

impl<
    Func,
    A,
    B,
    C,
    D,
    E,
    F,
    G,
    H,
    I,
    J,
    K,
    L,
> IntoSystem<(A, B, C, D, E, F, G, H, I, J, K, L)> for Func where
    Func: Fn(A, B, C, D, E, F, G, H, I, J, K, L) + 'static,
    A: IntoSystemParameterRequest + 'static,
    B: IntoSystemParameterRequest + 'static,
    C: IntoSystemParameterRequest + 'static,
    D: IntoSystemParameterRequest + 'static,
    E: IntoSystemParameterRequest + 'static,
    F: IntoSystemParameterRequest + 'static,
    G: IntoSystemParameterRequest + 'static,
    H: IntoSystemParameterRequest + 'static,
    I: IntoSystemParameterRequest + 'static,
    J: IntoSystemParameterRequest + 'static,
    K: IntoSystemParameterRequest + 'static,
    L: IntoSystemParameterRequest + 'static,
{
    fn into_system(self, name: &'static str) -> (made: Result<
        BoxedSystem,
        SystemParameterConflictError,
    >) {
        build_system(name, <(A, B, C, D, E, F, G, H, I, J, K, L)>::requests())
    }
}

impl<
    Func,
    A,
    B,
    C,
    D,
    E,
    F,
    G,
    H,
    I,
    J,
    K,
    L,
    M,
> IntoSystem<(A, B, C, D, E, F, G, H, I, J, K, L, M)> for Func where
    Func: Fn(A, B, C, D, E, F, G, H, I, J, K, L, M) + 'static,
    A: IntoSystemParameterRequest + 'static,
    B: IntoSystemParameterRequest + 'static,
    C: IntoSystemParameterRequest + 'static,
    D: IntoSystemParameterRequest + 'static,
    E: IntoSystemParameterRequest + 'static,
    F: IntoSystemParameterRequest + 'static,
    G: IntoSystemParameterRequest + 'static,
    H: IntoSystemParameterRequest + 'static,
    I: IntoSystemParameterRequest + 'static,
    J: IntoSystemParameterRequest + 'static,
    K: IntoSystemParameterRequest + 'static,
    L: IntoSystemParameterRequest + 'static,
    M: IntoSystemParameterRequest + 'static,
{
    fn into_system(self, name: &'static str) -> (made: Result<
        BoxedSystem,
        SystemParameterConflictError,
    >) {
        build_system(name, <(A, B, C, D, E, F, G, H, I, J, K, L, M)>::requests())
    }
}

impl<
    Func,
    A,
    B,
    C,
    D,
    E,
    F,
    G,
    H,
    I,
    J,
    K,
    L,
    M,
    N,
> IntoSystem<(A, B, C, D, E, F, G, H, I, J, K, L, M, N)> for Func where
    Func: Fn(A, B, C, D, E, F, G, H, I, J, K, L, M, N) + 'static,
    A: IntoSystemParameterRequest + 'static,
    B: IntoSystemParameterRequest + 'static,
    C: IntoSystemParameterRequest + 'static,
    D: IntoSystemParameterRequest + 'static,
    E: IntoSystemParameterRequest + 'static,
    F: IntoSystemParameterRequest + 'static,
    G: IntoSystemParameterRequest + 'static,
    H: IntoSystemParameterRequest + 'static,
    I: IntoSystemParameterRequest + 'static,
    J: IntoSystemParameterRequest + 'static,
    K: IntoSystemParameterRequest + 'static,
    L: IntoSystemParameterRequest + 'static,
    M: IntoSystemParameterRequest + 'static,
    N: IntoSystemParameterRequest + 'static,
{
    fn into_system(self, name: &'static str) -> (made: Result<
        BoxedSystem,
        SystemParameterConflictError,
    >) {
        build_system(name, <(A, B, C, D, E, F, G, H, I, J, K, L, M, N)>::requests())
    }
}

impl<
    Func,
    A,
    B,
    C,
    D,
    E,
    F,
    G,
    H,
    I,
    J,
    K,
    L,
    M,
    N,
    O,
> IntoSystem<(A, B, C, D, E, F, G, H, I, J, K, L, M, N, O)> for Func where
    Func: Fn(A, B, C, D, E, F, G, H, I, J, K, L, M, N, O) + 'static,
    A: IntoSystemParameterRequest + 'static,
    B: IntoSystemParameterRequest + 'static,
    C: IntoSystemParameterRequest + 'static,
    D: IntoSystemParameterRequest + 'static,
    E: IntoSystemParameterRequest + 'static,
    F: IntoSystemParameterRequest + 'static,
    G: IntoSystemParameterRequest + 'static,
    H: IntoSystemParameterRequest + 'static,
    I: IntoSystemParameterRequest + 'static,
    J: IntoSystemParameterRequest + 'static,
    K: IntoSystemParameterRequest + 'static,
    L: IntoSystemParameterRequest + 'static,
    M: IntoSystemParameterRequest + 'static,
    N: IntoSystemParameterRequest + 'static,
    O: IntoSystemParameterRequest + 'static,
{
    fn into_system(self, name: &'static str) -> (made: Result<
        BoxedSystem,
        SystemParameterConflictError,
    >) {
        build_system(name, <(A, B, C, D, E, F, G, H, I, J, K, L, M, N, O)>::requests())
    }
}

impl<
    Func,
    A,
    B,
    C,
    D,
    E,
    F,
    G,
    H,
    I,
    J,
    K,
    L,
    M,
    N,
    O,
    P,
> IntoSystem<(A, B, C, D, E, F, G, H, I, J, K, L, M, N, O, P)> for Func where
    Func: Fn(A, B, C, D, E, F, G, H, I, J, K, L, M, N, O, P) + 'static,
    A: IntoSystemParameterRequest + 'static,
    B: IntoSystemParameterRequest + 'static,
    C: IntoSystemParameterRequest + 'static,
    D: IntoSystemParameterRequest + 'static,
    E: IntoSystemParameterRequest + 'static,
    F: IntoSystemParameterRequest + 'static,
    G: IntoSystemParameterRequest + 'static,
    H: IntoSystemParameterRequest + 'static,
    I: IntoSystemParameterRequest + 'static,
    J: IntoSystemParameterRequest + 'static,
    K: IntoSystemParameterRequest + 'static,
    L: IntoSystemParameterRequest + 'static,
    M: IntoSystemParameterRequest + 'static,
    N: IntoSystemParameterRequest + 'static,
    O: IntoSystemParameterRequest + 'static,
    P: IntoSystemParameterRequest + 'static,
{
    fn into_system(self, name: &'static str) -> (made: Result<
        BoxedSystem,
        SystemParameterConflictError,
    >) {
        build_system(name, <(A, B, C, D, E, F, G, H, I, J, K, L, M, N, O, P)>::requests())
    }
}

} // verus!
