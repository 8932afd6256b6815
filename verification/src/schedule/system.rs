//! Systems, and the functions that they are made of.

use crate::schedule::error::SystemParameterConflictError;
use crate::schedule::request::{Parameter, SystemParameterRequest};
use vstd::prelude::*;

verus! {

/// The number of parameters that a system can have.
pub const MAX_PARAMETERS: usize = 16;

/// What the parameters request, as mathematical values.
pub open spec fn parameters_of(parameters: Seq<SystemParameterRequest>) -> Seq<Parameter> {
    parameters.map_values(|parameter: SystemParameterRequest| parameter@)
}

/// Something that can be run, and that says what it requests.
pub trait System {
    /// The name of the system.
    open spec fn spec_name(&self) -> Seq<char> {
        arbitrary()
    }

    /// What the parameters of the system request.
    open spec fn spec_parameters(&self) -> Seq<Parameter> {
        arbitrary()
    }

    /// The name of the system.
    fn name(&self) -> (name: &'static str)
        ensures
            name@ == self.spec_name(),
    ;

    /// What the parameters of the system request.
    fn parameters(&self) -> (parameters: &[SystemParameterRequest])
        ensures
            parameters_of(parameters@) == self.spec_parameters(),
    ;
}

/// A system of any kind.
pub struct BoxedSystem {
    pub system: Box<dyn System>,
}

/// A system that is made of a function.
pub struct CustomSystem {
    name: &'static str,
    parameters: Vec<SystemParameterRequest>,
}

impl System for CustomSystem {
    closed spec fn spec_name(&self) -> Seq<char> {
        self.name@
    }

    closed spec fn spec_parameters(&self) -> Seq<Parameter> {
        parameters_of(self.parameters@)
    }

    fn name(&self) -> (name: &'static str) {
        self.name
    }

    fn parameters(&self) -> (parameters: &[SystemParameterRequest]) {
        self.parameters.as_slice()
    }
}

/// `itertools::Itertools::tuple_combinations` for pairs, of the numbers below `count`: every pair
/// of different numbers, the smaller one first, in ascending order.
#[verifier::external_body]
fn index_pairs(count: usize) -> (pairs: Vec<(usize, usize)>)
    requires
        count <= MAX_PARAMETERS,
    ensures
        forall|k: int|
            #![trigger pairs@[k]]
            0 <= k < pairs@.len() ==> pairs@[k].0 < pairs@[k].1 < count,
        forall|i: usize, j: usize| i < j < count ==> #[trigger] pairs@.contains((i, j)),
        forall|k: int, l: int|
            #![trigger pairs@[k], pairs@[l]]
            0 <= k < l < pairs@.len() ==> pairs@[k].0 < pairs@[l].0 || (pairs@[k].0 == pairs@[l].0
                && pairs@[k].1 < pairs@[l].1),
{
    itertools::Itertools::tuple_combinations(0..count).collect()
}

/// No two of the parameters are in conflict.
pub open spec fn all_compatible(parameters: Seq<Parameter>) -> bool {
    forall|i: int, j: int|
        0 <= i < j < parameters.len() ==> crate::schedule::request::compatible(
            #[trigger] parameters[i],
            #[trigger] parameters[j],
        )
}

/// The parameters `i` and `j` are the first ones that are in conflict, and the error is one that
/// they give.
pub open spec fn first_conflict(
    parameters: Seq<Parameter>,
    i: int,
    j: int,
    error: SystemParameterConflictError,
) -> bool {
    &&& 0 <= i < j < parameters.len()
    &&& crate::schedule::request::conflicts_with(parameters[i], parameters[j], error)
    &&& forall|a: int, b: int|
        0 <= a < b < parameters.len() && (a < i || (a == i && b < j))
            ==> crate::schedule::request::compatible(
            #[trigger] parameters[a],
            #[trigger] parameters[b],
        )
}

/// Make a system, if its parameters can be used at the same time.
pub(crate) fn build_system(name: &'static str, parameters: Vec<SystemParameterRequest>) -> (made:
    Result<BoxedSystem, SystemParameterConflictError>)
    requires
        parameters@.len() <= MAX_PARAMETERS,
    ensures
        match made {
            Ok(boxed) => {
                &&& all_compatible(parameters_of(parameters@))
                &&& boxed.system.spec_parameters() == parameters_of(parameters@)
                &&& boxed.system.spec_name() == name@
            },
            Err(error) => exists|i: int, j: int| #[trigger]
                first_conflict(parameters_of(parameters@), i, j, error),
        },
{
    let ghost views = parameters_of(parameters@);
    let pairs = index_pairs(parameters.len());
    let mut k: usize = 0;
    while k < pairs.len()
        invariant
            k <= pairs.len(),
            views == parameters_of(parameters@),
            views.len() == parameters@.len() <= MAX_PARAMETERS,
            forall|m: int|
                #![trigger pairs@[m]]
                0 <= m < pairs@.len() ==> pairs@[m].0 < pairs@[m].1 < parameters@.len(),
            forall|i: usize, j: usize|
                i < j < parameters@.len() ==> #[trigger] pairs@.contains((i, j)),
            forall|m: int, l: int|
                #![trigger pairs@[m], pairs@[l]]
                0 <= m < l < pairs@.len() ==> pairs@[m].0 < pairs@[l].0 || (pairs@[m].0
                    == pairs@[l].0 && pairs@[m].1 < pairs@[l].1),
            forall|m: int|
                #![trigger pairs@[m]]
                0 <= m < k ==> crate::schedule::request::compatible(
                    views[pairs@[m].0 as int],
                    views[pairs@[m].1 as int],
                ),
        decreases pairs.len() - k,
    {
        let (a, b) = pairs[k];
        assert(pairs@[k as int] == (a, b));
        match parameters[a].check_for_parameter_conflict(&parameters[b]) {
            Ok(_) => {},
            Err(error) => {
                proof {
                    assert forall|i: int, j: int|
                        0 <= i < j < views.len() && (i < a || (i == a && j < b)) implies
                        crate::schedule::request::compatible(
                        #[trigger] views[i],
                        #[trigger] views[j],
                    ) by {
                        assert(pairs@.contains((i as usize, j as usize)));
                        let m = pairs@.index_of((i as usize, j as usize));
                        assert(pairs@[m] == (i as usize, j as usize));
                        if m > k {
                            assert(pairs@[k as int].0 < pairs@[m].0 || (pairs@[k as int].0
                                == pairs@[m].0 && pairs@[k as int].1 < pairs@[m].1));
                        }
                    }
                    assert(first_conflict(views, a as int, b as int, error));
                }
                return Err(error);
            },
        }
        k += 1;
    }
    proof {
        assert forall|i: int, j: int| 0 <= i < j < views.len() implies
            crate::schedule::request::compatible(#[trigger] views[i], #[trigger] views[j]) by {
            assert(pairs@.contains((i as usize, j as usize)));
            let m = pairs@.index_of((i as usize, j as usize));
            assert(pairs@[m] == (i as usize, j as usize));
        }
    }
    Ok(BoxedSystem { system: Box::new(CustomSystem { name, parameters }) })
}

/// The parameters of a system.
pub trait SystemParameters {
    /// What the parameters request.
    spec fn spec_parameters() -> Seq<Parameter>;

    /// What the parameters request.
    fn requests() -> (requests: Vec<SystemParameterRequest>)
        ensures
            parameters_of(requests@) == Self::spec_parameters(),
            requests@.len() <= MAX_PARAMETERS,
    ;
}

/// Something that a system can be made of. The type `T` is that of its parameters.
pub trait IntoSystem<T: SystemParameters>: Sized {
    /// Make a system of the given name, if its parameters can be used at the same time.
    fn into_system(self, name: &'static str) -> (made: Result<
        BoxedSystem,
        SystemParameterConflictError,
    >)
        ensures
            match made {
                Ok(boxed) => {
                    &&& all_compatible(T::spec_parameters())
                    &&& boxed.system.spec_parameters() == T::spec_parameters()
                    &&& boxed.system.spec_name() == name@
                },
                Err(error) => exists|i: int, j: int| #[trigger]
                    first_conflict(T::spec_parameters(), i, j, error),
            },
    ;
}

/// `PartialEq::eq` of std for strings: whether they have the same characters.
#[verifier::external_body]
fn same_name(a: &str, b: &str) -> (same: bool)
    ensures
        same == (a@ == b@),
{
    a == b
}

impl BoxedSystem {
    /// Whether both systems have the same name and the same parameters. Gotta be the same.
    pub fn same(&self, other: &Self) -> (same: bool)
        ensures
            same == (self.system.spec_name() == other.system.spec_name()
                && self.system.spec_parameters() == other.system.spec_parameters()),
    {
        if !same_name(self.system.name(), other.system.name()) {
            return false;
        }
        let ours = self.system.parameters();
        let theirs = other.system.parameters();
        assert(parameters_of(ours@).len() == ours@.len());
        assert(parameters_of(theirs@).len() == theirs@.len());
        if ours.len() != theirs.len() {
            return false;
        }
        let mut k: usize = 0;
        while k < ours.len()
            invariant
                k <= ours@.len(),
                ours@.len() == theirs@.len(),
                parameters_of(ours@) == self.system.spec_parameters(),
                parameters_of(theirs@) == other.system.spec_parameters(),
                forall|i: int| 0 <= i < k ==> (#[trigger] ours@[i])@ == theirs@[i]@,
            decreases ours.len() - k,
        {
            if ours[k] != theirs[k] {
                proof {
                    assert(parameters_of(ours@)[k as int] == ours@[k as int]@);
                    assert(parameters_of(theirs@)[k as int] == theirs@[k as int]@);
                }
                return false;
            }
            k += 1;
        }
        assert(parameters_of(ours@) =~= parameters_of(theirs@));
        true
    }
}

} // verus!
