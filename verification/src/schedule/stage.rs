//! Stages and schedules.

use crate::schedule::error::{AddSystemError, StageConflictError, SystemParameterConflictError};
use crate::schedule::request::{Parameter, SystemParameterRequest};
use crate::schedule::system::{BoxedSystem, IntoSystem, SystemParameters};
use vstd::prelude::*;

verus! {

/// A stage is a set of systems that can safely be ran in parallel.
/// In the case that you're using an executor that can't run in parallel, the order that they are
/// ran will be arbitrary.
pub struct Stage {
    pub systems: Vec<BoxedSystem>,
}

/// No parameter of a system is in conflict with one of a new system.
pub open spec fn systems_compatible(present: Seq<Parameter>, new: Seq<Parameter>) -> bool {
    forall|a: int, b: int|
        0 <= a < present.len() && 0 <= b < new.len() ==> crate::schedule::request::compatible(
            #[trigger] new[b],
            #[trigger] present[a],
        )
}

/// The parameters `a` and `b` of two systems are the first ones that are in conflict, and the
/// error is one that they give.
pub open spec fn first_system_conflict(
    present: Seq<Parameter>,
    new: Seq<Parameter>,
    a: int,
    b: int,
    error: SystemParameterConflictError,
) -> bool {
    &&& 0 <= a < present.len()
    &&& 0 <= b < new.len()
    &&& crate::schedule::request::conflicts_with(new[b], present[a], error)
    &&& forall|c: int, d: int|
        0 <= c < present.len() && 0 <= d < new.len() && (c < a || (c == a && d < b))
            ==> crate::schedule::request::compatible(#[trigger] new[d], #[trigger] present[c])
}

/// Check the parameters of a new system against those of one that is there already.
fn check_systems(
    present: &[SystemParameterRequest],
    new: &[SystemParameterRequest],
) -> (checked: Result<(), SystemParameterConflictError>)
    ensures
        match checked {
            Ok(_) => systems_compatible(
                crate::schedule::system::parameters_of(present@),
                crate::schedule::system::parameters_of(new@),
            ),
            Err(error) => exists|a: int, b: int| #[trigger]
                first_system_conflict(
                    crate::schedule::system::parameters_of(present@),
                    crate::schedule::system::parameters_of(new@),
                    a,
                    b,
                    error,
                ),
        },
{
    let ghost theirs = crate::schedule::system::parameters_of(present@);
    let ghost ours = crate::schedule::system::parameters_of(new@);
    let mut a: usize = 0;
    while a < present.len()
        invariant
            a <= present@.len(),
            theirs == crate::schedule::system::parameters_of(present@),
            ours == crate::schedule::system::parameters_of(new@),
            forall|c: int, d: int|
                0 <= c < a && 0 <= d < ours.len() ==> crate::schedule::request::compatible(
                    #[trigger] ours[d],
                    #[trigger] theirs[c],
                ),
        decreases present.len() - a,
    {
        let mut b: usize = 0;
        while b < new.len()
            invariant
                a < present@.len(),
                b <= new@.len(),
                theirs == crate::schedule::system::parameters_of(present@),
                ours == crate::schedule::system::parameters_of(new@),
                forall|c: int, d: int|
                    0 <= c < theirs.len() && 0 <= d < ours.len() && (c < a || (c == a && d < b))
                        ==> crate::schedule::request::compatible(
                        #[trigger] ours[d],
                        #[trigger] theirs[c],
                    ),
            decreases new.len() - b,
        {
            assert(ours[b as int] == new@[b as int]@);
            assert(theirs[a as int] == present@[a as int]@);
            match new[b].check_for_parameter_conflict(&present[a]) {
                Ok(_) => {},
                Err(error) => {
                    assert(first_system_conflict(theirs, ours, a as int, b as int, error));
                    return Err(error);
                },
            }
            b += 1;
        }
        a += 1;
    }
    Ok(())
}

/// The parameters of each system.
pub open spec fn parameter_lists(systems: Seq<BoxedSystem>) -> Seq<Seq<Parameter>> {
    systems.map_values(|boxed: BoxedSystem| boxed.system.spec_parameters())
}

/// The names of the systems.
pub open spec fn names(systems: Seq<BoxedSystem>) -> Seq<Seq<char>> {
    systems.map_values(|boxed: BoxedSystem| boxed.system.spec_name())
}

/// No system is in conflict with another.
pub open spec fn conflict_free(parameters: Seq<Seq<Parameter>>) -> bool {
    forall|i: int, j: int|
        #![trigger parameters[i], parameters[j]]
        0 <= i < j < parameters.len() ==> systems_compatible(parameters[i], parameters[j])
}

/// A new system is in conflict with none of the others.
pub open spec fn admitted(parameters: Seq<Seq<Parameter>>, new: Seq<Parameter>) -> bool {
    forall|i: int|
        0 <= i < parameters.len() ==> systems_compatible(#[trigger] parameters[i], new)
}

/// The error names the first system that the new system is in conflict with, and tells of the
/// first of their parameters that are in conflict.
pub open spec fn rejected(
    systems: Seq<BoxedSystem>,
    new: BoxedSystem,
    error: StageConflictError,
) -> bool {
    exists|i: int, a: int, b: int|
        {
            &&& 0 <= i < systems.len()
            &&& #[trigger] first_system_conflict(
                parameter_lists(systems)[i],
                new.system.spec_parameters(),
                a,
                b,
                error.source,
            )
            &&& error.system_a@ == names(systems)[i]
            &&& error.system_b@ == new.system.spec_name()
            &&& admitted(parameter_lists(systems).take(i), new.system.spec_parameters())
        }
}

impl Stage {
    /// No system of the stage is in conflict with another.
    pub open spec fn wf(self) -> bool {
        conflict_free(parameter_lists(self.systems@))
    }
}

impl Default for Stage {
    /// A stage without systems.
    fn default() -> (stage: Self)
        ensures
            stage.wf(),
            stage.systems@.len() == 0,
    {
        Stage { systems: Vec::new() }
    }
}

impl Stage {
    /// A stage of the given systems, if none of them is in conflict with another. Else the error
    /// is that of the first system that is in conflict with one before it.
    #[verifier::loop_isolation(false)]
    pub fn from_systems(systems: Vec<BoxedSystem>) -> (made: Result<Self, StageConflictError>)
        ensures
            match made {
                Ok(stage) => {
                    &&& stage.systems@ == systems@
                    &&& conflict_free(parameter_lists(systems@))
                },
                Err(error) => exists|n: int|
                    {
                        &&& 0 <= n < systems@.len()
                        &&& conflict_free(parameter_lists(systems@.take(n)))
                        &&& #[trigger] rejected(systems@.take(n), systems@[n], error)
                    },
            },
    {
        let ghost all = systems@;
        let mut systems = systems;
        let mut stage = Stage::default();
        assert(all.take(0) =~= stage.systems@);
        while systems.len() > 0
            invariant
                stage.wf(),
                stage.systems@.len() + systems@.len() == all.len(),
                stage.systems@ == all.take(stage.systems@.len() as int),
                systems@ == all.skip(stage.systems@.len() as int),
            decreases systems.len(),
        {
            let ghost n = stage.systems@.len() as int;
            let system = systems.remove(0);
            assert(system == all[n]);
            match stage.add_boxed_system(system) {
                Ok(_) => {
                    assert(stage.systems@ =~= all.take(n + 1));
                    assert(systems@ =~= all.skip(n + 1));
                },
                Err(error) => {
                    assert(rejected(all.take(n), all[n], error));
                    return Err(error);
                },
            }
        }
        assert(stage.systems@ =~= all);
        Ok(stage)
    }

    /// The systems of the stage.
    pub fn iter_systems(&self) -> (systems: &Vec<BoxedSystem>)
        ensures
            systems@ == self.systems@,
    {
        &self.systems
    }

    /// Add a system, if it is not in conflict with any of the systems of the stage.
    pub fn add_boxed_system(&mut self, new_system: BoxedSystem) -> (added: Result<
        (),
        StageConflictError,
    >)
        requires
            old(self).wf(),
        ensures
            final(self).wf(),
            match added {
                Ok(_) => {
                    &&& admitted(
                        parameter_lists(old(self).systems@),
                        new_system.system.spec_parameters(),
                    )
                    &&& final(self).systems@ == old(self).systems@.push(new_system)
                },
                Err(error) => {
                    &&& rejected(old(self).systems@, new_system, error)
                    &&& *final(self) == *old(self)
                },
            },
    {
        let ghost new = new_system.system.spec_parameters();
        let ghost lists = parameter_lists(self.systems@);
        // Validate that the new system doesn't conflict with any of the already existing
        // systems.
        let mut i: usize = 0;
        while i < self.systems.len()
            invariant
                *self == *old(self),
                self.wf(),
                i <= self.systems@.len(),
                lists == parameter_lists(self.systems@),
                new == new_system.system.spec_parameters(),
                forall|j: int| 0 <= j < i ==> systems_compatible(#[trigger] lists[j], new),
            decreases self.systems.len() - i,
        {
            assert(lists[i as int] == self.systems@[i as int].system.spec_parameters());
            assert(names(self.systems@)[i as int] == self.systems@[i as int].system.spec_name());
            let present = self.systems[i].system.parameters();
            match check_systems(present, new_system.system.parameters()) {
                Ok(_) => {},
                Err(source) => {
                    assert(admitted(lists.take(i as int), new));
                    return Err(
                        StageConflictError {
                            source,
                            system_a: self.systems[i].system.name(),
                            system_b: new_system.system.name(),
                        },
                    );
                },
            }
            i += 1;
        }
        // If we got here, then it means none of the old systems conflicted with the new one.
        self.systems.push(new_system);
        proof {
            let after = parameter_lists(self.systems@);
            assert(after =~= lists.push(new));
            assert forall|j: int, k: int|
                #![trigger after[j], after[k]]
                0 <= j < k < after.len() implies systems_compatible(after[j], after[k]) by {
                assert(after[j] == lists[j]);
                if k < lists.len() {
                    assert(after[k] == lists[k]);
                }
            }
        }
        Ok(())
    }

    /// Make a system and add it, if its parameters are not in conflict with each other, and if
    /// it is not in conflict with any of the systems of the stage.
    pub fn add_system<T: SystemParameters, S: IntoSystem<T>>(
        &mut self,
        system: S,
        name: &'static str,
    ) -> (added: Result<(), AddSystemError>)
        requires
            old(self).wf(),
        ensures
            final(self).wf(),
            match added {
                Ok(_) => {
                    &&& crate::schedule::system::all_compatible(T::spec_parameters())
                    &&& admitted(parameter_lists(old(self).systems@), T::spec_parameters())
                    &&& final(self).systems@.len() == old(self).systems@.len() + 1
                    &&& final(self).systems@.drop_last() == old(self).systems@
                    &&& final(self).systems@.last().system.spec_parameters() == T::spec_parameters()
                    &&& final(self).systems@.last().system.spec_name() == name@
                },
                Err(AddSystemError::ConvertToSystem(error)) => {
                    &&& exists|i: int, j: int| #[trigger]
                        crate::schedule::system::first_conflict(T::spec_parameters(), i, j, error)
                    &&& *final(self) == *old(self)
                },
                Err(AddSystemError::SystemConflict(error)) => {
                    &&& crate::schedule::system::all_compatible(T::spec_parameters())
                    &&& exists|boxed: BoxedSystem|
                        {
                            &&& boxed.system.spec_parameters() == T::spec_parameters()
                            &&& boxed.system.spec_name() == name@
                            &&& #[trigger] rejected(old(self).systems@, boxed, error)
                        }
                    &&& *final(self) == *old(self)
                },
            },
    {
        // This already checks that the system doesn't have any internal conflicts.
        match system.into_system(name) {
            Ok(new_system) => match self.add_boxed_system(new_system) {
                Ok(_) => {
                    assert(self.systems@.drop_last() =~= old(self).systems@);
                    Ok(())
                },
                Err(error) => {
                    Err(AddSystemError::from(error))
                },
            },
            Err(error) => Err(AddSystemError::from(error)),
        }
    }
}

impl PartialEq for Stage {
    fn eq(&self, other: &Self) -> (same: bool) {
        if self.systems.len() != other.systems.len() {
            proof {
                assert(names(self.systems@).len() == self.systems@.len());
                assert(names(other.systems@).len() == other.systems@.len());
            }
            return false;
        }
        let mut k: usize = 0;
        while k < self.systems.len()
            invariant
                k <= self.systems@.len(),
                self.systems@.len() == other.systems@.len(),
                forall|i: int|
                    #![trigger self.systems@[i]]
                    0 <= i < k ==> {
                        &&& self.systems@[i].system.spec_name()
                            == other.systems@[i].system.spec_name()
                        &&& self.systems@[i].system.spec_parameters()
                            == other.systems@[i].system.spec_parameters()
                    },
            decreases self.systems.len() - k,
        {
            if !self.systems[k].same(&other.systems[k]) {
                proof {
                    let (ours, theirs) = (self.systems@, other.systems@);
                    assert(names(ours)[k as int] == ours[k as int].system.spec_name());
                    assert(names(theirs)[k as int] == theirs[k as int].system.spec_name());
                    assert(parameter_lists(ours)[k as int]
                        == ours[k as int].system.spec_parameters());
                    assert(parameter_lists(theirs)[k as int]
                        == theirs[k as int].system.spec_parameters());
                }
                return false;
            }
            k += 1;
        }
        proof {
            assert(names(self.systems@) =~= names(other.systems@));
            assert(parameter_lists(self.systems@) =~= parameter_lists(other.systems@));
        }
        true
    }
}

impl vstd::std_specs::cmp::PartialEqSpecImpl for Stage {
    open spec fn obeys_eq_spec() -> bool {
        true
    }

    open spec fn eq_spec(&self, other: &Self) -> bool {
        &&& names(self.systems@) == names(other.systems@)
        &&& parameter_lists(self.systems@) == parameter_lists(other.systems@)
    }
}

impl Eq for Stage {

}

/// A schedule is what runs our systems on our entities/components.
/// You will provide it stages. A stage is a set of systems that can safely be ran in parallel.
/// Stages will be ran in the order they are supplied.
pub struct Schedule {
    stages: Vec<Stage>,
}

impl View for Schedule {
    type V = Seq<Stage>;

    closed spec fn view(&self) -> Seq<Stage> {
        self.stages@
    }
}

/// The states that a step goes through from one stage to the next: it is called once for each
/// stage, in order, and each call starts from the state that the one before it ended with. There
/// is one more state than there are stages behind it.
pub open spec fn goes_through<S, F: Fn(S, &Stage) -> S>(
    stages: Seq<Stage>,
    step: F,
    states: Seq<S>,
) -> bool {
    &&& 1 <= states.len() <= stages.len() + 1
    &&& forall|i: int|
        #![trigger states[i]]
        0 <= i < states.len() - 1 ==> call_ensures(step, (states[i], &stages[i]), states[i + 1])
}

/// A state that no step changes is the same all the way.
proof fn lemma_state_stays<S, F: Fn(S, &Stage) -> S>(
    stages: Seq<Stage>,
    step: F,
    states: Seq<S>,
    i: int,
)
    requires
        goes_through(stages, step, states),
        forall|s: S, stage: &Stage, t: S| #[trigger] call_ensures(step, (s, stage), t) ==> t == s,
        0 <= i < states.len(),
    ensures
        states[i] == states[0],
    decreases i,
{
    if i > 0 {
        lemma_state_stays(stages, step, states, i - 1);
        assert(call_ensures(step, (states[i - 1], &stages[i - 1]), states[i]));
    }
}

impl Schedule {
    /// A schedule of the given stages.
    pub fn new(stages: Vec<Stage>) -> (schedule: Self)
        ensures
            schedule@ == stages@,
    {
        Schedule { stages }
    }

    /// The number of stages.
    pub fn stage_count(&self) -> (count: usize)
        ensures
            count == self@.len(),
    {
        self.stages.len()
    }

    /// Go over the stages of the schedule with a state. Each stage is handed out once, in the
    /// order in which they were supplied, and the step for one stage ends before that for the
    /// next one begins.
    pub fn fold_stages<S, F: Fn(S, &Stage) -> S>(&self, state: S, step: F) -> (end: S)
        requires
            forall|states: Seq<S>| #[trigger]
                goes_through(self@, step, states) && states.first() == state && states.len()
                    <= self@.len() ==> call_requires(
                    step,
                    (states.last(), &self@[states.len() - 1]),
                ),
        ensures
            exists|states: Seq<S>|
                {
                    &&& #[trigger] goes_through(self@, step, states)
                    &&& states.len() == self@.len() + 1
                    &&& states.first() == state
                    &&& states.last() == end
                },
    {
        let ghost mut states: Seq<S> = seq![state];
        let ghost first = state;
        let mut state = state;
        let mut k: usize = 0;
        while k < self.stages.len()
            invariant
                k <= self@.len(),
                self@ == self.stages@,
                states.len() == k + 1,
                states.first() == first,
                states.last() == state,
                goes_through(self@, step, states),
                forall|states: Seq<S>| #[trigger]
                    goes_through(self@, step, states) && states.first() == first && states.len()
                        <= self@.len() ==> call_requires(
                        step,
                        (states.last(), &self@[states.len() - 1]),
                    ),
            decreases self.stages.len() - k,
        {
            let ghost before = states;
            let ghost start = state;
            state = step(state, &self.stages[k]);
            proof {
                states = before.push(state);
                assert forall|i: int|
                    #![trigger states[i]]
                    0 <= i < states.len() - 1 implies call_ensures(
                    step,
                    (states[i], &self@[i]),
                    states[i + 1],
                ) by {
                    if i < k {
                        assert(states[i] == before[i]);
                        assert(states[i + 1] == before[i + 1]);
                    } else {
                        assert(states[i] == start);
                    }
                }
            }
            k += 1;
        }
        state
    }

    /// Go over each stage of the schedule.
    /// Why don't we just return an iterator? Well that's because it's unsafe to execute multiple
    /// stages in parallel, so we can't let you hold multiple stages in parallel.
    ///
    /// The closure is called once for each stage, in the order in which they were supplied. What
    /// the calls leave behind in the closure is not known to a proof. Where it matters, hand it
    /// to `fold_stages` as the state.
    pub fn iter_stages<F: FnMut(&Stage)>(&self, closure: F)
        requires
            forall|i: int|
                0 <= i < self@.len() ==> call_requires(closure, (&#[trigger] self@[i],)),
        ensures
            forall|i: int|
                0 <= i < self@.len() ==> call_ensures(closure, (&#[trigger] self@[i],), ()),
    {
        let ghost first = closure;
        let step = |called: F, stage: &Stage| -> (kept: F)
            requires
                call_requires(called, (stage,)),
            ensures
                kept == called,
                call_ensures(called, (stage,), ()),
            {
                let mut called = called;
                called(stage);
                called
            };
        proof {
            assert forall|states: Seq<F>| #[trigger]
                goes_through(self@, step, states) && states.first() == closure && states.len()
                    <= self@.len() implies call_requires(
                step,
                (states.last(), &self@[states.len() - 1]),
            ) by {
                lemma_state_stays(self@, step, states, states.len() - 1);
            }
        }
        self.fold_stages(closure, step);
        proof {
            let states = choose|states: Seq<F>|
                {
                    &&& #[trigger] goes_through(self@, step, states)
                    &&& states.len() == self@.len() + 1
                    &&& states.first() == first
                };
            assert forall|i: int| 0 <= i < self@.len() implies call_ensures(
                first,
                (&#[trigger] self@[i],),
                (),
            ) by {
                lemma_state_stays(self@, step, states, i);
                assert(call_ensures(step, (states[i], &self@[i]), states[i + 1]));
            }
        }
    }
}

} // verus!
