//! A sum type of two mutation blueprint types, itself a mutation blueprint:
//! whichever variant is active does all the work, updating its component
//! state in place.

use vstd::prelude::*;

use crate::{AutomatonModel, MutationAutomatonBlueprint};

verus! {

/// A choice between two values, used to select one of two mutation automaton
/// blueprint types at runtime.
#[derive(Clone, Copy, Debug, PartialEq, Eq)]
pub enum Either<A, B> {
    /// The left variant containing a value of type `A`.
    Left(A),
    /// The right variant containing a value of type `B`.
    Right(B),
}

/// The model of a left-variant mutation sum blueprint: left states behave as
/// in the component's model, and a right state is a structural mismatch — an
/// invalid state with an unconstrained error payload.
pub open spec fn either_left_model<StateA, StateB, Alphabet, StateSort, ErrorType>(
    component: AutomatonModel<StateA, Alphabet, StateSort, ErrorType>,
) -> AutomatonModel<Either<StateA, StateB>, Alphabet, StateSort, ErrorType> {
    AutomatonModel {
        initial_state: Either::Left(component.initial_state),
        state_sort: (
        |state: Either<StateA, StateB>|
            match state {
                Either::Left(inner) => (component.state_sort)(inner),
                Either::Right(_) => None,
            }
        ),
        sort_error: (
        |state: Either<StateA, StateB>, e: ErrorType|
            match state {
                Either::Left(inner) => (component.sort_error)(inner, e),
                Either::Right(_) => true,
            }
        ),
        transition: (
        |state: Either<StateA, StateB>, character: Alphabet|
            match state {
                Either::Left(inner) => match (component.transition)(inner, character) {
                    Some(next) => Some(Either::Left(next)),
                    None => None,
                },
                Either::Right(_) => None,
            }
        ),
        transition_error: (
        |state: Either<StateA, StateB>, character: Alphabet, e: ErrorType|
            match state {
                Either::Left(inner) => (component.transition_error)(inner, character, e),
                Either::Right(_) => true,
            }
        ),
    }
}

/// The model of a right-variant mutation sum blueprint, mirroring
/// [`either_left_model`].
pub open spec fn either_right_model<StateA, StateB, Alphabet, StateSort, ErrorType>(
    component: AutomatonModel<StateB, Alphabet, StateSort, ErrorType>,
) -> AutomatonModel<Either<StateA, StateB>, Alphabet, StateSort, ErrorType> {
    AutomatonModel {
        initial_state: Either::Right(component.initial_state),
        state_sort: (
        |state: Either<StateA, StateB>|
            match state {
                Either::Left(_) => None,
                Either::Right(inner) => (component.state_sort)(inner),
            }
        ),
        sort_error: (
        |state: Either<StateA, StateB>, e: ErrorType|
            match state {
                Either::Left(_) => true,
                Either::Right(inner) => (component.sort_error)(inner, e),
            }
        ),
        transition: (
        |state: Either<StateA, StateB>, character: Alphabet|
            match state {
                Either::Left(_) => None,
                Either::Right(inner) => match (component.transition)(inner, character) {
                    Some(next) => Some(Either::Right(next)),
                    None => None,
                },
            }
        ),
        transition_error: (
        |state: Either<StateA, StateB>, character: Alphabet, e: ErrorType|
            match state {
                Either::Left(_) => true,
                Either::Right(inner) => (component.transition_error)(inner, character, e),
            }
        ),
    }
}

impl<A, B, StateSort, Alphabet, ErrorType> MutationAutomatonBlueprint for Either<
    A,
    B,
> where
    A: MutationAutomatonBlueprint<
        StateSort = StateSort,
        Alphabet = Alphabet,
        ErrorType = ErrorType,
    >,
    B: MutationAutomatonBlueprint<
        StateSort = StateSort,
        Alphabet = Alphabet,
        ErrorType = ErrorType,
    >,
    ErrorType: Default,
 {
    type State = Either<A::State, B::State>;

    type Alphabet = Alphabet;

    type StateSort = StateSort;

    type ErrorType = ErrorType;

    open spec fn mutation_wf(&self) -> bool {
        match self {
            Either::Left(blueprint) => blueprint.mutation_wf(),
            Either::Right(blueprint) => blueprint.mutation_wf(),
        }
    }

    open spec fn mutation_model(&self) -> AutomatonModel<
        Either<A::State, B::State>,
        Alphabet,
        StateSort,
        ErrorType,
    > {
        match self {
            Either::Left(blueprint) => either_left_model(blueprint.mutation_model()),
            Either::Right(blueprint) => either_right_model(blueprint.mutation_model()),
        }
    }

    fn initial_mutation_state(&self) -> (r: Either<A::State, B::State>) {
        match self {
            Either::Left(blueprint) => Either::Left(blueprint.initial_mutation_state()),
            Either::Right(blueprint) => Either::Right(blueprint.initial_mutation_state()),
        }
    }

    fn mutation_state_sort_map(&self, state: &Either<A::State, B::State>) -> (r: Result<
        StateSort,
        ErrorType,
    >) {
        match (self, state) {
            (Either::Left(blueprint), Either::Left(inner)) => blueprint.mutation_state_sort_map(
                inner,
            ),
            (Either::Left(_), Either::Right(_)) => Err(Default::default()),
            (Either::Right(_), Either::Left(_)) => Err(Default::default()),
            (Either::Right(blueprint), Either::Right(inner)) => blueprint.mutation_state_sort_map(
                inner,
            ),
        }
    }

    fn mutation_transition_map(
        &self,
        state: &mut Either<A::State, B::State>,
        character: &Alphabet,
    ) -> (r: Result<(), ErrorType>)
        ensures
            match (self, *old(state)) {
                (Either::Left(_), Either::Right(_)) => r is Err && *final(state) == *old(state),
                (Either::Right(_), Either::Left(_)) => r is Err && *final(state) == *old(state),
                _ => true,
            },
    {
        match (self, state) {
            (Either::Left(blueprint), Either::Left(inner)) => blueprint.mutation_transition_map(
                inner,
                character,
            ),
            (Either::Left(_), Either::Right(_)) => Err(Default::default()),
            (Either::Right(_), Either::Left(_)) => Err(Default::default()),
            (Either::Right(blueprint), Either::Right(inner)) => blueprint.mutation_transition_map(
                inner,
                character,
            ),
        }
    }
}

} // verus!
