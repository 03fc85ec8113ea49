//! A sum type of two deterministic blueprint types, itself a deterministic
//! blueprint: whichever variant is active does all the work.

use vstd::prelude::*;

use crate::{AutomatonModel, DeterministicAutomatonBlueprint};

verus! {

/// A choice between two values, used to select one of two deterministic
/// automaton blueprint types at runtime.
#[derive(Clone, Copy, Debug, PartialEq, Eq)]
pub enum Either<A, B> {
    /// The left variant containing a value of type `A`.
    Left(A),
    /// The right variant containing a value of type `B`.
    Right(B),
}

/// The model of a left-variant sum blueprint: left states behave as in the
/// component's model, and a right state is a structural mismatch — an invalid
/// state with an unconstrained error payload.
pub open spec fn either_left_model<StateA, StateB, Alphabet, StateSort, ErrorType>(
    component: AutomatonModel<StateA, Alphabet, StateSort, ErrorType>,
) -> AutomatonModel<Either<StateA, StateB>, Alphabet, StateSort, ErrorType> {
    AutomatonModel {
        initial_state: Either::Left(component.initial_state),
        state_sort: (
        |state: Either<StateA, StateB>|
            match state {
                Either::Left(inner) => (component.state_sort)(inner),
                Either::Right(_) => None,
            }
        ),
        sort_error: (
        |state: Either<StateA, StateB>, e: ErrorType|
            match state {
                Either::Left(inner) => (component.sort_error)(inner, e),
                Either::Right(_) => true,
            }
        ),
        transition: (
        |state: Either<StateA, StateB>, character: Alphabet|
            match state {
                Either::Left(inner) => match (component.transition)(inner, character) {
                    Some(next) => Some(Either::Left(next)),
                    None => None,
                },
                Either::Right(_) => None,
            }
        ),
        transition_error: (
        |state: Either<StateA, StateB>, character: Alphabet, e: ErrorType|
            match state {
                Either::Left(inner) => (component.transition_error)(inner, character, e),
                Either::Right(_) => true,
            }
        ),
    }
}

/// The model of a right-variant sum blueprint, mirroring
/// [`either_left_model`].
pub open spec fn either_right_model<StateA, StateB, Alphabet, StateSort, ErrorType>(
    component: AutomatonModel<StateB, Alphabet, StateSort, ErrorType>,
) -> AutomatonModel<Either<StateA, StateB>, Alphabet, StateSort, ErrorType> {
    AutomatonModel {
        initial_state: Either::Right(component.initial_state),
        state_sort: (
        |state: Either<StateA, StateB>|
            match state {
                Either::Left(_) => None,
                Either::Right(inner) => (component.state_sort)(inner),
            }
        ),
        sort_error: (
        |state: Either<StateA, StateB>, e: ErrorType|
            match state {
                Either::Left(_) => true,
                Either::Right(inner) => (component.sort_error)(inner, e),
            }
        ),
        transition: (
        |state: Either<StateA, StateB>, character: Alphabet|
            match state {
                Either::Left(_) => None,
                Either::Right(inner) => match (component.transition)(inner, character) {
                    Some(next) => Some(Either::Right(next)),
                    None => None,
                },
            }
        ),
        transition_error: (
        |state: Either<StateA, StateB>, character: Alphabet, e: ErrorType|
            match state {
                Either::Left(_) => true,
                Either::Right(inner) => (component.transition_error)(inner, character, e),
            }
        ),
    }
}

impl<A, B, StateSort, Alphabet, ErrorType> DeterministicAutomatonBlueprint for Either<
    A,
    B,
> where
    A: DeterministicAutomatonBlueprint<
        StateSort = StateSort,
        Alphabet = Alphabet,
        ErrorType = ErrorType,
    >,
    B: DeterministicAutomatonBlueprint<
        StateSort = StateSort,
        Alphabet = Alphabet,
        ErrorType = ErrorType,
    >,
    ErrorType: Default,
 {
    type State = Either<A::State, B::State>;

    type Alphabet = Alphabet;

    type StateSort = StateSort;

    type ErrorType = ErrorType;

    open spec fn wf(&self) -> bool {
        match self {
            Either::Left(blueprint) => blueprint.wf(),
            Either::Right(blueprint) => blueprint.wf(),
        }
    }

    open spec fn model(&self) -> AutomatonModel<
        Either<A::State, B::State>,
        Alphabet,
        StateSort,
        ErrorType,
    > {
        match self {
            Either::Left(blueprint) => either_left_model(blueprint.model()),
            Either::Right(blueprint) => either_right_model(blueprint.model()),
        }
    }

    fn initial_state(&self) -> (r: Either<A::State, B::State>) {
        match self {
            Either::Left(blueprint) => Either::Left(blueprint.initial_state()),
            Either::Right(blueprint) => Either::Right(blueprint.initial_state()),
        }
    }

    fn state_sort_map(&self, state: &Either<A::State, B::State>) -> (r: Result<
        StateSort,
        ErrorType,
    >) {
        match (self, state) {
            (Either::Left(blueprint), Either::Left(inner)) => blueprint.state_sort_map(inner),
            (Either::Left(_), Either::Right(_)) => Err(Default::default()),
            (Either::Right(_), Either::Left(_)) => Err(Default::default()),
            (Either::Right(blueprint), Either::Right(inner)) => blueprint.state_sort_map(inner),
        }
    }

    fn transition_map(&self, state: &Either<A::State, B::State>, character: &Alphabet) -> (r:
        Result<Either<A::State, B::State>, ErrorType>) {
        match (self, state) {
            (Either::Left(blueprint), Either::Left(inner)) => match blueprint.transition_map(
                inner,
                character,
            ) {
                Ok(next) => Ok(Either::Left(next)),
                Err(e) => Err(e),
            },
            (Either::Left(_), Either::Right(_)) => Err(Default::default()),
            (Either::Right(_), Either::Left(_)) => Err(Default::default()),
            (Either::Right(blueprint), Either::Right(inner)) => match blueprint.transition_map(
                inner,
                character,
            ) {
                Ok(next) => Ok(Either::Right(next)),
                Err(e) => Err(e),
            },
        }
    }
}

} // verus!
