//! Product construction and boolean operations over two automata.
//!
//! The product of two blueprints runs both components in lockstep on the same
//! input: its state is the pair of component states, and each symbol steps
//! both components.  The general product keeps both classifications as a
//! pair; the union and intersection specializations reduce a pair of binary
//! classifications by logical *or* respectively *and*.
//!
//! For both classification and transition, the first component is always
//! evaluated before the second, and a failure of the first short-circuits the
//! call: when both components would fail, the first component's error wins.
//! The model combinators ([`product_model`], [`union_model`],
//! [`intersection_model`]) state this order exactly, and the lemmas in this
//! module relate a combined automaton's behaviour to its components'.
//!
//! All three constructions exist for deterministic blueprints and, with
//! identical semantics, for mutation blueprints.

use vstd::prelude::*;

use crate::{
    spec_characterise, spec_run, AutomatonModel, BasicStateSort, DeterministicAutomatonBlueprint,
    MutationAutomatonBlueprint,
};

verus! {

/// The logical *or* of two binary classifications: accept when either
/// component accepts.
pub open spec fn union_sort(first: BasicStateSort, second: BasicStateSort) -> BasicStateSort {
    if first is Accept || second is Accept {
        BasicStateSort::Accept
    } else {
        BasicStateSort::Reject
    }
}

/// The logical *and* of two binary classifications: accept only when both
/// components accept.
pub open spec fn intersection_sort(
    first: BasicStateSort,
    second: BasicStateSort,
) -> BasicStateSort {
    if first is Accept && second is Accept {
        BasicStateSort::Accept
    } else {
        BasicStateSort::Reject
    }
}

/// The truth tables of the boolean reductions: accept/accept is accepted by
/// both; a single accept is kept by union and dropped by intersection;
/// reject/reject is rejected by both.  Both reductions are symmetric.
pub proof fn lemma_boolean_reduction_tables()
    ensures
        union_sort(BasicStateSort::Accept, BasicStateSort::Accept) == BasicStateSort::Accept,
        union_sort(BasicStateSort::Accept, BasicStateSort::Reject) == BasicStateSort::Accept,
        union_sort(BasicStateSort::Reject, BasicStateSort::Accept) == BasicStateSort::Accept,
        union_sort(BasicStateSort::Reject, BasicStateSort::Reject) == BasicStateSort::Reject,
        intersection_sort(BasicStateSort::Accept, BasicStateSort::Accept)
            == BasicStateSort::Accept,
        intersection_sort(BasicStateSort::Accept, BasicStateSort::Reject)
            == BasicStateSort::Reject,
        intersection_sort(BasicStateSort::Reject, BasicStateSort::Accept)
            == BasicStateSort::Reject,
        intersection_sort(BasicStateSort::Reject, BasicStateSort::Reject)
            == BasicStateSort::Reject,
        forall|x: BasicStateSort, y: BasicStateSort| union_sort(x, y) == union_sort(y, x),
        forall|x: BasicStateSort, y: BasicStateSort|
            intersection_sort(x, y) == intersection_sort(y, x),
{
}

/// The lockstep transition of a pair of models: both components step on the
/// same symbol, and the pair fails as soon as either component fails.
pub open spec fn pair_transition<StateA, StateB, Alphabet, SortA, SortB, ErrorType>(
    first: AutomatonModel<StateA, Alphabet, SortA, ErrorType>,
    second: AutomatonModel<StateB, Alphabet, SortB, ErrorType>,
) -> spec_fn((StateA, StateB), Alphabet) -> Option<(StateA, StateB)> {
    |state: (StateA, StateB), character: Alphabet|
        match ((first.transition)(state.0, character), (second.transition)(state.1, character)) {
            (Some(next_first), Some(next_second)) => Some((next_first, next_second)),
            _ => None,
        }
}

/// The error payloads of a failing lockstep transition: the first component
/// is evaluated first, so when it fails its payloads win and the second
/// component is never consulted.
pub open spec fn pair_transition_error<StateA, StateB, Alphabet, SortA, SortB, ErrorType>(
    first: AutomatonModel<StateA, Alphabet, SortA, ErrorType>,
    second: AutomatonModel<StateB, Alphabet, SortB, ErrorType>,
) -> spec_fn((StateA, StateB), Alphabet, ErrorType) -> bool {
    |state: (StateA, StateB), character: Alphabet, e: ErrorType|
        if (first.transition)(state.0, character) is None {
            (first.transition_error)(state.0, character, e)
        } else {
            (second.transition_error)(state.1, character, e)
        }
}

/// The error payloads of a failing pair classification: the first component
/// is classified first, so when it fails its payloads win.
pub open spec fn pair_sort_error<StateA, StateB, Alphabet, SortA, SortB, ErrorType>(
    first: AutomatonModel<StateA, Alphabet, SortA, ErrorType>,
    second: AutomatonModel<StateB, Alphabet, SortB, ErrorType>,
) -> spec_fn((StateA, StateB), ErrorType) -> bool {
    |state: (StateA, StateB), e: ErrorType|
        if (first.state_sort)(state.0) is None {
            (first.sort_error)(state.0, e)
        } else {
            (second.sort_error)(state.1, e)
        }
}

/// The model of the general product: paired states, lockstep transitions,
/// and the pair of the component classifications.
pub open spec fn product_model<StateA, StateB, Alphabet, SortA, SortB, ErrorType>(
    first: AutomatonModel<StateA, Alphabet, SortA, ErrorType>,
    second: AutomatonModel<StateB, Alphabet, SortB, ErrorType>,
) -> AutomatonModel<(StateA, StateB), Alphabet, (SortA, SortB), ErrorType> {
    AutomatonModel {
        initial_state: (first.initial_state, second.initial_state),
        state_sort: (
        |state: (StateA, StateB)|
            match ((first.state_sort)(state.0), (second.state_sort)(state.1)) {
                (Some(sort_first), Some(sort_second)) => Some((sort_first, sort_second)),
                _ => None,
            }
        ),
        sort_error: pair_sort_error(first, second),
        transition: pair_transition(first, second),
        transition_error: pair_transition_error(first, second),
    }
}

/// The model of the union: paired states, lockstep transitions, and the
/// logical *or* of the component classifications.
pub open spec fn union_model<StateA, StateB, Alphabet, ErrorType>(
    first: AutomatonModel<StateA, Alphabet, BasicStateSort, ErrorType>,
    second: AutomatonModel<StateB, Alphabet, BasicStateSort, ErrorType>,
) -> AutomatonModel<(StateA, StateB), Alphabet, BasicStateSort, ErrorType> {
    AutomatonModel {
        initial_state: (first.initial_state, second.initial_state),
        state_sort: (
        |state: (StateA, StateB)|
            match ((first.state_sort)(state.0), (second.state_sort)(state.1)) {
                (Some(sort_first), Some(sort_second)) => Some(union_sort(sort_first, sort_second)),
                _ => None,
            }
        ),
        sort_error: pair_sort_error(first, second),
        transition: pair_transition(first, second),
        transition_error: pair_transition_error(first, second),
    }
}

/// The model of the intersection: paired states, lockstep transitions, and
/// the logical *and* of the component classifications.
pub open spec fn intersection_model<StateA, StateB, Alphabet, ErrorType>(
    first: AutomatonModel<StateA, Alphabet, BasicStateSort, ErrorType>,
    second: AutomatonModel<StateB, Alphabet, BasicStateSort, ErrorType>,
) -> AutomatonModel<(StateA, StateB), Alphabet, BasicStateSort, ErrorType> {
    AutomatonModel {
        initial_state: (first.initial_state, second.initial_state),
        state_sort: (
        |state: (StateA, StateB)|
            match ((first.state_sort)(state.0), (second.state_sort)(state.1)) {
                (Some(sort_first), Some(sort_second)) => Some(
                    intersection_sort(sort_first, sort_second),
                ),
                _ => None,
            }
        ),
        sort_error: pair_sort_error(first, second),
        transition: pair_transition(first, second),
        transition_error: pair_transition_error(first, second),
    }
}

/// Running a word in lockstep equals running it in each component on its own:
/// the pair run reaches exactly the pair of the component runs' states, and
/// fails exactly when either component run fails.
pub proof fn lemma_pair_run<StateA, StateB, Alphabet, SortA, SortB, Sort, ErrorType>(
    model: AutomatonModel<(StateA, StateB), Alphabet, Sort, ErrorType>,
    first: AutomatonModel<StateA, Alphabet, SortA, ErrorType>,
    second: AutomatonModel<StateB, Alphabet, SortB, ErrorType>,
    state_first: StateA,
    state_second: StateB,
    word: Seq<Alphabet>,
)
    requires
        model.transition == pair_transition(first, second),
    ensures
        spec_run(model, (state_first, state_second), word) == match (
            spec_run(first, state_first, word),
            spec_run(second, state_second, word),
        ) {
            (Some(final_first), Some(final_second)) => Some((final_first, final_second)),
            _ => None,
        },
    decreases word.len(),
{
    if word.len() == 0 {
    } else {
        let step_first = (first.transition)(state_first, word[0]);
        let step_second = (second.transition)(state_second, word[0]);
        assert((model.transition)((state_first, state_second), word[0]) == match (
            step_first,
            step_second,
        ) {
            (Some(next_first), Some(next_second)) => Some((next_first, next_second)),
            _ => None,
        });
        match (step_first, step_second) {
            (Some(next_first), Some(next_second)) => {
                lemma_pair_run(model, first, second, next_first, next_second, word.drop_first());
            },
            _ => {},
        }
    }
}

/// Round-trip through the general product: composing two blueprints and then
/// projecting each component of the final classification equals running each
/// component blueprint independently on the same input.  The product
/// classifies a word exactly when both components do, and then to the pair of
/// their classifications.
pub proof fn lemma_product_characterise<StateA, StateB, Alphabet, SortA, SortB, ErrorType>(
    first: AutomatonModel<StateA, Alphabet, SortA, ErrorType>,
    second: AutomatonModel<StateB, Alphabet, SortB, ErrorType>,
    word: Seq<Alphabet>,
)
    ensures
        spec_characterise(product_model(first, second), word) == match (
            spec_characterise(first, word),
            spec_characterise(second, word),
        ) {
            (Some(sort_first), Some(sort_second)) => Some((sort_first, sort_second)),
            _ => None,
        },
{
    lemma_pair_run(
        product_model(first, second),
        first,
        second,
        first.initial_state,
        second.initial_state,
        word,
    );
}

/// The union classifies a word exactly when both components do, and then to
/// the logical *or* of their classifications.
pub proof fn lemma_union_characterise<StateA, StateB, Alphabet, ErrorType>(
    first: AutomatonModel<StateA, Alphabet, BasicStateSort, ErrorType>,
    second: AutomatonModel<StateB, Alphabet, BasicStateSort, ErrorType>,
    word: Seq<Alphabet>,
)
    ensures
        spec_characterise(union_model(first, second), word) == match (
            spec_characterise(first, word),
            spec_characterise(second, word),
        ) {
            (Some(sort_first), Some(sort_second)) => Some(union_sort(sort_first, sort_second)),
            _ => None,
        },
{
    lemma_pair_run(
        union_model(first, second),
        first,
        second,
        first.initial_state,
        second.initial_state,
        word,
    );
}

/// The intersection classifies a word exactly when both components do, and
/// then to the logical *and* of their classifications.
pub proof fn lemma_intersection_characterise<StateA, StateB, Alphabet, ErrorType>(
    first: AutomatonModel<StateA, Alphabet, BasicStateSort, ErrorType>,
    second: AutomatonModel<StateB, Alphabet, BasicStateSort, ErrorType>,
    word: Seq<Alphabet>,
)
    ensures
        spec_characterise(intersection_model(first, second), word) == match (
            spec_characterise(first, word),
            spec_characterise(second, word),
        ) {
            (Some(sort_first), Some(sort_second)) => Some(
                intersection_sort(sort_first, sort_second),
            ),
            _ => None,
        },
{
    lemma_pair_run(
        intersection_model(first, second),
        first,
        second,
        first.initial_state,
        second.initial_state,
        word,
    );
}

/// Union is commutative in outcome: swapping the components changes neither
/// whether a word is classified nor the classification itself.  Only the
/// error short-circuit order is not symmetric — on failure the first
/// component's payloads win, as `pair_transition_error` and `pair_sort_error`
/// state.
pub proof fn lemma_union_commutative<StateA, StateB, Alphabet, ErrorType>(
    first: AutomatonModel<StateA, Alphabet, BasicStateSort, ErrorType>,
    second: AutomatonModel<StateB, Alphabet, BasicStateSort, ErrorType>,
    word: Seq<Alphabet>,
)
    ensures
        spec_characterise(union_model(first, second), word) == spec_characterise(
            union_model(second, first),
            word,
        ),
{
    lemma_union_characterise(first, second, word);
    lemma_union_characterise(second, first, word);
}

/// A blueprint for the general product of two deterministic automata: both
/// components run in lockstep, and the classification is the pair of the
/// component classifications.
#[derive(Debug, PartialEq)]
#[verifier::reject_recursive_types(Alphabet)]
#[verifier::reject_recursive_types(ErrorType)]
pub struct ProductAutomatonBlueprint<'a, 'b, A, B, Alphabet, ErrorType> where
    A: DeterministicAutomatonBlueprint<Alphabet = Alphabet, ErrorType = ErrorType>,
    B: DeterministicAutomatonBlueprint<Alphabet = Alphabet, ErrorType = ErrorType>,
 {
    first: &'a A,
    second: &'b B,
}

impl<'a, 'b, A, B, Alphabet, ErrorType> ProductAutomatonBlueprint<'a, 'b, A, B, Alphabet, ErrorType> where
    A: DeterministicAutomatonBlueprint<Alphabet = Alphabet, ErrorType = ErrorType>,
    B: DeterministicAutomatonBlueprint<Alphabet = Alphabet, ErrorType = ErrorType>,
 {
    /// The first component blueprint.
    pub closed spec fn spec_first(&self) -> A {
        *self.first
    }

    /// The second component blueprint.
    pub closed spec fn spec_second(&self) -> B {
        *self.second
    }

    /// Creates a new product blueprint from two component blueprints.
    pub fn new(first: &'a A, second: &'b B) -> (r: Self)
        ensures
            r.spec_first() == *first,
            r.spec_second() == *second,
    {
        Self { first, second }
    }
}

impl<'a, 'b, A, B, Alphabet, ErrorType> DeterministicAutomatonBlueprint for ProductAutomatonBlueprint<
    'a,
    'b,
    A,
    B,
    Alphabet,
    ErrorType,
> where
    A: DeterministicAutomatonBlueprint<Alphabet = Alphabet, ErrorType = ErrorType>,
    B: DeterministicAutomatonBlueprint<Alphabet = Alphabet, ErrorType = ErrorType>,
 {
    type State = (A::State, B::State);

    type Alphabet = Alphabet;

    type StateSort = (A::StateSort, B::StateSort);

    type ErrorType = ErrorType;

    open spec fn wf(&self) -> bool {
        self.spec_first().wf() && self.spec_second().wf()
    }

    open spec fn model(&self) -> AutomatonModel<
        (A::State, B::State),
        Alphabet,
        (A::StateSort, B::StateSort),
        ErrorType,
    > {
        product_model(self.spec_first().model(), self.spec_second().model())
    }

    fn initial_state(&self) -> (r: (A::State, B::State)) {
        (self.first.initial_state(), self.second.initial_state())
    }

    fn state_sort_map(&self, state: &(A::State, B::State)) -> (r: Result<
        (A::StateSort, B::StateSort),
        ErrorType,
    >) {
        match self.first.state_sort_map(&state.0) {
            Ok(sort_first) => match self.second.state_sort_map(&state.1) {
                Ok(sort_second) => Ok((sort_first, sort_second)),
                Err(e) => Err(e),
            },
            Err(e) => Err(e),
        }
    }

    fn transition_map(&self, state: &(A::State, B::State), character: &Alphabet) -> (r: Result<
        (A::State, B::State),
        ErrorType,
    >) {
        match self.first.transition_map(&state.0, character) {
            Ok(next_first) => match self.second.transition_map(&state.1, character) {
                Ok(next_second) => Ok((next_first, next_second)),
                Err(e) => Err(e),
            },
            Err(e) => Err(e),
        }
    }
}

/// A blueprint for the union (logical *or*) of two deterministic automata
/// with binary classification: it accepts a word when either component
/// accepts it.
#[derive(Debug, PartialEq)]
#[verifier::reject_recursive_types(Alphabet)]
#[verifier::reject_recursive_types(ErrorType)]
pub struct BasicUnionAutomatonBlueprint<'a, 'b, A, B, Alphabet, ErrorType> where
    A: DeterministicAutomatonBlueprint<
        Alphabet = Alphabet,
        StateSort = BasicStateSort,
        ErrorType = ErrorType,
    >,
    B: DeterministicAutomatonBlueprint<
        Alphabet = Alphabet,
        StateSort = BasicStateSort,
        ErrorType = ErrorType,
    >,
 {
    first: &'a A,
    second: &'b B,
}

impl<'a, 'b, A, B, Alphabet, ErrorType> BasicUnionAutomatonBlueprint<'a, 'b, A, B, Alphabet, ErrorType> where
    A: DeterministicAutomatonBlueprint<
        Alphabet = Alphabet,
        StateSort = BasicStateSort,
        ErrorType = ErrorType,
    >,
    B: DeterministicAutomatonBlueprint<
        Alphabet = Alphabet,
        StateSort = BasicStateSort,
        ErrorType = ErrorType,
    >,
 {
    /// The first component blueprint.
    pub closed spec fn spec_first(&self) -> A {
        *self.first
    }

    /// The second component blueprint.
    pub closed spec fn spec_second(&self) -> B {
        *self.second
    }

    /// Creates a new union blueprint from two component blueprints.
    pub fn new(first: &'a A, second: &'b B) -> (r: Self)
        ensures
            r.spec_first() == *first,
            r.spec_second() == *second,
    {
        Self { first, second }
    }
}

impl<'a, 'b, A, B, Alphabet, ErrorType> DeterministicAutomatonBlueprint for BasicUnionAutomatonBlueprint<
    'a,
    'b,
    A,
    B,
    Alphabet,
    ErrorType,
> where
    A: DeterministicAutomatonBlueprint<
        Alphabet = Alphabet,
        StateSort = BasicStateSort,
        ErrorType = ErrorType,
    >,
    B: DeterministicAutomatonBlueprint<
        Alphabet = Alphabet,
        StateSort = BasicStateSort,
        ErrorType = ErrorType,
    >,
 {
    type State = (A::State, B::State);

    type Alphabet = Alphabet;

    type StateSort = BasicStateSort;

    type ErrorType = ErrorType;

    open spec fn wf(&self) -> bool {
        self.spec_first().wf() && self.spec_second().wf()
    }

    open spec fn model(&self) -> AutomatonModel<
        (A::State, B::State),
        Alphabet,
        BasicStateSort,
        ErrorType,
    > {
        union_model(self.spec_first().model(), self.spec_second().model())
    }

    fn initial_state(&self) -> (r: (A::State, B::State)) {
        (self.first.initial_state(), self.second.initial_state())
    }

    fn state_sort_map(&self, state: &(A::State, B::State)) -> (r: Result<
        BasicStateSort,
        ErrorType,
    >) {
        match self.first.state_sort_map(&state.0) {
            Ok(sort_first) => match self.second.state_sort_map(&state.1) {
                Ok(sort_second) => match (sort_first, sort_second) {
                    (BasicStateSort::Reject, BasicStateSort::Reject) => Ok(BasicStateSort::Reject),
                    _ => Ok(BasicStateSort::Accept),
                },
                Err(e) => Err(e),
            },
            Err(e) => Err(e),
        }
    }

    fn transition_map(&self, state: &(A::State, B::State), character: &Alphabet) -> (r: Result<
        (A::State, B::State),
        ErrorType,
    >) {
        match self.first.transition_map(&state.0, character) {
            Ok(next_first) => match self.second.transition_map(&state.1, character) {
                Ok(next_second) => Ok((next_first, next_second)),
                Err(e) => Err(e),
            },
            Err(e) => Err(e),
        }
    }
}

/// A blueprint for the intersection (logical *and*) of two deterministic
/// automata with binary classification: it accepts a word only when both
/// components accept it.
#[derive(Debug, PartialEq)]
#[verifier::reject_recursive_types(Alphabet)]
#[verifier::reject_recursive_types(ErrorType)]
pub struct BasicIntersectionAutomatonBlueprint<'a, 'b, A, B, Alphabet, ErrorType> where
    A: DeterministicAutomatonBlueprint<
        Alphabet = Alphabet,
        StateSort = BasicStateSort,
        ErrorType = ErrorType,
    >,
    B: DeterministicAutomatonBlueprint<
        Alphabet = Alphabet,
        StateSort = BasicStateSort,
        ErrorType = ErrorType,
    >,
 {
    first: &'a A,
    second: &'b B,
}

impl<'a, 'b, A, B, Alphabet, ErrorType> BasicIntersectionAutomatonBlueprint<'a, 'b, A, B, Alphabet, ErrorType> where
    A: DeterministicAutomatonBlueprint<
        Alphabet = Alphabet,
        StateSort = BasicStateSort,
        ErrorType = ErrorType,
    >,
    B: DeterministicAutomatonBlueprint<
        Alphabet = Alphabet,
        StateSort = BasicStateSort,
        ErrorType = ErrorType,
    >,
 {
    /// The first component blueprint.
    pub closed spec fn spec_first(&self) -> A {
        *self.first
    }

    /// The second component blueprint.
    pub closed spec fn spec_second(&self) -> B {
        *self.second
    }

    /// Creates a new intersection blueprint from two component blueprints.
    pub fn new(first: &'a A, second: &'b B) -> (r: Self)
        ensures
            r.spec_first() == *first,
            r.spec_second() == *second,
    {
        Self { first, second }
    }
}

impl<'a, 'b, A, B, Alphabet, ErrorType> DeterministicAutomatonBlueprint for BasicIntersectionAutomatonBlueprint<
    'a,
    'b,
    A,
    B,
    Alphabet,
    ErrorType,
> where
    A: DeterministicAutomatonBlueprint<
        Alphabet = Alphabet,
        StateSort = BasicStateSort,
        ErrorType = ErrorType,
    >,
    B: DeterministicAutomatonBlueprint<
        Alphabet = Alphabet,
        StateSort = BasicStateSort,
        ErrorType = ErrorType,
    >,
 {
    type State = (A::State, B::State);

    type Alphabet = Alphabet;

    type StateSort = BasicStateSort;

    type ErrorType = ErrorType;

    open spec fn wf(&self) -> bool {
        self.spec_first().wf() && self.spec_second().wf()
    }

    open spec fn model(&self) -> AutomatonModel<
        (A::State, B::State),
        Alphabet,
        BasicStateSort,
        ErrorType,
    > {
        intersection_model(self.spec_first().model(), self.spec_second().model())
    }

    fn initial_state(&self) -> (r: (A::State, B::State)) {
        (self.first.initial_state(), self.second.initial_state())
    }

    fn state_sort_map(&self, state: &(A::State, B::State)) -> (r: Result<
        BasicStateSort,
        ErrorType,
    >) {
        match self.first.state_sort_map(&state.0) {
            Ok(sort_first) => match self.second.state_sort_map(&state.1) {
                Ok(sort_second) => match (sort_first, sort_second) {
                    (BasicStateSort::Accept, BasicStateSort::Accept) => Ok(BasicStateSort::Accept),
                    _ => Ok(BasicStateSort::Reject),
                },
                Err(e) => Err(e),
            },
            Err(e) => Err(e),
        }
    }

    fn transition_map(&self, state: &(A::State, B::State), character: &Alphabet) -> (r: Result<
        (A::State, B::State),
        ErrorType,
    >) {
        match self.first.transition_map(&state.0, character) {
            Ok(next_first) => match self.second.transition_map(&state.1, character) {
                Ok(next_second) => Ok((next_first, next_second)),
                Err(e) => Err(e),
            },
            Err(e) => Err(e),
        }
    }
}

/// A blueprint for the general product of two mutation automata: both
/// component states are advanced in place, the first before the second.
#[derive(Debug, PartialEq)]
#[verifier::reject_recursive_types(Alphabet)]
#[verifier::reject_recursive_types(ErrorType)]
pub struct MutationProductAutomatonBlueprint<'a, 'b, A, B, Alphabet, ErrorType> where
    A: MutationAutomatonBlueprint<Alphabet = Alphabet, ErrorType = ErrorType>,
    B: MutationAutomatonBlueprint<Alphabet = Alphabet, ErrorType = ErrorType>,
 {
    first: &'a A,
    second: &'b B,
}

impl<'a, 'b, A, B, Alphabet, ErrorType> MutationProductAutomatonBlueprint<'a, 'b, A, B, Alphabet, ErrorType> where
    A: MutationAutomatonBlueprint<Alphabet = Alphabet, ErrorType = ErrorType>,
    B: MutationAutomatonBlueprint<Alphabet = Alphabet, ErrorType = ErrorType>,
 {
    /// The first component blueprint.
    pub closed spec fn spec_first(&self) -> A {
        *self.first
    }

    /// The second component blueprint.
    pub closed spec fn spec_second(&self) -> B {
        *self.second
    }

    /// Creates a new mutation product blueprint from two component
    /// blueprints.
    pub fn new(first: &'a A, second: &'b B) -> (r: Self)
        ensures
            r.spec_first() == *first,
            r.spec_second() == *second,
    {
        Self { first, second }
    }
}

impl<'a, 'b, A, B, Alphabet, ErrorType> MutationAutomatonBlueprint for MutationProductAutomatonBlueprint<
    'a,
    'b,
    A,
    B,
    Alphabet,
    ErrorType,
> where
    A: MutationAutomatonBlueprint<Alphabet = Alphabet, ErrorType = ErrorType>,
    B: MutationAutomatonBlueprint<Alphabet = Alphabet, ErrorType = ErrorType>,
 {
    type State = (A::State, B::State);

    type Alphabet = Alphabet;

    type StateSort = (A::StateSort, B::StateSort);

    type ErrorType = ErrorType;

    open spec fn mutation_wf(&self) -> bool {
        self.spec_first().mutation_wf() && self.spec_second().mutation_wf()
    }

    open spec fn mutation_model(&self) -> AutomatonModel<
        (A::State, B::State),
        Alphabet,
        (A::StateSort, B::StateSort),
        ErrorType,
    > {
        product_model(self.spec_first().mutation_model(), self.spec_second().mutation_model())
    }

    fn initial_mutation_state(&self) -> (r: (A::State, B::State)) {
        (self.first.initial_mutation_state(), self.second.initial_mutation_state())
    }

    fn mutation_state_sort_map(&self, state: &(A::State, B::State)) -> (r: Result<
        (A::StateSort, B::StateSort),
        ErrorType,
    >) {
        match self.first.mutation_state_sort_map(&state.0) {
            Ok(sort_first) => match self.second.mutation_state_sort_map(&state.1) {
                Ok(sort_second) => Ok((sort_first, sort_second)),
                Err(e) => Err(e),
            },
            Err(e) => Err(e),
        }
    }

    fn mutation_transition_map(&self, state: &mut (A::State, B::State), character: &Alphabet) -> (r:
        Result<(), ErrorType>) {
        match self.first.mutation_transition_map(&mut state.0, character) {
            Ok(_) => self.second.mutation_transition_map(&mut state.1, character),
            Err(e) => Err(e),
        }
    }
}

/// A blueprint for the union (logical *or*) of two mutation automata with
/// binary classification.
#[derive(Debug, PartialEq)]
#[verifier::reject_recursive_types(Alphabet)]
#[verifier::reject_recursive_types(ErrorType)]
pub struct MutationBasicUnionAutomatonBlueprint<'a, 'b, A, B, Alphabet, ErrorType> where
    A: MutationAutomatonBlueprint<
        Alphabet = Alphabet,
        StateSort = BasicStateSort,
        ErrorType = ErrorType,
    >,
    B: MutationAutomatonBlueprint<
        Alphabet = Alphabet,
        StateSort = BasicStateSort,
        ErrorType = ErrorType,
    >,
 {
    first: &'a A,
    second: &'b B,
}

impl<'a, 'b, A, B, Alphabet, ErrorType> MutationBasicUnionAutomatonBlueprint<'a, 'b, A, B, Alphabet, ErrorType> where
    A: MutationAutomatonBlueprint<
        Alphabet = Alphabet,
        StateSort = BasicStateSort,
        ErrorType = ErrorType,
    >,
    B: MutationAutomatonBlueprint<
        Alphabet = Alphabet,
        StateSort = BasicStateSort,
        ErrorType = ErrorType,
    >,
 {
    /// The first component blueprint.
    pub closed spec fn spec_first(&self) -> A {
        *self.first
    }

    /// The second component blueprint.
    pub closed spec fn spec_second(&self) -> B {
        *self.second
    }

    /// Creates a new mutation union blueprint from two component blueprints.
    pub fn new(first: &'a A, second: &'b B) -> (r: Self)
        ensures
            r.spec_first() == *first,
            r.spec_second() == *second,
    {
        Self { first, second }
    }
}

impl<'a, 'b, A, B, Alphabet, ErrorType> MutationAutomatonBlueprint for MutationBasicUnionAutomatonBlueprint<
    'a,
    'b,
    A,
    B,
    Alphabet,
    ErrorType,
> where
    A: MutationAutomatonBlueprint<
        Alphabet = Alphabet,
        StateSort = BasicStateSort,
        ErrorType = ErrorType,
    >,
    B: MutationAutomatonBlueprint<
        Alphabet = Alphabet,
        StateSort = BasicStateSort,
        ErrorType = ErrorType,
    >,
 {
    type State = (A::State, B::State);

    type Alphabet = Alphabet;

    type StateSort = BasicStateSort;

    type ErrorType = ErrorType;

    open spec fn mutation_wf(&self) -> bool {
        self.spec_first().mutation_wf() && self.spec_second().mutation_wf()
    }

    open spec fn mutation_model(&self) -> AutomatonModel<
        (A::State, B::State),
        Alphabet,
        BasicStateSort,
        ErrorType,
    > {
        union_model(self.spec_first().mutation_model(), self.spec_second().mutation_model())
    }

    fn initial_mutation_state(&self) -> (r: (A::State, B::State)) {
        (self.first.initial_mutation_state(), self.second.initial_mutation_state())
    }

    fn mutation_state_sort_map(&self, state: &(A::State, B::State)) -> (r: Result<
        BasicStateSort,
        ErrorType,
    >) {
        match self.first.mutation_state_sort_map(&state.0) {
            Ok(sort_first) => match self.second.mutation_state_sort_map(&state.1) {
                Ok(sort_second) => match (sort_first, sort_second) {
                    (BasicStateSort::Reject, BasicStateSort::Reject) => Ok(BasicStateSort::Reject),
                    _ => Ok(BasicStateSort::Accept),
                },
                Err(e) => Err(e),
            },
            Err(e) => Err(e),
        }
    }

    fn mutation_transition_map(&self, state: &mut (A::State, B::State), character: &Alphabet) -> (r:
        Result<(), ErrorType>) {
        match self.first.mutation_transition_map(&mut state.0, character) {
            Ok(_) => self.second.mutation_transition_map(&mut state.1, character),
            Err(e) => Err(e),
        }
    }
}

/// A blueprint for the intersection (logical *and*) of two mutation automata
/// with binary classification.
#[derive(Debug, PartialEq)]
#[verifier::reject_recursive_types(Alphabet)]
#[verifier::reject_recursive_types(ErrorType)]
pub struct MutationBasicIntersectionAutomatonBlueprint<'a, 'b, A, B, Alphabet, ErrorType> where
    A: MutationAutomatonBlueprint<
        Alphabet = Alphabet,
        StateSort = BasicStateSort,
        ErrorType = ErrorType,
    >,
    B: MutationAutomatonBlueprint<
        Alphabet = Alphabet,
        StateSort = BasicStateSort,
        ErrorType = ErrorType,
    >,
 {
    first: &'a A,
    second: &'b B,
}

impl<'a, 'b, A, B, Alphabet, ErrorType> MutationBasicIntersectionAutomatonBlueprint<'a, 'b, A, B, Alphabet, ErrorType> where
    A: MutationAutomatonBlueprint<
        Alphabet = Alphabet,
        StateSort = BasicStateSort,
        ErrorType = ErrorType,
    >,
    B: MutationAutomatonBlueprint<
        Alphabet = Alphabet,
        StateSort = BasicStateSort,
        ErrorType = ErrorType,
    >,
 {
    /// The first component blueprint.
    pub closed spec fn spec_first(&self) -> A {
        *self.first
    }

    /// The second component blueprint.
    pub closed spec fn spec_second(&self) -> B {
        *self.second
    }

    /// Creates a new mutation intersection blueprint from two component
    /// blueprints.
    pub fn new(first: &'a A, second: &'b B) -> (r: Self)
        ensures
            r.spec_first() == *first,
            r.spec_second() == *second,
    {
        Self { first, second }
    }
}

impl<'a, 'b, A, B, Alphabet, ErrorType> MutationAutomatonBlueprint for MutationBasicIntersectionAutomatonBlueprint<
    'a,
    'b,
    A,
    B,
    Alphabet,
    ErrorType,
> where
    A: MutationAutomatonBlueprint<
        Alphabet = Alphabet,
        StateSort = BasicStateSort,
        ErrorType = ErrorType,
    >,
    B: MutationAutomatonBlueprint<
        Alphabet = Alphabet,
        StateSort = BasicStateSort,
        ErrorType = ErrorType,
    >,
 {
    type State = (A::State, B::State);

    type Alphabet = Alphabet;

    type StateSort = BasicStateSort;

    type ErrorType = ErrorType;

    open spec fn mutation_wf(&self) -> bool {
        self.spec_first().mutation_wf() && self.spec_second().mutation_wf()
    }

    open spec fn mutation_model(&self) -> AutomatonModel<
        (A::State, B::State),
        Alphabet,
        BasicStateSort,
        ErrorType,
    > {
        intersection_model(self.spec_first().mutation_model(), self.spec_second().mutation_model())
    }

    fn initial_mutation_state(&self) -> (r: (A::State, B::State)) {
        (self.first.initial_mutation_state(), self.second.initial_mutation_state())
    }

    fn mutation_state_sort_map(&self, state: &(A::State, B::State)) -> (r: Result<
        BasicStateSort,
        ErrorType,
    >) {
        match self.first.mutation_state_sort_map(&state.0) {
            Ok(sort_first) => match self.second.mutation_state_sort_map(&state.1) {
                Ok(sort_second) => match (sort_first, sort_second) {
                    (BasicStateSort::Accept, BasicStateSort::Accept) => Ok(BasicStateSort::Accept),
                    _ => Ok(BasicStateSort::Reject),
                },
                Err(e) => Err(e),
            },
            Err(e) => Err(e),
        }
    }

    fn mutation_transition_map(&self, state: &mut (A::State, B::State), character: &Alphabet) -> (r:
        Result<(), ErrorType>) {
        match self.first.mutation_transition_map(&mut state.0, character) {
            Ok(_) => self.second.mutation_transition_map(&mut state.1, character),
            Err(e) => Err(e),
        }
    }
}

} // verus!
