//! Mutation automata: blueprints whose transitions modify the state in place
//! through an exclusive reference instead of returning a new state value.
//!
//! A mutation blueprint is pinned to the same kind of [`AutomatonModel`] as a
//! deterministic one, so the two paradigms share one composition algebra.  A
//! blanket implementation (the paradigm adapter) makes every deterministic
//! blueprint usable as a mutation blueprint, with the *same* model: its
//! in-place transition overwrites the held state with the functional
//! transition's result.  The reverse direction is deliberately not provided:
//! mutation is the more general capability, and forcing a fresh state value
//! out of an in-place update would demand a duplication that not every state
//! type should support.
//!
//! On a failing transition the trait itself only promises the error payload
//! relation, not that the state is left untouched, because composite mutation
//! blueprints may have advanced their first component before their second one
//! fails.  Individual implementations may promise more: the paradigm adapter
//! guarantees that a failed transition leaves the held state unchanged.

use vstd::prelude::*;

use crate::{
    lemma_run_error_at, lemma_run_snoc, spec_characterise, spec_characterise_error, spec_run,
    AutomatonModel, DeterministicAutomatonBlueprint,
};

verus! {

/// A blueprint for a mutation automaton: the same contract as a deterministic
/// blueprint, but the transition updates the state through an exclusive
/// reference and returns only success or failure.
pub trait MutationAutomatonBlueprint: Sized {
    /// The type of internal automaton states; may carry arbitrary data.
    type State;

    /// The type of input symbols that the automaton processes.
    type Alphabet;

    /// The classification type for states (e.g. accept/reject).
    type StateSort;

    /// The error type reported when state validation fails.
    type ErrorType;

    /// Assumptions under which the executable methods match the model.
    /// The default makes no assumption; an implementation whose executable
    /// code needs one (honest symbol equality, say) narrows it.
    open spec fn mutation_wf(&self) -> bool {
        true
    }

    /// The mathematical model this blueprint implements.  The default leaves
    /// the model arbitrary, which promises nothing; every implementation in
    /// this crate pins it down.
    open spec fn mutation_model(&self) -> AutomatonModel<
        Self::State,
        Self::Alphabet,
        Self::StateSort,
        Self::ErrorType,
    > {
        arbitrary()
    }

    /// Returns the initial state of the automaton.
    fn initial_mutation_state(&self) -> (r: Self::State)
        ensures
            r == self.mutation_model().initial_state,
    ;

    /// Maps a state to its classification, with validation: returns the sort
    /// given by the model, or an error exactly when the state is invalid.
    fn mutation_state_sort_map(&self, state: &Self::State) -> (r: Result<
        Self::StateSort,
        Self::ErrorType,
    >)
        ensures
            self.mutation_wf() ==> match r {
                Ok(sort) => (self.mutation_model().state_sort)(*state) == Some(sort),
                Err(e) => (self.mutation_model().state_sort)(*state) is None && (
                self.mutation_model().sort_error)(*state, e),
            },
    ;

    /// Advances the state in place under an input symbol: overwrites it with
    /// the successor given by the model, or reports the transition's error,
    /// in which case the held state is left in an unspecified intermediate
    /// form.
    fn mutation_transition_map(&self, state: &mut Self::State, character: &Self::Alphabet) -> (r:
        Result<(), Self::ErrorType>)
        ensures
            self.mutation_wf() ==> match r {
                Ok(_) => (self.mutation_model().transition)(*old(state), *character) == Some(
                    *final(state),
                ),
                Err(e) => (self.mutation_model().transition)(*old(state), *character) is None && (
                self.mutation_model().transition_error)(*old(state), *character, e),
            },
    ;

    /// Processes an entire input sequence and returns the final state
    /// classification, short-circuiting on the first error.
    fn mutation_characterise(&self, word: &[Self::Alphabet]) -> (r: Result<
        Self::StateSort,
        Self::ErrorType,
    >)
        ensures
            self.mutation_wf() ==> match r {
                Ok(sort) => spec_characterise(self.mutation_model(), word@) == Some(sort),
                Err(e) => spec_characterise(self.mutation_model(), word@) is None
                    && spec_characterise_error(self.mutation_model(), word@, e),
            },
    {
        let mut current_state = self.initial_mutation_state();
        let n = word.len();
        let mut i: usize = 0;
        proof {
            assert(word@.take(0) =~= Seq::<Self::Alphabet>::empty());
        }
        while i < n
            invariant
                i <= n,
                n == word@.len(),
                self.mutation_wf() ==> spec_run(
                    self.mutation_model(),
                    self.mutation_model().initial_state,
                    word@.take(i as int),
                ) == Some(current_state),
            decreases n - i,
        {
            let character = vstd::slice::slice_index_get(word, i);
            proof {
                lemma_run_snoc(
                    self.mutation_model(),
                    self.mutation_model().initial_state,
                    word@.take(i as int),
                    word@[i as int],
                );
                assert(word@.take(i as int).push(word@[i as int]) =~= word@.take(i + 1));
            }
            match self.mutation_transition_map(&mut current_state, character) {
                Ok(_) => {},
                Err(e) => {
                    proof {
                        if self.mutation_wf() {
                            lemma_run_error_at(
                                self.mutation_model(),
                                self.mutation_model().initial_state,
                                word@,
                                i as int,
                            );
                        }
                    }
                    return Err(e);
                },
            }
            i = i + 1;
        }
        proof {
            assert(word@.take(n as int) =~= word@);
        }
        self.mutation_state_sort_map(&current_state)
    }

    /// Creates a running automaton that starts in this blueprint's initial
    /// state.
    fn mutation_automaton<'s>(&'s self) -> (r: MutationAutomaton<'s, Self, Self::State>)
        ensures
            r.spec_blueprint() == *self,
            r.spec_current_state() == self.mutation_model().initial_state,
    {
        MutationAutomaton { blueprint: self, current_state: self.initial_mutation_state() }
    }
}

/// A runtime instance of a mutation automaton: a borrowed blueprint together
/// with the current state, advanced in place one symbol at a time.
///
/// `State` is always the blueprint's own state type; it stands as a separate
/// parameter so that the type itself does not depend on the blueprint trait.
pub struct MutationAutomaton<'a, Blueprint, State> {
    pub(crate) blueprint: &'a Blueprint,
    pub(crate) current_state: State,
}

impl<'a, Blueprint, State> MutationAutomaton<'a, Blueprint, State> {
    /// The blueprint this automaton runs.
    pub closed spec fn spec_blueprint(&self) -> Blueprint {
        *self.blueprint
    }

    /// The state the automaton is currently in.
    pub closed spec fn spec_current_state(&self) -> State {
        self.current_state
    }
}

impl<'a, State, Blueprint: MutationAutomatonBlueprint<State = State>> MutationAutomaton<
    'a,
    Blueprint,
    State,
> {
    /// The blueprint's own well-formedness assumption.
    pub open spec fn wf(&self) -> bool {
        self.spec_blueprint().mutation_wf()
    }

    /// The model of the blueprint this automaton runs.
    pub open spec fn model(&self) -> AutomatonModel<
        State,
        Blueprint::Alphabet,
        Blueprint::StateSort,
        Blueprint::ErrorType,
    > {
        self.spec_blueprint().mutation_model()
    }

    /// Creates a new automaton instance, starting in the blueprint's initial
    /// state.
    pub fn new(blueprint: &'a Blueprint) -> (r: Self)
        ensures
            r.spec_blueprint() == *blueprint,
            r.spec_current_state() == blueprint.mutation_model().initial_state,
    {
        Self { blueprint, current_state: blueprint.initial_mutation_state() }
    }

    /// Returns the classification of the current state.
    pub fn current_state_sort(&self) -> (r: Result<Blueprint::StateSort, Blueprint::ErrorType>)
        ensures
            self.wf() ==> match r {
                Ok(sort) => (self.model().state_sort)(self.spec_current_state()) == Some(sort),
                Err(e) => (self.model().state_sort)(self.spec_current_state()) is None && (
                self.model().sort_error)(self.spec_current_state(), e),
            },
    {
        self.blueprint.mutation_state_sort_map(&self.current_state)
    }

    /// Processes a single input symbol, updating the current state in place.
    pub fn update_state(&mut self, character: &Blueprint::Alphabet) -> (r: Result<
        (),
        Blueprint::ErrorType,
    >)
        ensures
            final(self).spec_blueprint() == old(self).spec_blueprint(),
            old(self).wf() ==> match r {
                Ok(_) => (old(self).model().transition)(old(self).spec_current_state(), *character)
                    == Some(final(self).spec_current_state()),
                Err(e) => (old(self).model().transition)(
                    old(self).spec_current_state(),
                    *character,
                ) is None && (old(self).model().transition_error)(
                    old(self).spec_current_state(),
                    *character,
                    e,
                ),
            },
    {
        let blueprint = self.blueprint;
        blueprint.mutation_transition_map(&mut self.current_state, character)
    }

    /// Processes a single input symbol and returns the classification of the
    /// state it leads to.
    pub fn update_sort_state(&mut self, character: &Blueprint::Alphabet) -> (r: Result<
        Blueprint::StateSort,
        Blueprint::ErrorType,
    >)
        ensures
            final(self).spec_blueprint() == old(self).spec_blueprint(),
            old(self).wf() ==> match r {
                Ok(sort) => {
                    &&& (old(self).model().transition)(
                        old(self).spec_current_state(),
                        *character,
                    ) == Some(final(self).spec_current_state())
                    &&& (old(self).model().state_sort)(final(self).spec_current_state()) == Some(
                        sort,
                    )
                },
                Err(e) => match (old(self).model().transition)(
                    old(self).spec_current_state(),
                    *character,
                ) {
                    Some(next) => {
                        &&& final(self).spec_current_state() == next
                        &&& (old(self).model().state_sort)(next) is None
                        &&& (old(self).model().sort_error)(next, e)
                    },
                    None => (old(self).model().transition_error)(
                        old(self).spec_current_state(),
                        *character,
                        e,
                    ),
                },
            },
    {
        match self.update_state(character) {
            Ok(_) => self.current_state_sort(),
            Err(e) => Err(e),
        }
    }

    /// Returns a reference to the current state.
    pub fn view_state(&'a self) -> (r: &'a State)
        ensures
            *r == self.spec_current_state(),
    {
        &self.current_state
    }

    /// Consumes the automaton and returns the current state.
    pub fn take_state(self) -> (r: State)
        ensures
            r == self.spec_current_state(),
    {
        self.current_state
    }
}

/// The paradigm adapter: every deterministic blueprint is a mutation
/// blueprint with the very same model.  The in-place transition overwrites
/// the held state with the functional transition's result; on failure it
/// leaves the held state untouched, which this implementation promises
/// beyond the mutation trait's own contract.
impl<Blueprint: DeterministicAutomatonBlueprint> MutationAutomatonBlueprint for Blueprint {
    type State = Blueprint::State;

    type Alphabet = Blueprint::Alphabet;

    type StateSort = Blueprint::StateSort;

    type ErrorType = Blueprint::ErrorType;

    open spec fn mutation_wf(&self) -> bool {
        self.wf()
    }

    open spec fn mutation_model(&self) -> AutomatonModel<
        Self::State,
        Self::Alphabet,
        Self::StateSort,
        Self::ErrorType,
    > {
        self.model()
    }

    fn initial_mutation_state(&self) -> (r: Self::State) {
        self.initial_state()
    }

    fn mutation_state_sort_map(&self, state: &Self::State) -> (r: Result<
        Self::StateSort,
        Self::ErrorType,
    >) {
        self.state_sort_map(state)
    }

    fn mutation_transition_map(&self, state: &mut Self::State, character: &Self::Alphabet) -> (r:
        Result<(), Self::ErrorType>)
        ensures
            r is Err ==> *final(state) == *old(state),
    {
        match self.transition_map(state, character) {
            Ok(next_state) => {
                *state = next_state;
                Ok(())
            },
            Err(e) => Err(e),
        }
    }
}

/// The paradigm adapter is lossless: the mutation blueprint derived from a
/// deterministic blueprint has the very same model, so for every input word
/// it produces the same classification and allows the same error payloads as
/// the deterministic blueprint itself.
pub proof fn lemma_adapter_preserves_behaviour<Blueprint: DeterministicAutomatonBlueprint>(
    blueprint: Blueprint,
    word: Seq<Blueprint::Alphabet>,
)
    ensures
        blueprint.mutation_model() == blueprint.model(),
        spec_characterise(blueprint.mutation_model(), word) == spec_characterise(
            blueprint.model(),
            word,
        ),
        forall|e: Blueprint::ErrorType|
            spec_characterise_error(blueprint.mutation_model(), word, e)
                == spec_characterise_error(blueprint.model(), word, e),
{
}

} // verus!
