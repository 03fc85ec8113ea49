//! A framework for deterministic and mutation automata with arbitrary state
//! complexity.
//!
//! A *blueprint* describes a machine: its initial state, how states are
//! classified, and how states move under input symbols.  States may be any
//! value, so the framework reaches beyond finite automata (for instance a
//! counter-based recognizer of balanced words).  A *running automaton* pairs a
//! borrowed blueprint with one owned current state and advances it symbol by
//! symbol.
//!
//! Every blueprint is pinned to a mathematical [`AutomatonModel`]: the
//! transition function and the classification are total spec functions
//! (`None` marking a validation failure), so identical blueprint, state and
//! symbol always transition and classify identically.  The error *payloads*
//! reported on failure are kept relational (`sort_error`,
//! `transition_error`), because some blueprints manufacture payloads, such as
//! a `Default::default()` value of a type parameter, that no specification
//! can pin to a single mathematical value.

use vstd::prelude::*;

pub mod counter_automaton_example;
pub mod dynamic_automaton;
pub mod either_automaton;
pub mod mutation_automaton;
pub mod product_automaton;

pub use dynamic_automaton::{DynamicAutomaton, DynamicAutomatonBlueprint, ErasedAutomaton, ErasedAutomatonBlueprint};
pub use mutation_automaton::{MutationAutomaton, MutationAutomatonBlueprint};

verus! {

/// Binary classification of an automaton state: the state either accepts or
/// rejects the input read so far.
#[derive(Clone, Copy, Debug, PartialEq, Eq, Structural)]
pub enum BasicStateSort {
    /// The state accepts the input string.
    Accept,
    /// The state rejects the input string.
    Reject,
}

/// The mathematical model of an automaton: initial state, classification and
/// transition as total spec functions, with `None` marking a validation
/// failure, plus relations saying which error payloads a failure may report.
#[verifier::ext_equal]
#[verifier::reject_recursive_types(State)]
#[verifier::reject_recursive_types(Alphabet)]
#[verifier::reject_recursive_types(StateSort)]
#[verifier::reject_recursive_types(ErrorType)]
pub struct AutomatonModel<State, Alphabet, StateSort, ErrorType> {
    /// The state an automaton starts in.
    pub initial_state: State,
    /// The classification of a state, or `None` when the state is outside the
    /// intended domain.
    pub state_sort: spec_fn(State) -> Option<StateSort>,
    /// Which error payloads classifying an invalid state may report.
    pub sort_error: spec_fn(State, ErrorType) -> bool,
    /// The successor of a state under a symbol, or `None` when the state is
    /// invalid or no valid successor exists.
    pub transition: spec_fn(State, Alphabet) -> Option<State>,
    /// Which error payloads a failing transition may report.
    pub transition_error: spec_fn(State, Alphabet, ErrorType) -> bool,
}

/// The state reached by running `word` from `state`, or `None` when some
/// transition along the way fails.
pub open spec fn spec_run<State, Alphabet, StateSort, ErrorType>(
    model: AutomatonModel<State, Alphabet, StateSort, ErrorType>,
    state: State,
    word: Seq<Alphabet>,
) -> Option<State>
    decreases word.len(),
{
    if word.len() == 0 {
        Some(state)
    } else {
        match (model.transition)(state, word[0]) {
            Some(next) => spec_run(model, next, word.drop_first()),
            None => None,
        }
    }
}

/// Which error payloads running `word` from `state` may report: those of the
/// first failing transition.
pub open spec fn spec_run_error<State, Alphabet, StateSort, ErrorType>(
    model: AutomatonModel<State, Alphabet, StateSort, ErrorType>,
    state: State,
    word: Seq<Alphabet>,
    e: ErrorType,
) -> bool
    decreases word.len(),
{
    if word.len() == 0 {
        false
    } else {
        match (model.transition)(state, word[0]) {
            Some(next) => spec_run_error(model, next, word.drop_first(), e),
            None => (model.transition_error)(state, word[0], e),
        }
    }
}

/// The classification reached by running `word` from the initial state and
/// classifying the final state; `None` when a transition or the final
/// classification fails.
pub open spec fn spec_characterise<State, Alphabet, StateSort, ErrorType>(
    model: AutomatonModel<State, Alphabet, StateSort, ErrorType>,
    word: Seq<Alphabet>,
) -> Option<StateSort> {
    match spec_run(model, model.initial_state, word) {
        Some(final_state) => (model.state_sort)(final_state),
        None => None,
    }
}

/// Which error payloads characterising `word` may report: those of the first
/// failing transition, or of the final classification when every transition
/// succeeds.
pub open spec fn spec_characterise_error<State, Alphabet, StateSort, ErrorType>(
    model: AutomatonModel<State, Alphabet, StateSort, ErrorType>,
    word: Seq<Alphabet>,
    e: ErrorType,
) -> bool {
    match spec_run(model, model.initial_state, word) {
        Some(final_state) => (model.state_sort)(final_state) is None && (model.sort_error)(
            final_state,
            e,
        ),
        None => spec_run_error(model, model.initial_state, word, e),
    }
}

/// Whole-input processing is observably identical to manual stepping: the
/// classification of a word is the classification of the state reached by
/// folding single transitions over the word from the initial state, and it
/// fails exactly when that fold or the final classification fails.
pub proof fn lemma_characterise_by_steps<State, Alphabet, StateSort, ErrorType>(
    model: AutomatonModel<State, Alphabet, StateSort, ErrorType>,
    word: Seq<Alphabet>,
)
    ensures
        spec_run(model, model.initial_state, word) matches Some(final_state) ==> spec_characterise(
            model,
            word,
        ) == (model.state_sort)(final_state),
        spec_run(model, model.initial_state, word) is None ==> spec_characterise(model, word)
            is None,
{
}

/// Folding single transitions over a word, one symbol at a time: running a
/// word extended by one symbol is running the word, then taking one
/// transition from the state it reached.
pub proof fn lemma_run_snoc<State, Alphabet, StateSort, ErrorType>(
    model: AutomatonModel<State, Alphabet, StateSort, ErrorType>,
    state: State,
    word: Seq<Alphabet>,
    character: Alphabet,
)
    ensures
        spec_run(model, state, word.push(character)) == match spec_run(model, state, word) {
            Some(mid) => (model.transition)(mid, character),
            None => None,
        },
    decreases word.len(),
{
    if word.len() == 0 {
        reveal_with_fuel(spec_run, 2);
        assert(word.push(character)[0] == character);
        assert(word.push(character).drop_first() =~= Seq::<Alphabet>::empty());
        assert(spec_run(model, state, word) == Some(state));
    } else {
        assert(word.push(character)[0] == word[0]);
        match (model.transition)(state, word[0]) {
            Some(next) => {
                assert(word.push(character).drop_first() =~= word.drop_first().push(character));
                lemma_run_snoc(model, next, word.drop_first(), character);
                assert(spec_run(model, state, word.push(character)) == spec_run(
                    model,
                    next,
                    word.drop_first().push(character),
                ));
                assert(spec_run(model, state, word) == spec_run(model, next, word.drop_first()));
            },
            None => {
                assert(spec_run(model, state, word.push(character)) is None);
                assert(spec_run(model, state, word) is None);
            },
        }
    }
}

/// Errors short-circuit whole-input processing at the exact symbol where they
/// occur: when the transitions up to position `i` succeed and the transition
/// on the symbol at `i` fails, the whole run fails, and the error payloads it
/// may report are exactly those of that failing transition.
pub proof fn lemma_run_error_at<State, Alphabet, StateSort, ErrorType>(
    model: AutomatonModel<State, Alphabet, StateSort, ErrorType>,
    state: State,
    word: Seq<Alphabet>,
    i: int,
)
    requires
        0 <= i < word.len(),
        spec_run(model, state, word.take(i)) is Some,
        (model.transition)(spec_run(model, state, word.take(i))->Some_0, word[i]) is None,
    ensures
        spec_run(model, state, word) is None,
        forall|e: ErrorType|
            spec_run_error(model, state, word, e) == (model.transition_error)(
                spec_run(model, state, word.take(i))->Some_0,
                word[i],
                e,
            ),
    decreases i,
{
    if i == 0 {
        assert(word.take(0) =~= Seq::<Alphabet>::empty());
    } else {
        assert(word.take(i)[0] == word[0]);
        match (model.transition)(state, word[0]) {
            Some(next) => {
                assert(word.take(i).drop_first() =~= word.drop_first().take(i - 1));
                assert(word.drop_first()[i - 1] == word[i]);
                assert(spec_run(model, state, word.take(i)) == spec_run(
                    model,
                    next,
                    word.take(i).drop_first(),
                ));
                lemma_run_error_at(model, next, word.drop_first(), i - 1);
                assert(spec_run(model, state, word) == spec_run(model, next, word.drop_first()));
                assert forall|e: ErrorType|
                    spec_run_error(model, state, word, e) == spec_run_error(
                        model,
                        next,
                        word.drop_first(),
                        e,
                    ) by {}
            },
            None => {
                assert(spec_run(model, state, word.take(i)) is None);
            },
        }
    }
}

/// A blueprint for a deterministic automaton in the return-new-state style:
/// an immutable description of the initial state, the classification of
/// states, and the transition function.
///
/// The executable methods are pinned to the blueprint's [`AutomatonModel`].
/// `wf` collects the assumptions the executable code needs to match that
/// model (for the blueprints in this crate: that symbol equality on
/// `Alphabet` is honest in the sense of `vstd`'s `obeys_eq_spec`).
pub trait DeterministicAutomatonBlueprint: Sized {
    /// The type of internal automaton states; may carry arbitrary data.
    type State;

    /// The type of input symbols that the automaton processes.
    type Alphabet;

    /// The classification type for states (e.g. accept/reject).
    type StateSort;

    /// The error type reported when state validation fails.
    type ErrorType;

    /// Assumptions under which the executable methods match the model.
    /// The default makes no assumption; an implementation whose executable
    /// code needs one (honest symbol equality, say) narrows it.
    open spec fn wf(&self) -> bool {
        true
    }

    /// The mathematical model this blueprint implements.  The default leaves
    /// the model arbitrary, which promises nothing; every implementation in
    /// this crate pins it down.
    open spec fn model(&self) -> AutomatonModel<
        Self::State,
        Self::Alphabet,
        Self::StateSort,
        Self::ErrorType,
    > {
        arbitrary()
    }

    /// Returns the initial state of the automaton.
    fn initial_state(&self) -> (r: Self::State)
        ensures
            r == self.model().initial_state,
    ;

    /// Maps a state to its classification, with validation: returns the sort
    /// given by the model, or an error exactly when the state is invalid.
    fn state_sort_map(&self, state: &Self::State) -> (r: Result<Self::StateSort, Self::ErrorType>)
        ensures
            self.wf() ==> match r {
                Ok(sort) => (self.model().state_sort)(*state) == Some(sort),
                Err(e) => (self.model().state_sort)(*state) is None && (self.model().sort_error)(
                    *state,
                    e,
                ),
            },
    ;

    /// Computes the successor state for a state and an input symbol: returns
    /// the state given by the model, or an error exactly when the state is
    /// invalid or no valid successor exists.
    fn transition_map(&self, state: &Self::State, character: &Self::Alphabet) -> (r: Result<
        Self::State,
        Self::ErrorType,
    >)
        ensures
            self.wf() ==> match r {
                Ok(next) => (self.model().transition)(*state, *character) == Some(next),
                Err(e) => (self.model().transition)(*state, *character) is None && (
                self.model().transition_error)(*state, *character, e),
            },
    ;

    /// Processes an entire input sequence and returns the final state
    /// classification, short-circuiting on the first error.
    fn characterise(&self, word: &[Self::Alphabet]) -> (r: Result<Self::StateSort, Self::ErrorType>)
        ensures
            self.wf() ==> match r {
                Ok(sort) => spec_characterise(self.model(), word@) == Some(sort),
                Err(e) => spec_characterise(self.model(), word@) is None
                    && spec_characterise_error(self.model(), word@, e),
            },
    {
        let mut current_state = self.initial_state();
        let n = word.len();
        let mut i: usize = 0;
        proof {
            assert(word@.take(0) =~= Seq::<Self::Alphabet>::empty());
        }
        while i < n
            invariant
                i <= n,
                n == word@.len(),
                self.wf() ==> spec_run(self.model(), self.model().initial_state, word@.take(i as int))
                    == Some(current_state),
            decreases n - i,
        {
            let character = vstd::slice::slice_index_get(word, i);
            proof {
                lemma_run_snoc(
                    self.model(),
                    self.model().initial_state,
                    word@.take(i as int),
                    word@[i as int],
                );
                assert(word@.take(i as int).push(word@[i as int]) =~= word@.take(i + 1));
            }
            match self.transition_map(&current_state, character) {
                Ok(next_state) => {
                    current_state = next_state;
                },
                Err(e) => {
                    proof {
                        if self.wf() {
                            lemma_run_error_at(
                                self.model(),
                                self.model().initial_state,
                                word@,
                                i as int,
                            );
                        }
                    }
                    return Err(e);
                },
            }
            i = i + 1;
        }
        proof {
            assert(word@.take(n as int) =~= word@);
        }
        self.state_sort_map(&current_state)
    }

    /// Creates a running automaton that starts in this blueprint's initial
    /// state.
    fn automaton<'s>(&'s self) -> (r: DeterministicAutomaton<'s, Self, Self::State>)
        ensures
            r.spec_blueprint() == *self,
            r.spec_current_state() == self.model().initial_state,
    {
        DeterministicAutomaton { blueprint: self, current_state: self.initial_state() }
    }
}

/// A runtime instance of a deterministic automaton: a borrowed blueprint
/// together with the current state, advanced one symbol at a time.
///
/// `State` is always the blueprint's own state type; it stands as a separate
/// parameter so that the type itself does not depend on the blueprint trait.
pub struct DeterministicAutomaton<'a, Blueprint, State> {
    blueprint: &'a Blueprint,
    current_state: State,
}

impl<'a, Blueprint, State> DeterministicAutomaton<'a, Blueprint, State> {
    /// The blueprint this automaton runs.
    pub closed spec fn spec_blueprint(&self) -> Blueprint {
        *self.blueprint
    }

    /// The state the automaton is currently in.
    pub closed spec fn spec_current_state(&self) -> State {
        self.current_state
    }
}

impl<'a, State, Blueprint: DeterministicAutomatonBlueprint<State = State>> DeterministicAutomaton<
    'a,
    Blueprint,
    State,
> {
    /// The blueprint's own well-formedness assumption.
    pub open spec fn wf(&self) -> bool {
        self.spec_blueprint().wf()
    }

    /// The model of the blueprint this automaton runs.
    pub open spec fn model(&self) -> AutomatonModel<
        Blueprint::State,
        Blueprint::Alphabet,
        Blueprint::StateSort,
        Blueprint::ErrorType,
    > {
        self.spec_blueprint().model()
    }

    /// Creates a new automaton instance, starting in the blueprint's initial
    /// state.
    pub fn new(blueprint: &'a Blueprint) -> (r: Self)
        ensures
            r.spec_blueprint() == *blueprint,
            r.spec_current_state() == blueprint.model().initial_state,
    {
        Self { blueprint, current_state: blueprint.initial_state() }
    }

    /// Returns the classification of the current state.
    pub fn current_state_sort(&self) -> (r: Result<Blueprint::StateSort, Blueprint::ErrorType>)
        ensures
            self.wf() ==> match r {
                Ok(sort) => (self.model().state_sort)(self.spec_current_state()) == Some(sort),
                Err(e) => (self.model().state_sort)(self.spec_current_state()) is None && (
                self.model().sort_error)(self.spec_current_state(), e),
            },
    {
        self.blueprint.state_sort_map(&self.current_state)
    }

    /// Processes a single input symbol: replaces the current state by its
    /// successor, or reports the transition's error and leaves the state
    /// unchanged.
    pub fn update_state(&mut self, character: &Blueprint::Alphabet) -> (r: Result<
        (),
        Blueprint::ErrorType,
    >)
        ensures
            final(self).spec_blueprint() == old(self).spec_blueprint(),
            old(self).wf() ==> match r {
                Ok(_) => (old(self).model().transition)(old(self).spec_current_state(), *character)
                    == Some(final(self).spec_current_state()),
                Err(e) => {
                    &&& (old(self).model().transition)(
                        old(self).spec_current_state(),
                        *character,
                    ) is None
                    &&& (old(self).model().transition_error)(
                        old(self).spec_current_state(),
                        *character,
                        e,
                    )
                    &&& final(self).spec_current_state() == old(self).spec_current_state()
                },
            },
    {
        let blueprint = self.blueprint;
        match blueprint.transition_map(&self.current_state, character) {
            Ok(next_state) => {
                self.current_state = next_state;
                Ok(())
            },
            Err(e) => Err(e),
        }
    }

    /// Processes a single input symbol and returns the classification of the
    /// state it leads to.
    pub fn update_sort_state(&mut self, character: &Blueprint::Alphabet) -> (r: Result<
        Blueprint::StateSort,
        Blueprint::ErrorType,
    >)
        ensures
            final(self).spec_blueprint() == old(self).spec_blueprint(),
            old(self).wf() ==> match r {
                Ok(sort) => {
                    &&& (old(self).model().transition)(
                        old(self).spec_current_state(),
                        *character,
                    ) == Some(final(self).spec_current_state())
                    &&& (old(self).model().state_sort)(final(self).spec_current_state()) == Some(
                        sort,
                    )
                },
                Err(e) => match (old(self).model().transition)(
                    old(self).spec_current_state(),
                    *character,
                ) {
                    Some(next) => {
                        &&& final(self).spec_current_state() == next
                        &&& (old(self).model().state_sort)(next) is None
                        &&& (old(self).model().sort_error)(next, e)
                    },
                    None => {
                        &&& (old(self).model().transition_error)(
                            old(self).spec_current_state(),
                            *character,
                            e,
                        )
                        &&& final(self).spec_current_state() == old(self).spec_current_state()
                    },
                },
            },
    {
        match self.update_state(character) {
            Ok(_) => self.current_state_sort(),
            Err(e) => Err(e),
        }
    }

    /// Returns a reference to the current state.
    pub fn view_state(&'a self) -> (r: &'a State)
        ensures
            *r == self.spec_current_state(),
    {
        &self.current_state
    }

    /// Consumes the automaton and returns the current state.
    pub fn take_state(self) -> (r: State)
        ensures
            r == self.spec_current_state(),
    {
        self.current_state
    }
}

} // verus!
