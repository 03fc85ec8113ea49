//! Dynamic dispatch over automata with heterogeneous state types.
//!
//! A blueprint's `State` type is part of its static definition, which keeps
//! the blueprint traits out of `dyn` dispatch.  The two traits here erase
//! only the state: they are parameterized by the shared `Alphabet`,
//! `StateSort` and `ErrorType` alone, so automata with unrelated state
//! representations can live in one collection and be driven through one
//! interface.
//!
//! Because the state is hidden, an erased automaton is specified purely by
//! its observable behaviour: `spec_outcome(word)` is the classification that
//! feeding `word` from the current state would reach, and `spec_advances` /
//! the error relations describe which words advance and which error payloads
//! may be reported.  Advancing by a symbol shifts this behaviour by that
//! symbol, which ties step-by-step use to whole-input processing.
//!
//! Every mutation blueprint — and through the paradigm adapter every
//! deterministic blueprint — gains the erased interface by a blanket
//! implementation; no per-type adapter is ever written.  The erased
//! whole-input operation carries the blueprint's exact classification
//! contract, and [`ErasedAutomatonBlueprint::automaton`] promises that the
//! boxed instance it returns observes exactly the blueprint's whole-input
//! behaviour, so the step-by-step and the whole-input view of the bridge
//! agree.

use vstd::prelude::*;

use crate::{
    spec_characterise, spec_characterise_error, spec_run, spec_run_error, MutationAutomaton,
    MutationAutomatonBlueprint,
};

verus! {

/// A dyn-compatible runtime automaton with erased state type: it is known
/// only by the classifications it would reach on each possible remaining
/// input.
pub trait ErasedAutomaton<Alphabet, StateSort, ErrorType> {
    /// The underlying blueprint's well-formedness assumption.
    spec fn erased_wf(&self) -> bool;

    /// The classification reached by feeding `word` from the current state
    /// and classifying the state it leads to; `None` when a transition or the
    /// final classification fails.
    spec fn spec_outcome(&self, word: Seq<Alphabet>) -> Option<StateSort>;

    /// Which error payloads feeding `word` and classifying may report.
    spec fn spec_outcome_error(&self, word: Seq<Alphabet>, e: ErrorType) -> bool;

    /// Whether every transition along `word` succeeds from the current state.
    spec fn spec_advances(&self, word: Seq<Alphabet>) -> bool;

    /// Which error payloads the first failing transition along `word` may
    /// report.
    spec fn spec_advance_error(&self, word: Seq<Alphabet>, e: ErrorType) -> bool;

    /// Processes a single input symbol, advancing the hidden state: on
    /// success the automaton's observable behaviour is its old behaviour
    /// shifted by the symbol.
    fn update_state(&mut self, character: &Alphabet) -> (r: Result<(), ErrorType>)
        ensures
            final(self).erased_wf() == old(self).erased_wf(),
            old(self).erased_wf() ==> match r {
                Ok(_) => {
                    &&& old(self).spec_advances(seq![*character])
                    &&& forall|word: Seq<Alphabet>|
                        final(self).spec_outcome(word) == old(self).spec_outcome(
                            seq![*character] + word,
                        )
                    &&& forall|word: Seq<Alphabet>, e: ErrorType|
                        final(self).spec_outcome_error(word, e) == old(self).spec_outcome_error(
                            seq![*character] + word,
                            e,
                        )
                    &&& forall|word: Seq<Alphabet>|
                        final(self).spec_advances(word) == old(self).spec_advances(
                            seq![*character] + word,
                        )
                    &&& forall|word: Seq<Alphabet>, e: ErrorType|
                        final(self).spec_advance_error(word, e) == old(self).spec_advance_error(
                            seq![*character] + word,
                            e,
                        )
                },
                Err(e) => !old(self).spec_advances(seq![*character]) && old(
                    self,
                ).spec_advance_error(seq![*character], e),
            },
    ;

    /// Returns the classification of the hidden current state.
    fn current_state_sort(&self) -> (r: Result<StateSort, ErrorType>)
        ensures
            self.erased_wf() ==> match r {
                Ok(sort) => self.spec_outcome(Seq::<Alphabet>::empty()) == Some(sort),
                Err(e) => self.spec_outcome(Seq::<Alphabet>::empty()) is None
                    && self.spec_outcome_error(Seq::<Alphabet>::empty(), e),
            },
    ;

    /// Processes a single input symbol and returns the classification of the
    /// state it leads to.
    fn update_sort_state(&mut self, character: &Alphabet) -> (r: Result<StateSort, ErrorType>)
        ensures
            final(self).erased_wf() == old(self).erased_wf(),
            old(self).erased_wf() ==> match r {
                Ok(sort) => old(self).spec_outcome(seq![*character]) == Some(sort),
                Err(e) => (!old(self).spec_advances(seq![*character]) && old(
                    self,
                ).spec_advance_error(seq![*character], e)) || (old(self).spec_advances(
                    seq![*character],
                ) && old(self).spec_outcome(seq![*character]) is None && old(
                    self,
                ).spec_outcome_error(seq![*character], e)),
            },
    {
        match self.update_state(character) {
            Ok(_) => {
                let r = self.current_state_sort();
                proof {
                    assert(seq![*character] + Seq::<Alphabet>::empty() =~= seq![*character]);
                }
                r
            },
            Err(e) => Err(e),
        }
    }
}

/// A runtime automaton with erased state type, ready to be driven symbol by
/// symbol: a heap-owned [`ErasedAutomaton`] behind dynamic dispatch.
#[verifier::reject_recursive_types(Alphabet)]
#[verifier::reject_recursive_types(StateSort)]
#[verifier::reject_recursive_types(ErrorType)]
pub struct DynamicAutomaton<'a, Alphabet, StateSort, ErrorType> {
    automaton: Box<dyn ErasedAutomaton<Alphabet, StateSort, ErrorType> + 'a>,
}

/// A dyn-compatible blueprint interface with erased state type: it can create
/// a runtime instance with hidden state and run an entire input to its final
/// classification.
pub trait ErasedAutomatonBlueprint<Alphabet, StateSort, ErrorType> {
    /// The blueprint's well-formedness assumption.
    spec fn erased_wf(&self) -> bool;

    /// The classification this blueprint's automaton reaches on `word`, or
    /// `None` when a transition or the final classification fails.
    spec fn spec_characterise_outcome(&self, word: Seq<Alphabet>) -> Option<StateSort>;

    /// Which error payloads characterising `word` may report.
    spec fn spec_characterise_outcome_error(&self, word: Seq<Alphabet>, e: ErrorType) -> bool;

    /// Whether every transition along `word` succeeds from the initial state.
    spec fn spec_word_advances(&self, word: Seq<Alphabet>) -> bool;

    /// Which error payloads the first failing transition along `word` may
    /// report.
    spec fn spec_word_advance_error(&self, word: Seq<Alphabet>, e: ErrorType) -> bool;

    /// Creates a runtime automaton with hidden state, starting in this
    /// blueprint's initial state: its observable behaviour is exactly this
    /// blueprint's whole-input behaviour, word for word.
    fn automaton<'a>(&'a self) -> (r: DynamicAutomaton<'a, Alphabet, StateSort, ErrorType>)
        ensures
            r.wf() == self.erased_wf(),
            forall|word: Seq<Alphabet>|
                r.spec_outcome(word) == self.spec_characterise_outcome(word),
            forall|word: Seq<Alphabet>, e: ErrorType|
                r.spec_outcome_error(word, e) == self.spec_characterise_outcome_error(word, e),
            forall|word: Seq<Alphabet>| r.spec_advances(word) == self.spec_word_advances(word),
            forall|word: Seq<Alphabet>, e: ErrorType|
                r.spec_advance_error(word, e) == self.spec_word_advance_error(word, e),
    ;

    /// Processes an entire input sequence and returns the final state
    /// classification, short-circuiting on the first error.
    fn characterise(&self, word: &[Alphabet]) -> (r: Result<StateSort, ErrorType>)
        ensures
            self.erased_wf() ==> match r {
                Ok(sort) => self.spec_characterise_outcome(word@) == Some(sort),
                Err(e) => self.spec_characterise_outcome(word@) is None
                    && self.spec_characterise_outcome_error(word@, e),
            },
    ;
}

/// The erased blueprint interface as a bare trait-object type, for
/// heterogeneous collections of blueprint references.
pub type DynamicAutomatonBlueprint<Alphabet, StateSort, ErrorType> = dyn ErasedAutomatonBlueprint<
    Alphabet,
    StateSort,
    ErrorType,
>;

impl<'a, Alphabet, StateSort, ErrorType> DynamicAutomaton<'a, Alphabet, StateSort, ErrorType> {
    /// The underlying blueprint's well-formedness assumption.
    pub closed spec fn wf(&self) -> bool {
        (*self.automaton).erased_wf()
    }

    /// The classification reached by feeding `word` from the hidden current
    /// state.
    pub closed spec fn spec_outcome(&self, word: Seq<Alphabet>) -> Option<StateSort> {
        (*self.automaton).spec_outcome(word)
    }

    /// Which error payloads feeding `word` and classifying may report.
    pub closed spec fn spec_outcome_error(&self, word: Seq<Alphabet>, e: ErrorType) -> bool {
        (*self.automaton).spec_outcome_error(word, e)
    }

    /// Whether every transition along `word` succeeds from the hidden current
    /// state.
    pub closed spec fn spec_advances(&self, word: Seq<Alphabet>) -> bool {
        (*self.automaton).spec_advances(word)
    }

    /// Which error payloads the first failing transition along `word` may
    /// report.
    pub closed spec fn spec_advance_error(&self, word: Seq<Alphabet>, e: ErrorType) -> bool {
        (*self.automaton).spec_advance_error(word, e)
    }

    /// Processes a single input symbol, advancing the hidden state: on
    /// success the automaton's observable behaviour is its old behaviour
    /// shifted by the symbol.
    pub fn update_state(&mut self, character: &Alphabet) -> (r: Result<(), ErrorType>)
        ensures
            final(self).wf() == old(self).wf(),
            old(self).wf() ==> match r {
                Ok(_) => {
                    &&& old(self).spec_advances(seq![*character])
                    &&& forall|word: Seq<Alphabet>|
                        final(self).spec_outcome(word) == old(self).spec_outcome(
                            seq![*character] + word,
                        )
                    &&& forall|word: Seq<Alphabet>, e: ErrorType|
                        final(self).spec_outcome_error(word, e) == old(self).spec_outcome_error(
                            seq![*character] + word,
                            e,
                        )
                    &&& forall|word: Seq<Alphabet>|
                        final(self).spec_advances(word) == old(self).spec_advances(
                            seq![*character] + word,
                        )
                    &&& forall|word: Seq<Alphabet>, e: ErrorType|
                        final(self).spec_advance_error(word, e) == old(self).spec_advance_error(
                            seq![*character] + word,
                            e,
                        )
                },
                Err(e) => !old(self).spec_advances(seq![*character]) && old(
                    self,
                ).spec_advance_error(seq![*character], e),
            },
    {
        self.automaton.update_state(character)
    }

    /// Returns the classification of the hidden current state.
    pub fn current_state_sort(&self) -> (r: Result<StateSort, ErrorType>)
        ensures
            self.wf() ==> match r {
                Ok(sort) => self.spec_outcome(Seq::<Alphabet>::empty()) == Some(sort),
                Err(e) => self.spec_outcome(Seq::<Alphabet>::empty()) is None
                    && self.spec_outcome_error(Seq::<Alphabet>::empty(), e),
            },
    {
        self.automaton.current_state_sort()
    }

    /// Processes a single input symbol and returns the classification of the
    /// state it leads to.
    pub fn update_sort_state(&mut self, character: &Alphabet) -> (r: Result<StateSort, ErrorType>)
        ensures
            final(self).wf() == old(self).wf(),
            old(self).wf() ==> match r {
                Ok(sort) => old(self).spec_outcome(seq![*character]) == Some(sort),
                Err(e) => (!old(self).spec_advances(seq![*character]) && old(
                    self,
                ).spec_advance_error(seq![*character], e)) || (old(self).spec_advances(
                    seq![*character],
                ) && old(self).spec_outcome(seq![*character]) is None && old(
                    self,
                ).spec_outcome_error(seq![*character], e)),
            },
    {
        self.automaton.update_sort_state(character)
    }
}

impl<'a, Blueprint: MutationAutomatonBlueprint> ErasedAutomaton<
    Blueprint::Alphabet,
    Blueprint::StateSort,
    Blueprint::ErrorType,
> for MutationAutomaton<'a, Blueprint, Blueprint::State> {
    open spec fn erased_wf(&self) -> bool {
        self.wf()
    }

    open spec fn spec_outcome(&self, word: Seq<Blueprint::Alphabet>) -> Option<
        Blueprint::StateSort,
    > {
        match spec_run(self.model(), self.spec_current_state(), word) {
            Some(final_state) => (self.model().state_sort)(final_state),
            None => None,
        }
    }

    open spec fn spec_outcome_error(
        &self,
        word: Seq<Blueprint::Alphabet>,
        e: Blueprint::ErrorType,
    ) -> bool {
        match spec_run(self.model(), self.spec_current_state(), word) {
            Some(final_state) => (self.model().state_sort)(final_state) is None && (
            self.model().sort_error)(final_state, e),
            None => spec_run_error(self.model(), self.spec_current_state(), word, e),
        }
    }

    open spec fn spec_advances(&self, word: Seq<Blueprint::Alphabet>) -> bool {
        spec_run(self.model(), self.spec_current_state(), word) is Some
    }

    open spec fn spec_advance_error(
        &self,
        word: Seq<Blueprint::Alphabet>,
        e: Blueprint::ErrorType,
    ) -> bool {
        spec_run_error(self.model(), self.spec_current_state(), word, e)
    }

    fn update_state(&mut self, character: &Blueprint::Alphabet) -> (r: Result<
        (),
        Blueprint::ErrorType,
    >) {
        let r = MutationAutomaton::update_state(self, character);
        proof {
            if old(self).wf() {
                let cur = old(self).spec_current_state();
                let next = self.spec_current_state();
                let model = self.model();
                if r is Ok {
                    assert(seq![*character][0] == *character);
                    assert(seq![*character].drop_first() =~= Seq::<Blueprint::Alphabet>::empty());
                    assert(spec_run(model, cur, seq![*character]) == spec_run(
                        model,
                        next,
                        seq![*character].drop_first(),
                    ));
                    assert(spec_run(model, next, Seq::<Blueprint::Alphabet>::empty()) == Some(
                        next,
                    ));
                    assert forall|word: Seq<Blueprint::Alphabet>|
                        #[trigger] spec_run(model, next, word) == spec_run(
                            model,
                            cur,
                            seq![*character] + word,
                        ) by {
                        let extended = seq![*character] + word;
                        assert(extended[0] == *character);
                        assert(extended.drop_first() =~= word);
                    }
                    assert forall|word: Seq<Blueprint::Alphabet>, e: Blueprint::ErrorType|
                        #[trigger] spec_run_error(model, next, word, e) == spec_run_error(
                            model,
                            cur,
                            seq![*character] + word,
                            e,
                        ) by {
                        let extended = seq![*character] + word;
                        assert(extended[0] == *character);
                        assert(extended.drop_first() =~= word);
                    }
                } else {
                    assert(seq![*character][0] == *character);
                    assert(spec_run(model, cur, seq![*character]) is None);
                }
            }
        }
        r
    }

    fn current_state_sort(&self) -> (r: Result<Blueprint::StateSort, Blueprint::ErrorType>) {
        let r = MutationAutomaton::current_state_sort(self);
        proof {
            assert(spec_run(self.model(), self.spec_current_state(), Seq::<
                Blueprint::Alphabet,
            >::empty()) == Some(self.spec_current_state()));
        }
        r
    }
}

impl<Blueprint: MutationAutomatonBlueprint> ErasedAutomatonBlueprint<
    Blueprint::Alphabet,
    Blueprint::StateSort,
    Blueprint::ErrorType,
> for Blueprint {
    open spec fn erased_wf(&self) -> bool {
        self.mutation_wf()
    }

    open spec fn spec_characterise_outcome(&self, word: Seq<Blueprint::Alphabet>) -> Option<
        Blueprint::StateSort,
    > {
        spec_characterise(self.mutation_model(), word)
    }

    open spec fn spec_characterise_outcome_error(
        &self,
        word: Seq<Blueprint::Alphabet>,
        e: Blueprint::ErrorType,
    ) -> bool {
        spec_characterise_error(self.mutation_model(), word, e)
    }

    open spec fn spec_word_advances(&self, word: Seq<Blueprint::Alphabet>) -> bool {
        spec_run(self.mutation_model(), self.mutation_model().initial_state, word) is Some
    }

    open spec fn spec_word_advance_error(
        &self,
        word: Seq<Blueprint::Alphabet>,
        e: Blueprint::ErrorType,
    ) -> bool {
        spec_run_error(self.mutation_model(), self.mutation_model().initial_state, word, e)
    }

    fn automaton<'a>(&'a self) -> (r: DynamicAutomaton<
        'a,
        Blueprint::Alphabet,
        Blueprint::StateSort,
        Blueprint::ErrorType,
    >) {
        DynamicAutomaton { automaton: Box::new(self.mutation_automaton()) }
    }

    fn characterise(&self, word: &[Blueprint::Alphabet]) -> (r: Result<
        Blueprint::StateSort,
        Blueprint::ErrorType,
    >) {
        self.mutation_characterise(word)
    }
}

} // verus!
