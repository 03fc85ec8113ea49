//! Example automaton that recognizes balanced words: n occurrences of a first
//! symbol followed by exactly n occurrences of a second symbol.
//!
//! The state carries an unbounded counter, so the recognized language lies
//! beyond what a finite-state automaton can accept; the blueprint still fits
//! the deterministic contract because every transition is a total function of
//! the current state and symbol.  An unrecognized symbol drives the automaton
//! into a permanent non-accepting dead state rather than an error; the one
//! transition error is the machine limit where the counter can no longer grow.
//!
//! The concrete-scenario lemmas below are stated at integer alphabets, where
//! `vstd` specifies symbol equality and the blueprint's `wf` assumption is
//! dischargeable.  `vstd` gives `char` no such specification, so contract-level
//! facts that compare symbols are out of reach at `char` (classification, which
//! compares none, is unconditional); the character-alphabet scenarios are
//! exercised by the crate's run-time tests.

use vstd::prelude::*;

use crate::product_automaton::{
    intersection_model, lemma_intersection_characterise, lemma_union_characterise, union_model,
};
use crate::{spec_characterise, spec_run, AutomatonModel, BasicStateSort, DeterministicAutomatonBlueprint};
use vstd::std_specs::cmp::PartialEqSpec;

verus! {

/// A blueprint for an automaton that accepts words made of n copies of a
/// first symbol followed by exactly n copies of a second symbol, for any
/// n >= 0.
#[derive(Debug, Clone, PartialEq)]
pub struct CounterAutomatonBlueprint<Alphabet> {
    first: Alphabet,
    second: Alphabet,
}

impl<Alphabet> CounterAutomatonBlueprint<Alphabet> {
    /// The symbol that must appear first.
    pub closed spec fn spec_first(&self) -> Alphabet {
        self.first
    }

    /// The symbol that must appear second.
    pub closed spec fn spec_second(&self) -> Alphabet {
        self.second
    }

    /// Creates a new counter automaton blueprint from the symbol that must
    /// appear first and the symbol that must appear second.
    pub fn new(first: Alphabet, second: Alphabet) -> (r: Self)
        ensures
            r.spec_first() == first,
            r.spec_second() == second,
    {
        Self { first, second }
    }
}

/// The state of the counter automaton.
#[derive(Clone, Debug)]
pub enum CounterState {
    /// Reading the first symbol; the counter tracks how many have been seen.
    Start(usize),
    /// Reading the second symbol; the counter tracks how many more are needed.
    End(usize),
    /// A permanent dead state: the word has been rejected.
    Reject,
}

/// The classification of a counter state: accepting exactly when the counter
/// has returned to zero.  Classification is total — no counter state is
/// invalid.
pub open spec fn counter_sort(state: CounterState) -> BasicStateSort {
    match state {
        CounterState::Start(n) => if n == 0 {
            BasicStateSort::Accept
        } else {
            BasicStateSort::Reject
        },
        CounterState::End(n) => if n == 0 {
            BasicStateSort::Accept
        } else {
            BasicStateSort::Reject
        },
        CounterState::Reject => BasicStateSort::Reject,
    }
}

/// The transition function of the counter automaton: count the first symbol
/// up, count the second symbol down, and fall into the dead state on anything
/// else.  The one failure (`None`) is the machine limit where the counter
/// cannot grow further.
pub open spec fn counter_transition<Alphabet: PartialEq>(
    first: Alphabet,
    second: Alphabet,
    state: CounterState,
    character: Alphabet,
) -> Option<CounterState> {
    match state {
        CounterState::Start(n) => if character.eq_spec(&first) {
            if n < usize::MAX {
                Some(CounterState::Start((n + 1) as usize))
            } else {
                None
            }
        } else if character.eq_spec(&second) && n > 0 {
            Some(CounterState::End((n - 1) as usize))
        } else {
            Some(CounterState::Reject)
        },
        CounterState::End(n) => if character.eq_spec(&second) && n > 0 {
            Some(CounterState::End((n - 1) as usize))
        } else {
            Some(CounterState::Reject)
        },
        CounterState::Reject => Some(CounterState::Reject),
    }
}

/// The message reported when the counter reaches the machine limit.
pub open spec fn counter_overflow_message() -> Seq<char> {
    "counter automaton: counter cannot grow further"@
}

impl<Alphabet: PartialEq> DeterministicAutomatonBlueprint for CounterAutomatonBlueprint<Alphabet> {
    type State = CounterState;

    type Alphabet = Alphabet;

    type StateSort = BasicStateSort;

    type ErrorType = String;

    open spec fn wf(&self) -> bool {
        <Alphabet as PartialEqSpec>::obeys_eq_spec()
    }

    open spec fn model(&self) -> AutomatonModel<CounterState, Alphabet, BasicStateSort, String> {
        AutomatonModel {
            initial_state: CounterState::Start(0),
            state_sort: |state: CounterState| Some(counter_sort(state)),
            sort_error: |state: CounterState, e: String| false,
            transition: (
            |state: CounterState, character: Alphabet|
                counter_transition(self.spec_first(), self.spec_second(), state, character)
            ),
            transition_error: (
            |state: CounterState, character: Alphabet, e: String|
                e@ == counter_overflow_message()
            ),
        }
    }

    fn initial_state(&self) -> (r: CounterState) {
        CounterState::Start(0)
    }

    fn state_sort_map(&self, state: &CounterState) -> (r: Result<BasicStateSort, String>)
        ensures
            r == Ok::<BasicStateSort, String>(counter_sort(*state)),
    {
        match state {
            CounterState::Start(n) => if *n == 0 {
                Ok(BasicStateSort::Accept)
            } else {
                Ok(BasicStateSort::Reject)
            },
            CounterState::End(n) => if *n == 0 {
                Ok(BasicStateSort::Accept)
            } else {
                Ok(BasicStateSort::Reject)
            },
            CounterState::Reject => Ok(BasicStateSort::Reject),
        }
    }

    fn transition_map(&self, state: &CounterState, character: &Alphabet) -> (r: Result<
        CounterState,
        String,
    >)
        ensures
            *state is Reject ==> r == Ok::<CounterState, String>(CounterState::Reject),
    {
        match state {
            CounterState::Start(counter) => {
                if *character == self.first {
                    if *counter < usize::MAX {
                        Ok(CounterState::Start(*counter + 1))
                    } else {
                        Err("counter automaton: counter cannot grow further".to_owned())
                    }
                } else if *character == self.second && *counter > 0 {
                    Ok(CounterState::End(*counter - 1))
                } else {
                    Ok(CounterState::Reject)
                }
            },
            CounterState::End(counter) => {
                if *character == self.second && *counter > 0 {
                    Ok(CounterState::End(*counter - 1))
                } else {
                    Ok(CounterState::Reject)
                }
            },
            CounterState::Reject => Ok(CounterState::Reject),
        }
    }
}

/// An unrecognized symbol is never an error: from any state it leads to the
/// ordinary absorbing dead state, and from the dead state every symbol leads
/// back to the dead state.
pub proof fn lemma_counter_dead_state<Alphabet: PartialEq>(
    first: Alphabet,
    second: Alphabet,
    state: CounterState,
    character: Alphabet,
)
    ensures
        !character.eq_spec(&first) && !character.eq_spec(&second) ==> counter_transition(
            first,
            second,
            state,
            character,
        ) == Some(CounterState::Reject),
        counter_transition(first, second, CounterState::Reject, character) == Some(
            CounterState::Reject,
        ),
{
}

/// The classification table of the counter automaton, independent of the
/// alphabet: a state accepts exactly when its counter is zero, and the dead
/// state rejects.
pub proof fn lemma_counter_classification_table()
    ensures
        counter_sort(CounterState::Start(0)) == BasicStateSort::Accept,
        counter_sort(CounterState::Start(1)) == BasicStateSort::Reject,
        counter_sort(CounterState::Start(10)) == BasicStateSort::Reject,
        counter_sort(CounterState::End(0)) == BasicStateSort::Accept,
        counter_sort(CounterState::End(1)) == BasicStateSort::Reject,
        counter_sort(CounterState::End(5)) == BasicStateSort::Reject,
        counter_sort(CounterState::Reject) == BasicStateSort::Reject,
{
}

/// The transition table of the counter automaton, machine-checked at a
/// two-symbol integer alphabet, where `vstd` specifies symbol equality and
/// `wf` is therefore dischargeable: the first symbol counts up, the second
/// counts down, anything else leads to the dead state, and the dead state is
/// permanent.
pub proof fn lemma_counter_transition_table(blueprint: CounterAutomatonBlueprint<u8>)
    requires
        blueprint.spec_first() == 1u8,
        blueprint.spec_second() == 2u8,
    ensures
        blueprint.wf(),
        (blueprint.model().transition)(CounterState::Start(0), 1u8) == Some(
            CounterState::Start(1),
        ),
        (blueprint.model().transition)(CounterState::Start(1), 1u8) == Some(
            CounterState::Start(2),
        ),
        (blueprint.model().transition)(CounterState::Start(1), 2u8) == Some(CounterState::End(0)),
        (blueprint.model().transition)(CounterState::End(1), 2u8) == Some(CounterState::End(0)),
        (blueprint.model().transition)(CounterState::Start(0), 2u8) == Some(CounterState::Reject),
        (blueprint.model().transition)(CounterState::Reject, 1u8) == Some(CounterState::Reject),
        (blueprint.model().transition)(CounterState::Reject, 2u8) == Some(CounterState::Reject),
{
}

/// The balanced-words scenario, machine-checked at a two-symbol integer
/// alphabet (symbol 1 before symbol 2, with 3 standing for an unrecognized
/// symbol): the empty word, one balanced pair and two balanced pairs are
/// accepted; an unbalanced word, a word that starts with the second symbol,
/// and a word with an unrecognized symbol are rejected — the unrecognized
/// symbol through the permanent dead state, not an error.
pub proof fn lemma_counter_scenario(blueprint: CounterAutomatonBlueprint<u8>)
    requires
        blueprint.spec_first() == 1u8,
        blueprint.spec_second() == 2u8,
    ensures
        blueprint.wf(),
        spec_characterise(blueprint.model(), Seq::<u8>::empty()) == Some(BasicStateSort::Accept),
        spec_characterise(blueprint.model(), seq![1u8, 2u8]) == Some(BasicStateSort::Accept),
        spec_characterise(blueprint.model(), seq![1u8, 1u8, 2u8, 2u8]) == Some(
            BasicStateSort::Accept,
        ),
        spec_characterise(blueprint.model(), seq![1u8, 1u8, 1u8, 1u8, 2u8, 2u8, 2u8]) == Some(
            BasicStateSort::Reject,
        ),
        spec_characterise(blueprint.model(), seq![2u8, 2u8]) == Some(BasicStateSort::Reject),
        spec_characterise(blueprint.model(), seq![3u8, 1u8, 2u8]) == Some(BasicStateSort::Reject),
{
    let m = blueprint.model();
    reveal_with_fuel(spec_run, 9);
    assert(seq![2u8].drop_first() =~= Seq::<u8>::empty());
    assert(seq![1u8, 2u8].drop_first() =~= seq![2u8]);
    assert(seq![2u8, 2u8].drop_first() =~= seq![2u8]);
    assert(seq![1u8, 2u8, 2u8].drop_first() =~= seq![2u8, 2u8]);
    assert(seq![1u8, 1u8, 2u8, 2u8].drop_first() =~= seq![1u8, 2u8, 2u8]);
    assert(seq![2u8, 2u8, 2u8].drop_first() =~= seq![2u8, 2u8]);
    assert(seq![1u8, 2u8, 2u8, 2u8].drop_first() =~= seq![2u8, 2u8, 2u8]);
    assert(seq![1u8, 1u8, 2u8, 2u8, 2u8].drop_first() =~= seq![1u8, 2u8, 2u8, 2u8]);
    assert(seq![1u8, 1u8, 1u8, 2u8, 2u8, 2u8].drop_first() =~= seq![1u8, 1u8, 2u8, 2u8, 2u8]);
    assert(seq![1u8, 1u8, 1u8, 1u8, 2u8, 2u8, 2u8].drop_first() =~= seq![
        1u8,
        1u8,
        1u8,
        2u8,
        2u8,
        2u8,
    ]);
    assert(seq![3u8, 1u8, 2u8].drop_first() =~= seq![1u8, 2u8]);
    assert(spec_run(m, CounterState::Start(0), Seq::<u8>::empty()) == Some(CounterState::Start(0)));
    assert(spec_run(m, CounterState::Start(0), seq![1u8, 2u8]) == Some(CounterState::End(0)));
    assert(spec_run(m, CounterState::Start(0), seq![1u8, 1u8, 2u8, 2u8]) == Some(
        CounterState::End(0),
    ));
    assert(spec_run(m, CounterState::Start(0), seq![1u8, 1u8, 1u8, 1u8, 2u8, 2u8, 2u8]) == Some(
        CounterState::End(1),
    ));
    assert(spec_run(m, CounterState::Start(0), seq![2u8, 2u8]) == Some(CounterState::Reject));
    assert(spec_run(m, CounterState::Start(0), seq![3u8, 1u8, 2u8]) == Some(CounterState::Reject));
}

/// The boolean reductions on concrete words, machine-checked at a four-symbol
/// integer alphabet: over a balanced-pair recognizer on symbols 1/2 and
/// another on symbols 3/4, the union accepts the empty word and either
/// balanced pair while the intersection accepts only the empty word, and both
/// reject a mixed word.
pub proof fn lemma_boolean_scenario(
    first: CounterAutomatonBlueprint<u8>,
    second: CounterAutomatonBlueprint<u8>,
)
    requires
        first.spec_first() == 1u8,
        first.spec_second() == 2u8,
        second.spec_first() == 3u8,
        second.spec_second() == 4u8,
    ensures
        spec_characterise(union_model(first.model(), second.model()), Seq::<u8>::empty()) == Some(
            BasicStateSort::Accept,
        ),
        spec_characterise(intersection_model(first.model(), second.model()), Seq::<u8>::empty())
            == Some(BasicStateSort::Accept),
        spec_characterise(union_model(first.model(), second.model()), seq![1u8, 2u8]) == Some(
            BasicStateSort::Accept,
        ),
        spec_characterise(intersection_model(first.model(), second.model()), seq![1u8, 2u8])
            == Some(BasicStateSort::Reject),
        spec_characterise(union_model(first.model(), second.model()), seq![3u8, 4u8]) == Some(
            BasicStateSort::Accept,
        ),
        spec_characterise(intersection_model(first.model(), second.model()), seq![3u8, 4u8])
            == Some(BasicStateSort::Reject),
        spec_characterise(union_model(first.model(), second.model()), seq![1u8, 3u8]) == Some(
            BasicStateSort::Reject,
        ),
        spec_characterise(intersection_model(first.model(), second.model()), seq![1u8, 3u8])
            == Some(BasicStateSort::Reject),
{
    let ma = first.model();
    let mb = second.model();
    reveal_with_fuel(spec_run, 4);
    assert(seq![2u8].drop_first() =~= Seq::<u8>::empty());
    assert(seq![4u8].drop_first() =~= Seq::<u8>::empty());
    assert(seq![3u8].drop_first() =~= Seq::<u8>::empty());
    assert(seq![1u8, 2u8].drop_first() =~= seq![2u8]);
    assert(seq![3u8, 4u8].drop_first() =~= seq![4u8]);
    assert(seq![1u8, 3u8].drop_first() =~= seq![3u8]);
    assert(spec_characterise(ma, Seq::<u8>::empty()) == Some(BasicStateSort::Accept));
    assert(spec_characterise(mb, Seq::<u8>::empty()) == Some(BasicStateSort::Accept));
    assert(spec_run(ma, CounterState::Start(0), seq![1u8, 2u8]) == Some(CounterState::End(0)));
    assert(spec_run(mb, CounterState::Start(0), seq![1u8, 2u8]) == Some(CounterState::Reject));
    assert(spec_run(ma, CounterState::Start(0), seq![3u8, 4u8]) == Some(CounterState::Reject));
    assert(spec_run(mb, CounterState::Start(0), seq![3u8, 4u8]) == Some(CounterState::End(0)));
    assert(spec_run(ma, CounterState::Start(0), seq![1u8, 3u8]) == Some(CounterState::Reject));
    assert(spec_run(mb, CounterState::Start(0), seq![1u8, 3u8]) == Some(CounterState::Reject));
    lemma_union_characterise(ma, mb, Seq::<u8>::empty());
    lemma_intersection_characterise(ma, mb, Seq::<u8>::empty());
    lemma_union_characterise(ma, mb, seq![1u8, 2u8]);
    lemma_intersection_characterise(ma, mb, seq![1u8, 2u8]);
    lemma_union_characterise(ma, mb, seq![3u8, 4u8]);
    lemma_intersection_characterise(ma, mb, seq![3u8, 4u8]);
    lemma_union_characterise(ma, mb, seq![1u8, 3u8]);
    lemma_intersection_characterise(ma, mb, seq![1u8, 3u8]);
}

} // verus!
