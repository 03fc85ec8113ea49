//! Sum-type blueprints: a choice between two automaton blueprint types fixed
//! at runtime, for the deterministic and the mutation paradigm.
//!
//! The state of such a blueprint is the matching sum of the component state
//! types.  Construction keeps blueprint and state variants aligned, so the
//! mismatched combinations are unreachable through the running automaton; they
//! are still handled defensively, as a structural-mismatch validation error
//! whose payload is the error type's `Default::default()` value and which
//! leaves a held state untouched.  That payload
//! is a value no specification can pin down for a generic type, so the models
//! leave it unconstrained (the error *relation* of a mismatched state is
//! `true`).

pub mod deterministic;
pub mod mutation;
