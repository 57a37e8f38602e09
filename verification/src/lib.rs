//! Runtime building blocks for design-by-contract code, with their contracts
//! proved: checked casts and range checks, bounded, refined and tagged
//! values, run-time invariants and pre/postconditions, type-level numbers and
//! markers, typed state machines, a pseudo-boolean constraint solver,
//! fixed-size tensors, dual numbers and small pseudo-random generators.
pub mod assert_const;
pub mod bounded;
pub mod fsm;
pub mod ghost;
pub mod grad;
pub mod invariants;
pub mod loop_inv;
pub mod newtype;
pub mod phantom;
pub mod postcond;
pub mod precond;
pub mod prelude;
pub mod rand;
pub mod refinement;
pub mod safe_cast;
pub mod smt_lite;
pub mod tensor;
pub mod tensor2;
pub mod text;
pub mod type_level;
pub mod witness;
