//! Finite-state machines whose state is a type: a [`Machine<S>`] is in state
//! `S`, and a transition is allowed only where a [`Transition`] impl names
//! the pair of state and event, so an illegal transition does not compile.
use core::marker::PhantomData;
use vstd::prelude::*;
pub use crate::invariants::Invariant;

verus! {

/// A state of a machine.
pub trait State {}

/// An event that may move a machine to another state.
pub trait Event {}

/// The transition table: an impl for `(From, Evt)` names the target state.
pub trait Transition<From: State, Evt: Event> {
    /// The state reached from `From` on `Evt`.
    type To: State;
}

/// A machine in state `S`; it holds no data.
#[derive(Debug)]
pub struct Machine<S: State> {
    state: PhantomData<S>,
}

impl<S: State> Machine<S> {
    /// A machine in state `S`.
    pub fn new() -> Self {
        Machine { state: PhantomData }
    }

    /// The machine after event `E`, in the state that the transition `T`
    /// names for `(S, E)`.
    pub fn transition<E: Event, T: Transition<S, E>>(self) -> Machine<<T as Transition<S, E>>::To> {
        Machine::new()
    }
}

impl<S: State> Clone for Machine<S> {
    fn clone(&self) -> Self {
        *self
    }
}

impl<S: State> Copy for Machine<S> {}

/// A machine is always well formed.
impl<S: State> Invariant for Machine<S> {
    fn check(&self) -> (r: bool)
        ensures
            r,
    {
        true
    }
}

} // verus!
