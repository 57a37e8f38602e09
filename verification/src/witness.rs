//! Values paired with a proof token: a [`Witness<T, P>`] can only be built
//! from a value together with a value of the proof type `P`, so holding one
//! shows that someone was able to produce that proof.
use core::marker::PhantomData;
use vstd::prelude::*;

verus! {

/// A marker for types that stand for an established fact about a value.
pub trait Proof {}

/// A value of type `T` carried together with the proof type `P`.
#[derive(Debug)]
pub struct Witness<T, P: Proof> {
    value: T,
    proof: PhantomData<P>,
}

impl<T, P: Proof> View for Witness<T, P> {
    type V = T;

    /// The carried value.
    closed spec fn view(&self) -> T {
        self.value
    }
}

impl<T, P: Proof> Witness<T, P> {
    /// A reference to the carried value.
    pub fn value(&self) -> (r: &T)
        ensures
            *r == self@,
    {
        &self.value
    }

    /// Consumes the witness and returns the carried value.
    pub fn into_inner(self) -> (r: T)
        ensures
            r == self@,
    {
        self.value
    }

    /// Pairs `value` with the proof `_proof`, which is consumed.
    pub fn from_proof(value: T, _proof: P) -> (w: Self)
        ensures
            w@ == value,
    {
        Witness { value, proof: PhantomData }
    }
}

impl<T: Clone, P: Proof> Clone for Witness<T, P> {
    fn clone(&self) -> (w: Self)
        ensures
            cloned::<T>(self@, w@),
    {
        let value = self.value.clone();
        proof {
            assert(cloned::<T>(self.value, value));
        }
        Witness { value, proof: PhantomData }
    }
}

impl<T: Copy, P: Proof> Copy for Witness<T, P> {}

} // verus!
