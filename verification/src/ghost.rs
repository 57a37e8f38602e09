//! Values tagged at the type level with whether a property of them has
//! been established: [`Ghosted<T, Unproven>`] becomes
//! [`Ghosted<T, Proven>`] only through [`Ghosted::prove`] (given a proof
//! token) or the explicit [`Ghosted::assume_proven`]. The tag costs no space.
use core::marker::PhantomData;
use vstd::prelude::*;
use crate::witness::Proof;

verus! {

/// The tag of a value whose property has been established.
#[derive(Debug, Default, Copy, Clone, PartialEq, Eq, Hash)]
pub struct Proven;

/// The tag of a value whose property has not been established.
#[derive(Debug, Default, Copy, Clone, PartialEq, Eq, Hash)]
pub struct Unproven;

/// A value of type `T` tagged with `P` ([`Proven`] or [`Unproven`]).
#[derive(Debug, PartialEq, Eq, Hash)]
pub struct Ghosted<T, P> {
    value: T,
    tag: PhantomData<P>,
}

/// A value whose property has been established.
pub type GhostProven<T> = Ghosted<T, Proven>;

impl<T, P> View for Ghosted<T, P> {
    type V = T;

    /// The tagged value.
    closed spec fn view(&self) -> T {
        self.value
    }
}

impl<T: Clone, P> Clone for Ghosted<T, P> {
    fn clone(&self) -> (r: Self)
        ensures
            cloned::<T>(self@, r@),
    {
        let value = self.value.clone();
        proof {
            assert(cloned::<T>(self.value, value));
        }
        Ghosted { value, tag: PhantomData }
    }
}

impl<T: Copy, P> Copy for Ghosted<T, P> {}

impl<T> Ghosted<T, Unproven> {
    /// `value`, not yet proven.
    pub fn new(value: T) -> (g: Self)
        ensures
            g@ == value,
    {
        Ghosted { value, tag: PhantomData }
    }
}

impl<T, P> Ghosted<T, P> {
    /// A reference to the value.
    pub fn value(&self) -> (r: &T)
        ensures
            *r == self@,
    {
        &self.value
    }

    /// Consumes the tag and returns the value.
    pub fn into_inner(self) -> (r: T)
        ensures
            r == self@,
    {
        self.value
    }

    /// Applies `f` to the value; the result is no longer proven.
    pub fn map<U, F: FnOnce(T) -> U>(self, f: F) -> (g: Ghosted<U, Unproven>)
        requires
            f.requires((self@,)),
        ensures
            f.ensures((self@,), g@),
    {
        Ghosted { value: f(self.value), tag: PhantomData }
    }
}

impl<T> Ghosted<T, Unproven> {
    /// Marks the value proven without any evidence.
    pub fn assume_proven(self) -> (g: Ghosted<T, Proven>)
        ensures
            g@ == self@,
    {
        Ghosted { value: self.value, tag: PhantomData }
    }

    /// Marks the value proven, consuming the proof token `_witness`.
    pub fn prove<W: Proof>(self, _witness: W) -> (g: Ghosted<T, Proven>)
        ensures
            g@ == self@,
    {
        Ghosted { value: self.value, tag: PhantomData }
    }
}

} // verus!
