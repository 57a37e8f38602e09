//! Zero-sized markers that tie a type parameter to a struct with a chosen
//! variance: [`Phantom`] and [`Covariant`] are covariant in `T`,
//! [`Contravariant`] is contravariant and [`Invariant`] is invariant.
use core::marker::PhantomData;
use vstd::prelude::*;

verus! {

/// A zero-sized marker, covariant in `T`.
#[derive(Debug, Default, PartialEq, Eq, Hash)]
pub struct Phantom<T: ?Sized> {
    marker: PhantomData<T>,
}

impl<T: ?Sized> Copy for Phantom<T> {}

impl<T: ?Sized> Clone for Phantom<T> {
    fn clone(&self) -> Self {
        *self
    }
}

impl<T: ?Sized> Phantom<T> {
    /// The marker.
    pub fn new() -> Self {
        Phantom { marker: PhantomData }
    }
}

/// A zero-sized marker, covariant in `T`.
#[derive(Debug, Default, PartialEq, Eq, Hash)]
pub struct Covariant<T: ?Sized> {
    marker: PhantomData<T>,
}

impl<T: ?Sized> Copy for Covariant<T> {}

impl<T: ?Sized> Clone for Covariant<T> {
    fn clone(&self) -> Self {
        *self
    }
}

impl<T: ?Sized> Covariant<T> {
    /// The marker.
    pub fn new() -> Self {
        Covariant { marker: PhantomData }
    }
}

/// A zero-sized marker, contravariant in `T`.
///
/// Its variance comes from a function-pointer type, which Verus cannot
/// represent, so the struct is opaque to Verus; it holds no data.
#[verifier::external_body]
#[verifier::reject_recursive_types(T)]
#[derive(Debug, Default, PartialEq, Eq, Hash)]
pub struct Contravariant<T: ?Sized> {
    marker: PhantomData<fn(T)>,
}

impl<T: ?Sized> Copy for Contravariant<T> {}

impl<T: ?Sized> Clone for Contravariant<T> {
    fn clone(&self) -> Self {
        *self
    }
}

impl<T: ?Sized> Contravariant<T> {
    /// The marker. Nothing is stated of it: the value has no contents.
    #[verifier::external_body]
    pub fn new() -> Self {
        Contravariant { marker: PhantomData }
    }
}

/// A zero-sized marker, invariant in `T`.
///
/// Its variance comes from a function-pointer type, which Verus cannot
/// represent, so the struct is opaque to Verus; it holds no data.
#[verifier::external_body]
#[verifier::reject_recursive_types(T)]
#[derive(Debug, Default, PartialEq, Eq, Hash)]
pub struct Invariant<T: ?Sized> {
    marker: PhantomData<fn(T) -> T>,
}

impl<T: ?Sized> Copy for Invariant<T> {}

impl<T: ?Sized> Clone for Invariant<T> {
    fn clone(&self) -> Self {
        *self
    }
}

impl<T: ?Sized> Invariant<T> {
    /// The marker. Nothing is stated of it: the value has no contents.
    #[verifier::external_body]
    pub fn new() -> Self {
        Invariant { marker: PhantomData }
    }
}

/// A covariant marker for `T`.
pub fn covariant<T: ?Sized>() -> Covariant<T> {
    Covariant::new()
}

/// A contravariant marker for `T`.
pub fn contravariant<T: ?Sized>() -> Contravariant<T> {
    Contravariant::new()
}

/// An invariant marker for `T`.
pub fn invariant_marker<T: ?Sized>() -> Invariant<T> {
    Invariant::new()
}

/// A plain zero-sized marker type.
#[derive(Debug, Default, PartialEq, Eq, Hash)]
pub struct TestMarkerA {
    marker: PhantomData<()>,
}

impl Copy for TestMarkerA {}

impl Clone for TestMarkerA {
    fn clone(&self) -> Self {
        *self
    }
}

impl TestMarkerA {
    /// The marker.
    pub fn new() -> Self {
        TestMarkerA { marker: PhantomData }
    }
}

/// A plain zero-sized marker type.
#[derive(Debug, Default, PartialEq, Eq, Hash)]
pub struct TestMarkerB {
    marker: PhantomData<()>,
}

impl Copy for TestMarkerB {}

impl Clone for TestMarkerB {
    fn clone(&self) -> Self {
        *self
    }
}

impl TestMarkerB {
    /// The marker.
    pub fn new() -> Self {
        TestMarkerB { marker: PhantomData }
    }
}

/// A zero-sized marker type generic over `T`.
#[derive(Debug, Default, PartialEq, Eq, Hash)]
pub struct TestMarkerG<T> {
    marker: PhantomData<(T, ())>,
}

impl<T> Copy for TestMarkerG<T> {}

impl<T> Clone for TestMarkerG<T> {
    fn clone(&self) -> Self {
        *self
    }
}

impl<T> TestMarkerG<T> {
    /// The marker.
    pub fn new() -> Self {
        TestMarkerG { marker: PhantomData }
    }
}

} // verus!
