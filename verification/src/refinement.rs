//! Refinement types: a value of type `T` known to satisfy a predicate `P`
//! named at the type level. The only way to build a [`Refined<T, P>`] is
//! [`Refined::new`] (or `TryFrom`), which runs [`Predicate::check`] and
//! refuses the value when the check fails.
use core::marker::PhantomData;
use core::ops::Deref;
use vstd::prelude::*;
use crate::witness::{Proof, Witness};

verus! {

/// A decidable predicate over values of type `T`, named by the implementing
/// type. `check` is expected to be a pure function of its argument.
pub trait Predicate<T> {
    /// Whether `value` satisfies the predicate.
    fn check(value: &T) -> bool;
}

/// `value` is a value on which `P::check` may answer `true`.
pub open spec fn passes<T, P: Predicate<T>>(value: T) -> bool {
    call_ensures(P::check, (&value,), true)
}

/// `value` is a value on which `P::check` may answer `false`.
pub open spec fn fails<T, P: Predicate<T>>(value: T) -> bool {
    call_ensures(P::check, (&value,), false)
}

/// The error of a failed refinement; it hands the rejected value back.
#[derive(Debug, Clone, Copy, PartialEq, Eq, PartialOrd, Ord, Hash)]
pub struct RefinementError<T> {
    value: T,
}

impl<T> View for RefinementError<T> {
    type V = T;

    /// The rejected value.
    closed spec fn view(&self) -> T {
        self.value
    }
}

impl<T> RefinementError<T> {
    /// A reference to the rejected value.
    pub fn value(&self) -> (r: &T)
        ensures
            *r == self@,
    {
        &self.value
    }

    /// Consumes the error and returns the rejected value.
    pub fn into_value(self) -> (r: T)
        ensures
            r == self@,
    {
        self.value
    }

    /// The text shown for this error; it does not reveal the value.
    pub fn to_string(&self) -> (s: String)
        ensures
            s@ == "value did not satisfy its refinement predicate"@,
    {
        String::from_str("value did not satisfy its refinement predicate")
    }
}

/// A value `T` that passed the check of the predicate `P`.
///
/// Only shared access is offered, so the value cannot change after the
/// check.
#[derive(Debug, PartialEq, Eq, PartialOrd, Ord, Hash)]
pub struct Refined<T, P: Predicate<T>> {
    inner: T,
    predicate: PhantomData<P>,
}

impl<T, P: Predicate<T>> View for Refined<T, P> {
    type V = T;

    /// The refined value.
    closed spec fn view(&self) -> T {
        self.inner
    }
}

impl<T, P: Predicate<T>> Refined<T, P> {
    /// Every refined value is one on which the check answered `true`.
    #[verifier::type_invariant]
    spec fn checked(self) -> bool {
        passes::<T, P>(self.inner)
    }

    /// Runs `P::check` on `value`: `Ok` with the value refined when the check
    /// answers `true`, `Err` handing the value back when it answers `false`.
    pub fn new(value: T) -> (r: Result<Self, RefinementError<T>>)
        ensures
            r matches Ok(refined) ==> refined@ == value && passes::<T, P>(value),
            r matches Err(e) ==> e@ == value && fails::<T, P>(value),
    {
        if P::check(&value) {
            Ok(Refined { inner: value, predicate: PhantomData })
        } else {
            Err(RefinementError { value })
        }
    }

    /// A reference to the refined value, which passed the check.
    pub fn get(&self) -> (r: &T)
        ensures
            *r == self@,
            passes::<T, P>(*r),
    {
        proof {
            use_type_invariant(self);
        }
        &self.inner
    }

    /// Consumes the wrapper and returns the refined value.
    pub fn into_inner(self) -> (r: T)
        ensures
            r == self@,
            passes::<T, P>(r),
    {
        proof {
            use_type_invariant(&self);
        }
        self.inner
    }

    /// The same value as a [`Witness`] whose proof type records that `P`
    /// held.
    pub fn into_witness(self) -> (w: Witness<T, RefinedProof<P>>)
        ensures
            w@ == self@,
            passes::<T, P>(w@),
    {
        proof {
            use_type_invariant(&self);
        }
        Witness::from_proof(self.inner, RefinedProof(PhantomData))
    }
}

impl<T, P: Predicate<T>> Deref for Refined<T, P> {
    type Target = T;

    fn deref(&self) -> (r: &T)
        ensures
            *r == self@,
    {
        &self.inner
    }
}

impl<T, P: Predicate<T>> AsRef<T> for Refined<T, P> {
    fn as_ref(&self) -> (r: &T)
        ensures
            *r == self@,
    {
        &self.inner
    }
}

/// Copying a refined value keeps a value that passed the check.
impl<T: Copy, P: Predicate<T>> Clone for Refined<T, P> {
    fn clone(&self) -> (r: Self)
        ensures
            r@ == self@,
    {
        *self
    }
}

impl<T: Copy, P: Predicate<T>> Copy for Refined<T, P> {}

/// The proof type of the witnesses made by [`Refined::into_witness`]; it has
/// no other constructor.
pub struct RefinedProof<P>(PhantomData<P>);

impl<P> Proof for RefinedProof<P> {}

/// The value moved out of a [`Refined`], wrapped so that `From` can be
/// offered without clashing with `From<T> for T`.
#[derive(Clone, Copy, Debug, PartialEq, Eq, PartialOrd, Ord, Hash)]
pub struct RefinedInner<T>(T);

impl<T> View for RefinedInner<T> {
    type V = T;

    closed spec fn view(&self) -> T {
        self.0
    }
}

impl<T> RefinedInner<T> {
    /// Consumes the wrapper and returns the value.
    pub fn into_inner(self) -> (r: T)
        ensures
            r == self@,
    {
        self.0
    }
}

impl<T, P: Predicate<T>> From<Refined<T, P>> for RefinedInner<T> {
    fn from(refined: Refined<T, P>) -> (r: Self)
        ensures
            r@ == refined@,
    {
        RefinedInner(refined.inner)
    }
}

impl<T, P: Predicate<T>> vstd::std_specs::convert::FromSpecImpl<Refined<T, P>> for RefinedInner<T> {
    open spec fn obeys_from_spec() -> bool {
        true
    }

    closed spec fn from_spec(refined: Refined<T, P>) -> Self {
        RefinedInner(refined.inner)
    }
}

/// The predicate "a `u32` that is not zero".
#[derive(Clone, Copy, Debug, PartialEq, Eq, PartialOrd, Ord, Hash)]
pub struct NonZeroU32;

impl Predicate<u32> for NonZeroU32 {
    fn check(value: &u32) -> (b: bool)
        ensures
            b == (*value != 0),
    {
        *value != 0
    }
}

impl TryFrom<u32> for Refined<u32, NonZeroU32> {
    type Error = RefinementError<u32>;

    fn try_from(value: u32) -> (r: Result<Self, RefinementError<u32>>)
        ensures
            r matches Ok(refined) ==> refined@ == value && value != 0,
            r matches Err(e) ==> e@ == value && value == 0,
    {
        if NonZeroU32::check(&value) {
            Ok(Refined { inner: value, predicate: PhantomData })
        } else {
            Err(RefinementError { value })
        }
    }
}

impl vstd::std_specs::convert::TryFromSpecImpl<u32> for Refined<u32, NonZeroU32> {
    open spec fn obeys_try_from_spec() -> bool {
        true
    }

    closed spec fn try_from_spec(value: u32) -> Result<Self, RefinementError<u32>> {
        if value != 0 {
            Ok(Refined { inner: value, predicate: PhantomData })
        } else {
            Err(RefinementError { value })
        }
    }
}

/// The predicate "an `i64` that is strictly positive".
#[derive(Clone, Copy, Debug, PartialEq, Eq, PartialOrd, Ord, Hash)]
pub struct PositiveI64;

impl Predicate<i64> for PositiveI64 {
    fn check(value: &i64) -> (b: bool)
        ensures
            b == (*value > 0),
    {
        *value > 0
    }
}

impl TryFrom<i64> for Refined<i64, PositiveI64> {
    type Error = RefinementError<i64>;

    fn try_from(value: i64) -> (r: Result<Self, RefinementError<i64>>)
        ensures
            r matches Ok(refined) ==> refined@ == value && value > 0,
            r matches Err(e) ==> e@ == value && value <= 0,
    {
        if PositiveI64::check(&value) {
            Ok(Refined { inner: value, predicate: PhantomData })
        } else {
            Err(RefinementError { value })
        }
    }
}

impl vstd::std_specs::convert::TryFromSpecImpl<i64> for Refined<i64, PositiveI64> {
    open spec fn obeys_try_from_spec() -> bool {
        true
    }

    closed spec fn try_from_spec(value: i64) -> Result<Self, RefinementError<i64>> {
        if value > 0 {
            Ok(Refined { inner: value, predicate: PhantomData })
        } else {
            Err(RefinementError { value })
        }
    }
}

} // verus!
