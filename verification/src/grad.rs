//! Forward-mode automatic differentiation with dual numbers.
//!
//! A [`Dual<T>`] carries a value `a` and a derivative `b` (the number
//! `a + b·ε` with `ε² = 0`); the arithmetic operators apply the sum,
//! difference, product and quotient rules, so evaluating a function on
//! `Dual::seed(x)` yields `f(x)` and `f'(x)` together.
use core::ops::{Add, Div, Mul, Neg, Sub};
use vstd::prelude::*;

verus! {

use vstd::std_specs::ops::{AddSpec, DivSpec, MulSpec, NegSpec, SubSpec};

/// Number types with a zero and a one, the derivatives of a constant and of
/// the variable.
pub trait DualNum: Copy {
    /// The additive identity.
    const ZERO: Self;

    /// The multiplicative identity.
    const ONE: Self;
}

impl DualNum for i32 {
    const ZERO: i32 = 0;
    const ONE: i32 = 1;
}

impl DualNum for i64 {
    const ZERO: i64 = 0;
    const ONE: i64 = 1;
}

/// A dual number: a value and its derivative.
#[derive(Debug, Clone, Copy, PartialEq)]
pub struct Dual<T> {
    /// The value.
    pub value: T,
    /// The derivative.
    pub deriv: T,
}

impl<T> Dual<T> {
    /// The dual number with the given value and derivative.
    pub fn new(value: T, deriv: T) -> (r: Self)
        ensures
            r.value == value,
            r.deriv == deriv,
    {
        Dual { value, deriv }
    }
}

impl<T: DualNum> Dual<T> {
    /// A constant: derivative zero.
    pub fn constant(value: T) -> (r: Self)
        ensures
            r.value == value,
            r.deriv == T::ZERO,
    {
        Dual { value, deriv: T::ZERO }
    }

    /// The variable of differentiation: derivative one.
    pub fn seed(value: T) -> (r: Self)
        ensures
            r.value == value,
            r.deriv == T::ONE,
    {
        Dual { value, deriv: T::ONE }
    }
}

/// Sum rule: `(a + b·ε) + (c + d·ε) = (a + c) + (b + d)·ε`.
impl<T: Add<Output = T> + Copy> Add for Dual<T> {
    type Output = Self;

    fn add(self, rhs: Self) -> (r: Self) {
        Dual { value: self.value + rhs.value, deriv: self.deriv + rhs.deriv }
    }
}

impl<T: Add<Output = T> + Copy> vstd::std_specs::ops::AddSpecImpl for Dual<T> {
    open spec fn obeys_add_spec() -> bool {
        T::obeys_add_spec()
    }

    open spec fn add_req(self, rhs: Self) -> bool {
        self.value.add_req(rhs.value) && self.deriv.add_req(rhs.deriv)
    }

    open spec fn add_spec(self, rhs: Self) -> Self {
        Dual { value: self.value.add_spec(rhs.value), deriv: self.deriv.add_spec(rhs.deriv) }
    }
}

/// Difference rule: `(a + b·ε) - (c + d·ε) = (a - c) + (b - d)·ε`.
impl<T: Sub<Output = T> + Copy> Sub for Dual<T> {
    type Output = Self;

    fn sub(self, rhs: Self) -> (r: Self) {
        Dual { value: self.value - rhs.value, deriv: self.deriv - rhs.deriv }
    }
}

impl<T: Sub<Output = T> + Copy> vstd::std_specs::ops::SubSpecImpl for Dual<T> {
    open spec fn obeys_sub_spec() -> bool {
        T::obeys_sub_spec()
    }

    open spec fn sub_req(self, rhs: Self) -> bool {
        self.value.sub_req(rhs.value) && self.deriv.sub_req(rhs.deriv)
    }

    open spec fn sub_spec(self, rhs: Self) -> Self {
        Dual { value: self.value.sub_spec(rhs.value), deriv: self.deriv.sub_spec(rhs.deriv) }
    }
}

/// Product rule: `(a + b·ε)(c + d·ε) = ac + (bc + ad)·ε`.
impl<T: Add<Output = T> + Mul<Output = T> + Sub<Output = T> + Copy> Mul for Dual<T> {
    type Output = Self;

    fn mul(self, rhs: Self) -> (r: Self) {
        let value = self.value * rhs.value;
        let left = self.deriv * rhs.value;
        let right = self.value * rhs.deriv;
        Dual { value, deriv: left + right }
    }
}

impl<T: Add<Output = T> + Mul<Output = T> + Sub<Output = T> + Copy> vstd::std_specs::ops::MulSpecImpl for Dual<T> {
    open spec fn obeys_mul_spec() -> bool {
        T::obeys_mul_spec() && T::obeys_add_spec()
    }

    open spec fn mul_req(self, rhs: Self) -> bool {
        &&& self.value.mul_req(rhs.value)
        &&& self.deriv.mul_req(rhs.value)
        &&& self.value.mul_req(rhs.deriv)
        &&& T::obeys_mul_spec()
        &&& self.deriv.mul_spec(rhs.value).add_req(self.value.mul_spec(rhs.deriv))
    }

    open spec fn mul_spec(self, rhs: Self) -> Self {
        Dual {
            value: self.value.mul_spec(rhs.value),
            deriv: self.deriv.mul_spec(rhs.value).add_spec(self.value.mul_spec(rhs.deriv)),
        }
    }
}

/// Quotient rule: `(a + b·ε)/(c + d·ε) = a/c + ((bc - ad)/c²)·ε`.
impl<T: Mul<Output = T> + Sub<Output = T> + Div<Output = T> + Copy> Div for Dual<T> {
    type Output = Self;

    fn div(self, rhs: Self) -> (r: Self) {
        let denom = rhs.value * rhs.value;
        let left = self.deriv * rhs.value;
        let right = self.value * rhs.deriv;
        let numer = left - right;
        Dual { value: self.value / rhs.value, deriv: numer / denom }
    }
}

impl<T: Mul<Output = T> + Sub<Output = T> + Div<Output = T> + Copy> vstd::std_specs::ops::DivSpecImpl for Dual<T> {
    open spec fn obeys_div_spec() -> bool {
        T::obeys_mul_spec() && T::obeys_sub_spec() && T::obeys_div_spec()
    }

    open spec fn div_req(self, rhs: Self) -> bool {
        &&& rhs.value.mul_req(rhs.value)
        &&& self.deriv.mul_req(rhs.value)
        &&& self.value.mul_req(rhs.deriv)
        &&& self.value.div_req(rhs.value)
        &&& T::obeys_mul_spec()
        &&& T::obeys_sub_spec()
        &&& self.deriv.mul_spec(rhs.value).sub_req(self.value.mul_spec(rhs.deriv))
        &&& self.deriv.mul_spec(rhs.value).sub_spec(self.value.mul_spec(rhs.deriv)).div_req(
            rhs.value.mul_spec(rhs.value),
        )
    }

    open spec fn div_spec(self, rhs: Self) -> Self {
        Dual {
            value: self.value.div_spec(rhs.value),
            deriv: self.deriv.mul_spec(rhs.value).sub_spec(self.value.mul_spec(rhs.deriv)).div_spec(
                rhs.value.mul_spec(rhs.value),
            ),
        }
    }
}

/// `-(a + b·ε) = -a + (-b)·ε`.
impl<T: Neg<Output = T>> Neg for Dual<T> {
    type Output = Self;

    fn neg(self) -> (r: Self) {
        Dual { value: self.value.neg(), deriv: self.deriv.neg() }
    }
}

impl<T: Neg<Output = T>> vstd::std_specs::ops::NegSpecImpl for Dual<T> {
    open spec fn obeys_neg_spec() -> bool {
        T::obeys_neg_spec()
    }

    open spec fn neg_req(self) -> bool {
        self.value.neg_req() && self.deriv.neg_req()
    }

    open spec fn neg_spec(self) -> Self {
        Dual { value: self.value.neg_spec(), deriv: self.deriv.neg_spec() }
    }
}

impl<T: Copy> Dual<T> {
    /// Applies a scalar function `f` with derivative `df` (chain rule): the
    /// value is `f(value)` and the derivative `df(value) * deriv`.
    pub fn lift<U: DualNum + Mul<T, Output = U>, F: Fn(T) -> U, DF: Fn(T) -> U>(
        self,
        f: F,
        df: DF,
    ) -> (r: Dual<U>)
        requires
            f.requires((self.value,)),
            df.requires((self.value,)),
            forall|u: U| #[trigger] df.ensures((self.value,), u) ==> u.mul_req(self.deriv),
        ensures
            f.ensures((self.value,), r.value),
            exists|u: U|
                #[trigger] df.ensures((self.value,), u) && (U::obeys_mul_spec() ==> r.deriv
                    == u.mul_spec(self.deriv)),
    {
        let value = f(self.value);
        let slope = df(self.value);
        Dual { value, deriv: slope * self.deriv }
    }
}

} // verus!
