//! Unsigned integers at the type level: `U<N>` stands for the number `N`,
//! and the operation traits compute sums, differences, products, minima and
//! maxima of such numbers as types (`Output`) and as values (`VALUE`).
//!
//! The operation impls cover the operands `0..=MAX_OPERAND`; alongside them
//! stand plain `usize` functions computing the same results at run time.
use vstd::prelude::*;

pub mod table;

verus! {

/// The largest operand for which the operation impls exist.
pub const MAX_OPERAND: usize = 31;

/// A zero-sized type standing for the number `N`.
pub struct U<const N: usize>;

/// A type that stands for a natural number.
pub trait Num {
    /// The number the type stands for.
    spec fn n() -> nat;
}

impl<const N: usize> Num for U<N> {
    open spec fn n() -> nat {
        N as nat
    }
}

impl<const N: usize> U<N> {
    /// The number `N`.
    pub fn value() -> (n: usize)
        ensures
            n == N,
    {
        N
    }
}

/// `a + b`.
pub fn add(a: usize, b: usize) -> (r: usize)
    requires
        a + b <= usize::MAX,
    ensures
        r == a + b,
{
    a + b
}

/// `a - b`; the subtraction must not underflow.
pub fn sub(a: usize, b: usize) -> (r: usize)
    requires
        a >= b,
    ensures
        r == a - b,
{
    a - b
}

/// `a * b`.
pub fn mul(a: usize, b: usize) -> (r: usize)
    requires
        a * b <= usize::MAX,
    ensures
        r == a * b,
{
    a * b
}

/// The smaller of `a` and `b`.
pub fn min(a: usize, b: usize) -> (r: usize)
    ensures
        r == if a < b {
            a
        } else {
            b
        },
{
    if a < b {
        a
    } else {
        b
    }
}

/// The larger of `a` and `b`.
pub fn max(a: usize, b: usize) -> (r: usize)
    ensures
        r == if a > b {
            a
        } else {
            b
        },
{
    if a > b {
        a
    } else {
        b
    }
}

/// Whether `a <= b`.
pub fn is_le(a: usize, b: usize) -> (r: bool)
    ensures
        r == (a <= b),
{
    a <= b
}

/// Type-level addition: `Self + Rhs`.
pub trait TypeAdd<Rhs: Num = Self>: Num {
    /// The sum as a type.
    type Output: Num;

    /// The sum as a value.
    const VALUE: usize;

    /// `Output` stands for the sum.
    proof fn lemma_output()
        ensures
            Self::Output::n() == (Self::n() + Rhs::n()),
    ;
}

/// Type-level subtraction: `Self - Rhs`, only where `Self >= Rhs`.
pub trait TypeSub<Rhs: Num = Self>: Num {
    /// The difference as a type.
    type Output: Num;

    /// The difference as a value.
    const VALUE: usize;

    /// `Output` stands for the difference, and `Rhs` is at most `Self`.
    proof fn lemma_output()
        ensures
            Rhs::n() <= Self::n(),
            Self::Output::n() == (Self::n() - Rhs::n()),
    ;
}

/// Type-level multiplication: `Self * Rhs`.
pub trait TypeMul<Rhs: Num = Self>: Num {
    /// The product as a type.
    type Output: Num;

    /// The product as a value.
    const VALUE: usize;

    /// `Output` stands for the product.
    proof fn lemma_output()
        ensures
            Self::Output::n() == (Self::n() * Rhs::n()),
    ;
}

/// Type-level minimum of `Self` and `Rhs`.
pub trait Min<Rhs: Num = Self>: Num {
    /// The minimum as a type.
    type Output: Num;

    /// The minimum as a value.
    const VALUE: usize;

    /// `Output` stands for the smaller of the two numbers.
    proof fn lemma_output()
        ensures
            Self::Output::n() == (if Self::n() <= Rhs::n() { Self::n() } else { Rhs::n() }),
    ;
}

/// Type-level maximum of `Self` and `Rhs`.
pub trait Max<Rhs: Num = Self>: Num {
    /// The maximum as a type.
    type Output: Num;

    /// The maximum as a value.
    const VALUE: usize;

    /// `Output` stands for the larger of the two numbers.
    proof fn lemma_output()
        ensures
            Self::Output::n() == (if Self::n() >= Rhs::n() { Self::n() } else { Rhs::n() }),
    ;
}

/// The type of `A + B`.
pub type Sum<A, B> = <A as TypeAdd<B>>::Output;

/// The type of `A - B`.
pub type Difference<A, B> = <A as TypeSub<B>>::Output;

/// The type of `A * B`.
pub type Product<A, B> = <A as TypeMul<B>>::Output;

/// The type of `min(A, B)`.
pub type Minimum<A, B> = <A as Min<B>>::Output;

/// The type of `max(A, B)`.
pub type Maximum<A, B> = <A as Max<B>>::Output;

/// A type that satisfies [`IsTrue`] only when `C` is `true`.
pub struct AssertConst<const C: bool>;

/// Implemented by `AssertConst<true>` alone.
pub trait IsTrue {}

impl IsTrue for AssertConst<true> {}

/// `U<A>: AssertLe<B>` holds exactly when `A <= B`.
pub trait AssertLe<const B: usize>: Num {
    /// The number `Self` stands for is at most `B`.
    proof fn lemma_le()
        ensures
            Self::n() <= B,
    ;
}

} // verus!
