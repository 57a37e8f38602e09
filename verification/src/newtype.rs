//! The conversions shared by single-field wrapper types: a newtype can be
//! built from its inner value and taken apart again.
use vstd::prelude::*;

verus! {

/// A wrapper around a single inner value.
pub trait Newtype: Sized {
    /// The wrapped type.
    type Inner;

    /// Consumes the wrapper and returns the inner value.
    fn into_inner(self) -> Self::Inner;

    /// Wraps `inner`.
    fn from_inner(inner: Self::Inner) -> Self;
}

} // verus!
