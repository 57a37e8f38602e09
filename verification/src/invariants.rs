//! Runtime-checkable invariants: a type states when a value of it is well
//! formed, and the helpers here pass a value on once its invariant holds.
use vstd::prelude::*;

verus! {

/// A well-formedness condition for values of the implementing type.
pub trait Invariant {
    /// Whether `self` is well formed.
    fn check(&self) -> bool;
}

/// `value` is one on which `check` answers `true` whenever it answers.
pub open spec fn upholds<T: Invariant>(value: &T) -> bool {
    forall|b: bool| #[trigger] call_ensures(T::check, (value,), b) ==> b
}

/// Checks the invariant of `value` and hands `value` back.
pub fn assert_invariant<T: Invariant>(value: &T) -> (r: &T)
    requires
        upholds(value),
    ensures
        r == value,
{
    let holds = value.check();
    assert(holds);
    value
}

/// Checks the invariant of `value` and hands the mutable reference back.
pub fn assert_invariant_mut<T: Invariant>(value: &mut T) -> (r: &mut T)
    requires
        upholds(&*old(value)),
    ensures
        *r == *old(value),
        *final(value) == *final(r),
{
    let holds = value.check();
    assert(holds);
    value
}

} // verus!
