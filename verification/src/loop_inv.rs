//! Loop invariants checked at run time: a type states what must hold on
//! entry to a loop and after each iteration.
use vstd::prelude::*;

verus! {

/// The invariant of a loop whose state is the implementing type.
pub trait LoopInvariant {
    /// Whether the invariant holds on entry to the loop.
    fn establish(&self) -> bool;

    /// Whether the invariant still holds after an iteration.
    fn maintain(&self) -> bool;
}

/// `value` is one on which `establish` answers `true` whenever it answers.
pub open spec fn established<T: LoopInvariant>(value: &T) -> bool {
    forall|b: bool| #[trigger] call_ensures(T::establish, (value,), b) ==> b
}

/// `value` is one on which `maintain` answers `true` whenever it answers.
pub open spec fn maintained<T: LoopInvariant>(value: &T) -> bool {
    forall|b: bool| #[trigger] call_ensures(T::maintain, (value,), b) ==> b
}

/// Checks that the invariant is established by `value` and hands it back.
pub fn assert_loop_entry<T: LoopInvariant>(value: &T) -> (r: &T)
    requires
        established(value),
    ensures
        r == value,
{
    let holds = value.establish();
    assert(holds);
    value
}

/// Checks that the invariant is maintained by `value` and hands it back.
pub fn assert_loop_invariant<T: LoopInvariant>(value: &T) -> (r: &T)
    requires
        maintained(value),
    ensures
        r == value,
{
    let holds = value.maintain();
    assert(holds);
    value
}

} // verus!
