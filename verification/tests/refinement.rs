use tpt_zero_formal::refinement::{
    NonZeroU32, PositiveI64, Predicate, Refined, RefinedInner, RefinementError,
};

#[derive(Debug, Clone, Copy, PartialEq, Eq, PartialOrd, Ord, Hash)]
struct EvenU8;
impl Predicate<u8> for EvenU8 {
    fn check(value: &u8) -> bool {
        value % 2 == 0
    }
}

#[test]
fn new_accepts_satisfying_value() {
    let r = Refined::<u32, NonZeroU32>::new(3).unwrap();
    assert_eq!(*r.get(), 3);
}

#[test]
fn new_rejects_and_returns_value() {
    let err = Refined::<u32, NonZeroU32>::new(0).unwrap_err();
    assert_eq!(*err.value(), 0);
    assert_eq!(err.into_value(), 0);
}

#[test]
fn positive_i64_predicate() {
    assert!(Refined::<i64, PositiveI64>::new(10).is_ok());
    assert!(Refined::<i64, PositiveI64>::new(0).is_err());
    assert!(Refined::<i64, PositiveI64>::new(-1).is_err());
}

#[test]
fn deref_and_as_ref() {
    let r = Refined::<u8, EvenU8>::new(8).unwrap();
    assert_eq!(*r, 8);
    assert_eq!(r.as_ref(), &8);
    // Deref lets us call `T` methods directly.
    assert_eq!(r.count_ones(), 1);
}

#[test]
fn into_inner_moves_value() {
    let r = Refined::<u8, EvenU8>::new(6).unwrap();
    assert_eq!(r.into_inner(), 6);
}

#[test]
fn try_from_matches_new() {
    let r: Result<Refined<u32, NonZeroU32>, _> = 5u32.try_into();
    assert!(r.is_ok());
    let bad: Result<Refined<u32, NonZeroU32>, _> = 0u32.try_into();
    assert!(bad.is_err());
}

#[test]
fn from_refined_into_inner_wrapper() {
    let r = Refined::<u32, NonZeroU32>::new(11).unwrap();
    let raw: RefinedInner<u32> = r.into();
    assert_eq!(raw.into_inner(), 11);
}

#[test]
fn into_witness_bridges_to_witness() {
    let r = Refined::<u32, NonZeroU32>::new(4).unwrap();
    let w = r.into_witness();
    assert_eq!(*w.value(), 4);
}

#[test]
fn derived_traits() {
    let a = Refined::<u8, EvenU8>::new(2).unwrap();
    let b = a; // Copy
    assert_eq!(a, b);
    assert!(a <= b);
    // Debug does not panic.
    assert!(!format!("{a:?}").is_empty());
}

/// A `Clone` value type; `Copy` as well, which is what lets a refined value
/// of it be duplicated.
#[derive(Clone, Copy, Debug, PartialEq, Eq, PartialOrd, Ord, Hash)]
struct Pair([u8; 2]);

#[derive(Debug, Clone, Copy, PartialEq, Eq, PartialOrd, Ord, Hash)]
struct SumIsEven;
impl Predicate<Pair> for SumIsEven {
    fn check(value: &Pair) -> bool {
        (value.0[0].wrapping_add(value.0[1])) % 2 == 0
    }
}

#[test]
fn clone_preserves_refinement() {
    let a = Refined::<Pair, SumIsEven>::new(Pair([2, 4])).unwrap();
    let b = a.clone();
    assert_eq!(a, b);
    assert_eq!(b.into_inner(), Pair([2, 4]));
}

#[test]
fn error_display_and_debug_hide_value() {
    let err = Refined::<u32, NonZeroU32>::new(0).unwrap_err();
    let shown = err.to_string();
    assert_eq!(shown, "value did not satisfy its refinement predicate");
    let dbg = format!("{err:?}");
    assert!(dbg.contains("RefinementError"));
}

#[test]
fn try_from_for_positive_i64() {
    let ok = Refined::<i64, PositiveI64>::try_from(9).unwrap();
    assert_eq!(*ok.get(), 9);
    let err: RefinementError<i64> = Refined::<i64, PositiveI64>::try_from(-9).unwrap_err();
    assert_eq!(err.into_value(), -9);
    assert!(NonZeroU32::check(&1));
    assert!(!NonZeroU32::check(&0));
    assert!(PositiveI64::check(&1));
    assert!(!PositiveI64::check(&0));
}
