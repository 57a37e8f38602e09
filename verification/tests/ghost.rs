use tpt_zero_formal::ghost::{GhostProven, Ghosted, Proven, Unproven};
use tpt_zero_formal::witness::Proof;

#[test]
fn ghost_is_zero_sized_for_value() {
    assert_eq!(core::mem::size_of::<Ghosted<u32, Unproven>>(), 4);
    assert_eq!(core::mem::size_of::<Ghosted<u32, Proven>>(), 4);
    assert_eq!(core::mem::size_of::<GhostProven<u32>>(), 4);
    assert_eq!(core::mem::size_of::<Ghosted<(), Unproven>>(), 0);
}

#[test]
fn value_is_carried_unchanged() {
    let g: Ghosted<u32, Unproven> = Ghosted::new(123);
    assert_eq!(*g.value(), 123);
    assert_eq!(g.into_inner(), 123);
}

#[test]
fn assume_proven_preserves_value() {
    let raw: Ghosted<u32, Unproven> = Ghosted::new(42);
    let proven: GhostProven<u32> = raw.assume_proven();
    assert_eq!(*proven.value(), 42);
}

#[test]
fn map_resets_provenance() {
    let g: Ghosted<u32, Unproven> = Ghosted::new(2);
    let mapped: Ghosted<u32, Unproven> = g.map(|x| x + 40);
    assert_eq!(*mapped.value(), 42);
}

#[test]
fn markers_are_zero_sized() {
    assert_eq!(core::mem::size_of::<Proven>(), 0);
    assert_eq!(core::mem::size_of::<Unproven>(), 0);
}

#[test]
fn equality_and_copy() {
    let a: Ghosted<u8, Unproven> = Ghosted::new(7);
    let b: Ghosted<u8, Unproven> = Ghosted::new(7);
    assert_eq!(a, b);
    let c = a;
    assert_eq!(a, c);
}

#[test]
fn prove_with_witness() {
    #[derive(Clone, Copy, Debug)]
    struct IsPositive;
    impl Proof for IsPositive {}

    let raw: Ghosted<i32, Unproven> = Ghosted::new(5);
    let proven: GhostProven<i32> = raw.prove(IsPositive);
    assert_eq!(*proven.value(), 5);
}
