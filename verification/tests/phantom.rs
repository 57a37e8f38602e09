use tpt_zero_formal::phantom::{
    contravariant, covariant, invariant_marker, Contravariant, Covariant, Invariant, Phantom,
    TestMarkerA, TestMarkerB, TestMarkerG,
};

#[test]
fn phantom_is_zero_sized_and_eq() {
    assert_eq!(core::mem::size_of::<Phantom<u32>>(), 0);
    assert_eq!(Phantom::<u32>::new(), Phantom::default());
}

#[test]
fn variance_markers_are_zero_sized() {
    assert_eq!(core::mem::size_of::<Covariant<u32>>(), 0);
    assert_eq!(core::mem::size_of::<Contravariant<u32>>(), 0);
    assert_eq!(core::mem::size_of::<Invariant<u32>>(), 0);
}

#[test]
fn constructor_functions_are_zero_sized() {
    assert_eq!(core::mem::size_of_val(&covariant::<u32>()), 0);
    assert_eq!(core::mem::size_of_val(&contravariant::<u32>()), 0);
    assert_eq!(core::mem::size_of_val(&invariant_marker::<u32>()), 0);
}

#[test]
fn marker_macro_unit_is_zero_sized() {
    assert_eq!(core::mem::size_of::<TestMarkerA>(), 0);
    assert_eq!(core::mem::size_of::<TestMarkerB>(), 0);
    assert_eq!(TestMarkerA::new(), TestMarkerA::default());
}

#[test]
fn marker_macro_generic_is_zero_sized() {
    let g: TestMarkerG<u64> = TestMarkerG::new();
    assert_eq!(core::mem::size_of_val(&g), 0);
}

#[test]
fn phantom_covariance_compiles() {
    // Covariant<&str> is a subtype relationship that the compiler
    // accepts because the marker is covariant in T.
    fn takes(_: Covariant<&str>) {}
    let m: Covariant<&str> = Covariant::new();
    takes(m);
}

#[test]
fn contravariant_and_invariant_markers_are_copy() {
    let c = Contravariant::<u8>::new();
    let d = c;
    assert_eq!(c, d);
    let i = Invariant::<u8>::new();
    let j = i.clone();
    assert_eq!(i, j);
    assert_eq!(TestMarkerB::new(), TestMarkerB::default());
}
