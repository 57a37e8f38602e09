use tpt_zero_formal::witness::{Proof, Witness};

#[derive(Clone, Copy, Debug)]
struct NonZero;
impl Proof for NonZero {}

#[derive(Clone, Copy, Debug)]
struct Even;
impl Proof for Even {}

#[derive(Clone, Debug, PartialEq, Eq)]
struct Bag {
    items: [u32; 2],
}

#[test]
fn from_proof_and_value() {
    let w = Witness::from_proof(5u32, NonZero);
    assert_eq!(*w.value(), 5);
}

#[test]
fn into_inner_returns_value() {
    let w = Witness::from_proof("abc", NonZero);
    assert_eq!(w.into_inner(), "abc");
}

#[test]
fn from_proof_consumes_proof_value() {
    let w = Witness::from_proof(4i64, Even);
    assert_eq!(*w.value(), 4);
}

#[test]
fn copy_when_t_is_copy() {
    let w = Witness::from_proof(1u8, NonZero);
    let w2 = w;
    assert_eq!(*w.value(), 1);
    assert_eq!(*w2.value(), 1);
}

#[test]
fn non_copy_t_works() {
    let w = Witness::from_proof(Bag { items: [1, 2] }, NonZero);
    let w2 = w.clone();
    assert_eq!(w.into_inner(), Bag { items: [1, 2] });
    assert_eq!(w2.into_inner(), Bag { items: [1, 2] });
}
