use tpt_zero_formal::invariants::{assert_invariant, assert_invariant_mut, Invariant};

struct Bounded {
    value: i32,
    min: i32,
    max: i32,
}

impl Invariant for Bounded {
    fn check(&self) -> bool {
        self.value >= self.min && self.value <= self.max
    }
}

#[test]
fn invariant_holds_in_valid_state() {
    let b = Bounded { value: 5, min: 0, max: 10 };
    assert!(b.check());
    let _ = assert_invariant(&b);
    let _ = assert_invariant_mut(&mut { b });
}

#[test]
fn invariant_detects_violation() {
    let mut b = Bounded { value: 5, min: 0, max: 10 };
    // Break the invariant without going through check(); check then
    // reports the out-of-range value.
    b.value = 20;
    assert!(!b.check());
}

#[test]
fn helpers_hand_back_the_same_value() {
    let mut b = Bounded { value: 1, min: 0, max: 10 };
    assert_eq!(assert_invariant(&b).value, 1);
    assert_invariant_mut(&mut b).value = 3;
    assert_eq!(b.value, 3);
}

#[test]
fn lib_macro_returns_value_unchanged() {
    let b = Bounded { value: 1, min: 0, max: 10 };
    let returned = {
        let _ = assert_invariant(&b);
        b
    };
    assert_eq!(returned.value, 1);
}
