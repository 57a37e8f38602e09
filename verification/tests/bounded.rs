use tpt_zero_formal::bounded::{BoundedInt, BoundsError};
use tpt_zero_formal::safe_cast::SafeCast;

#[test]
fn safe_cast_then_bound() {
    let v: u32 = 42;
    let as_i64: i64 = v.safe_cast().unwrap();
    assert_eq!(BoundedInt::new(0, 100, as_i64).unwrap().value(), 42);
}

#[test]
fn in_range_value_constructs() {
    assert_eq!(BoundedInt::new(0, 100, 0).unwrap().value(), 0);
    assert_eq!(BoundedInt::new(0, 100, 100).unwrap().value(), 100);
    assert_eq!(BoundedInt::new(-50, 50, -50).unwrap().value(), -50);
    assert_eq!(BoundedInt::new(-50, 50, 50).unwrap().value(), 50);
}

#[test]
fn out_of_range_value_errors() {
    assert!(BoundedInt::new(0, 100, -1).is_err());
    assert!(BoundedInt::new(0, 100, 101).is_err());
    assert!(BoundedInt::new(-10, 10, 11).is_err());
    assert!(BoundedInt::new(-10, 10, -11).is_err());
}

#[test]
fn associated_consts_match_generics() {
    assert_eq!(BoundedInt::new(5, 9, 7).unwrap().min(), 5);
    assert_eq!(BoundedInt::new(5, 9, 7).unwrap().max(), 9);
}

#[test]
fn clamp_saturates_both_ends() {
    assert_eq!(BoundedInt::clamp(0, 10, -5).value(), 0);
    assert_eq!(BoundedInt::clamp(0, 10, 15).value(), 10);
    assert_eq!(BoundedInt::clamp(0, 10, 5).value(), 5);
}

#[test]
fn checked_add_in_bounds() {
    assert_eq!(BoundedInt::new(0, 100, 40).unwrap().checked_add(10).unwrap().value(), 50);
}

#[test]
fn checked_add_out_of_bounds_is_none() {
    assert!(BoundedInt::new(0, 100, 95).unwrap().checked_add(10).is_none());
    assert!(BoundedInt::new(0, 100, 0).unwrap().checked_add(-5).is_none());
}

#[test]
fn saturating_add_clamps() {
    assert_eq!(BoundedInt::new(0, 100, 95).unwrap().saturating_add(10).value(), 100);
    assert_eq!(BoundedInt::new(0, 100, 5).unwrap().saturating_add(-10).value(), 0);
    assert_eq!(BoundedInt::new(0, 100, 50).unwrap().saturating_add(20).value(), 70);
}

#[test]
fn checked_sub_in_bounds() {
    assert_eq!(BoundedInt::new(0, 100, 40).unwrap().checked_sub(10).unwrap().value(), 30);
}

#[test]
fn checked_sub_out_of_bounds_is_none() {
    assert!(BoundedInt::new(0, 100, 5).unwrap().checked_sub(10).is_none());
    assert!(BoundedInt::new(0, 100, 95).unwrap().checked_sub(-10).is_none());
}

#[test]
fn saturating_sub_clamps() {
    assert_eq!(BoundedInt::new(0, 100, 5).unwrap().saturating_sub(10).value(), 0);
    assert_eq!(BoundedInt::new(0, 100, 95).unwrap().saturating_sub(-10).value(), 100);
    assert_eq!(BoundedInt::new(0, 100, 50).unwrap().saturating_sub(20).value(), 30);
}

#[test]
fn try_from_roundtrip() {
    let v = BoundedInt::try_from((0, 10, 7)).unwrap();
    let back: i64 = v.into();
    assert_eq!(back, 7);
    assert!(BoundedInt::try_from((0, 10, 99)).is_err());
}

#[test]
fn ordering_and_equality() {
    let a = BoundedInt::new(0, 100, 10).unwrap();
    let b = BoundedInt::new(0, 100, 20).unwrap();
    assert!(a < b);
    assert_eq!(a, BoundedInt::new(0, 100, 10).unwrap());
    assert_ne!(a, b);
}

#[test]
fn display_formats_inner() {
    let v = BoundedInt::new(0, 100, 42).unwrap();
    assert_eq!(v.to_string(), "42");
}

#[test]
fn prop_in_range_always_constructs() {
    for v in 0i64..=100 {
        let b = BoundedInt::clamp(0, 100, v);
        assert!(b.value() >= 0 && b.value() <= 100);
        assert_eq!(b.value(), v);
    }
}

#[test]
fn prop_construction_invariant() {
    for u in [i64::MIN, -1000, -1, 0, 1, 50, 99, 100, 101, 1000, i64::MAX] {
        let b = BoundedInt::new(0, 100, u);
        assert_eq!(b.is_ok(), (0..=100).contains(&u));
    }
}

#[test]
fn prop_add_stays_in_bounds() {
    for v in [0i64, 1, 50, 99, 100] {
        for rhs in [i64::MIN, -101, -100, -1, 0, 1, 100, 101, i64::MAX] {
            let b = BoundedInt::new(0, 100, v).unwrap();
            let added = b.saturating_add(rhs);
            assert!(added.value() >= 0 && added.value() <= 100);
            let sum = i128::from(v).saturating_add(i128::from(rhs));
            if (0..=100).contains(&sum) {
                assert_eq!(i128::from(added.value()), sum);
            }
        }
    }
}

#[test]
fn prop_sub_stays_in_bounds() {
    for v in [0i64, 1, 50, 99, 100] {
        for rhs in [i64::MIN, -101, -100, -1, 0, 1, 100, 101, i64::MAX] {
            let b = BoundedInt::new(0, 100, v).unwrap();
            let subbed = b.saturating_sub(rhs);
            assert!(subbed.value() >= 0 && subbed.value() <= 100);
            let diff = i128::from(v).saturating_sub(i128::from(rhs));
            if (0..=100).contains(&diff) {
                assert_eq!(i128::from(subbed.value()), diff);
            }
        }
    }
}

#[test]
fn extreme_bounds_do_not_overflow() {
    let b = BoundedInt::new(i64::MIN, i64::MAX, i64::MAX).unwrap();
    assert!(b.checked_add(1).is_none());
    assert_eq!(b.saturating_add(i64::MAX).value(), i64::MAX);
    let c = BoundedInt::new(i64::MIN, i64::MAX, i64::MIN).unwrap();
    assert!(c.checked_sub(1).is_none());
    assert_eq!(c.saturating_sub(i64::MAX).value(), i64::MIN);
    assert_eq!(c.to_string(), "-9223372036854775808");
}

#[test]
fn inverted_bounds_reject_every_value() {
    assert!(BoundedInt::new(10, 5, 7).is_err());
    assert_eq!(BoundedInt::new_clamped(-3, 3, 9).value(), 3);
    assert_eq!(BoundsError.to_string(), "value is outside the BoundedInt range");
}
