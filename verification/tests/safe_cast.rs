use tpt_zero_formal::safe_cast::{CastError, SafeCast};

#[test]
fn integer_narrowing_succeeds_in_range() {
    let v: Result<u8, _> = 42i32.safe_cast();
    assert_eq!(v, Ok(42u8));
}

#[test]
fn integer_narrowing_fails_out_of_range() {
    let v: Result<u8, _> = 256i32.safe_cast();
    assert!(v.is_err());
}

#[test]
fn integer_narrowing_fails_negative_to_unsigned() {
    let v: Result<u32, _> = (-1i32).safe_cast();
    assert!(v.is_err());
}

#[test]
fn identity_cast_always_succeeds() {
    let v: Result<i32, _> = 7i32.safe_cast();
    assert_eq!(v, Ok(7));
}

#[test]
fn error_reports_type_names() {
    let err = <i32 as SafeCast<u8>>::safe_cast(999).unwrap_err();
    assert_eq!(err.from_type(), "i32");
    assert_eq!(err.to_type(), "u8");
}

#[test]
fn every_type_casts_to_itself() {
    let v: Result<i8, _> = 5i8.safe_cast();
    assert_eq!(v, Ok(5));
    let v: Result<u128, _> = 5u128.safe_cast();
    assert_eq!(v, Ok(5));
}

#[test]
fn widening_always_succeeds() {
    let v: Result<i128, _> = i64::MIN.safe_cast();
    assert_eq!(v, Ok(i64::MIN as i128));
}

#[test]
fn narrowing_out_of_range_fails() {
    let v: Result<i8, _> = 200i32.safe_cast();
    assert!(v.is_err());
}

#[test]
fn signed_to_unsigned_negative_fails() {
    let v: Result<usize, _> = (-1isize).safe_cast();
    assert!(v.is_err());
}

#[test]
fn extremes_of_the_wide_types() {
    let v: Result<i128, _> = u128::MAX.safe_cast();
    assert!(v.is_err());
    let v: Result<u128, _> = i128::MAX.safe_cast();
    assert_eq!(v, Ok(i128::MAX as u128));
    let v: Result<u64, _> = (u64::MAX as u128).safe_cast();
    assert_eq!(v, Ok(u64::MAX));
    let v: Result<u64, _> = (u64::MAX as u128 + 1).safe_cast();
    assert!(v.is_err());
    let v: Result<i8, _> = (-128i64).safe_cast();
    assert_eq!(v, Ok(-128i8));
    let v: Result<i8, _> = (-129i64).safe_cast();
    assert!(v.is_err());
}

#[test]
fn error_text_names_both_types() {
    let err = <u16 as SafeCast<u8>>::safe_cast(300).unwrap_err();
    assert_eq!(err, CastError::new("u16", "u8"));
    assert_eq!(
        err.to_string(),
        "cannot safely cast u16 to u8: value is not exactly representable"
    );
}
