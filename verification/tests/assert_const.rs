use tpt_zero_formal::assert_const::{assert_i64_le, assert_usize_le};

#[test]
fn assert_i64_le_accepts_valid_range() {
    assert_eq!(assert_i64_le(0, 100), 100);
    assert_eq!(assert_i64_le(-5, -5), -5);
}

#[test]
fn assert_usize_le_accepts_valid_range() {
    assert_eq!(assert_usize_le(0, 100), 100);
}
