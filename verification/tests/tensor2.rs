use tpt_zero_formal::tensor::Tensor;
use tpt_zero_formal::tensor2::Tensor2;

#[test]
fn index_and_get() {
    let m = Tensor2::from([[1, 2, 3], [4, 5, 6]]);
    assert_eq!(m[(1, 2)], 6);
    assert_eq!(m.get(0, 0), Some(&1));
    assert_eq!(m.get(2, 0), None);
}

#[test]
fn from_fn_coordinates() {
    let m: Tensor2<i32, 3, 3> = Tensor2::from_fn(|r, c| (r * 10 + c) as i32);
    assert_eq!(m.get(1, 2), Some(&12));
}

#[test]
fn row_and_col() {
    let m = Tensor2::from([[1, 2, 3], [4, 5, 6]]);
    assert_eq!(m.row(0).as_ref(), &[1, 2, 3]);
    assert_eq!(m.col(2).as_ref(), &[3, 6]);
    assert_eq!(m.get_row(2), None);
    assert_eq!(m.get_col(3), None);
}

#[test]
fn transpose_is_involution() {
    let m = Tensor2::from([[1, 2, 3], [4, 5, 6]]);
    let t = m.transpose();
    assert_eq!(t.nrows(), 3);
    assert_eq!(t.ncols(), 2);
    assert_eq!(t.get(2, 1), Some(&6));
    assert_eq!(t.transpose(), m);
}

#[test]
fn tensor2_add_sub_roundtrip() {
    let a = Tensor2::from([[1, 2], [3, 4]]);
    let b = Tensor2::from([[5, 6], [7, 8]]);
    let s = Tensor2::add(&a, &b);
    assert_eq!(Tensor2::sub(&s, &b), a);
}

#[test]
fn matrix_multiply() {
    let a = Tensor2::from([[1, 2], [3, 4]]);
    let b = Tensor2::from([[5, 6], [7, 8]]);
    let c = Tensor2::mul(&a, &b);
    assert_eq!(c.get(0, 0), Some(&19));
    assert_eq!(c.get(0, 1), Some(&22));
    assert_eq!(c.get(1, 0), Some(&43));
    assert_eq!(c.get(1, 1), Some(&50));
}

#[test]
fn matrix_multiply_rectangular() {
    // 2x3 times 3x2 = 2x2.
    let a = Tensor2::from([[1, 2, 3], [4, 5, 6]]);
    let b = Tensor2::from([[7, 8], [9, 10], [11, 12]]);
    let c = Tensor2::mul(&a, &b);
    assert_eq!(c.nrows(), 2);
    assert_eq!(c.ncols(), 2);
    assert_eq!(c.get(0, 0), Some(&58));
    assert_eq!(c.get(0, 1), Some(&64));
    assert_eq!(c.get(1, 0), Some(&139));
    assert_eq!(c.get(1, 1), Some(&154));
}

#[test]
fn map_and_operator_overloads() {
    let a = Tensor2::from([[1, 2], [3, 4]]);
    let doubled = a.map(|x| x * 2);
    assert_eq!(doubled.get(1, 1), Some(&8));

    let b = Tensor2::from([[1, 1], [1, 1]]);
    assert_eq!((a + b).get(0, 0), Some(&2));
    assert_eq!((a - b).get(1, 1), Some(&3));
}

#[test]
fn tensor2_default_is_zeros() {
    let m: Tensor2<i32, 2, 3> = Tensor2::default();
    assert_eq!(m.get(1, 2), Some(&0));
}

#[test]
fn rows_and_mutation() {
    let mut m = Tensor2::new([[1, 2], [3, 4], [5, 6]]);
    let rows = m.rows_iter();
    assert_eq!(rows, vec![Tensor::from([1, 2]), Tensor::from([3, 4]), Tensor::from([5, 6])]);
    if let Some(x) = m.get_mut(2, 1) {
        *x = 60;
    }
    assert!(m.get_mut(3, 0).is_none());
    for row in m.rows_iter_mut() {
        row[0] = 0;
    }
    assert_eq!(m, Tensor2::from([[0, 2], [0, 4], [0, 60]]));
    assert_eq!(m.get_col(1).unwrap().as_ref(), &[2, 4, 60]);
    assert_eq!(m.get_row(1).unwrap().as_ref(), &[0, 4]);
}

#[test]
fn identity_product_keeps_matrix() {
    let a = Tensor2::from([[2i64, -1], [0, 3]]);
    let id = Tensor2::from([[1i64, 0], [0, 1]]);
    assert_eq!(Tensor2::mul(&a, &id), a);
    assert_eq!(Tensor2::mul(&id, &a), a);
}
