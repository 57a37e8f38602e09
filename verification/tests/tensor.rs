use tpt_zero_formal::tensor::Tensor;

#[test]
fn from_array_and_index() {
    let t = Tensor::from([1, 2, 3]);
    assert_eq!(t[0], 1);
    assert_eq!(t[2], 3);
}

#[test]
fn get_out_of_bounds() {
    let t = Tensor::<i32, 3>::new([1, 2, 3]);
    assert_eq!(t.get(3), None);
}

#[test]
fn from_fn_index_order() {
    let t: Tensor<i32, 4> = Tensor::from_fn(|i| i as i32 * 10);
    assert_eq!(t.as_ref(), &[0, 10, 20, 30]);
}

#[test]
fn tensor_add_sub_roundtrip() {
    let a = Tensor::from([1, 2, 3]);
    let b = Tensor::from([4, 5, 6]);
    let s = Tensor::add(&a, &b);
    let d = Tensor::sub(&s, &b);
    assert_eq!(d, a);
}

#[test]
fn dot_product() {
    let a = Tensor::from([1, 2, 3]);
    let b = Tensor::from([4, 5, 6]);
    assert_eq!(a.dot(&b), 32);
}

#[test]
fn dot_is_commutative() {
    let a = Tensor::from([1, 2, 3]);
    let b = Tensor::from([4, 5, 6]);
    assert_eq!(a.dot(&b), b.dot(&a));
}

#[test]
fn map_and_zip() {
    let a = Tensor::from([1, 2, 3]);
    let doubled = a.map(|x| x * 2);
    assert_eq!(doubled.as_ref(), &[2, 4, 6]);

    let b = Tensor::from([10, 20, 30]);
    let z = a.zip(&b, |i, x, y| x + y + i as i32);
    assert_eq!(z.as_ref(), &[11, 23, 35]);
}

#[test]
fn iter_sum() {
    let t = Tensor::from([1, 2, 3, 4]);
    assert_eq!(t.iter().sum::<i32>(), 10);
}

#[test]
fn tensor_default_is_zeros() {
    let t: Tensor<i32, 4> = Tensor::default();
    assert_eq!(t.as_ref(), &[0, 0, 0, 0]);
}

#[test]
fn operator_overloads() {
    let a = Tensor::from([1, 2]);
    let b = Tensor::from([3, 4]);
    assert_eq!((a + b).as_ref(), &[4, 6]);
    assert_eq!((b - a).as_ref(), &[2, 2]);
}

#[test]
fn empty_tensor() {
    let t: Tensor<i32, 0> = Tensor::default();
    assert!(t.is_empty());
    assert_eq!(t.len(), 0);
}

#[test]
fn get_mut_and_iter_mut() {
    let mut t = Tensor::from([1, 2, 3]);
    if let Some(x) = t.get_mut(1) {
        *x = 20;
    }
    assert!(t.get_mut(3).is_none());
    for x in t.iter_mut() {
        *x += 1;
    }
    assert_eq!(t.as_ref(), &[2, 21, 4]);
    let mut total = 0;
    for x in &t {
        total += *x;
    }
    assert_eq!(total, 27);
    for x in &mut t {
        *x = 0;
    }
    assert_eq!(t.as_ref(), &[0, 0, 0]);
}

#[test]
fn dot_of_single_element_and_negatives() {
    let a = Tensor::from([-3i64]);
    let b = Tensor::from([7i64]);
    assert_eq!(a.dot(&b), -21);
    let c = Tensor::from([2i64, -1, 4]);
    let d = Tensor::from([-5i64, 6, 1]);
    assert_eq!(c.dot(&d), -12);
}

#[test]
fn add_sub_roundtrip_for_u8() {
    let a = Tensor::from([1u8, 100, 200]);
    let b = Tensor::from([4u8, 155, 55]);
    let s = Tensor::add(&a, &b);
    assert_eq!(s, Tensor::from([5u8, 255, 255]));
    let d = Tensor::sub(&s, &b);
    assert_eq!(d, a);
}

#[test]
fn map_with_checked_closure() {
    let a = Tensor::from([1u8, 2, 3]);
    let b = a.map(|x| x.checked_add(1).unwrap());
    assert_eq!(b, Tensor::from([2u8, 3, 4]));
}
