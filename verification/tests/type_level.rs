use tpt_zero_formal::type_level::{
    self, AssertConst, AssertLe, Difference, IsTrue, Max, Maximum, Min, Minimum, Product, Sum,
    TypeAdd, TypeMul, TypeSub, MAX_OPERAND, U,
};

#[test]
fn value_helpers() {
    assert_eq!(type_level::add(2, 3), 5);
    assert_eq!(type_level::sub(5, 3), 2);
    assert_eq!(type_level::mul(2, 3), 6);
    assert_eq!(type_level::min(2, 3), 2);
    assert_eq!(type_level::max(2, 3), 3);
    assert!(type_level::is_le(2, 3));
    assert!(!type_level::is_le(5, 3));
}

#[test]
fn type_level_add() {
    assert_eq!(<U<2> as TypeAdd<U<3>>>::VALUE, 5);
    assert_eq!(<<U<2> as TypeAdd<U<3>>>::Output as TypeAdd<U<10>>>::VALUE, 15);
}

#[test]
fn type_level_sub() {
    assert_eq!(<U<5> as TypeSub<U<3>>>::VALUE, 2);
}

#[test]
fn type_level_mul() {
    assert_eq!(<U<2> as TypeMul<U<3>>>::VALUE, 6);
}

#[test]
fn type_level_min_max() {
    assert_eq!(<U<2> as Min<U<3>>>::VALUE, 2);
    assert_eq!(<U<2> as Max<U<3>>>::VALUE, 3);
    assert_eq!(<U<7> as Min<U<7>>>::VALUE, 7);
    assert_eq!(<U<7> as Max<U<7>>>::VALUE, 7);
}

#[test]
fn aliases() {
    assert_eq!(<Sum<U<3>, U<4>> as TypeAdd<U<0>>>::VALUE, 7);
    assert_eq!(<Difference<U<9>, U<4>> as TypeSub<U<0>>>::VALUE, 5);
    assert_eq!(<Product<U<3>, U<4>> as TypeMul<U<1>>>::VALUE, 12);
    assert_eq!(<Minimum<U<3>, U<4>> as Min<U<9>>>::VALUE, 3);
    assert_eq!(<Maximum<U<3>, U<4>> as Max<U<1>>>::VALUE, 4);
}

#[test]
fn assert_le_accepts_valid() {
    fn needs_le<const A: usize, const B: usize>()
    where
        U<A>: AssertLe<B>,
    {
    }
    needs_le::<0, 1>();
    needs_le::<5, 5>();
}

#[test]
fn table_covers_the_largest_operands() {
    assert_eq!(MAX_OPERAND, 31);
    assert_eq!(<U<31> as TypeAdd<U<31>>>::VALUE, 62);
    assert_eq!(<U<31> as TypeMul<U<31>>>::VALUE, 961);
    assert_eq!(<U<31> as TypeSub<U<31>>>::VALUE, 0);
    assert_eq!(<U<0> as Min<U<31>>>::VALUE, 0);
    assert_eq!(U::<17>::value(), 17);
    fn needs_true<T: IsTrue>() {}
    needs_true::<AssertConst<true>>();
}
