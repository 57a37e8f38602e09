use tpt_zero_formal::grad::Dual;

fn seed(x: i64) -> Dual<i64> {
    Dual::seed(x)
}

#[test]
fn product_rule_on_integers() {
    // f(x) = x * x  =>  f'(x) = 2x
    let x = seed(5);
    let y = x * x;
    assert_eq!(y.value, 25);
    assert_eq!(y.deriv, 10);
}

#[test]
fn polynomial_derivative() {
    // f(x) = 3x^3 - 2x + 1  =>  f'(x) = 9x^2 - 2
    let x = seed(2);
    let x3 = x * x * x;
    let y = x3 + x3 + x3 - x - x + Dual::constant(1);
    assert_eq!(y.value, 21);
    assert_eq!(y.deriv, 34);
}

#[test]
fn quotient_rule_on_integers() {
    // (6 + 4e) / (2 + 1e) = 3 + ((4*2 - 6*1) / 4) e
    let a = Dual::new(6i64, 4);
    let b = Dual::new(2i64, 1);
    let q = a / b;
    assert_eq!(q.value, 3);
    assert_eq!(q.deriv, 0);
    let n = -Dual::new(3i32, -4);
    assert_eq!(n, Dual::new(-3, 4));
}

#[test]
fn lift_applies_chain_rule() {
    // g(u) = u^2 with g'(u) = 2u, at u = 3 + 5e: value 9, derivative 2*3*5.
    let u = Dual::new(3i64, 5);
    let r = u.lift(|v| v * v, |v| 2 * v);
    assert_eq!(r.value, 9);
    assert_eq!(r.deriv, 30);
}

#[test]
fn constants_and_seeds() {
    let c: Dual<i32> = Dual::constant(7);
    assert_eq!((c.value, c.deriv), (7, 0));
    let s: Dual<i32> = Dual::seed(7);
    assert_eq!((s.value, s.deriv), (7, 1));
}
