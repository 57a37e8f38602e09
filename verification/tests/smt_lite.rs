use tpt_zero_formal::smt_lite::{
    eval_linear, satisfiable, solve, Constraint, ConstraintSet, Expr, LinearTerm, LinearTerms,
    Var, Witness,
};

#[test]
fn expr_eval_matches_core_semantics() {
    let a = Var(0);
    let b = Var(1);
    let mut cs = ConstraintSet::new(2);
    let assign = [true, false];
    let va = cs.var(a);
    assert!(cs.eval(va, &assign));
    let vb = cs.var(b);
    assert!(!cs.eval(vb, &assign));
    let va = cs.var(a);
    let na = cs.not(va);
    assert!(!cs.eval(na, &assign));
    let va = cs.var(a);
    let vb = cs.var(b);
    let nb = cs.not(vb);
    let conj = cs.and(va, nb);
    assert!(cs.eval(conj, &assign));
    let va = cs.var(a);
    let vb = cs.var(b);
    let disj = cs.or(va, vb);
    assert!(cs.eval(disj, &assign));
    let vb = cs.var(b);
    let va = cs.var(a);
    let imp = cs.implies(vb, va);
    assert!(cs.eval(imp, &assign));
    let va = cs.var(a);
    let vb = cs.var(b);
    let imp = cs.implies(va, vb);
    assert!(!cs.eval(imp, &assign));
    let t = cs.lit_true();
    assert!(cs.eval(t, &assign));
    let f = cs.lit_false();
    assert!(!cs.eval(f, &assign));
}

#[test]
fn all_and_any_identity() {
    let mut cs = ConstraintSet::new(0);
    let empty: [Expr; 0] = [];
    let all = cs.all(&empty);
    assert!(cs.eval(all, &[]));
    let any = cs.any(&empty);
    assert!(!cs.eval(any, &[]));
}

#[test]
fn boolean_sat_finds_witness() {
    let a = Var(0);
    let b = Var(1);
    let mut cs = ConstraintSet::new(2);
    let va = cs.var(a);
    let vb = cs.var(b);
    let either = cs.or(va, vb);
    let va2 = cs.var(a);
    let not_a = cs.not(va2);
    let both = cs.and(either, not_a);
    cs.add_bool(both);
    let w = cs.solve().expect("satisfiable");
    assert_eq!(w.bool_of(a), Some(false));
    assert_eq!(w.bool_of(b), Some(true));
}

#[test]
fn unsatisfiable_when_a_and_not_a() {
    let a = Var(0);
    let mut cs = ConstraintSet::new(1);
    let va = cs.var(a);
    let va2 = cs.var(a);
    let not_a = cs.not(va2);
    let both = cs.and(va, not_a);
    cs.add_bool(both);
    assert!(cs.solve().is_none());
    assert!(!cs.satisfiable());
}

#[test]
fn linear_eq_over_bools() {
    let x = Var(0);
    let mut cs = ConstraintSet::new(1);
    // 2x == 10 has no boolean (0/1) solution.
    cs.pb_eq(&[(2, x)], 10);
    assert!(cs.solve().is_none());
}

#[test]
fn linear_leq_sat_over_booleans() {
    let x = Var(0);
    let y = Var(1);
    let mut cs = ConstraintSet::new(2);
    cs.pb_leq(&[(1, x), (1, y)], 1);
    assert!(cs.solve().is_some());
    let mut cs2 = ConstraintSet::new(2);
    cs2.pb_leq(&[(1, x), (1, y)], -1);
    assert!(cs2.solve().is_none());
}

#[test]
fn constraint_capacity_respected() {
    let mut cs = ConstraintSet::new(1);
    for _ in 0..ConstraintSet::CONST_CAP {
        let t = cs.lit_true();
        assert!(cs.add(Constraint::Bool(t)));
    }
    let t = cs.lit_true();
    assert!(!cs.add(Constraint::Bool(t)));
}

#[test]
fn linear_terms_from_pairs() {
    let x = Var(0);
    let y = Var(1);
    let pairs = [(2i64, x), (-1i64, y), (2i64, x)];
    let terms = LinearTerms::from(pairs.as_slice());
    // 2x - y + 2x = 4x - y; under (x=1,y=1) => 3.
    let assign = [true, true];
    assert_eq!(eval_linear(&terms, &assign), 3);
}

#[test]
fn too_many_vars_returns_none() {
    let cs = ConstraintSet::new(Witness::CAP + 1);
    assert!(cs.solve().is_none());
}

#[test]
fn de_morgan_via_set() {
    let a = Var(0);
    let b = Var(1);
    let mut cs = ConstraintSet::new(2);
    let assign = [true, false];
    let va = cs.var(a);
    let vb = cs.var(b);
    let conj = cs.and(va, vb);
    let lhs = cs.not(conj);
    let va = cs.var(a);
    let vb = cs.var(b);
    let na = cs.not(va);
    let nb = cs.not(vb);
    let rhs = cs.or(na, nb);
    assert_eq!(cs.eval(lhs, &assign), cs.eval(rhs, &assign));
}

#[test]
fn solve_returns_least_satisfying_mask() {
    // x0 or x1: masks 0b00 fails, 0b01 (x0 = true) is the first that holds.
    let mut cs = ConstraintSet::new(2);
    let a = cs.var(Var(0));
    let b = cs.var(Var(1));
    let either = cs.or(a, b);
    assert!(cs.add_bool(either));
    let w = solve(&cs).expect("satisfiable");
    assert_eq!(w.bools(), &[true, false]);
    assert_eq!(w.int_of(Var(0)), Some(1));
    assert_eq!(w.int_of(Var(1)), Some(0));
    assert_eq!(w.bool_of(Var(2)), None);
    assert_eq!(w.int_of(Var(2)), None);
    assert!(satisfiable(&cs));
}

#[test]
fn empty_set_is_satisfied_by_all_false() {
    let cs = ConstraintSet::new(3);
    let w = cs.solve().expect("no constraints");
    assert_eq!(w.bools(), &[false, false, false]);
}

#[test]
fn node_arena_capacity() {
    let mut cs = ConstraintSet::new(1);
    for _ in 0..ConstraintSet::NODE_CAP {
        let _ = cs.lit_false();
    }
    assert_eq!(cs.node_count(), ConstraintSet::NODE_CAP);
}

#[test]
fn pb_rejects_too_many_terms() {
    let mut cs = ConstraintSet::new(1);
    let pairs = [(1i64, Var(0)); LinearTerms::CAP + 1];
    assert!(!cs.pb_eq(&pairs, 1));
    assert!(!cs.pb_leq(&pairs, 1));
    assert_eq!(cs.constraint_count(), 0);
    let ok = [(1i64, Var(0)); LinearTerms::CAP];
    assert!(cs.pb_eq(&ok, 16));
    assert_eq!(cs.iter().len(), 1);
    assert!(cs.solve().is_some());
}

#[test]
fn linear_sum_saturates() {
    let mut terms = LinearTerms::new();
    assert!(terms.is_empty());
    assert!(terms.push(LinearTerm::new(i64::MAX, Var(0))));
    assert!(terms.push(LinearTerm::new(5, Var(1))));
    assert_eq!(terms.len(), 2);
    assert_eq!(eval_linear(&terms, &[true, true]), i64::MAX);
    assert_eq!(eval_linear(&terms, &[false, true]), 5);
    // Variables beyond the assignment read as false.
    assert_eq!(eval_linear(&terms, &[]), 0);
    assert_eq!(terms.iter(), vec![LinearTerm::new(i64::MAX, Var(0)), LinearTerm::new(5, Var(1))]);
}

#[test]
fn linear_terms_capacity() {
    let mut terms = LinearTerms::default();
    for _ in 0..LinearTerms::CAP {
        assert!(terms.push(LinearTerm::new(1, Var(0))));
    }
    assert!(!terms.push(LinearTerm::new(1, Var(0))));
    assert_eq!(terms.len(), LinearTerms::CAP);
    let many = [(1i64, Var(0)); LinearTerms::CAP + 3];
    assert_eq!(LinearTerms::from_pairs(&many).len(), LinearTerms::CAP);
}

#[test]
fn all_and_any_over_several() {
    let mut cs = ConstraintSet::new(3);
    let a = cs.var(Var(0));
    let b = cs.var(Var(1));
    let c = cs.var(Var(2));
    let all = cs.all(&[a, b, c]);
    let any = cs.any(&[a, b, c]);
    assert!(cs.eval(all, &[true, true, true]));
    assert!(!cs.eval(all, &[true, false, true]));
    assert!(cs.eval(any, &[false, false, true]));
    assert!(!cs.eval(any, &[false, false, false]));
}

#[test]
fn implication_matches_not_or_on_every_assignment() {
    for assign in [[false, false], [false, true], [true, false], [true, true]] {
        let mut cs = ConstraintSet::new(2);
        let va = cs.var(Var(0));
        let vb = cs.var(Var(1));
        let lhs = cs.implies(va, vb);
        let na = cs.not(va);
        let rhs = cs.or(na, vb);
        assert_eq!(cs.eval(lhs, &assign), cs.eval(rhs, &assign));
        assert_eq!(cs.eval(lhs, &assign), !assign[0] || assign[1]);
    }
}

#[test]
fn iter_lists_accepted_constraints_in_call_order() {
    let mut cs = ConstraintSet::new(2);
    let va = cs.var(Var(0));
    assert!(cs.add_bool(va));
    assert!(cs.pb_leq(&[(1, Var(1))], 1));
    let too_many: Vec<(i64, Var)> = (0..(LinearTerms::CAP as i64 + 1)).map(|i| (i, Var(0))).collect();
    assert!(!cs.pb_eq(&too_many, 0));
    let vb = cs.var(Var(1));
    assert!(cs.add(Constraint::Bool(vb)));
    let listed = cs.iter();
    assert_eq!(listed.len(), 3);
    assert!(matches!(listed[0], Constraint::Bool(e) if e == va));
    assert!(matches!(listed[1], Constraint::PbLeq { rhs: 1, .. }));
    assert!(matches!(listed[2], Constraint::Bool(e) if e == vb));
}
