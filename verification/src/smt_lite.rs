//! Boolean and pseudo-boolean (0/1) linear constraints with a tiny
//! enumeration solver.
//!
//! A [`ConstraintSet`] owns an arena of boolean expression nodes and a list of
//! constraints over a fixed number of boolean variables. Pseudo-boolean
//! constraints read each variable as the integer `1` (true) or `0` (false).
//! [`ConstraintSet::solve`] enumerates the `2^n` assignments in increasing
//! bit-mask order and returns the first one that satisfies every constraint.
use vstd::prelude::*;

verus! {

use vstd::arithmetic::div_mod::{lemma_div_denominator, lemma_fundamental_div_mod_converse};
use vstd::arithmetic::power::lemma_pow0;
use vstd::arithmetic::power2::{lemma_pow2_pos, lemma_pow2_unfold, pow2};
use vstd::bits::{lemma_usize_pow2_no_overflow, lemma_usize_shl_is_mul, lemma_usize_shr_is_div};

/// A variable identifier; variables are integers in `0..num_vars`.
#[derive(Debug, Clone, Copy, PartialEq, Eq, Hash, PartialOrd, Ord)]
pub struct Var(pub usize);

/// An opaque handle to a boolean expression node stored in a
/// [`ConstraintSet`]'s arena.
#[derive(Debug, Clone, Copy, PartialEq, Eq, Hash)]
pub struct Expr {
    node: u16,
}

impl Expr {
    /// The arena slot this handle refers to.
    pub closed spec fn id(self) -> int {
        self.node as int
    }

    #[verifier::type_invariant]
    spec fn slot_in_arena_range(self) -> bool {
        self.node < ConstraintSet::NODE_CAP
    }
}

/// A node in the boolean-expression arena. Children are arena slots.
#[derive(Debug, Clone, Copy, PartialEq, Eq)]
enum Node {
    True,
    False,
    Var(Var),
    Not(u16),
    And(u16, u16),
    Or(u16, u16),
    Implies(u16, u16),
}

/// Every child of the node stored in slot `i` lives in an earlier slot.
spec fn children_precede(n: Node, i: int) -> bool {
    match n {
        Node::Not(x) => x < i,
        Node::And(x, y) => x < i && y < i,
        Node::Or(x, y) => x < i && y < i,
        Node::Implies(x, y) => x < i && y < i,
        _ => true,
    }
}

/// The truth value of variable `v` under `assign`; variables beyond the
/// assignment read as `false`.
pub open spec fn var_value(v: Var, assign: Seq<bool>) -> bool {
    v.0 < assign.len() && assign[v.0 as int]
}

/// Truth value of arena slot `i` under `assign`. Empty slots are `false`.
spec fn node_value(nodes: Seq<Node>, i: int, assign: Seq<bool>) -> bool
    decreases i,
{
    if 0 <= i < nodes.len() {
        match nodes[i] {
            Node::True => true,
            Node::False => false,
            Node::Var(v) => var_value(v, assign),
            Node::Not(x) => if x < i {
                !node_value(nodes, x as int, assign)
            } else {
                false
            },
            Node::And(x, y) => if x < i && y < i {
                node_value(nodes, x as int, assign) && node_value(nodes, y as int, assign)
            } else {
                false
            },
            Node::Or(x, y) => if x < i && y < i {
                node_value(nodes, x as int, assign) || node_value(nodes, y as int, assign)
            } else {
                false
            },
            Node::Implies(x, y) => if x < i && y < i {
                !node_value(nodes, x as int, assign) || node_value(nodes, y as int, assign)
            } else {
                false
            },
        }
    } else {
        false
    }
}

/// Appending a node never changes the value of an existing slot.
proof fn lemma_push_keeps_values(nodes: Seq<Node>, n: Node, i: int, assign: Seq<bool>)
    requires
        0 <= i < nodes.len(),
    ensures
        node_value(nodes.push(n), i, assign) == node_value(nodes, i, assign),
    decreases i,
{
    let ext = nodes.push(n);
    assert(ext[i] == nodes[i]);
    match nodes[i] {
        Node::Not(x) => {
            if x < i {
                lemma_push_keeps_values(nodes, n, x as int, assign);
            }
        },
        Node::And(x, y) => {
            if x < i && y < i {
                lemma_push_keeps_values(nodes, n, x as int, assign);
                lemma_push_keeps_values(nodes, n, y as int, assign);
            }
        },
        Node::Or(x, y) => {
            if x < i && y < i {
                lemma_push_keeps_values(nodes, n, x as int, assign);
                lemma_push_keeps_values(nodes, n, y as int, assign);
            }
        },
        Node::Implies(x, y) => {
            if x < i && y < i {
                lemma_push_keeps_values(nodes, n, x as int, assign);
                lemma_push_keeps_values(nodes, n, y as int, assign);
            }
        },
        _ => {},
    }
}

/// A linear term `coeff * var`.
#[derive(Debug, Clone, Copy, PartialEq, Eq)]
pub struct LinearTerm {
    /// The integer coefficient multiplying the variable.
    pub coeff: i64,
    /// The variable being multiplied.
    pub var: Var,
}

impl LinearTerm {
    /// Creates the term `coeff * var`.
    pub fn new(coeff: i64, var: Var) -> (r: Self)
        ensures
            r.coeff == coeff,
            r.var == var,
    {
        LinearTerm { coeff, var }
    }
}

/// `x` clamped into the `i64` range, as `saturating_add` produces it.
pub open spec fn saturate_i64(x: int) -> int {
    if x > i64::MAX {
        i64::MAX as int
    } else if x < i64::MIN {
        i64::MIN as int
    } else {
        x
    }
}

/// The contribution of `t` under `assign`: `coeff` when its variable is true,
/// `0` otherwise.
pub open spec fn term_value(t: LinearTerm, assign: Seq<bool>) -> int {
    if var_value(t.var, assign) {
        t.coeff as int
    } else {
        0
    }
}

/// The saturating left-to-right sum of the terms under `assign`.
pub open spec fn linear_value(terms: Seq<LinearTerm>, assign: Seq<bool>) -> int
    decreases terms.len(),
{
    if terms.len() == 0 {
        0
    } else {
        saturate_i64(linear_value(terms.drop_last(), assign) + term_value(terms.last(), assign))
    }
}

/// The term a `(coeff, var)` pair denotes.
pub open spec fn pair_term(p: (i64, Var)) -> LinearTerm {
    LinearTerm { coeff: p.0, var: p.1 }
}

/// A fixed-capacity list of linear terms, stored inline.
#[derive(Debug, Clone, Copy, PartialEq, Eq)]
pub struct LinearTerms {
    inner: [Option<LinearTerm>; LinearTerms::CAP],
    len: usize,
}

impl View for LinearTerms {
    type V = Seq<LinearTerm>;

    closed spec fn view(&self) -> Seq<LinearTerm> {
        Seq::new(self.len as nat, |i: int| self.inner@[i].unwrap())
    }
}

impl LinearTerms {
    /// Capacity of the term list.
    pub const CAP: usize = 16;

    #[verifier::type_invariant]
    spec fn filled_prefix(self) -> bool {
        &&& self.len <= LinearTerms::CAP
        &&& forall|i: int| 0 <= i < self.len ==> self.inner@[i] is Some
        &&& forall|i: int| self.len <= i < LinearTerms::CAP ==> self.inner@[i] is None
    }

    /// Creates an empty list of linear terms.
    pub fn new() -> (r: Self)
        ensures
            r@ == Seq::<LinearTerm>::empty(),
    {
        let r = LinearTerms { inner: [None; LinearTerms::CAP], len: 0 };
        assert(r@ =~= Seq::<LinearTerm>::empty());
        r
    }

    /// The number of terms stored.
    pub fn len(&self) -> (r: usize)
        ensures
            r == self@.len(),
    {
        self.len
    }

    /// Returns `true` if no terms are stored.
    pub fn is_empty(&self) -> (r: bool)
        ensures
            r == (self@.len() == 0),
    {
        self.len == 0
    }

    /// Appends `term`, returning `false` (and leaving the list unchanged) when
    /// the capacity is exhausted.
    pub fn push(&mut self, term: LinearTerm) -> (r: bool)
        ensures
            r == (old(self)@.len() < LinearTerms::CAP),
            r ==> final(self)@ == old(self)@.push(term),
            !r ==> final(self)@ == old(self)@,
            final(self)@.len() <= LinearTerms::CAP,
    {
        proof {
            use_type_invariant(&*self);
        }
        if self.len >= LinearTerms::CAP {
            return false;
        }
        let ghost before = self@;
        let idx = self.len;
        let mut inner = self.inner;
        inner[idx] = Some(term);
        *self = LinearTerms { inner, len: idx + 1 };
        assert(self@ =~= before.push(term));
        true
    }

    /// The stored terms, in insertion order.
    pub fn iter(&self) -> (r: Vec<LinearTerm>)
        ensures
            r@ == self@,
    {
        proof {
            use_type_invariant(self);
        }
        let mut out: Vec<LinearTerm> = Vec::new();
        let mut i: usize = 0;
        while i < self.len
            invariant
                i <= self.len <= LinearTerms::CAP,
                forall|k: int| 0 <= k < self.len ==> self.inner@[k] is Some,
                out@ =~= self@.take(i as int),
            decreases self.len - i,
        {
            match self.inner[i] {
                Some(t) => {
                    out.push(t);
                },
                None => {},
            }
            i += 1;
        }
        assert(self@.take(self.len as int) =~= self@);
        out
    }

    /// Builds a list from `(coeff, var)` pairs, keeping the first
    /// [`LinearTerms::CAP`] of them.
    pub fn from_pairs(pairs: &[(i64, Var)]) -> (r: Self)
        ensures
            r@.len() == (if pairs@.len() < LinearTerms::CAP { pairs@.len() } else { LinearTerms::CAP as nat }),
            forall|i: int|
                0 <= i < r@.len() ==> r@[i] == pair_term(pairs@[i]),
    {
        let mut terms = LinearTerms::new();
        let mut i: usize = 0;
        while i < pairs.len()
            invariant
                i <= pairs@.len(),
                terms@.len() == (if i < LinearTerms::CAP { i as nat } else { LinearTerms::CAP as nat }),
                forall|k: int|
                    0 <= k < terms@.len() ==> terms@[k] == pair_term(pairs@[k]),
            decreases pairs@.len() - i,
        {
            let (coeff, var) = pairs[i];
            let _ = terms.push(LinearTerm::new(coeff, var));
            i += 1;
        }
        terms
    }
}

impl<'a> From<&'a [(i64, Var)]> for LinearTerms {
    /// The terms of the first [`LinearTerms::CAP`] pairs, as
    /// [`LinearTerms::from_pairs`].
    fn from(pairs: &'a [(i64, Var)]) -> (r: Self)
        ensures
            r@.len() == (if pairs@.len() < LinearTerms::CAP { pairs@.len() } else { LinearTerms::CAP as nat }),
            forall|i: int|
                0 <= i < r@.len() ==> r@[i] == pair_term(pairs@[i]),
    {
        LinearTerms::from_pairs(pairs)
    }
}

impl<'a> vstd::std_specs::convert::FromSpecImpl<&'a [(i64, Var)]> for LinearTerms {
    /// Not claimed: the stored array of a list cannot be named in spec code
    /// from the pairs alone; the contract of `from` states the terms instead.
    open spec fn obeys_from_spec() -> bool {
        false
    }

    closed spec fn from_spec(pairs: &'a [(i64, Var)]) -> Self {
        choose|t: LinearTerms| t@.len() == pairs@.len()
    }
}

impl Default for LinearTerms {
    fn default() -> (r: Self)
        ensures
            r@ == Seq::<LinearTerm>::empty(),
    {
        LinearTerms::new()
    }
}

/// A single constraint: a boolean expression that must hold, or a
/// pseudo-boolean linear relation over the 0/1 reading of the variables.
#[derive(Debug, Clone, Copy, PartialEq, Eq)]
pub enum Constraint {
    /// A boolean expression that must evaluate to `true`.
    Bool(Expr),
    /// `sum(coeff * var) == rhs`.
    PbEq {
        /// The sum of linear terms.
        terms: LinearTerms,
        /// The required value.
        rhs: i64,
    },
    /// `sum(coeff * var) <= rhs`.
    PbLeq {
        /// The sum of linear terms.
        terms: LinearTerms,
        /// The upper bound.
        rhs: i64,
    },
}

/// Saturating `i64` addition, as `i64::saturating_add` computes it.
fn saturating_add_i64(a: i64, b: i64) -> (r: i64)
    ensures
        r == saturate_i64(a + b),
{
    let s: i128 = a as i128 + b as i128;
    if s > i64::MAX as i128 {
        i64::MAX
    } else if s < i64::MIN as i128 {
        i64::MIN
    } else {
        s as i64
    }
}

/// Evaluates pseudo-boolean terms under a boolean assignment: the
/// saturating sum of the coefficients of the terms whose variable is true.
pub fn eval_linear(terms: &LinearTerms, assign: &[bool]) -> (r: i64)
    ensures
        r == linear_value(terms@, assign@),
{
    let list = terms.iter();
    let mut sum: i64 = 0;
    let mut i: usize = 0;
    while i < list.len()
        invariant
            i <= list@.len(),
            list@ == terms@,
            sum == linear_value(list@.take(i as int), assign@),
        decreases list@.len() - i,
    {
        let t = list[i];
        let truth: bool = if t.var.0 < assign.len() {
            assign[t.var.0]
        } else {
            false
        };
        let value: i64 = if truth {
            t.coeff
        } else {
            0
        };
        proof {
            assert(list@.take(i + 1).drop_last() =~= list@.take(i as int));
            assert(list@.take(i + 1).last() == t);
        }
        sum = saturating_add_i64(sum, value);
        i += 1;
    }
    assert(list@.take(list@.len() as int) =~= list@);
    sum
}

/// A satisfying assignment found by the solver.
#[derive(Debug, Clone, Copy, PartialEq, Eq)]
pub struct Witness {
    bools: [bool; Witness::CAP],
    num_vars: usize,
}

impl View for Witness {
    type V = Seq<bool>;

    closed spec fn view(&self) -> Seq<bool> {
        self.bools@.take(self.num_vars as int)
    }
}

impl Witness {
    /// Largest number of variables a witness (and so the solver) handles.
    pub const CAP: usize = 64;

    #[verifier::type_invariant]
    spec fn within_capacity(self) -> bool {
        &&& self.num_vars <= Witness::CAP
        &&& forall|i: int| self.num_vars <= i < Witness::CAP ==> !self.bools@[i]
    }

    /// The truth value of `v`, or `None` when `v` is not one of the witness's
    /// variables.
    pub fn bool_of(&self, v: Var) -> (r: Option<bool>)
        ensures
            r == if v.0 < self@.len() {
                Some(self@[v.0 as int])
            } else {
                None::<bool>
            },
    {
        proof {
            use_type_invariant(self);
        }
        if v.0 < self.num_vars {
            Some(self.bools[v.0])
        } else {
            None
        }
    }

    /// The integer (`1`/`0`) value of `v`, or `None` when `v` is not one of
    /// the witness's variables.
    pub fn int_of(&self, v: Var) -> (r: Option<i64>)
        ensures
            r == if v.0 < self@.len() {
                Some(if self@[v.0 as int] {
                    1i64
                } else {
                    0i64
                })
            } else {
                None::<i64>
            },
    {
        match self.bool_of(v) {
            Some(b) => Some(if b {
                1i64
            } else {
                0i64
            }),
            None => None,
        }
    }

    /// The underlying boolean assignment.
    pub fn bools(&self) -> (r: &[bool])
        ensures
            r@ == self@,
    {
        proof {
            use_type_invariant(self);
        }
        let all: &[bool] = self.bools.as_slice();
        &all[0..self.num_vars]
    }
}

/// The assignment that bit-mask `mask` encodes: variable `i` is bit `i`.
pub open spec fn mask_assignment(mask: usize, n: nat) -> Seq<bool> {
    Seq::new(n, |i: int| (mask >> (i as usize)) & 1usize == 1usize)
}

/// The bit-mask that encodes assignment `a`: bit `i` is set exactly when
/// `a[i]` is true.
pub open spec fn mask_of(a: Seq<bool>) -> nat
    decreases a.len(),
{
    if a.len() == 0 {
        0
    } else {
        (if a[0] {
            1nat
        } else {
            0nat
        }) + 2 * mask_of(a.drop_first())
    }
}

proof fn lemma_mask_of_bound(a: Seq<bool>)
    ensures
        mask_of(a) < pow2(a.len()),
    decreases a.len(),
{
    if a.len() == 0 {
        lemma_pow0(2);
    } else {
        lemma_mask_of_bound(a.drop_first());
        lemma_pow2_unfold(a.len());
    }
}

/// Bit `i` of `mask_of(a)`, read arithmetically, is `a[i]`.
proof fn lemma_mask_of_bit(a: Seq<bool>, i: nat)
    requires
        i < a.len(),
    ensures
        ((mask_of(a) / pow2(i)) % 2 == 1) == a[i as int],
    decreases i,
{
    let m = mask_of(a) as int;
    let b: int = if a[0] {
        1
    } else {
        0
    };
    let k = mask_of(a.drop_first()) as int;
    assert(m == k * 2 + b);
    lemma_fundamental_div_mod_converse(m, 2, k, b);
    if i == 0 {
        lemma_pow0(2);
        assert(m / 1 == m);
    } else {
        let p = pow2((i - 1) as nat) as int;
        lemma_pow2_unfold(i);
        lemma_pow2_pos((i - 1) as nat);
        lemma_div_denominator(m, 2, p);
        assert(m / (pow2(i) as int) == k / p);
        lemma_mask_of_bit(a.drop_first(), (i - 1) as nat);
        assert(a.drop_first()[i - 1] == a[i as int]);
    }
}

/// Every assignment of `n < usize::BITS` variables is the one some mask
/// below `2^n` encodes, so enumerating those masks visits them all.
proof fn lemma_assignment_is_mask(a: Seq<bool>)
    requires
        a.len() < usize::BITS,
    ensures
        mask_of(a) < (1usize << a.len()),
        mask_assignment(mask_of(a) as usize, a.len()) == a,
{
    let n = a.len();
    lemma_mask_of_bound(a);
    lemma_usize_pow2_no_overflow(n);
    lemma_usize_shl_is_mul(1, n as usize);
    let m = mask_of(a) as usize;
    assert forall|i: int| 0 <= i < n implies #[trigger] mask_assignment(m, n)[i] == a[i] by {
        lemma_usize_shr_is_div(m, i as usize);
        let x = m >> (i as usize);
        assert((x & 1usize == 1usize) == (x % 2 == 1)) by (bit_vector);
        lemma_mask_of_bit(a, i as nat);
    }
    assert(mask_assignment(m, n) =~= a);
}

/// An element-by-element copy of `v`.
fn copy_vec<T: Copy>(v: &Vec<T>) -> (r: Vec<T>)
    ensures
        r@ == v@,
{
    let mut out: Vec<T> = Vec::new();
    let mut i: usize = 0;
    while i < v.len()
        invariant
            i <= v@.len(),
            out@ =~= v@.take(i as int),
        decreases v@.len() - i,
    {
        out.push(v[i]);
        i += 1;
    }
    assert(v@.take(v@.len() as int) =~= v@);
    out
}

/// A collection of constraints together with the arena of boolean expression
/// nodes they refer to and the number of variables they range over.
#[derive(Debug, PartialEq, Eq)]
pub struct ConstraintSet {
    nodes: Vec<Node>,
    constraints: Vec<Constraint>,
    num_vars: usize,
}

impl ConstraintSet {
    /// Capacity of the expression-node arena.
    pub const NODE_CAP: usize = 256;

    /// Capacity of the constraint list.
    pub const CONST_CAP: usize = 64;

    #[verifier::type_invariant]
    spec fn well_formed(self) -> bool {
        &&& self.nodes@.len() <= ConstraintSet::NODE_CAP
        &&& self.constraints@.len() <= ConstraintSet::CONST_CAP
        &&& forall|i: int|
            0 <= i < self.nodes@.len() ==> #[trigger] children_precede(self.nodes@[i], i)
    }

    /// The number of expression nodes allocated so far.
    pub closed spec fn num_nodes(self) -> nat {
        self.nodes@.len()
    }

    /// The constraints added so far, in order.
    pub closed spec fn constraint_list(self) -> Seq<Constraint> {
        self.constraints@
    }

    /// The number of variables, as a spec value.
    pub closed spec fn var_count(self) -> nat {
        self.num_vars as nat
    }

    /// `e` was created by this set.
    pub open spec fn owns(self, e: Expr) -> bool {
        e.id() < self.num_nodes()
    }

    /// The truth value of `e` under `assign`; a handle this set never
    /// created evaluates to `false`.
    pub closed spec fn value_of(self, e: Expr, assign: Seq<bool>) -> bool {
        node_value(self.nodes@, e.id(), assign)
    }

    /// Whether constraint `c` holds under `assign` (pseudo-boolean terms read
    /// each variable as `1`/`0`).
    pub open spec fn satisfies(self, c: Constraint, assign: Seq<bool>) -> bool {
        match c {
            Constraint::Bool(e) => self.value_of(e, assign),
            Constraint::PbEq { terms, rhs } => linear_value(terms@, assign) == rhs,
            Constraint::PbLeq { terms, rhs } => linear_value(terms@, assign) <= rhs,
        }
    }

    /// Every constraint of the set holds under `assign`.
    pub open spec fn satisfied_by(self, assign: Seq<bool>) -> bool {
        forall|i: int|
            0 <= i < self.constraint_list().len() ==> self.satisfies(
                #[trigger] self.constraint_list()[i],
                assign,
            )
    }

    /// `self` is `old` with one node appended: existing handles, constraints
    /// and the variable count are unchanged.
    pub open spec fn extends_by_one_node(self, old: ConstraintSet) -> bool {
        &&& self.num_nodes() == old.num_nodes() + 1
        &&& self.constraint_list() == old.constraint_list()
        &&& self.var_count() == old.var_count()
        &&& forall|e: Expr, a: Seq<bool>|
            old.owns(e) ==> #[trigger] self.value_of(e, a) == old.value_of(e, a)
    }

    /// Creates an empty constraint set over `num_vars` variables.
    pub fn new(num_vars: usize) -> (r: Self)
        ensures
            r.num_nodes() == 0,
            r.constraint_list() == Seq::<Constraint>::empty(),
            r.var_count() == num_vars,
    {
        ConstraintSet { nodes: Vec::new(), constraints: Vec::new(), num_vars }
    }

    /// The number of variables this set ranges over.
    pub fn num_vars(&self) -> (r: usize)
        ensures
            r == self.var_count(),
    {
        self.num_vars
    }

    /// The number of expression nodes allocated so far.
    pub fn node_count(&self) -> (r: usize)
        ensures
            r == self.num_nodes(),
    {
        self.nodes.len()
    }

    /// The number of constraints added so far.
    pub fn constraint_count(&self) -> (r: usize)
        ensures
            r == self.constraint_list().len(),
    {
        self.constraints.len()
    }

    /// Appends `node` to the arena, returning its handle, or `None` when the
    /// arena is full.
    fn push_node(&mut self, node: Node) -> (r: Option<Expr>)
        requires
            children_precede(node, old(self).num_nodes() as int),
        ensures
            r is Some <==> old(self).num_nodes() < ConstraintSet::NODE_CAP,
            r is Some ==> {
                &&& r.unwrap().id() == old(self).num_nodes()
                &&& final(self).extends_by_one_node(*old(self))
                &&& final(self).nodes@ == old(self).nodes@.push(node)
            },
            r is None ==> *final(self) == *old(self),
    {
        proof {
            use_type_invariant(&*self);
        }
        let len = self.nodes.len();
        if len >= ConstraintSet::NODE_CAP {
            return None;
        }
        let ghost before = *self;
        let mut nodes: Vec<Node> = Vec::new();
        core::mem::swap(&mut nodes, &mut self.nodes);
        nodes.push(node);
        core::mem::swap(&mut nodes, &mut self.nodes);
        proof {
            assert forall|i: int| 0 <= i < self.nodes@.len() implies #[trigger] children_precede(
                self.nodes@[i],
                i,
            ) by {
                if i < len {
                    assert(self.nodes@[i] == before.nodes@[i]);
                }
            }
            assert forall|e: Expr, a: Seq<bool>| before.owns(e) implies #[trigger] self.value_of(
                e,
                a,
            ) == before.value_of(e, a) by {
                lemma_push_keeps_values(before.nodes@, node, e.id(), a);
            }
        }
        Some(Expr { node: len as u16 })
    }

    /// The constant `true` expression.
    pub fn lit_true(&mut self) -> (r: Expr)
        requires
            old(self).num_nodes() < ConstraintSet::NODE_CAP,
        ensures
            final(self).extends_by_one_node(*old(self)),
            final(self).owns(r),
            forall|a: Seq<bool>| final(self).value_of(r, a),
    {
        let r = self.push_node(Node::True);
        r.unwrap()
    }

    /// The constant `false` expression.
    pub fn lit_false(&mut self) -> (r: Expr)
        requires
            old(self).num_nodes() < ConstraintSet::NODE_CAP,
        ensures
            final(self).extends_by_one_node(*old(self)),
            final(self).owns(r),
            forall|a: Seq<bool>| !final(self).value_of(r, a),
    {
        let r = self.push_node(Node::False);
        r.unwrap()
    }

    /// The truth value of `v` as an expression.
    pub fn var(&mut self, v: Var) -> (r: Expr)
        requires
            old(self).num_nodes() < ConstraintSet::NODE_CAP,
        ensures
            final(self).extends_by_one_node(*old(self)),
            final(self).owns(r),
            forall|a: Seq<bool>| #[trigger] final(self).value_of(r, a) == var_value(v, a),
    {
        let r = self.push_node(Node::Var(v));
        r.unwrap()
    }

    /// Logical negation `not(e)`.
    pub fn not(&mut self, e: Expr) -> (r: Expr)
        requires
            old(self).num_nodes() < ConstraintSet::NODE_CAP,
            old(self).owns(e),
        ensures
            final(self).extends_by_one_node(*old(self)),
            final(self).owns(r),
            forall|a: Seq<bool>| #[trigger]
                final(self).value_of(r, a) == !old(self).value_of(e, a),
    {
        let ghost before = *self;
        let r = self.push_node(Node::Not(e.node));
        proof {
            let ext = before.nodes@.push(Node::Not(e.node));
            let i = before.nodes@.len() as int;
            assert forall|a: Seq<bool>| #[trigger] node_value(ext, i, a) == !before.value_of(e, a) by {
                lemma_push_keeps_values(before.nodes@, Node::Not(e.node), e.id(), a);
            }
        }
        r.unwrap()
    }

    /// Logical conjunction `l and r`.
    pub fn and(&mut self, l: Expr, r: Expr) -> (res: Expr)
        requires
            old(self).num_nodes() < ConstraintSet::NODE_CAP,
            old(self).owns(l),
            old(self).owns(r),
        ensures
            final(self).extends_by_one_node(*old(self)),
            final(self).owns(res),
            forall|a: Seq<bool>| #[trigger]
                final(self).value_of(res, a) == (old(self).value_of(l, a) && old(
                    self,
                ).value_of(r, a)),
    {
        let ghost before = *self;
        let res = self.push_node(Node::And(l.node, r.node));
        proof {
            let ext = before.nodes@.push(Node::And(l.node, r.node));
            let i = before.nodes@.len() as int;
            assert forall|a: Seq<bool>| #[trigger] node_value(ext, i, a) == (before.value_of(l, a) && before.value_of(r, a)) by {
                lemma_push_keeps_values(before.nodes@, Node::And(l.node, r.node), l.id(), a);
                lemma_push_keeps_values(before.nodes@, Node::And(l.node, r.node), r.id(), a);
            }
        }
        res.unwrap()
    }

    /// Logical disjunction `l or r`.
    pub fn or(&mut self, l: Expr, r: Expr) -> (res: Expr)
        requires
            old(self).num_nodes() < ConstraintSet::NODE_CAP,
            old(self).owns(l),
            old(self).owns(r),
        ensures
            final(self).extends_by_one_node(*old(self)),
            final(self).owns(res),
            forall|a: Seq<bool>| #[trigger]
                final(self).value_of(res, a) == (old(self).value_of(l, a) || old(
                    self,
                ).value_of(r, a)),
    {
        let ghost before = *self;
        let res = self.push_node(Node::Or(l.node, r.node));
        proof {
            let ext = before.nodes@.push(Node::Or(l.node, r.node));
            let i = before.nodes@.len() as int;
            assert forall|a: Seq<bool>| #[trigger] node_value(ext, i, a) == (before.value_of(l, a) || before.value_of(r, a)) by {
                lemma_push_keeps_values(before.nodes@, Node::Or(l.node, r.node), l.id(), a);
                lemma_push_keeps_values(before.nodes@, Node::Or(l.node, r.node), r.id(), a);
            }
        }
        res.unwrap()
    }

    /// Logical implication `l => r`, that is `not(l) or r`.
    pub fn implies(&mut self, l: Expr, r: Expr) -> (res: Expr)
        requires
            old(self).num_nodes() < ConstraintSet::NODE_CAP,
            old(self).owns(l),
            old(self).owns(r),
        ensures
            final(self).extends_by_one_node(*old(self)),
            final(self).owns(res),
            forall|a: Seq<bool>| #[trigger]
                final(self).value_of(res, a) == (!old(self).value_of(l, a) || old(
                    self,
                ).value_of(r, a)),
    {
        let ghost before = *self;
        let res = self.push_node(Node::Implies(l.node, r.node));
        proof {
            let ext = before.nodes@.push(Node::Implies(l.node, r.node));
            let i = before.nodes@.len() as int;
            assert forall|a: Seq<bool>| #[trigger] node_value(ext, i, a) == (!before.value_of(l, a) || before.value_of(r, a)) by {
                lemma_push_keeps_values(before.nodes@, Node::Implies(l.node, r.node), l.id(), a);
                lemma_push_keeps_values(before.nodes@, Node::Implies(l.node, r.node), r.id(), a);
            }
        }
        res.unwrap()
    }

    /// Conjunction of all of `exprs`; the constant `true` for an empty slice.
    pub fn all(&mut self, exprs: &[Expr]) -> (r: Expr)
        requires
            old(self).num_nodes() + exprs@.len() < ConstraintSet::NODE_CAP,
            forall|i: int| 0 <= i < exprs@.len() ==> old(self).owns(#[trigger] exprs@[i]),
        ensures
            final(self).num_nodes() == old(self).num_nodes() + exprs@.len() + 1,
            final(self).constraint_list() == old(self).constraint_list(),
            final(self).var_count() == old(self).var_count(),
            forall|e: Expr, a: Seq<bool>|
                old(self).owns(e) ==> #[trigger] final(self).value_of(e, a) == old(
                    self,
                ).value_of(e, a),
            final(self).owns(r),
            forall|a: Seq<bool>| #[trigger]
                final(self).value_of(r, a) == (forall|i: int|
                    0 <= i < exprs@.len() ==> old(self).value_of(#[trigger] exprs@[i], a)),
    {
        let ghost start = *self;
        let mut acc = self.lit_true();
        let mut i: usize = 0;
        while i < exprs.len()
            invariant
                i <= exprs@.len(),
                start.num_nodes() + exprs@.len() < ConstraintSet::NODE_CAP,
                forall|k: int| 0 <= k < exprs@.len() ==> start.owns(#[trigger] exprs@[k]),
                self.num_nodes() == start.num_nodes() + i + 1,
                self.constraint_list() == start.constraint_list(),
                self.var_count() == start.var_count(),
                forall|e: Expr, a: Seq<bool>|
                    start.owns(e) ==> #[trigger] self.value_of(e, a) == start.value_of(e, a),
                self.owns(acc),
                forall|a: Seq<bool>| #[trigger]
                    self.value_of(acc, a) == (forall|k: int|
                        0 <= k < i ==> start.value_of(#[trigger] exprs@[k], a)),
            decreases exprs@.len() - i,
        {
            let e = exprs[i];
            let ghost mid = *self;
            acc = self.and(acc, e);
            proof {
                assert forall|a: Seq<bool>| #[trigger]
                    self.value_of(acc, a) == (forall|k: int|
                        0 <= k < i + 1 ==> start.value_of(#[trigger] exprs@[k], a)) by {
                    assert(mid.value_of(e, a) == start.value_of(exprs@[i as int], a));
                    if forall|k: int| 0 <= k < i + 1 ==> start.value_of(#[trigger] exprs@[k], a) {
                        assert forall|k: int| 0 <= k < i implies start.value_of(
                            #[trigger] exprs@[k],
                            a,
                        ) by {}
                    }
                }
                assert forall|e2: Expr, a: Seq<bool>| start.owns(e2) implies #[trigger] self.value_of(
                    e2,
                    a,
                ) == start.value_of(e2, a) by {
                    assert(mid.owns(e2));
                    assert(self.value_of(e2, a) == mid.value_of(e2, a));
                }
            }
            i += 1;
        }
        acc
    }

    /// Disjunction of all of `exprs`; the constant `false` for an empty slice.
    pub fn any(&mut self, exprs: &[Expr]) -> (r: Expr)
        requires
            old(self).num_nodes() + exprs@.len() < ConstraintSet::NODE_CAP,
            forall|i: int| 0 <= i < exprs@.len() ==> old(self).owns(#[trigger] exprs@[i]),
        ensures
            final(self).num_nodes() == old(self).num_nodes() + exprs@.len() + 1,
            final(self).constraint_list() == old(self).constraint_list(),
            final(self).var_count() == old(self).var_count(),
            forall|e: Expr, a: Seq<bool>|
                old(self).owns(e) ==> #[trigger] final(self).value_of(e, a) == old(
                    self,
                ).value_of(e, a),
            final(self).owns(r),
            forall|a: Seq<bool>| #[trigger]
                final(self).value_of(r, a) == (exists|i: int|
                    0 <= i < exprs@.len() && old(self).value_of(#[trigger] exprs@[i], a)),
    {
        let ghost start = *self;
        let mut acc = self.lit_false();
        let mut i: usize = 0;
        while i < exprs.len()
            invariant
                i <= exprs@.len(),
                start.num_nodes() + exprs@.len() < ConstraintSet::NODE_CAP,
                forall|k: int| 0 <= k < exprs@.len() ==> start.owns(#[trigger] exprs@[k]),
                self.num_nodes() == start.num_nodes() + i + 1,
                self.constraint_list() == start.constraint_list(),
                self.var_count() == start.var_count(),
                forall|e: Expr, a: Seq<bool>|
                    start.owns(e) ==> #[trigger] self.value_of(e, a) == start.value_of(e, a),
                self.owns(acc),
                forall|a: Seq<bool>| #[trigger]
                    self.value_of(acc, a) == (exists|k: int|
                        0 <= k < i && start.value_of(#[trigger] exprs@[k], a)),
            decreases exprs@.len() - i,
        {
            let e = exprs[i];
            let ghost mid = *self;
            acc = self.or(acc, e);
            proof {
                assert forall|a: Seq<bool>| #[trigger]
                    self.value_of(acc, a) == (exists|k: int|
                        0 <= k < i + 1 && start.value_of(#[trigger] exprs@[k], a)) by {
                    assert(mid.value_of(e, a) == start.value_of(exprs@[i as int], a));
                }
                assert forall|e2: Expr, a: Seq<bool>| start.owns(e2) implies #[trigger] self.value_of(
                    e2,
                    a,
                ) == start.value_of(e2, a) by {
                    assert(mid.owns(e2));
                    assert(self.value_of(e2, a) == mid.value_of(e2, a));
                }
            }
            i += 1;
        }
        acc
    }

    /// Evaluates `e` under `assign`; `assign[v]` is the truth value of
    /// `Var(v)` and variables beyond `assign` read as `false`.
    pub fn eval(&self, e: Expr, assign: &[bool]) -> (r: bool)
        ensures
            r == self.value_of(e, assign@),
        decreases e.id(),
    {
        proof {
            use_type_invariant(self);
            use_type_invariant(&e);
        }
        let idx = e.node as usize;
        if idx >= self.nodes.len() {
            return false;
        }
        proof {
            assert(children_precede(self.nodes@[idx as int], idx as int));
        }
        match self.nodes[idx] {
            Node::True => true,
            Node::False => false,
            Node::Var(v) => {
                if v.0 < assign.len() {
                    assign[v.0]
                } else {
                    false
                }
            },
            Node::Not(x) => !self.eval(Expr { node: x }, assign),
            Node::And(x, y) => self.eval(Expr { node: x }, assign) && self.eval(
                Expr { node: y },
                assign,
            ),
            Node::Or(x, y) => self.eval(Expr { node: x }, assign) || self.eval(
                Expr { node: y },
                assign,
            ),
            Node::Implies(x, y) => !self.eval(Expr { node: x }, assign) || self.eval(
                Expr { node: y },
                assign,
            ),
        }
    }

    /// Adds the boolean constraint "`e` is true". Returns `false` (and leaves
    /// the set unchanged) when the constraint capacity is exhausted.
    pub fn add_bool(&mut self, e: Expr) -> (r: bool)
        ensures
            r == (old(self).constraint_list().len() < ConstraintSet::CONST_CAP),
            r ==> final(self).constraint_list() == old(self).constraint_list().push(
                Constraint::Bool(e),
            ),
            !r ==> final(self).constraint_list() == old(self).constraint_list(),
            final(self).num_nodes() == old(self).num_nodes(),
            final(self).var_count() == old(self).var_count(),
            forall|e2: Expr, a: Seq<bool>| #[trigger]
                final(self).value_of(e2, a) == old(self).value_of(e2, a),
    {
        self.add(Constraint::Bool(e))
    }

    /// Adds the pseudo-boolean equality `sum(coeff * var) == rhs`. Returns
    /// `false` (and leaves the set unchanged) when the constraint capacity is
    /// exhausted or there are more than [`LinearTerms::CAP`] pairs.
    pub fn pb_eq(&mut self, pairs: &[(i64, Var)], rhs: i64) -> (r: bool)
        ensures
            r == (old(self).constraint_list().len() < ConstraintSet::CONST_CAP && pairs@.len() <= LinearTerms::CAP),
            r ==> exists|terms: LinearTerms|
                {
                    &&& final(self).constraint_list() == old(self).constraint_list().push(
                        Constraint::PbEq { terms, rhs },
                    )
                    &&& terms@.len() == pairs@.len()
                    &&& forall|i: int|
                        0 <= i < pairs@.len() ==> #[trigger] terms@[i] == pair_term(pairs@[i])
                },
            !r ==> final(self).constraint_list() == old(self).constraint_list(),
            final(self).num_nodes() == old(self).num_nodes(),
            final(self).var_count() == old(self).var_count(),
            forall|e2: Expr, a: Seq<bool>| #[trigger]
                final(self).value_of(e2, a) == old(self).value_of(e2, a),
    {
        let terms = LinearTerms::from_pairs(pairs);
        if terms.len() != pairs.len() {
            return false;
        }
        self.add(Constraint::PbEq { terms, rhs })
    }

    /// Adds the pseudo-boolean inequality `sum(coeff * var) <= rhs`. Returns
    /// `false` (and leaves the set unchanged) when the constraint capacity is
    /// exhausted or there are more than [`LinearTerms::CAP`] pairs.
    pub fn pb_leq(&mut self, pairs: &[(i64, Var)], rhs: i64) -> (r: bool)
        ensures
            r == (old(self).constraint_list().len() < ConstraintSet::CONST_CAP && pairs@.len() <= LinearTerms::CAP),
            r ==> exists|terms: LinearTerms|
                {
                    &&& final(self).constraint_list() == old(self).constraint_list().push(
                        Constraint::PbLeq { terms, rhs },
                    )
                    &&& terms@.len() == pairs@.len()
                    &&& forall|i: int|
                        0 <= i < pairs@.len() ==> #[trigger] terms@[i] == pair_term(pairs@[i])
                },
            !r ==> final(self).constraint_list() == old(self).constraint_list(),
            final(self).num_nodes() == old(self).num_nodes(),
            final(self).var_count() == old(self).var_count(),
            forall|e2: Expr, a: Seq<bool>| #[trigger]
                final(self).value_of(e2, a) == old(self).value_of(e2, a),
    {
        let terms = LinearTerms::from_pairs(pairs);
        if terms.len() != pairs.len() {
            return false;
        }
        self.add(Constraint::PbLeq { terms, rhs })
    }

    /// Adds a constraint. Returns `false` (and leaves the set unchanged) when
    /// the constraint capacity is exhausted.
    pub fn add(&mut self, c: Constraint) -> (r: bool)
        ensures
            r == (old(self).constraint_list().len() < ConstraintSet::CONST_CAP),
            r ==> final(self).constraint_list() == old(self).constraint_list().push(c),
            !r ==> final(self).constraint_list() == old(self).constraint_list(),
            final(self).num_nodes() == old(self).num_nodes(),
            final(self).var_count() == old(self).var_count(),
            forall|e2: Expr, a: Seq<bool>| #[trigger]
                final(self).value_of(e2, a) == old(self).value_of(e2, a),
    {
        proof {
            use_type_invariant(&*self);
        }
        if self.constraints.len() >= ConstraintSet::CONST_CAP {
            return false;
        }
        let mut constraints: Vec<Constraint> = Vec::new();
        core::mem::swap(&mut constraints, &mut self.constraints);
        constraints.push(c);
        core::mem::swap(&mut constraints, &mut self.constraints);
        true
    }

    /// The stored constraints, in insertion order.
    pub fn iter(&self) -> (r: Vec<Constraint>)
        ensures
            r@ == self.constraint_list(),
    {
        copy_vec(&self.constraints)
    }

    /// Whether `c` holds under `assign`.
    fn holds(&self, c: &Constraint, assign: &[bool]) -> (r: bool)
        ensures
            r == self.satisfies(*c, assign@),
    {
        match c {
            Constraint::Bool(e) => self.eval(*e, assign),
            Constraint::PbEq { terms, rhs } => eval_linear(terms, assign) == *rhs,
            Constraint::PbLeq { terms, rhs } => eval_linear(terms, assign) <= *rhs,
        }
    }

    /// Whether every constraint holds under `assign`.
    fn holds_all(&self, assign: &[bool]) -> (r: bool)
        ensures
            r == self.satisfied_by(assign@),
    {
        let mut i: usize = 0;
        while i < self.constraints.len()
            invariant
                i <= self.constraints@.len(),
                forall|k: int| 0 <= k < i ==> self.satisfies(#[trigger] self.constraints@[k], assign@),
            decreases self.constraints@.len() - i,
        {
            if !self.holds(&self.constraints[i], assign) {
                assert(self.constraint_list()[i as int] == self.constraints@[i as int]);
                return false;
            }
            i += 1;
        }
        true
    }

    /// What [`ConstraintSet::solve`] returns: `None` when there are too many
    /// variables; otherwise the assignment of the least bit-mask that
    /// satisfies every constraint, or `None` when no mask does.
    pub open spec fn is_solve_result(self, r: Option<Witness>) -> bool {
        if self.var_count() > Witness::CAP || self.var_count() >= usize::BITS {
            r is None
        } else {
            match r {
                Some(w) => exists|m: usize|
                    {
                        &&& m < (1usize << self.var_count())
                        &&& w@ == mask_assignment(m, self.var_count())
                        &&& self.satisfied_by(w@)
                        &&& forall|m2: usize|
                            m2 < m ==> !self.satisfied_by(
                                #[trigger] mask_assignment(m2, self.var_count()),
                            )
                    },
                None => forall|m: usize|
                    m < (1usize << self.var_count()) ==> !self.satisfied_by(
                        #[trigger] mask_assignment(m, self.var_count()),
                    ),
            }
        }
    }

    /// Whether some counted assignment satisfies the set.
    pub open spec fn has_solution(self) -> bool {
        &&& self.var_count() <= Witness::CAP
        &&& self.var_count() < usize::BITS
        &&& exists|m: usize|
            m < (1usize << self.var_count()) && self.satisfied_by(
                #[trigger] mask_assignment(m, self.var_count()),
            )
    }

    /// Solves the set by enumerating the `2^num_vars` assignments in
    /// increasing bit-mask order (bit `i` of the mask is `Var(i)`). Returns the
    /// first satisfying assignment, or `None` when there is none. A set with
    /// more than [`Witness::CAP`] variables, or too many to count in a `usize`,
    /// gives `None`.
    pub fn solve(&self) -> (r: Option<Witness>)
        ensures
            self.is_solve_result(r),
    {
        if self.num_vars > Witness::CAP {
            return None;
        }
        let n = self.num_vars;
        if n >= usize::BITS as usize {
            return None;
        }
        let total: usize = 1usize << n;
        let mut mask: usize = 0;
        while mask < total
            invariant
                n == self.var_count(),
                n <= Witness::CAP,
                n < usize::BITS,
                total == (1usize << n),
                mask <= total,
                forall|m2: usize| m2 < mask ==> !self.satisfied_by(#[trigger] mask_assignment(m2, n as nat)),
            decreases total - mask,
        {
            let mut bools = [false; Witness::CAP];
            let mut i: usize = 0;
            while i < n
                invariant
                    i <= n <= Witness::CAP,
                    n < usize::BITS,
                    bools@.len() == Witness::CAP,
                    forall|k: int| 0 <= k < i ==> bools@[k] == ((mask >> (k as usize)) & 1usize == 1usize),
                    forall|k: int| n <= k < Witness::CAP ==> !bools@[k],
                decreases n - i,
            {
                bools[i] = (mask >> i) & 1 == 1;
                i += 1;
            }
            let witness = Witness { bools, num_vars: n };
            assert(witness@ =~= mask_assignment(mask, n as nat));
            let all: &[bool] = bools.as_slice();
            let prefix: &[bool] = &all[0..n];
            assert(prefix@ =~= witness@);
            if self.holds_all(prefix) {
                return Some(witness);
            }
            mask += 1;
        }
        None
    }

    /// Returns `true` when the set is satisfiable, that is when
    /// [`ConstraintSet::solve`] finds a witness.
    pub fn satisfiable(&self) -> (r: bool)
        ensures
            r == self.has_solution(),
    {
        self.solve().is_some()
    }
}

impl Clone for ConstraintSet {
    fn clone(&self) -> (r: Self)
        ensures
            r.num_nodes() == self.num_nodes(),
            r.constraint_list() == self.constraint_list(),
            r.var_count() == self.var_count(),
            forall|e: Expr, a: Seq<bool>| #[trigger] r.value_of(e, a) == self.value_of(e, a),
    {
        proof {
            use_type_invariant(self);
        }
        ConstraintSet {
            nodes: copy_vec(&self.nodes),
            constraints: copy_vec(&self.constraints),
            num_vars: self.num_vars,
        }
    }
}

/// When the solver answers `None` for a set it could enumerate, no
/// assignment of its variables satisfies every constraint.
pub proof fn law_no_witness_means_unsatisfiable(cs: ConstraintSet, a: Seq<bool>)
    requires
        cs.is_solve_result(None),
        cs.var_count() <= Witness::CAP,
        cs.var_count() < usize::BITS,
        a.len() == cs.var_count(),
    ensures
        !cs.satisfied_by(a),
{
    lemma_assignment_is_mask(a);
    assert(!cs.satisfied_by(mask_assignment(mask_of(a) as usize, cs.var_count())));
}

/// For a set whose assignments the solver can enumerate, `satisfiable` holds
/// exactly when some assignment of its variables satisfies every constraint.
pub proof fn law_satisfiable_iff_some_assignment(cs: ConstraintSet)
    requires
        cs.var_count() <= Witness::CAP,
        cs.var_count() < usize::BITS,
    ensures
        cs.has_solution() <==> exists|a: Seq<bool>|
            a.len() == cs.var_count() && #[trigger] cs.satisfied_by(a),
{
    if exists|a: Seq<bool>| a.len() == cs.var_count() && #[trigger] cs.satisfied_by(a) {
        let a = choose|a: Seq<bool>| a.len() == cs.var_count() && #[trigger] cs.satisfied_by(a);
        lemma_assignment_is_mask(a);
        let m = mask_of(a) as usize;
        assert(m < (1usize << cs.var_count()) && cs.satisfied_by(mask_assignment(m, cs.var_count())));
    }
    if cs.has_solution() {
        let m = choose|m: usize|
            m < (1usize << cs.var_count()) && cs.satisfied_by(
                #[trigger] mask_assignment(m, cs.var_count()),
            );
        assert(mask_assignment(m, cs.var_count()).len() == cs.var_count());
    }
}

/// `satisfiable` agrees with `solve`: the solver finds a witness exactly
/// when the set has a solution among the assignments it enumerates.
pub proof fn law_solve_finds_iff_satisfiable(cs: ConstraintSet, r: Option<Witness>)
    requires
        cs.is_solve_result(r),
    ensures
        (r is Some) == cs.has_solution(),
{
    if r is Some {
        let m = choose|m: usize|
            {
                &&& m < (1usize << cs.var_count())
                &&& r.unwrap()@ == mask_assignment(m, cs.var_count())
                &&& cs.satisfied_by(r.unwrap()@)
                &&& forall|m2: usize|
                    m2 < m ==> !cs.satisfied_by(#[trigger] mask_assignment(m2, cs.var_count()))
            };
        assert(cs.satisfied_by(mask_assignment(m, cs.var_count())));
    }
}

/// `l => r` means `not(l) or r`: from a set `cs0` that owns `l` and `r`,
/// building `implies(l, r)` (giving `imp` in `cs1`), or building `not(l)`
/// (giving `n` in `cs2`) and then `or(n, r)` (giving `disj` in `cs3`), yields
/// expressions that agree with each other and with `!l || r` under every
/// assignment.
pub proof fn law_implication_is_not_or(
    cs0: ConstraintSet,
    l: Expr,
    r: Expr,
    cs1: ConstraintSet,
    imp: Expr,
    cs2: ConstraintSet,
    n: Expr,
    cs3: ConstraintSet,
    disj: Expr,
)
    requires
        cs0.owns(l),
        cs0.owns(r),
        forall|a: Seq<bool>| #[trigger]
            cs1.value_of(imp, a) == (!cs0.value_of(l, a) || cs0.value_of(r, a)),
        cs2.extends_by_one_node(cs0),
        forall|a: Seq<bool>| #[trigger] cs2.value_of(n, a) == !cs0.value_of(l, a),
        forall|a: Seq<bool>| #[trigger]
            cs3.value_of(disj, a) == (cs2.value_of(n, a) || cs2.value_of(r, a)),
    ensures
        forall|a: Seq<bool>| #[trigger] cs1.value_of(imp, a) == cs3.value_of(disj, a),
        forall|a: Seq<bool>| #[trigger]
            cs3.value_of(disj, a) == (!cs0.value_of(l, a) || cs0.value_of(r, a)),
{
    assert forall|a: Seq<bool>| #[trigger]
        cs3.value_of(disj, a) == (!cs0.value_of(l, a) || cs0.value_of(r, a)) by {
        assert(cs2.value_of(n, a) == !cs0.value_of(l, a));
        assert(cs2.value_of(r, a) == cs0.value_of(r, a));
    }
    assert forall|a: Seq<bool>| #[trigger] cs1.value_of(imp, a) == cs3.value_of(disj, a) by {
        assert(cs3.value_of(disj, a) == (!cs0.value_of(l, a) || cs0.value_of(r, a)));
    }
}

/// The constraints of `cs` whose flag in `accepted` is set, in order.
pub open spec fn accepted_in_order(cs: Seq<Constraint>, accepted: Seq<bool>) -> Seq<Constraint>
    decreases cs.len(),
{
    if cs.len() == 0 {
        Seq::empty()
    } else {
        let before = accepted_in_order(cs.drop_last(), accepted.take(cs.len() - 1));
        if accepted[cs.len() - 1] {
            before.push(cs.last())
        } else {
            before
        }
    }
}

/// A run of calls on a set lists, afterwards, the constraints that were
/// accepted, in call order, after those that were there before: `states[j]`
/// is the set before call `j` and `states[j + 1]` after it; call `j` offered
/// `offered[j]` and was accepted (`add`, `add_bool`, `pb_eq`, `pb_leq`
/// returned `true`) when `accepted[j]`; a refused call, and a call that only
/// builds expressions, leaves the list unchanged. `listed` is what `iter`
/// gives on the last set.
pub proof fn law_iter_lists_accepted_in_order(
    states: Seq<ConstraintSet>,
    offered: Seq<Constraint>,
    accepted: Seq<bool>,
    listed: Seq<Constraint>,
)
    requires
        states.len() == offered.len() + 1,
        accepted.len() == offered.len(),
        forall|j: int|
            0 <= j < offered.len() && #[trigger] accepted[j] ==> states[j + 1].constraint_list()
                == states[j].constraint_list().push(offered[j]),
        forall|j: int|
            0 <= j < offered.len() && !#[trigger] accepted[j] ==> states[j + 1].constraint_list()
                == states[j].constraint_list(),
        listed == states.last().constraint_list(),
    ensures
        listed == states[0].constraint_list() + accepted_in_order(offered, accepted),
    decreases offered.len(),
{
    if offered.len() == 0 {
        assert(states[0].constraint_list() + Seq::<Constraint>::empty() =~= states[0].constraint_list());
    } else {
        let k = offered.len() - 1;
        let prev_states = states.take(states.len() - 1);
        let prev_offered = offered.drop_last();
        let prev_accepted = accepted.take(k);
        assert forall|j: int|
            0 <= j < prev_offered.len() && #[trigger] prev_accepted[j] implies prev_states[j + 1].constraint_list()
                == prev_states[j].constraint_list().push(prev_offered[j]) by {
            assert(accepted[j]);
        }
        assert forall|j: int|
            0 <= j < prev_offered.len() && !#[trigger] prev_accepted[j] implies prev_states[j + 1].constraint_list()
                == prev_states[j].constraint_list() by {
            assert(!accepted[j]);
        }
        law_iter_lists_accepted_in_order(
            prev_states,
            prev_offered,
            prev_accepted,
            prev_states.last().constraint_list(),
        );
        assert(prev_states.last() == states[k]);
        assert(prev_states[0] == states[0]);
        assert(offered.last() == offered[k]);
        if accepted[k] {
            assert(states[k + 1].constraint_list() == states[k].constraint_list().push(offered[k]));
            assert(listed =~= states[0].constraint_list() + accepted_in_order(offered, accepted));
        } else {
            assert(states[k + 1].constraint_list() == states[k].constraint_list());
        }
    }
}

/// What each kind of constraint asks of an assignment `a`: a boolean
/// constraint that its expression is true, `PbEq` that the sum of the terms
/// equals the bound, and `PbLeq` that the sum is at most the bound (equal
/// to it is allowed).
pub proof fn law_constraint_meaning(
    cs: ConstraintSet,
    e: Expr,
    terms: LinearTerms,
    rhs: i64,
    a: Seq<bool>,
)
    ensures
        cs.satisfies(Constraint::Bool(e), a) == cs.value_of(e, a),
        cs.satisfies(Constraint::PbEq { terms, rhs }, a) <==> linear_value(terms@, a) == rhs,
        cs.satisfies(Constraint::PbLeq { terms, rhs }, a) <==> linear_value(terms@, a) <= rhs,
        cs.satisfies(Constraint::PbLeq { terms, rhs }, a) <==> (linear_value(terms@, a) < rhs
            || cs.satisfies(Constraint::PbEq { terms, rhs }, a)),
{
}

/// A variable reads its entry of the assignment; a variable past the end
/// of the assignment reads as `false`.
pub proof fn law_variable_reads_assignment(v: Var, a: Seq<bool>)
    ensures
        v.0 < a.len() ==> (var_value(v, a) == a[v.0 as int]),
        v.0 >= a.len() ==> !var_value(v, a),
{
}

/// The sum of the coefficients of the terms whose variable is true under
/// `a`, added from the first term on, with no bound on its size.
pub open spec fn exact_linear_sum(terms: Seq<LinearTerm>, a: Seq<bool>) -> int
    decreases terms.len(),
{
    if terms.len() == 0 {
        0
    } else {
        (if var_value(terms[0].var, a) {
            terms[0].coeff as int
        } else {
            0
        }) + exact_linear_sum(terms.drop_first(), a)
    }
}

proof fn lemma_exact_sum_push(terms: Seq<LinearTerm>, t: LinearTerm, a: Seq<bool>)
    ensures
        exact_linear_sum(terms.push(t), a) == exact_linear_sum(terms, a) + (if var_value(t.var, a) {
            t.coeff as int
        } else {
            0
        }),
    decreases terms.len(),
{
    if terms.len() > 0 {
        lemma_exact_sum_push(terms.drop_first(), t, a);
        assert(terms.push(t).drop_first() =~= terms.drop_first().push(t));
        assert(terms.push(t)[0] == terms[0]);
        assert(exact_linear_sum(terms.push(t), a) == (if var_value(terms[0].var, a) {
            terms[0].coeff as int
        } else {
            0
        }) + exact_linear_sum(terms.push(t).drop_first(), a));
        assert(exact_linear_sum(terms, a) == (if var_value(terms[0].var, a) {
            terms[0].coeff as int
        } else {
            0
        }) + exact_linear_sum(terms.drop_first(), a));
    } else {
        assert(terms.push(t).drop_first() =~= Seq::<LinearTerm>::empty());
        assert(terms.push(t)[0] == t);
        assert(exact_linear_sum(Seq::<LinearTerm>::empty(), a) == 0);
        assert(exact_linear_sum(terms, a) == 0);
    }
}

/// When no partial sum leaves the `i64` range, the value of a sum of
/// linear terms is the plain sum of the coefficients of its true variables.
pub proof fn law_linear_value_is_plain_sum(terms: Seq<LinearTerm>, a: Seq<bool>)
    requires
        forall|k: int|
            0 <= k <= terms.len() ==> i64::MIN <= #[trigger] exact_linear_sum(terms.take(k), a)
                <= i64::MAX,
    ensures
        linear_value(terms, a) == exact_linear_sum(terms, a),
    decreases terms.len(),
{
    if terms.len() > 0 {
        let init = terms.drop_last();
        assert forall|k: int|
            0 <= k <= init.len() implies i64::MIN <= #[trigger] exact_linear_sum(init.take(k), a)
                <= i64::MAX by {
            assert(init.take(k) =~= terms.take(k));
        }
        law_linear_value_is_plain_sum(init, a);
        lemma_exact_sum_push(init, terms.last(), a);
        assert(init.push(terms.last()) =~= terms);
        assert(terms.take(terms.len() as int) =~= terms);
        assert(i64::MIN <= exact_linear_sum(terms.take(terms.len() as int), a) <= i64::MAX);
    }
}

/// Solves `cs`; see [`ConstraintSet::solve`].
pub fn solve(cs: &ConstraintSet) -> (r: Option<Witness>)
    ensures
        cs.is_solve_result(r),
{
    cs.solve()
}

/// Whether `cs` is satisfiable; see [`ConstraintSet::satisfiable`].
pub fn satisfiable(cs: &ConstraintSet) -> (r: bool)
    ensures
        r == cs.has_solution(),
{
    cs.satisfiable()
}

} // verus!
