//! A fixed-size, stack-allocated two-dimensional tensor `Tensor2<T, R, C>`
//! (`R` rows and `C` columns, stored row-major).
use vstd::prelude::*;
use crate::tensor::{array_from_fn, array_iter_mut, dot_in_range, dot_prefix, Tensor};

verus! {

use vstd::std_specs::ops::{AddSpec, MulSpec, SubSpec};

/// A fixed-size two-dimensional tensor with `R` rows and `C` columns.
#[derive(Debug, Clone, Copy, PartialEq, Eq, Hash)]
pub struct Tensor2<T, const R: usize, const C: usize> {
    rows: [[T; C]; R],
}

impl<T, const R: usize, const C: usize> View for Tensor2<T, R, C> {
    type V = Seq<Seq<T>>;

    closed spec fn view(&self) -> Seq<Seq<T>> {
        Seq::new(R as nat, |r: int| self.rows@[r]@)
    }
}

/// Column `k` of a matrix with `n` rows.
pub open spec fn column<T>(m: Seq<Seq<T>>, k: int, n: int) -> Seq<T> {
    Seq::new(n as nat, |c: int| m[c][k])
}

/// `m` is a matrix of `rows` rows of `cols` elements each.
pub open spec fn is_shape<T>(m: Seq<Seq<T>>, rows: int, cols: int) -> bool {
    &&& m.len() == rows
    &&& forall|r: int| 0 <= r < rows ==> #[trigger] m[r].len() == cols
}

impl<T, const R: usize, const C: usize> Tensor2<T, R, C> {
    /// The view always has the declared shape.
    pub proof fn lemma_shape(&self)
        ensures
            is_shape(self@, R as int, C as int),
    {
    }

    /// Creates a matrix from an array of rows.
    pub fn new(rows: [[T; C]; R]) -> (r: Self)
        ensures
            forall|i: int, j: int| 0 <= i < R && 0 <= j < C ==> #[trigger] r@[i][j] == rows@[i]@[j],
    {
        Tensor2 { rows }
    }

    /// Creates a matrix whose entry `(r, c)` is `f(r, c)`.
    pub fn from_fn<F: Fn(usize, usize) -> T>(f: F) -> (m: Self)
        requires
            forall|r: usize, c: usize| r < R && c < C ==> #[trigger] f.requires((r, c)),
        ensures
            forall|r: int, c: int|
                0 <= r < R && 0 <= c < C ==> f.ensures((r as usize, c as usize), #[trigger] m@[r][c]),
    {
        let fr = &f;
        let make_row = |r: usize| -> (row: [T; C])
            requires
                r < R,
            ensures
                forall|c: int| 0 <= c < C ==> fr.ensures((r, c as usize), #[trigger] row@[c]),
            {
                let cell = |c: usize| -> (t: T)
                    requires
                        c < C,
                    ensures
                        fr.ensures((r, c), t),
                    { fr(r, c) };
                array_from_fn(cell)
            };
        let rows: [[T; C]; R] = array_from_fn(make_row);
        let m = Tensor2 { rows };
        assert forall|r: int, c: int| 0 <= r < R && 0 <= c < C implies f.ensures(
            (r as usize, c as usize),
            #[trigger] m@[r][c],
        ) by {
            assert(make_row.ensures((r as usize,), rows@[r]));
        }
        m
    }

    /// The number of rows, `R`.
    pub fn nrows(&self) -> (r: usize)
        ensures
            r == R,
    {
        R
    }

    /// The number of columns, `C`.
    pub fn ncols(&self) -> (r: usize)
        ensures
            r == C,
    {
        C
    }

    /// The entry at `(row, col)`, or `None` when it lies outside the matrix.
    pub fn get(&self, row: usize, col: usize) -> (r: Option<&T>)
        ensures
            r == if row < R && col < C {
                Some(&self@[row as int][col as int])
            } else {
                None::<&T>
            },
    {
        if row < R && col < C {
            Some(&self.rows[row][col])
        } else {
            None
        }
    }

    /// A mutable reference to the entry at `(row, col)`, or `None` when it
    /// lies outside the matrix.
    pub fn get_mut(&mut self, row: usize, col: usize) -> (r: Option<&mut T>)
        ensures
            (r is Some) == (row < R && col < C),
            row < R && col < C ==> *r.unwrap() == old(self)@[row as int][col as int],
            row < R && col < C ==> final(self)@ == old(self)@.update(
                row as int,
                old(self)@[row as int].update(col as int, *final(r.unwrap())),
            ),
            !(row < R && col < C) ==> final(self)@ == old(self)@,
    {
        if row < R && col < C {
            let ghost before = self@;
            let cell = &mut self.rows[row][col];
            Some(cell)
        } else {
            None
        }
    }

    /// A copy of the rows as an array.
    fn rows_copy(&self) -> (r: [[T; C]; R]) where T: Copy
        ensures
            forall|i: int| 0 <= i < R ==> #[trigger] r@[i]@ == self@[i],
    {
        self.rows
    }

    /// Row `row` as a tensor.
    pub fn row(&self, row: usize) -> (r: Tensor<T, C>) where T: Copy
        requires
            row < R,
        ensures
            r@ == self@[row as int],
    {
        Tensor::new(self.rows[row])
    }

    /// Row `row` as a tensor, or `None` when `row >= R`.
    pub fn get_row(&self, row: usize) -> (r: Option<Tensor<T, C>>) where T: Copy
        ensures
            (r is Some) == (row < R),
            row < R ==> r.unwrap()@ == self@[row as int],
    {
        if row < R {
            Some(Tensor::new(self.rows[row]))
        } else {
            None
        }
    }

    /// Column `col` as a tensor.
    pub fn col(&self, col: usize) -> (r: Tensor<T, R>) where T: Copy
        requires
            col < C,
        ensures
            r@ == column(self@, col as int, R as int),
    {
        let rows = self.rows;
        let pick = |r: usize| -> (t: T)
            requires
                r < R,
            ensures
                t == rows@[r as int]@[col as int],
            { rows[r][col] };
        let out: [T; R] = array_from_fn(pick);
        let t = Tensor::new(out);
        assert(t@ =~= column(self@, col as int, R as int)) by {
            assert forall|r: int| 0 <= r < R implies #[trigger] t@[r] == column(
                self@,
                col as int,
                R as int,
            )[r] by {
                assert(pick.ensures((r as usize,), out@[r]));
            }
        }
        t
    }

    /// Column `col` as a tensor, or `None` when `col >= C`.
    pub fn get_col(&self, col: usize) -> (r: Option<Tensor<T, R>>) where T: Copy
        ensures
            (r is Some) == (col < C),
            col < C ==> r.unwrap()@ == column(self@, col as int, R as int),
    {
        if col >= C {
            return None;
        }
        Some(self.col(col))
    }

    /// The rows, in order, each as a tensor.
    pub fn rows_iter(&self) -> (r: Vec<Tensor<T, C>>) where T: Copy
        ensures
            r@.len() == R,
            forall|i: int| 0 <= i < R ==> (#[trigger] r@[i])@ == self@[i],
    {
        let mut out: Vec<Tensor<T, C>> = Vec::new();
        let mut i: usize = 0;
        while i < R
            invariant
                i <= R,
                out@.len() == i,
                forall|k: int| 0 <= k < i ==> (#[trigger] out@[k])@ == self@[k],
            decreases R - i,
        {
            out.push(Tensor::new(self.rows[i]));
            i += 1;
        }
        out
    }

    /// An iterator over mutable references to the rows.
    pub fn rows_iter_mut(&mut self) -> core::slice::IterMut<'_, [T; C]> {
        array_iter_mut(&mut self.rows)
    }

    /// Applies `f` to (a clone of) every entry.
    pub fn map<U, F: Fn(T) -> U>(self, f: F) -> (m: Tensor2<U, R, C>) where T: Clone
        requires
            forall|r: int, c: int, x: T|
                0 <= r < R && 0 <= c < C && #[trigger] cloned::<T>(self@[r][c], x) ==> f.requires(
                    (x,),
                ),
        ensures
            forall|r: int, c: int|
                0 <= r < R && 0 <= c < C ==> #[trigger] mapped_entry(self@, f, m@, r, c),
    {
        let rows = &self.rows;
        let fr = &f;
        let make_row = |r: usize| -> (row: [U; C])
            requires
                r < R,
                forall|c: int, x: T|
                    0 <= c < C && #[trigger] cloned::<T>(rows@[r as int]@[c], x) ==> fr.requires((x,)),
            ensures
                forall|c: int| 0 <= c < C ==> maps_to(rows@[r as int]@[c], fr, #[trigger] row@[c]),
            {
                let cell = |c: usize| -> (u: U)
                    requires
                        c < C,
                        forall|x: T| #[trigger] cloned::<T>(rows@[r as int]@[c as int], x) ==> fr.requires((x,)),
                    ensures
                        maps_to(rows@[r as int]@[c as int], fr, u),
                    {
                        let x = rows[r][c].clone();
                        assert(cloned::<T>(rows@[r as int]@[c as int], x));
                        let u = fr(x);
                        assert(maps_to(rows@[r as int]@[c as int], fr, u));
                        u
                    };
                assert forall|c: usize| c < C implies #[trigger] cell.requires((c,)) by {
                    assert forall|x: T| #[trigger] cloned::<T>(rows@[r as int]@[c as int], x) implies fr.requires((x,)) by {
                        assert(cloned::<T>(rows@[r as int]@[c as int], x));
                    }
                }
                let out: [U; C] = array_from_fn(cell);
                assert forall|c: int| 0 <= c < C implies maps_to(rows@[r as int]@[c], fr, #[trigger] out@[c]) by {
                    assert(cell.ensures((c as usize,), out@[c]));
                }
                out
            };
        assert forall|r: usize| r < R implies #[trigger] make_row.requires((r,)) by {
            assert forall|c: int, x: T|
                0 <= c < C && #[trigger] cloned::<T>(rows@[r as int]@[c], x) implies fr.requires((x,)) by {
                assert(self@[r as int][c] == rows@[r as int]@[c]);
                assert(cloned::<T>(self@[r as int][c], x));
            }
        }
        let out: [[U; C]; R] = array_from_fn(make_row);
        let m = Tensor2 { rows: out };
        assert forall|r: int, c: int| 0 <= r < R && 0 <= c < C implies #[trigger] mapped_entry(
            self@,
            f,
            m@,
            r,
            c,
        ) by {
            assert(make_row.ensures((r as usize,), out@[r]));
            assert(maps_to(rows@[r]@[c], fr, out@[r]@[c]));
        }
        m
    }

    /// The transpose: entry `(r, c)` of the result is entry `(c, r)` of `self`.
    pub fn transpose(&self) -> (t: Tensor2<T, C, R>) where T: Copy
        ensures
            forall|r: int, c: int| 0 <= r < C && 0 <= c < R ==> #[trigger] t@[r][c] == self@[c][r],
    {
        let rows = self.rows;
        let make_row = |r: usize| -> (row: [T; R])
            requires
                r < C,
            ensures
                forall|c: int| 0 <= c < R ==> #[trigger] row@[c] == rows@[c]@[r as int],
            {
                let cell = |c: usize| -> (x: T)
                    requires
                        c < R,
                    ensures
                        x == rows@[c as int]@[r as int],
                    { rows[c][r] };
                let out: [T; R] = array_from_fn(cell);
                assert forall|c: int| 0 <= c < R implies #[trigger] out@[c] == rows@[c]@[r as int] by {
                    assert(cell.ensures((c as usize,), out@[c]));
                }
                out
            };
        let out: [[T; R]; C] = array_from_fn(make_row);
        let t = Tensor2 { rows: out };
        assert forall|r: int, c: int| 0 <= r < C && 0 <= c < R implies #[trigger] t@[r][c] == self@[c][r] by {
            assert(make_row.ensures((r as usize,), out@[r]));
        }
        t
    }
}

/// Transposing twice gives back the matrix: if `t` is the transpose of `m`
/// and `tt` the transpose of `t`, then `tt` equals `m`.
pub proof fn law_transpose_involution<T, const R: usize, const C: usize>(
    m: Tensor2<T, R, C>,
    t: Tensor2<T, C, R>,
    tt: Tensor2<T, R, C>,
)
    requires
        forall|r: int, c: int| 0 <= r < C && 0 <= c < R ==> #[trigger] t@[r][c] == m@[c][r],
        forall|r: int, c: int| 0 <= r < R && 0 <= c < C ==> #[trigger] tt@[r][c] == t@[c][r],
    ensures
        tt@ == m@,
{
    m.lemma_shape();
    tt.lemma_shape();
    assert forall|r: int| 0 <= r < R implies #[trigger] tt@[r] == m@[r] by {
        assert forall|c: int| 0 <= c < C implies #[trigger] tt@[r][c] == m@[r][c] by {
            assert(tt@[r][c] == t@[c][r]);
        }
        assert(tt@[r] =~= m@[r]);
    }
    assert(tt@ =~= m@);
}

/// Entry `(r, c)` of `dst` is an output of `f` on a clone of entry `(r, c)`
/// of `src`.
pub open spec fn mapped_entry<T: Clone, U, F: Fn(T) -> U>(
    src: Seq<Seq<T>>,
    f: F,
    dst: Seq<Seq<U>>,
    r: int,
    c: int,
) -> bool {
    maps_to(src[r][c], &f, dst[r][c])
}

/// `y` is an output of `f` on a clone of `x`.
pub open spec fn maps_to<T: Clone, U, F: Fn(T) -> U>(x: T, f: &F, y: U) -> bool {
    exists|c: T| cloned::<T>(x, c) && f.ensures((c,), y)
}

impl<T: std::ops::Add<Output = T> + Copy, const R: usize, const C: usize> Tensor2<T, R, C> {
    /// Entry-wise sum.
    pub fn add(&self, other: &Tensor2<T, R, C>) -> (m: Tensor2<T, R, C>)
        requires
            forall|r: int, c: int| 0 <= r < R && 0 <= c < C ==> #[trigger] self@[r][c].add_req(other@[r][c]),
        ensures
            T::obeys_add_spec() ==> forall|r: int, c: int|
                0 <= r < R && 0 <= c < C ==> #[trigger] m@[r][c] == self@[r][c].add_spec(other@[r][c]),
    {
        let a = self.rows;
        let b = other.rows;
        let make_row = |r: usize| -> (row: [T; C])
            requires
                r < R,
                forall|c: int| 0 <= c < C ==> #[trigger] a@[r as int]@[c].add_req(b@[r as int]@[c]),
            ensures
                T::obeys_add_spec() ==> forall|c: int| 0 <= c < C ==> #[trigger] row@[c] == a@[r as int]@[c].add_spec(b@[r as int]@[c]),
            {
                let cell = |c: usize| -> (x: T)
                    requires
                        c < C,
                        a@[r as int]@[c as int].add_req(b@[r as int]@[c as int]),
                    ensures
                        T::obeys_add_spec() ==> x == a@[r as int]@[c as int].add_spec(b@[r as int]@[c as int]),
                    { a[r][c] + b[r][c] };
                assert forall|c: usize| c < C implies #[trigger] cell.requires((c,)) by {
                    assert(a@[r as int]@[c as int].add_req(b@[r as int]@[c as int]));
                }
                let out: [T; C] = array_from_fn(cell);
                assert forall|c: int| 0 <= c < C && T::obeys_add_spec() implies #[trigger] out@[c] == a@[r as int]@[c].add_spec(b@[r as int]@[c]) by {
                    assert(cell.ensures((c as usize,), out@[c]));
                }
                out
            };
        assert forall|r: usize| r < R implies #[trigger] make_row.requires((r,)) by {
            assert forall|c: int| 0 <= c < C implies #[trigger] a@[r as int]@[c].add_req(b@[r as int]@[c]) by {
                assert(self@[r as int][c].add_req(other@[r as int][c]));
            }
        }
        let out: [[T; C]; R] = array_from_fn(make_row);
        let m = Tensor2 { rows: out };
        assert forall|r: int, c: int| 0 <= r < R && 0 <= c < C && T::obeys_add_spec() implies #[trigger] m@[r][c] == self@[r][c].add_spec(other@[r][c]) by {
            assert(make_row.ensures((r as usize,), out@[r]));
        }
        m
    }
}

impl<T: std::ops::Sub<Output = T> + Copy, const R: usize, const C: usize> Tensor2<T, R, C> {
    /// Entry-wise difference.
    pub fn sub(&self, other: &Tensor2<T, R, C>) -> (m: Tensor2<T, R, C>)
        requires
            forall|r: int, c: int| 0 <= r < R && 0 <= c < C ==> #[trigger] self@[r][c].sub_req(other@[r][c]),
        ensures
            T::obeys_sub_spec() ==> forall|r: int, c: int|
                0 <= r < R && 0 <= c < C ==> #[trigger] m@[r][c] == self@[r][c].sub_spec(other@[r][c]),
    {
        let a = self.rows;
        let b = other.rows;
        let make_row = |r: usize| -> (row: [T; C])
            requires
                r < R,
                forall|c: int| 0 <= c < C ==> #[trigger] a@[r as int]@[c].sub_req(b@[r as int]@[c]),
            ensures
                T::obeys_sub_spec() ==> forall|c: int| 0 <= c < C ==> #[trigger] row@[c] == a@[r as int]@[c].sub_spec(b@[r as int]@[c]),
            {
                let cell = |c: usize| -> (x: T)
                    requires
                        c < C,
                        a@[r as int]@[c as int].sub_req(b@[r as int]@[c as int]),
                    ensures
                        T::obeys_sub_spec() ==> x == a@[r as int]@[c as int].sub_spec(b@[r as int]@[c as int]),
                    { a[r][c] - b[r][c] };
                assert forall|c: usize| c < C implies #[trigger] cell.requires((c,)) by {
                    assert(a@[r as int]@[c as int].sub_req(b@[r as int]@[c as int]));
                }
                let out: [T; C] = array_from_fn(cell);
                assert forall|c: int| 0 <= c < C && T::obeys_sub_spec() implies #[trigger] out@[c] == a@[r as int]@[c].sub_spec(b@[r as int]@[c]) by {
                    assert(cell.ensures((c as usize,), out@[c]));
                }
                out
            };
        assert forall|r: usize| r < R implies #[trigger] make_row.requires((r,)) by {
            assert forall|c: int| 0 <= c < C implies #[trigger] a@[r as int]@[c].sub_req(b@[r as int]@[c]) by {
                assert(self@[r as int][c].sub_req(other@[r as int][c]));
            }
        }
        let out: [[T; C]; R] = array_from_fn(make_row);
        let m = Tensor2 { rows: out };
        assert forall|r: int, c: int| 0 <= r < R && 0 <= c < C && T::obeys_sub_spec() implies #[trigger] m@[r][c] == self@[r][c].sub_spec(other@[r][c]) by {
            assert(make_row.ensures((r as usize,), out@[r]));
        }
        m
    }
}

/// Entry `(r, k)` of `a * b`: row `r` of `a` dotted with column `k` of `b`,
/// accumulated left to right from the first column.
fn entry_dot<
    T: std::ops::Add<Output = T> + std::ops::Mul<Output = T> + Copy,
    const R: usize,
    const C: usize,
    const K: usize,
>(a: &[[T; C]; R], b: &[[T; K]; C], r: usize, k: usize) -> (x: T)
    requires
        r < R,
        k < K,
        C >= 1,
        T::obeys_add_spec(),
        T::obeys_mul_spec(),
        dot_in_range(a@[r as int]@, Seq::new(C as nat, |c: int| b@[c]@[k as int]), C as int),
    ensures
        x == dot_prefix(a@[r as int]@, Seq::new(C as nat, |c: int| b@[c]@[k as int]), C as int),
{
    let ghost row = a@[r as int]@;
    let ghost col = Seq::new(C as nat, |c: int| b@[c]@[k as int]);
    assert(row[0].mul_req(col[0]));
    let mut acc = a[r][0] * b[0][k];
    let mut c: usize = 1;
    while c < C
        invariant
            1 <= c <= C,
            r < R,
            k < K,
            row == a@[r as int]@,
            col == Seq::new(C as nat, |c: int| b@[c]@[k as int]),
            T::obeys_add_spec(),
            T::obeys_mul_spec(),
            dot_in_range(row, col, C as int),
            acc == dot_prefix(row, col, c as int),
        decreases C - c,
    {
        assert(row[c as int].mul_req(col[c as int]));
        let product = a[r][c] * b[c][k];
        acc = acc + product;
        c += 1;
    }
    acc
}

impl<
    T: std::ops::Add<Output = T> + std::ops::Mul<Output = T> + Copy,
    const R: usize,
    const C: usize,
> Tensor2<T, R, C> {
    /// The matrix product `self * other` (`R x C` times `C x K`). Every entry
    /// is accumulated left to right from the first column, so a product with
    /// no columns (`C == 0`) has no entries to start from.
    pub fn mul<const K: usize>(&self, other: &Tensor2<T, C, K>) -> (m: Tensor2<T, R, K>)
        requires
            C >= 1 || R == 0 || K == 0,
            T::obeys_add_spec(),
            T::obeys_mul_spec(),
            forall|r: int, k: int|
                0 <= r < R && 0 <= k < K ==> #[trigger] dot_in_range(
                    self@[r],
                    column(other@, k, C as int),
                    C as int,
                ),
        ensures
            forall|r: int, k: int|
                0 <= r < R && 0 <= k < K ==> #[trigger] m@[r][k] == dot_prefix(
                    self@[r],
                    column(other@, k, C as int),
                    C as int,
                ),
    {
        let a = &self.rows;
        let b = &other.rows;
        let make_row = |r: usize| -> (row: [T; K])
            requires
                r < R,
            ensures
                forall|k: int| 0 <= k < K ==> #[trigger] row@[k] == dot_prefix(
                    a@[r as int]@,
                    Seq::new(C as nat, |c: int| b@[c]@[k]),
                    C as int,
                ),
            {
                let cell = |k: usize| -> (x: T)
                    requires
                        k < K,
                    ensures
                        x == dot_prefix(
                            a@[r as int]@,
                            Seq::new(C as nat, |c: int| b@[c]@[k as int]),
                            C as int,
                        ),
                    {
                        assert(a@[r as int]@ == self@[r as int]);
                        assert(Seq::new(C as nat, |c: int| b@[c]@[k as int]) =~= column(other@, k as int, C as int));
                        entry_dot(a, b, r, k)
                    };
                let out: [T; K] = array_from_fn(cell);
                assert forall|k: int| 0 <= k < K implies #[trigger] out@[k] == dot_prefix(
                    a@[r as int]@,
                    Seq::new(C as nat, |c: int| b@[c]@[k]),
                    C as int,
                ) by {
                    assert(cell.ensures((k as usize,), out@[k]));
                }
                out
            };
        let out: [[T; K]; R] = array_from_fn(make_row);
        let m = Tensor2 { rows: out };
        assert forall|r: int, k: int| 0 <= r < R && 0 <= k < K implies #[trigger] m@[r][k] == dot_prefix(
            self@[r],
            column(other@, k, C as int),
            C as int,
        ) by {
            assert(make_row.ensures((r as usize,), out@[r]));
            assert(Seq::new(C as nat, |c: int| b@[c]@[k]) =~= column(other@, k, C as int));
        }
        m
    }
}

impl<T: Default, const R: usize, const C: usize> Default for Tensor2<T, R, C> {
    fn default() -> (m: Self)
        ensures
            forall|r: int, c: int| 0 <= r < R && 0 <= c < C ==> call_ensures(T::default, (), #[trigger] m@[r][c]),
    {
        let make_row = |r: usize| -> (row: [T; C])
            ensures
                forall|c: int| 0 <= c < C ==> call_ensures(T::default, (), #[trigger] row@[c]),
            {
                let cell = |c: usize| -> (x: T)
                    ensures
                        call_ensures(T::default, (), x),
                    { T::default() };
                let out: [T; C] = array_from_fn(cell);
                assert forall|c: int| 0 <= c < C implies call_ensures(T::default, (), #[trigger] out@[c]) by {
                    assert(cell.ensures((c as usize,), out@[c]));
                }
                out
            };
        let out: [[T; C]; R] = array_from_fn(make_row);
        let m = Tensor2 { rows: out };
        assert forall|r: int, c: int| 0 <= r < R && 0 <= c < C implies call_ensures(T::default, (), #[trigger] m@[r][c]) by {
            assert(make_row.ensures((r as usize,), out@[r]));
        }
        m
    }
}

impl<T, const R: usize, const C: usize> From<[[T; C]; R]> for Tensor2<T, R, C> {
    fn from(rows: [[T; C]; R]) -> (m: Self)
        ensures
            forall|i: int, j: int| 0 <= i < R && 0 <= j < C ==> #[trigger] m@[i][j] == rows@[i]@[j],
    {
        Tensor2 { rows }
    }
}

impl<T, const R: usize, const C: usize> vstd::std_specs::convert::FromSpecImpl<[[T; C]; R]> for Tensor2<T, R, C> {
    open spec fn obeys_from_spec() -> bool {
        true
    }

    closed spec fn from_spec(rows: [[T; C]; R]) -> Self {
        Tensor2 { rows }
    }
}

impl<T, const R: usize, const C: usize> core::ops::Index<(usize, usize)> for Tensor2<T, R, C> {
    type Output = T;

    fn index(&self, index: (usize, usize)) -> (x: &T)
        ensures
            *x == self@[index.0 as int][index.1 as int],
    {
        let (row, col) = index;
        &self.rows[row][col]
    }
}

impl<T, const R: usize, const C: usize> vstd::std_specs::core::IndexSpecImpl<(usize, usize)> for Tensor2<T, R, C> {
    open spec fn index_req(&self, index: &(usize, usize)) -> bool {
        index.0 < R && index.1 < C
    }
}

impl<T: std::ops::Add<Output = T> + Copy, const R: usize, const C: usize> std::ops::Add for Tensor2<T, R, C> {
    type Output = Self;

    fn add(self, rhs: Self) -> (m: Self::Output)
        ensures
            T::obeys_add_spec() ==> forall|r: int, c: int|
                0 <= r < R && 0 <= c < C ==> #[trigger] m@[r][c] == self@[r][c].add_spec(rhs@[r][c]),
    {
        Tensor2::add(&self, &rhs)
    }
}

impl<T: std::ops::Add<Output = T> + Copy, const R: usize, const C: usize> vstd::std_specs::ops::AddSpecImpl for Tensor2<T, R, C> {
    /// Not claimed: a matrix cannot be built from its entries in spec code,
    /// so `add_spec` only names some matrix with the right entries; the
    /// contract of `add` states the entries instead.
    open spec fn obeys_add_spec() -> bool {
        false
    }

    open spec fn add_req(self, rhs: Self) -> bool {
        forall|r: int, c: int| 0 <= r < R && 0 <= c < C ==> #[trigger] self@[r][c].add_req(rhs@[r][c])
    }

    closed spec fn add_spec(self, rhs: Self) -> Self {
        choose|m: Self| #[trigger] m@ == Seq::new(R as nat, |r: int| Seq::new(C as nat, |c: int| self@[r][c].add_spec(rhs@[r][c])))
    }
}

impl<T: std::ops::Sub<Output = T> + Copy, const R: usize, const C: usize> std::ops::Sub for Tensor2<T, R, C> {
    type Output = Self;

    fn sub(self, rhs: Self) -> (m: Self::Output)
        ensures
            T::obeys_sub_spec() ==> forall|r: int, c: int|
                0 <= r < R && 0 <= c < C ==> #[trigger] m@[r][c] == self@[r][c].sub_spec(rhs@[r][c]),
    {
        Tensor2::sub(&self, &rhs)
    }
}

impl<T: std::ops::Sub<Output = T> + Copy, const R: usize, const C: usize> vstd::std_specs::ops::SubSpecImpl for Tensor2<T, R, C> {
    /// Not claimed: see the `Add` counterpart.
    open spec fn obeys_sub_spec() -> bool {
        false
    }

    open spec fn sub_req(self, rhs: Self) -> bool {
        forall|r: int, c: int| 0 <= r < R && 0 <= c < C ==> #[trigger] self@[r][c].sub_req(rhs@[r][c])
    }

    closed spec fn sub_spec(self, rhs: Self) -> Self {
        choose|m: Self| #[trigger] m@ == Seq::new(R as nat, |r: int| Seq::new(C as nat, |c: int| self@[r][c].sub_spec(rhs@[r][c])))
    }
}

} // verus!
