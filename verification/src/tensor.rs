//! A fixed-size, stack-allocated one-dimensional tensor `Tensor<T, N>`.
//!
//! Element-wise arithmetic goes through the `Add`/`Sub`/`Mul` impls of `T`;
//! for the primitive integers their meaning is the mathematical one and the
//! contracts require that no step overflows.
use vstd::prelude::*;

verus! {

use vstd::std_specs::iter::IteratorSpec;
use vstd::std_specs::ops::{AddSpec, MulSpec, SubSpec};

/// Builds `[f(0), f(1), ..., f(N - 1)]` with `core::array::from_fn`.
///
/// Trusted: `core::array::from_fn` calls `f` once for each index in `0..N`
/// and stores each result at that index; the contract states exactly that
/// (each element is an output `f` may give for its index).
#[verifier::external_body]
pub(crate) fn array_from_fn<T, const N: usize, F: Fn(usize) -> T>(f: F) -> (r: [T; N])
    requires
        forall|i: usize| i < N ==> #[trigger] f.requires((i,)),
    ensures
        forall|i: int| 0 <= i < N ==> f.ensures((i as usize,), #[trigger] r@[i]),
{
    core::array::from_fn(f)
}

/// The mutable slice iterator of std, carried through unexamined.
#[verifier::external_type_specification]
#[verifier::external_body]
#[verifier::reject_recursive_types(T)]
pub struct ExIterMut<'a, T: 'a>(core::slice::IterMut<'a, T>);

/// Borrows the elements of an array mutably, one after another, with
/// `<[T]>::iter_mut`.
///
/// Trusted: the call only creates the iterator; nothing is stated about it
/// because Verus has no model of `IterMut`.
#[verifier::external_body]
pub(crate) fn array_iter_mut<T, const N: usize>(a: &mut [T; N]) -> core::slice::IterMut<'_, T> {
    a.iter_mut()
}

/// A fixed-size one-dimensional tensor of `N` elements of type `T`.
#[derive(Debug, Clone, Copy, PartialEq, Eq, Hash)]
pub struct Tensor<T, const N: usize> {
    data: [T; N],
}

impl<T, const N: usize> View for Tensor<T, N> {
    type V = Seq<T>;

    closed spec fn view(&self) -> Seq<T> {
        self.data@
    }
}

/// The dot product of the first `n` elements: `a[0]*b[0] + ... + a[n-1]*b[n-1]`,
/// summed left to right as `T`'s `Add` and `Mul` define it (`n >= 1`).
pub open spec fn dot_prefix<T: std::ops::Add<Output = T> + std::ops::Mul<Output = T>>(
    a: Seq<T>,
    b: Seq<T>,
    n: int,
) -> T
    decreases n,
{
    if n <= 1 {
        a[0].mul_spec(b[0])
    } else {
        dot_prefix(a, b, n - 1).add_spec(a[n - 1].mul_spec(b[n - 1]))
    }
}

/// No multiplication and no partial sum of the dot product of the first `n`
/// elements leaves `T`'s domain (for integers: no overflow).
pub open spec fn dot_in_range<T: std::ops::Add<Output = T> + std::ops::Mul<Output = T>>(
    a: Seq<T>,
    b: Seq<T>,
    n: int,
) -> bool {
    forall|k: int|
        0 <= k < n ==> {
            &&& #[trigger] a[k].mul_req(b[k])
            &&& k >= 1 ==> dot_prefix(a, b, k).add_req(a[k].mul_spec(b[k]))
        }
}

/// Element `i` of `dst` is an output of `f` on a clone of element `i` of `src`.
pub open spec fn mapped_at<T: Clone, U, F: Fn(T) -> U>(src: Seq<T>, f: F, dst: Seq<U>, i: int) -> bool {
    exists|c: T| cloned::<T>(src[i], c) && f.ensures((c,), dst[i])
}

/// Element `i` of `dst` is an output of `f` on `i`, a clone of element `i` of
/// `src` and element `i` of `other`.
pub open spec fn zipped_at<T: Clone, U, F: Fn(usize, T, &U) -> T>(
    src: Seq<T>,
    other: Seq<U>,
    f: F,
    dst: Seq<T>,
    i: int,
) -> bool {
    exists|c: T| cloned::<T>(src[i], c) && f.ensures((i as usize, c, &other[i]), dst[i])
}

/// Every element of `dst` is an output of `f` on a clone of the matching
/// element of `src`.
pub open spec fn is_mapped<T: Clone, U, F: Fn(T) -> U>(src: Seq<T>, f: F, dst: Seq<U>) -> bool {
    &&& dst.len() == src.len()
    &&& forall|i: int|
        0 <= i < src.len() ==> #[trigger] mapped_at(src, f, dst, i)
}

/// Every element of `dst` is what `zipped_at` says of it.
pub open spec fn is_zipped<T: Clone, U, F: Fn(usize, T, &U) -> T>(
    src: Seq<T>,
    other: Seq<U>,
    f: F,
    dst: Seq<T>,
) -> bool {
    &&& dst.len() == src.len()
    &&& forall|i: int|
        0 <= i < src.len() ==> #[trigger] zipped_at(src, other, f, dst, i)
}

impl<T, const N: usize> Tensor<T, N> {
    /// Creates a tensor from an array.
    pub fn new(data: [T; N]) -> (r: Self)
        ensures
            r@ == data@,
    {
        Tensor { data }
    }

    /// Creates a tensor whose element `i` is `f(i)`, for `i` in `0..N`.
    pub fn from_fn<F: Fn(usize) -> T>(f: F) -> (r: Self)
        requires
            forall|i: usize| i < N ==> #[trigger] f.requires((i,)),
        ensures
            r@.len() == N,
            forall|i: int| 0 <= i < N ==> f.ensures((i as usize,), #[trigger] r@[i]),
    {
        Tensor { data: array_from_fn(f) }
    }

    /// The number of elements, `N`.
    pub fn len(&self) -> (r: usize)
        ensures
            r == N,
            r == self@.len(),
    {
        N
    }

    /// Returns `true` when `N == 0`.
    pub fn is_empty(&self) -> (r: bool)
        ensures
            r == (N == 0),
    {
        N == 0
    }

    /// The element at `index`, or `None` when `index >= N`.
    pub fn get(&self, index: usize) -> (r: Option<&T>)
        ensures
            r == if index < N {
                Some(&self@[index as int])
            } else {
                None::<&T>
            },
    {
        if index < N {
            Some(&self.data[index])
        } else {
            None
        }
    }

    /// A mutable reference to the element at `index`, or `None` when
    /// `index >= N`.
    pub fn get_mut(&mut self, index: usize) -> (r: Option<&mut T>)
        ensures
            (r is Some) == (index < N),
            index < N ==> *r.unwrap() == old(self)@[index as int],
            index < N ==> final(self)@ == old(self)@.update(index as int, *final(r.unwrap())),
            index >= N ==> final(self)@ == old(self)@,
    {
        if index < N {
            Some(&mut self.data[index])
        } else {
            None
        }
    }

    /// The elements as a slice.
    pub fn as_ref(&self) -> (r: &[T])
        ensures
            r@ == self@,
    {
        self.data.as_slice()
    }

    /// Applies `f` to (a clone of) every element.
    pub fn map<U, F: Fn(T) -> U>(self, f: F) -> (r: Tensor<U, N>) where T: Clone
        requires
            forall|i: int, c: T|
                0 <= i < N && #[trigger] cloned::<T>(self@[i], c) ==> f.requires((c,)),
        ensures
            is_mapped(self@, f, r@),
    {
        let data = &self.data;
        let fg = &f;
        let g = |i: usize| -> (u: U)
            requires
                i < N,
                forall|c: T| #[trigger] cloned::<T>(data@[i as int], c) ==> fg.requires((c,)),
            ensures
                exists|c: T| cloned::<T>(data@[i as int], c) && fg.ensures((c,), u),
            {
                let c = data[i].clone();
                assert(cloned::<T>(data@[i as int], c));
                fg(c)
            };
        assert forall|i: usize| i < N implies #[trigger] g.requires((i,)) by {
            assert forall|c: T| #[trigger] cloned::<T>(data@[i as int], c) implies fg.requires((c,)) by {
                assert(cloned::<T>(self@[i as int], c));
            }
        }
        let out = array_from_fn(g);
        assert forall|i: int| 0 <= i < N implies exists|c: T|
            cloned::<T>(self@[i], c) && f.ensures((c,), #[trigger] out@[i]) by {
            assert(g.ensures((i as usize,), out@[i]));
            let c = choose|c: T| cloned::<T>(data@[i], c) && fg.ensures((c,), out@[i]);
            assert(cloned::<T>(self@[i], c) && f.ensures((c,), out@[i]));
        }
        let r = Tensor { data: out };
        assert forall|i: int| 0 <= i < self@.len() implies #[trigger] mapped_at(self@, f, r@, i) by {
            assert(out@[i] == r@[i]);
        }
        r
    }

    /// Combines `self` with `other` element-wise: element `i` is
    /// `f(i, self[i].clone(), &other[i])`.
    pub fn zip<U, F: Fn(usize, T, &U) -> T>(self, other: &Tensor<U, N>, f: F) -> (r: Tensor<T, N>) where
        T: Clone,
        requires
            forall|i: int, c: T|
                0 <= i < N && #[trigger] cloned::<T>(self@[i], c) ==> f.requires(
                    (i as usize, c, &other@[i]),
                ),
        ensures
            is_zipped(self@, other@, f, r@),
    {
        let data = &self.data;
        let fg = &f;
        let g = |i: usize| -> (t: T)
            requires
                i < N,
                forall|c: T| #[trigger] cloned::<T>(data@[i as int], c) ==> fg.requires(
                    (i, c, &other@[i as int]),
                ),
            ensures
                exists|c: T| cloned::<T>(data@[i as int], c) && fg.ensures((i, c, &other@[i as int]), t),
            {
                let c = data[i].clone();
                assert(cloned::<T>(data@[i as int], c));
                fg(i, c, &other.data[i])
            };
        assert forall|i: usize| i < N implies #[trigger] g.requires((i,)) by {
            assert forall|c: T| #[trigger] cloned::<T>(data@[i as int], c) implies fg.requires(
                (i, c, &other@[i as int]),
            ) by {
                assert(cloned::<T>(self@[i as int], c));
            }
        }
        let out = array_from_fn(g);
        assert forall|i: int| 0 <= i < N implies exists|c: T|
            cloned::<T>(self@[i], c) && f.ensures((i as usize, c, &other@[i]), #[trigger] out@[i]) by {
            assert(g.ensures((i as usize,), out@[i]));
            let c = choose|c: T|
                cloned::<T>(data@[i], c) && fg.ensures((i as usize, c, &other@[i]), out@[i]);
            assert(cloned::<T>(self@[i], c) && f.ensures((i as usize, c, &other@[i]), out@[i]));
        }
        let r = Tensor { data: out };
        assert forall|i: int| 0 <= i < self@.len() implies #[trigger] zipped_at(self@, other@, f, r@, i) by {
            assert(out@[i] == r@[i]);
        }
        r
    }

    /// An iterator over the elements.
    pub fn iter(&self) -> (r: core::slice::Iter<'_, T>)
        ensures
            r.remaining() == self@.as_ref(),
    {
        let s: &[T] = self.data.as_slice();
        s.iter()
    }

    /// An iterator over mutable references to the elements.
    pub fn iter_mut(&mut self) -> core::slice::IterMut<'_, T> {
        array_iter_mut(&mut self.data)
    }
}

impl<T: std::ops::Add<Output = T> + Copy, const N: usize> Tensor<T, N> {
    /// Element-wise sum.
    pub fn add(&self, other: &Tensor<T, N>) -> (r: Tensor<T, N>)
        requires
            forall|i: int| 0 <= i < N ==> #[trigger] self@[i].add_req(other@[i]),
        ensures
            T::obeys_add_spec() ==> forall|i: int|
                0 <= i < N ==> #[trigger] r@[i] == self@[i].add_spec(other@[i]),
    {
        let a = self.data;
        let b = other.data;
        let g = |i: usize| -> (t: T)
            requires
                i < N,
                a@[i as int].add_req(b@[i as int]),
            ensures
                T::obeys_add_spec() ==> t == a@[i as int].add_spec(b@[i as int]),
            { a[i] + b[i] };
        assert forall|i: usize| i < N implies #[trigger] g.requires((i,)) by {
            assert(self@[i as int].add_req(other@[i as int]));
        }
        Tensor { data: array_from_fn(g) }
    }
}

impl<T: std::ops::Sub<Output = T> + Copy, const N: usize> Tensor<T, N> {
    /// Element-wise difference.
    pub fn sub(&self, other: &Tensor<T, N>) -> (r: Tensor<T, N>)
        requires
            forall|i: int| 0 <= i < N ==> #[trigger] self@[i].sub_req(other@[i]),
        ensures
            T::obeys_sub_spec() ==> forall|i: int|
                0 <= i < N ==> #[trigger] r@[i] == self@[i].sub_spec(other@[i]),
    {
        let a = self.data;
        let b = other.data;
        let g = |i: usize| -> (t: T)
            requires
                i < N,
                a@[i as int].sub_req(b@[i as int]),
            ensures
                T::obeys_sub_spec() ==> t == a@[i as int].sub_spec(b@[i as int]),
            { a[i] - b[i] };
        assert forall|i: usize| i < N implies #[trigger] g.requires((i,)) by {
            assert(self@[i as int].sub_req(other@[i as int]));
        }
        Tensor { data: array_from_fn(g) }
    }
}

impl<
    T: std::ops::Add<Output = T> + std::ops::Sub<Output = T> + std::ops::Mul<Output = T> + Copy,
    const N: usize,
> Tensor<T, N> {
    /// The dot product `self[0]*other[0] + ... + self[N-1]*other[N-1]`,
    /// accumulated left to right. An empty tensor has no dot product.
    pub fn dot(&self, other: &Tensor<T, N>) -> (r: T)
        requires
            N >= 1,
            T::obeys_add_spec(),
            T::obeys_mul_spec(),
            dot_in_range(self@, other@, N as int),
        ensures
            r == dot_prefix(self@, other@, N as int),
    {
        let mut acc: Option<T> = None;
        let mut i: usize = 0;
        while i < N
            invariant
                i <= N,
                N >= 1,
                T::obeys_add_spec(),
                T::obeys_mul_spec(),
                dot_in_range(self@, other@, N as int),
                i == 0 ==> acc is None,
                i >= 1 ==> acc == Some(dot_prefix(self@, other@, i as int)),
            decreases N - i,
        {
            assert(self@[i as int].mul_req(other@[i as int]));
            let product = self.data[i] * other.data[i];
            acc = Some(
                match acc {
                    Some(a) => a + product,
                    None => product,
                },
            );
            i += 1;
        }
        acc.unwrap()
    }
}

/// The dot product is commutative when `T`'s multiplication is: the terms
/// are summed in the same order either way.
pub proof fn law_dot_commutative<T: std::ops::Add<Output = T> + std::ops::Mul<Output = T>>(
    a: Seq<T>,
    b: Seq<T>,
    n: int,
)
    requires
        forall|x: T, y: T| #[trigger] x.mul_spec(y) == y.mul_spec(x),
    ensures
        dot_prefix(a, b, n) == dot_prefix(b, a, n),
    decreases n,
{
    assert(a[0].mul_spec(b[0]) == b[0].mul_spec(a[0]));
    if n > 1 {
        law_dot_commutative(a, b, n - 1);
        assert(a[n - 1].mul_spec(b[n - 1]) == b[n - 1].mul_spec(a[n - 1]));
    }
}

/// Element types for which subtracting `b` undoes adding `b`, whenever the
/// sum stays in the type's range.
pub trait SubUndoesAdd: std::ops::Add<Output = Self> + std::ops::Sub<Output = Self> + Sized {
    /// `(a + b) - b == a` when `a + b` is in range.
    proof fn lemma_sub_undoes_add(a: Self, b: Self)
        requires
            a.add_req(b),
        ensures
            a.add_spec(b).sub_req(b),
            a.add_spec(b).sub_spec(b) == a,
    ;
}

impl SubUndoesAdd for i8 {
    proof fn lemma_sub_undoes_add(a: i8, b: i8) {
    }
}

impl SubUndoesAdd for i16 {
    proof fn lemma_sub_undoes_add(a: i16, b: i16) {
    }
}

impl SubUndoesAdd for i32 {
    proof fn lemma_sub_undoes_add(a: i32, b: i32) {
    }
}

impl SubUndoesAdd for i64 {
    proof fn lemma_sub_undoes_add(a: i64, b: i64) {
    }
}

impl SubUndoesAdd for i128 {
    proof fn lemma_sub_undoes_add(a: i128, b: i128) {
    }
}

impl SubUndoesAdd for isize {
    proof fn lemma_sub_undoes_add(a: isize, b: isize) {
    }
}

impl SubUndoesAdd for u8 {
    proof fn lemma_sub_undoes_add(a: u8, b: u8) {
    }
}

impl SubUndoesAdd for u16 {
    proof fn lemma_sub_undoes_add(a: u16, b: u16) {
    }
}

impl SubUndoesAdd for u32 {
    proof fn lemma_sub_undoes_add(a: u32, b: u32) {
    }
}

impl SubUndoesAdd for u64 {
    proof fn lemma_sub_undoes_add(a: u64, b: u64) {
    }
}

impl SubUndoesAdd for u128 {
    proof fn lemma_sub_undoes_add(a: u128, b: u128) {
    }
}

impl SubUndoesAdd for usize {
    proof fn lemma_sub_undoes_add(a: usize, b: usize) {
    }
}

/// Adding `b` and then subtracting `b` gives back `a`, for tensors of any
/// primitive integer type, as long as no sum overflows.
pub proof fn law_add_sub_roundtrip<T: SubUndoesAdd, const N: usize>(
    a: Tensor<T, N>,
    b: Tensor<T, N>,
    s: Tensor<T, N>,
    d: Tensor<T, N>,
)
    requires
        forall|i: int| 0 <= i < N ==> #[trigger] a@[i].add_req(b@[i]),
        forall|i: int| 0 <= i < N ==> #[trigger] s@[i] == a@[i].add_spec(b@[i]),
        forall|i: int| 0 <= i < N ==> #[trigger] d@[i] == s@[i].sub_spec(b@[i]),
    ensures
        forall|i: int| 0 <= i < N ==> #[trigger] s@[i].sub_req(b@[i]),
        d@ == a@,
{
    assert forall|i: int| 0 <= i < N implies #[trigger] d@[i] == a@[i] && s@[i].sub_req(b@[i]) by {
        assert(a@[i].add_req(b@[i]));
        assert(s@[i] == a@[i].add_spec(b@[i]));
        T::lemma_sub_undoes_add(a@[i], b@[i]);
    }
    assert(d@ =~= a@);
}

impl<T: Default, const N: usize> Default for Tensor<T, N> {
    fn default() -> (r: Self)
        ensures
            forall|i: int| 0 <= i < N ==> call_ensures(T::default, (), #[trigger] r@[i]),
    {
        let g = |i: usize| -> (t: T)
            ensures
                call_ensures(T::default, (), t),
            { T::default() };
        Tensor { data: array_from_fn(g) }
    }
}

impl<T, const N: usize> From<[T; N]> for Tensor<T, N> {
    fn from(data: [T; N]) -> (r: Self)
        ensures
            r@ == data@,
    {
        Tensor { data }
    }
}

impl<T, const N: usize> vstd::std_specs::convert::FromSpecImpl<[T; N]> for Tensor<T, N> {
    open spec fn obeys_from_spec() -> bool {
        true
    }

    closed spec fn from_spec(data: [T; N]) -> Self {
        Tensor { data }
    }
}

impl<T: std::ops::Add<Output = T> + Copy, const N: usize> std::ops::Add for Tensor<T, N> {
    type Output = Self;

    fn add(self, rhs: Self) -> (r: Self::Output)
        ensures
            T::obeys_add_spec() ==> forall|i: int|
                0 <= i < N ==> #[trigger] r@[i] == self@[i].add_spec(rhs@[i]),
    {
        Tensor::add(&self, &rhs)
    }
}

impl<T: std::ops::Add<Output = T> + Copy, const N: usize> vstd::std_specs::ops::AddSpecImpl for Tensor<T, N> {
    /// Not claimed: a tensor cannot be built from its elements in spec code,
    /// so `add_spec` only names some tensor with the right elements; the
    /// contract of `add` states the elements instead.
    open spec fn obeys_add_spec() -> bool {
        false
    }

    open spec fn add_req(self, rhs: Self) -> bool {
        forall|i: int| 0 <= i < N ==> #[trigger] self@[i].add_req(rhs@[i])
    }

    closed spec fn add_spec(self, rhs: Self) -> Self {
        choose|t: Self| #[trigger] t@ == Seq::new(N as nat, |i: int| self@[i].add_spec(rhs@[i]))
    }
}

impl<T: std::ops::Sub<Output = T> + Copy, const N: usize> std::ops::Sub for Tensor<T, N> {
    type Output = Self;

    fn sub(self, rhs: Self) -> (r: Self::Output)
        ensures
            T::obeys_sub_spec() ==> forall|i: int|
                0 <= i < N ==> #[trigger] r@[i] == self@[i].sub_spec(rhs@[i]),
    {
        Tensor::sub(&self, &rhs)
    }
}

impl<T: std::ops::Sub<Output = T> + Copy, const N: usize> vstd::std_specs::ops::SubSpecImpl for Tensor<T, N> {
    /// Not claimed: a tensor cannot be built from its elements in spec code,
    /// so `sub_spec` only names some tensor with the right elements; the
    /// contract of `sub` states the elements instead.
    open spec fn obeys_sub_spec() -> bool {
        false
    }

    open spec fn sub_req(self, rhs: Self) -> bool {
        forall|i: int| 0 <= i < N ==> #[trigger] self@[i].sub_req(rhs@[i])
    }

    closed spec fn sub_spec(self, rhs: Self) -> Self {
        choose|t: Self| #[trigger] t@ == Seq::new(N as nat, |i: int| self@[i].sub_spec(rhs@[i]))
    }
}

impl<T, const N: usize> std::ops::Index<usize> for Tensor<T, N> {
    type Output = T;

    fn index(&self, index: usize) -> (r: &T)
        ensures
            *r == self@[index as int],
    {
        &self.data[index]
    }
}

impl<T, const N: usize> vstd::std_specs::core::IndexSpecImpl<usize> for Tensor<T, N> {
    open spec fn index_req(&self, index: &usize) -> bool {
        *index < N
    }
}

impl<T, const N: usize> AsRef<[T]> for Tensor<T, N> {
    fn as_ref(&self) -> (r: &[T])
        ensures
            r@ == self@,
    {
        self.data.as_slice()
    }
}

impl<'a, T, const N: usize> IntoIterator for &'a Tensor<T, N> {
    type Item = &'a T;
    type IntoIter = core::slice::Iter<'a, T>;

    fn into_iter(self) -> (r: core::slice::Iter<'a, T>)
        ensures
            r.remaining() == self@.as_ref(),
    {
        self.iter()
    }
}

impl<'a, T, const N: usize> IntoIterator for &'a mut Tensor<T, N> {
    type Item = &'a mut T;
    type IntoIter = core::slice::IterMut<'a, T>;

    fn into_iter(self) -> core::slice::IterMut<'a, T> {
        self.iter_mut()
    }
}

} // verus!
