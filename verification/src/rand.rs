//! Small deterministic pseudo-random generators: xorshift64 and PCG32
//! (XSH-RR). Equal seeds give equal streams, on every platform.
use vstd::prelude::*;

verus! {

use vstd::relations::injective_on;
use vstd::set_lib::{lemma_int_range, lemma_len_subset, lemma_map_size, set_int_range};

/// Byte `k` (0 = least significant) of `w`.
pub open spec fn le_byte(w: u32, k: int) -> u8 {
    ((w >> (8 * k) as u32) & 0xff) as u8
}

/// `dest` holds, from `start` on, the little-endian bytes of `word` (as many
/// as fit).
pub open spec fn holds_word_at(dest: Seq<u8>, start: int, word: u32) -> bool {
    forall|k: int| 0 <= k < 4 && start + k < dest.len() ==> #[trigger] dest[start + k] == le_byte(word, k)
}

/// `dest` is filled with the little-endian bytes of `words[0]`,
/// `words[1]`, ...: byte `i` is byte `i % 4` of word `i / 4`.
pub open spec fn filled_with(dest: Seq<u8>, words: spec_fn(int) -> u32) -> bool {
    forall|i: int| 0 <= i < dest.len() ==> #[trigger] dest[i] == le_byte(words(i / 4), i % 4)
}

/// The number of 32-bit words needed to fill `n` bytes.
pub open spec fn words_for(n: int) -> int {
    (n + 3) / 4
}

/// Writes the little-endian bytes of `word` at `start`, as many as fit.
fn write_word_le(dest: &mut [u8], start: usize, word: u32)
    requires
        start < old(dest)@.len(),
    ensures
        final(dest)@.len() == old(dest)@.len(),
        holds_word_at(final(dest)@, start as int, word),
        forall|i: int| 0 <= i < old(dest)@.len() && !(start <= i < start + 4) ==> #[trigger] final(dest)@[i] == old(dest)@[i],
{
    let len = dest.len();
    let mut k: usize = 0;
    while k < 4 && k < len - start
        invariant
            start < len,
            len == dest@.len(),
            dest@.len() == old(dest)@.len(),
            k <= 4,
            forall|j: int| 0 <= j < k && start + j < len ==> #[trigger] dest@[start + j] == le_byte(word, j),
            forall|i: int| 0 <= i < len && !(start <= i < start + k) ==> #[trigger] dest@[i] == old(dest)@[i],
        decreases 4 - k,
    {
        let shift: u32 = 8 * k as u32;
        let byte: u8 = ((word >> shift) & 0xff) as u8;
        dest[start + k] = byte;
        k += 1;
    }
}

/// A source of pseudo-random 32-bit words.
///
/// An implementation describes its stream: `word(k)` is the word it draws
/// `k` steps from now and `after(k)` the generator `k` steps from now.
pub trait Rng: Sized {
    /// The word drawn `k` steps from the current state.
    spec fn word(&self, k: nat) -> u32;

    /// The generator `k` steps from the current state.
    spec fn after(&self, k: nat) -> Self;

    /// Stepping `j` times and then looking `k` further is looking `j + k`
    /// ahead.
    proof fn lemma_stream(&self, j: nat, k: nat)
        ensures
            self.after(0) == *self,
            self.after(j).word(k) == self.word(j + k),
            self.after(j).after(k) == self.after(j + k),
    ;

    /// The next word of the stream.
    fn next_u32(&mut self) -> (r: u32)
        ensures
            r == old(self).word(0),
            *final(self) == old(self).after(1),
    ;

    /// The next 64 bits: the first word drawn is the high half, the second
    /// the low half.
    fn next_u64(&mut self) -> (r: u64)
        default_ensures
            r == ((old(self).word(0) as u64) << 32u64) | (old(self).word(1) as u64),
            *final(self) == old(self).after(2),
    {
        let ghost start = *self;
        let hi = self.next_u32();
        let lo = self.next_u32();
        proof {
            start.lemma_stream(1, 0);
            start.lemma_stream(1, 1);
        }
        ((hi as u64) << 32u64) | (lo as u64)
    }

    /// Fills `dest` with the little-endian bytes of successive words; the
    /// last word is cut to the bytes that remain.
    fn fill_bytes(&mut self, dest: &mut [u8])
        ensures
            final(dest)@.len() == old(dest)@.len(),
            filled_with(final(dest)@, |k: int| old(self).word(k as nat)),
            *final(self) == old(self).after(words_for(old(dest)@.len() as int) as nat),
    {
        let ghost start = *self;
        let len = dest.len();
        let mut i: usize = 0;
        let mut n: usize = 0;
        proof {
            start.lemma_stream(0, 0);
        }
        while i < len
            invariant
                len == dest@.len(),
                dest@.len() == old(dest)@.len(),
                i <= len,
                i % 4 == 0 || i == len,
                n == words_for(i as int),
                *self == start.after(n as nat),
                forall|j: int| 0 <= j < i ==> #[trigger] dest@[j] == le_byte(start.word((j / 4) as nat), j % 4),
            decreases len - i,
        {
            let ghost before = *self;
            let w = self.next_u32();
            proof {
                start.lemma_stream(n as nat, 0);
                start.lemma_stream(n as nat, 1);
            }
            assert(n == i / 4);
            assert(w == start.word(n as nat));
            write_word_le(dest, i, w);
            let step: usize = if len - i < 4 {
                len - i
            } else {
                4
            };
            assert forall|j: int| 0 <= j < i + step implies #[trigger] dest@[j] == le_byte(
                start.word((j / 4) as nat),
                j % 4,
            ) by {
                if j >= i {
                    assert(dest@[i + (j - i)] == le_byte(w, j - i));
                }
            }
            i = i + step;
            n = n + 1;
        }
        assert(filled_with(dest@, |k: int| start.word(k as nat)));
    }
}

/// Generators that can be built from a 64-bit seed.
pub trait SeedableRng: Sized {
    /// The generator for `seed`.
    fn from_seed(seed: u64) -> Self;

    /// The same generator as [`SeedableRng::from_seed`].
    fn seed_from_u64(seed: u64) -> (r: Self)
        ensures
            call_ensures(Self::from_seed, (seed,), r),
    {
        Self::from_seed(seed)
    }
}

/// The state used in place of zero, which xorshift never leaves.
pub const XORSHIFT_FALLBACK: u64 = 0x9E37_79B9_7F4A_7C15;

/// One xorshift64 step (shifts 13, 7, 17).
pub open spec fn xorshift(x: u64) -> u64 {
    let a = x ^ (x << 13u64);
    let b = a ^ (a >> 7u64);
    b ^ (b << 17u64)
}

/// `x`, or the fallback state when `x` is zero.
pub open spec fn nonzero_state(x: u64) -> u64 {
    if x == 0 {
        XORSHIFT_FALLBACK
    } else {
        x
    }
}

/// The state after `k` steps from state `s`.
pub open spec fn xorshift_state(s: u64, k: nat) -> u64
    decreases k,
{
    if k == 0 {
        s
    } else {
        nonzero_state(xorshift(xorshift_state(s, (k - 1) as nat)))
    }
}

/// The 32-bit word drawn at step `k` from state `s`: the high half of the
/// 64-bit output.
pub open spec fn xorshift_word(s: u64, k: int) -> u32 {
    (xorshift(xorshift_state(s, k as nat)) >> 32u64) as u32
}

/// The xorshift64 generator.
#[derive(Debug, Copy, PartialEq, Eq)]
pub struct XorShift64 {
    state: u64,
}

impl View for XorShift64 {
    type V = u64;

    /// The current state.
    closed spec fn view(&self) -> u64 {
        self.state
    }
}

impl XorShift64 {
    #[verifier::type_invariant]
    spec fn nonzero(self) -> bool {
        self.state != 0
    }

    /// A generator started at `state`; a zero state, from which xorshift
    /// would only produce zeros, is replaced by the fallback.
    pub fn new(state: u64) -> (r: Self)
        ensures
            r@ == nonzero_state(state),
    {
        let state = if state == 0 {
            XORSHIFT_FALLBACK
        } else {
            state
        };
        XorShift64 { state }
    }

    /// The state is never zero.
    pub fn state(&self) -> (s: u64)
        ensures
            s == self@,
            s != 0,
    {
        proof {
            use_type_invariant(self);
        }
        self.state
    }
}

impl Clone for XorShift64 {
    fn clone(&self) -> (r: Self)
        ensures
            r == *self,
    {
        *self
    }
}

impl SeedableRng for XorShift64 {
    fn from_seed(seed: u64) -> (r: Self)
        ensures
            r@ == nonzero_state(seed),
    {
        Self::new(seed)
    }
}

/// Taking `j` steps and then `k` more is taking `j + k` steps.
proof fn lemma_xorshift_state_add(s: u64, j: nat, k: nat)
    ensures
        xorshift_state(xorshift_state(s, j), k) == xorshift_state(s, j + k),
    decreases k,
{
    if k > 0 {
        lemma_xorshift_state_add(s, j, (k - 1) as nat);
    }
}

impl XorShift64 {
    /// The generator at state `s`.
    closed spec fn at_state(s: u64) -> XorShift64 {
        XorShift64 { state: s }
    }

    /// The generator `k` steps ahead is at the state `k` steps ahead.
    pub proof fn lemma_after(&self, k: nat)
        ensures
            self.after(k)@ == xorshift_state(self@, k),
    {
    }
}

impl Rng for XorShift64 {
    open spec fn word(&self, k: nat) -> u32 {
        xorshift_word(self@, k as int)
    }

    closed spec fn after(&self, k: nat) -> Self {
        XorShift64::at_state(xorshift_state(self@, k))
    }

    proof fn lemma_stream(&self, j: nat, k: nat) {
        lemma_xorshift_state_add(self@, j, k);
    }

    fn next_u32(&mut self) -> (r: u32)
        ensures
            r == xorshift_word(old(self)@, 0),
            final(self)@ == xorshift_state(old(self)@, 1),
    {
        let x = self.next_u64();
        assert(xorshift_state(old(self)@, 0) == old(self)@);
        (x >> 32u64) as u32
    }

    fn next_u64(&mut self) -> (r: u64)
        ensures
            r == xorshift(old(self)@),
            final(self)@ == nonzero_state(r),
    {
        let mut x = self.state;
        x ^= x << 13u64;
        x ^= x >> 7u64;
        x ^= x << 17u64;
        let next = if x == 0 {
            XORSHIFT_FALLBACK
        } else {
            x
        };
        self.state = next;
        x
    }
}

/// Equal states give equal streams: the words drawn from a state depend on
/// the state alone.
pub proof fn law_xorshift_deterministic(a: XorShift64, b: XorShift64, k: int)
    requires
        a@ == b@,
    ensures
        xorshift_word(a@, k) == xorshift_word(b@, k),
        xorshift_state(a@, k as nat) == xorshift_state(b@, k as nat),
{
}

/// The first 32-bit word of a xorshift generator is the high half of its
/// first 64-bit output, so `next_u32` and `next_u64` agree.
pub proof fn law_xorshift_word_is_high_half(s: u64)
    ensures
        xorshift_word(s, 0) == (xorshift(s) >> 32u64) as u32,
{
    assert(xorshift_state(s, 0) == s);
}

/// The state after a step is never zero, so the generator never gets stuck
/// at zero.
pub proof fn law_xorshift_state_nonzero(s: u64, k: nat)
    requires
        s != 0,
    ensures
        xorshift_state(s, k) != 0,
    decreases k,
{
    if k > 0 {
        law_xorshift_state_nonzero(s, (k - 1) as nat);
    }
}

/// One xorshift step is injective: distinct states have distinct successors,
/// so no two states of a stream ever merge.
pub proof fn law_xorshift_step_injective(a: u64, b: u64)
    ensures
        xorshift(a) == xorshift(b) ==> a == b,
{
    let (a1, b1) = (a ^ (a << 13u64), b ^ (b << 13u64));
    let (a2, b2) = (a1 ^ (a1 >> 7u64), b1 ^ (b1 >> 7u64));
    assert(a2 ^ (a2 << 17u64) == b2 ^ (b2 << 17u64) ==> a2 == b2) by (bit_vector);
    assert(a1 ^ (a1 >> 7u64) == b1 ^ (b1 >> 7u64) ==> a1 == b1) by (bit_vector);
    assert(a ^ (a << 13u64) == b ^ (b << 13u64) ==> a == b) by (bit_vector);
}

/// One step from a nonzero state is one xorshift step, to a nonzero state.
proof fn lemma_xorshift_nonzero_step(a: u64)
    requires
        a != 0,
    ensures
        xorshift(a) != 0,
        nonzero_state(xorshift(a)) == xorshift(a),
{
    assert(xorshift(0u64) == 0u64) by (bit_vector);
    law_xorshift_step_injective(a, 0u64);
}

/// Two equal states of one stream, `i` and `j` steps from its nonzero start
/// (`i <= j`), mean the stream is back at its start after `j - i` steps.
proof fn lemma_xorshift_cancel(s: u64, i: nat, j: nat)
    requires
        s != 0,
        i <= j,
        xorshift_state(s, i) == xorshift_state(s, j),
    ensures
        xorshift_state(s, (j - i) as nat) == s,
    decreases i,
{
    if i > 0 {
        let a = xorshift_state(s, (i - 1) as nat);
        let b = xorshift_state(s, (j - 1) as nat);
        law_xorshift_state_nonzero(s, (i - 1) as nat);
        law_xorshift_state_nonzero(s, (j - 1) as nat);
        lemma_xorshift_nonzero_step(a);
        lemma_xorshift_nonzero_step(b);
        law_xorshift_step_injective(a, b);
        lemma_xorshift_cancel(s, (i - 1) as nat, (j - 1) as nat);
    }
}

/// From any nonzero state the xorshift stream comes back to that state
/// within `2^64 - 1` steps: the stream is purely periodic, with a period of
/// at most `2^64 - 1`.
pub proof fn law_xorshift_returns_to_start(s: u64)
    requires
        s != 0,
    ensures
        exists|k: nat| 0 < k <= 0xFFFF_FFFF_FFFF_FFFFnat && #[trigger] xorshift_state(s, k) == s,
{
    let steps = set_int_range(0, 0x1_0000_0000_0000_0000int);
    let values = set_int_range(1, 0x1_0000_0000_0000_0000int);
    let f = |k: int| xorshift_state(s, k as nat) as int;
    lemma_int_range(0, 0x1_0000_0000_0000_0000int);
    lemma_int_range(1, 0x1_0000_0000_0000_0000int);
    assert forall|v: int| #[trigger] steps.map(f).contains(v) implies values.contains(v) by {
        let k = choose|k: int| steps.contains(k) && v == f(k);
        law_xorshift_state_nonzero(s, k as nat);
    }
    lemma_len_subset(steps.map(f), values);
    if injective_on(f, steps) {
        lemma_map_size(steps, steps.map(f), f);
        assert(false);
    }
    let (i, j) = choose|i: int, j: int|
        steps.contains(i) && steps.contains(j) && #[trigger] f(i) == #[trigger] f(j) && i != j;
    if i < j {
        lemma_xorshift_cancel(s, i as nat, j as nat);
        assert(xorshift_state(s, (j - i) as nat) == s);
    } else {
        lemma_xorshift_cancel(s, j as nat, i as nat);
        assert(xorshift_state(s, (i - j) as nat) == s);
    }
}

/// A zero seed starts the stream at the fallback state
/// `0x9E37_79B9_7F4A_7C15`, any other seed at itself; from a nonzero state
/// each step is exactly one xorshift step, so the fallback is never used
/// again.
pub proof fn law_xorshift_seeding(seed: u64, s: u64)
    ensures
        XORSHIFT_FALLBACK == 0x9E37_79B9_7F4A_7C15u64,
        seed == 0 ==> nonzero_state(seed) == 0x9E37_79B9_7F4A_7C15u64,
        seed != 0 ==> nonzero_state(seed) == seed,
        s != 0 ==> xorshift_state(s, 1) == xorshift(s),
{
    if s != 0 {
        lemma_xorshift_nonzero_step(s);
        assert(xorshift_state(s, 0) == s);
    }
}

/// The PCG32 multiplier.
pub const PCG_MULTIPLIER: u64 = 6_364_136_223_846_793_005;

/// The increment used by [`SeedableRng::from_seed`].
pub const PCG_DEFAULT_INC: u64 = 0x5851_F42D_4C95_7F2D;

/// `x` rotated right by `r` bits (taken modulo 32).
pub open spec fn rotr32(x: u32, r: u32) -> u32 {
    if r % 32 == 0 {
        x
    } else {
        (x >> (r % 32)) | (x << ((32 - r % 32) as u32))
    }
}

/// Rotating right by `r` moves bit `(i + r) % 32` of `x` to bit `i`, for
/// every `r`: no bit is lost, so a rotation by a multiple of 32 gives `x`
/// back and a nonzero word never becomes zero.
pub proof fn law_rotr32_moves_bits(x: u32, r: u32, i: u32)
    requires
        i < 32,
    ensures
        (rotr32(x, r) >> i) & 1u32 == (x >> ((i + r % 32) % 32) as u32) & 1u32,
        rotr32(x, r) == (x >> (r % 32)) | (x << ((32 - r % 32) % 32) as u32),
{
    let s = r % 32;
    assert(s < 32);
    assert(rotr32(x, r) == (x >> s) | (x << ((32 - s) % 32) as u32)) by (bit_vector)
        requires
            s < 32,
            rotr32(x, r) == (if s == 0 { x } else { (x >> s) | (x << ((32 - s) as u32)) }),
    ;
    assert((rotr32(x, r) >> i) & 1u32 == (x >> ((i + s) % 32) as u32) & 1u32) by (bit_vector)
        requires
            i < 32,
            s < 32,
            rotr32(x, r) == (if s == 0 { x } else { (x >> s) | (x << ((32 - s) as u32)) }),
    ;
}

/// `x` rotated right by `r` bits (taken modulo 32).
fn rotate_right_u32(x: u32, r: u32) -> (y: u32)
    ensures
        y == rotr32(x, r),
{
    let s = r % 32;
    if s == 0 {
        x
    } else {
        (x >> s) | (x << (32 - s))
    }
}

/// The state after one step from `s` with increment `inc`.
pub open spec fn pcg_step(s: u64, inc: u64) -> u64 {
    vstd::wrapping::u64_specs::wrapping_add(vstd::wrapping::u64_specs::wrapping_mul(s, PCG_MULTIPLIER), inc)
}

/// The word output from state `s` (XSH-RR).
#[verifier::opaque]
pub open spec fn pcg_output(s: u64) -> u32 {
    rotr32((((s >> 18u64) ^ s) >> 27u64) as u32, (s >> 59u64) as u32)
}

/// The XSH-RR output of state `s`.
fn output_of(s: u64) -> (r: u32)
    ensures
        r == pcg_output(s),
{
    let xorshifted = (((s >> 18u64) ^ s) >> 27u64) as u32;
    let rot = (s >> 59u64) as u32;
    proof {
        reveal(pcg_output);
    }
    rotate_right_u32(xorshifted, rot)
}

/// The state after `k` steps.
pub open spec fn pcg_state(s: u64, inc: u64, k: nat) -> u64
    decreases k,
{
    if k == 0 {
        s
    } else {
        pcg_step(pcg_state(s, inc, (k - 1) as nat), inc)
    }
}

/// The word drawn at step `k`.
pub open spec fn pcg_word(s: u64, inc: u64, k: int) -> u32 {
    pcg_output(pcg_state(s, inc, k as nat))
}

/// The state a generator seeded with `seed` starts from.
pub open spec fn pcg_seeded_state(seed: u64) -> u64 {
    let s = pcg_step(vstd::wrapping::u64_specs::wrapping_add(seed, PCG_DEFAULT_INC), PCG_DEFAULT_INC);
    pcg_step(s, PCG_DEFAULT_INC)
}

/// Equal states and increments give equal streams.
pub proof fn law_pcg_deterministic(a: Pcg32, b: Pcg32, k: int)
    requires
        a@ == b@,
    ensures
        pcg_word(a@.0, a@.1, k) == pcg_word(b@.0, b@.1, k),
{
}

/// The PCG32 (XSH-RR) generator.
#[derive(Debug, Copy, PartialEq, Eq)]
pub struct Pcg32 {
    state: u64,
    inc: u64,
}

impl View for Pcg32 {
    type V = (u64, u64);

    /// The state and the increment.
    closed spec fn view(&self) -> (u64, u64) {
        (self.state, self.inc)
    }
}

impl Pcg32 {
    #[verifier::type_invariant]
    spec fn odd_increment(self) -> bool {
        self.inc % 2 == 1
    }

    /// A generator at `state` with increment `inc`, forced odd.
    pub fn new(state: u64, inc: u64) -> (r: Self)
        ensures
            r@.0 == state,
            r@.1 == inc | 1,
            r@.1 % 2 == 1,
    {
        assert((inc | 1) % 2 == 1) by (bit_vector);
        Pcg32 { state, inc: inc | 1 }
    }

    /// The increment, which is always odd.
    pub fn increment(&self) -> (inc: u64)
        ensures
            inc == self@.1,
            inc % 2 == 1,
    {
        proof {
            use_type_invariant(self);
        }
        self.inc
    }

    /// Sets the state to `seed + inc` and advances once.
    fn reseed(&mut self, seed: u64)
        ensures
            final(self)@.1 == old(self)@.1,
            final(self)@.0 == pcg_step(vstd::wrapping::u64_specs::wrapping_add(seed, old(self)@.1), old(self)@.1),
    {
        proof {
            use_type_invariant(&*self);
        }
        self.state = seed.wrapping_add(self.inc);
        self.state = self.state.wrapping_mul(PCG_MULTIPLIER).wrapping_add(self.inc);
    }
}

impl Clone for Pcg32 {
    fn clone(&self) -> (r: Self)
        ensures
            r == *self,
    {
        *self
    }
}

impl SeedableRng for Pcg32 {
    fn from_seed(seed: u64) -> (r: Self)
        ensures
            r@ == (pcg_seeded_state(seed), PCG_DEFAULT_INC),
    {
        let mut rng = Pcg32::new(0, PCG_DEFAULT_INC);
        assert((PCG_DEFAULT_INC | 1) == PCG_DEFAULT_INC) by (bit_vector);
        rng.reseed(seed);
        let _ = rng.next_u32();
        rng.reseed(seed);
        let _ = rng.next_u32();
        rng
    }
}

/// Taking `j` steps and then `k` more is taking `j + k` steps.
proof fn lemma_pcg_state_add(s: u64, inc: u64, j: nat, k: nat)
    ensures
        pcg_state(pcg_state(s, inc, j), inc, k) == pcg_state(s, inc, j + k),
    decreases k,
{
    if k > 0 {
        lemma_pcg_state_add(s, inc, j, (k - 1) as nat);
    }
}

impl Pcg32 {
    /// The generator at state `s` with increment `inc`.
    closed spec fn at_state(s: u64, inc: u64) -> Pcg32 {
        Pcg32 { state: s, inc }
    }

    /// The generator `k` steps ahead keeps its increment and is at the state
    /// `k` steps ahead.
    pub proof fn lemma_after(&self, k: nat)
        ensures
            self.after(k)@ == (pcg_state(self@.0, self@.1, k), self@.1),
    {
    }
}

impl Rng for Pcg32 {
    open spec fn word(&self, k: nat) -> u32 {
        pcg_word(self@.0, self@.1, k as int)
    }

    closed spec fn after(&self, k: nat) -> Self {
        Pcg32::at_state(pcg_state(self@.0, self@.1, k), self@.1)
    }

    proof fn lemma_stream(&self, j: nat, k: nat) {
        lemma_pcg_state_add(self@.0, self@.1, j, k);
    }

    fn next_u32(&mut self) -> (r: u32)
        ensures
            r == pcg_output(old(self)@.0),
            final(self)@ == (pcg_step(old(self)@.0, old(self)@.1), old(self)@.1),
    {
        proof {
            use_type_invariant(&*self);
        }
        let old_state = self.state;
        self.state = old_state.wrapping_mul(PCG_MULTIPLIER).wrapping_add(self.inc);
        let r = output_of(old_state);
        proof {
            assert(pcg_state(old(self)@.0, old(self)@.1, 0) == old(self)@.0);
            assert(pcg_state(old(self)@.0, old(self)@.1, 1) == pcg_step(old(self)@.0, old(self)@.1));
            assert(r == old(self).word(0));
            assert(old(self).after(1) == Pcg32::at_state(pcg_state(old(self)@.0, old(self)@.1, 1), old(self)@.1));
        }
        r
    }
}

} // verus!
