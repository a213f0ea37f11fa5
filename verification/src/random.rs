use vstd::prelude::*;

verus! {

/// Multiplier of the 48-bit linear congruential generator.
pub const LCG_MULTIPLIER: i64 = 25214903917i64;

/// Increment of the 48-bit linear congruential generator.
pub const LCG_INCREMENT: i64 = 11i64;

/// Mask keeping the low 48 bits of the generator state.
pub const LCG_MASK: i64 = 281474976710655i64;

/// The scrambled 48-bit state for a seed.
pub open spec fn lcg_scramble(seed: i64) -> i64 {
    (seed ^ LCG_MULTIPLIER) & LCG_MASK
}

/// One step of the 48-bit linear congruential generator (64-bit wrapping
/// arithmetic, then the low 48 bits).
#[verifier::opaque]
pub open spec fn lcg_step(state: i64) -> i64 {
    (state.wrapping_mul(LCG_MULTIPLIER).wrapping_add(LCG_INCREMENT)) & LCG_MASK
}

/// The top `bits` bits of a 48-bit state, as returned by `next(bits)`.
pub open spec fn lcg_bits(state: i64, bits: i32) -> i32 {
    (state >> ((48 - bits) as i64)) as i32
}

/// Outcome of the rejection loop of `next_int` for a bound that is not a
/// power of two, starting from state `state`: the returned value and the
/// final state. `None` if `fuel` extra draws do not suffice, or if the
/// acceptance test overflows `i32`.
pub open spec fn lcg_bounded_loop(state: i64, bound: i32, fuel: nat) -> Option<(i32, i64)>
    decreases fuel,
{
    let s1 = lcg_step(state);
    let i = lcg_bits(s1, 31);
    let j = i % bound;
    let test = i - j + (bound - 1);
    if test > i32::MAX {
        None
    } else if test >= 0 {
        Some((j as i32, s1))
    } else if fuel == 0 {
        None
    } else {
        lcg_bounded_loop(s1, bound, (fuel - 1) as nat)
    }
}

/// Whether `bound` takes the power-of-two path of `next_int` (0 does too).
pub open spec fn is_pow2_bound(bound: i32) -> bool {
    bound & ((bound - 1) as i32) == 0
}

/// Whether `next_int(bound)` returns from state `state` (no overflow, and the
/// rejection loop ends).
pub open spec fn lcg_next_int_returns(state: i64, bound: i32) -> bool {
    bound != i32::MIN && (is_pow2_bound(bound) || exists|fuel: nat|
        #[trigger] lcg_bounded_loop(state, bound, fuel) is Some)
}

/// The value and final state of `next_int(bound)` from state `state`.
pub open spec fn lcg_next_int(state: i64, bound: i32) -> (i32, i64) {
    if is_pow2_bound(bound) {
        let s1 = lcg_step(state);
        (((((bound as i64) * (lcg_bits(s1, 31) as i64)) as i64) >> 31i64) as i32, s1)
    } else {
        lcg_bounded_loop(
            state,
            bound,
            choose|fuel: nat| #[trigger] lcg_bounded_loop(state, bound, fuel) is Some,
        ).unwrap()
    }
}

/// The exact sum `hi * 2^32 + lo` formed by `next_long` from two 32-bit
/// draws (both sign-extended).
pub open spec fn lcg_long_sum(state: i64) -> int {
    let s1 = lcg_step(state);
    let s2 = lcg_step(s1);
    (lcg_bits(s1, 32) as int) * 0x1_0000_0000 + (lcg_bits(s2, 32) as int)
}

/// Whether `next_long` stays within `i64` (it overflows only when the first
/// draw is `i32::MIN` and the second is negative).
pub open spec fn lcg_long_fits(state: i64) -> bool {
    i64::MIN <= lcg_long_sum(state)
}

/// The 64-bit value returned by `next_long`.
pub open spec fn lcg_long(state: i64) -> i64 {
    lcg_long_sum(state) as i64
}

/// Every state reached by a step is a 48-bit value.
pub proof fn lemma_lcg_step_range(state: i64)
    ensures
        0 <= lcg_step(state) < 0x1_0000_0000_0000,
{
    reveal(lcg_step);
    let x = state.wrapping_mul(LCG_MULTIPLIER).wrapping_add(LCG_INCREMENT);
    assert(0 <= x & 281474976710655i64 < 0x1_0000_0000_0000i64) by (bit_vector);
}

/// For a 48-bit state, the top 31 bits form a non-negative `i32` equal to
/// the state divided by `2^17`.
proof fn lemma_lcg_bits31(v: i64)
    requires
        0 <= v < 0x1_0000_0000_0000,
    ensures
        0 <= lcg_bits(v, 31) < 0x8000_0000,
        lcg_bits(v, 31) as int == v as int / 0x2_0000,
{
    assert(0 <= ((v >> 17i64) as i32) && ((v >> 17i64) as i32) as i64 == v / 0x2_0000i64)
        by (bit_vector)
        requires
            0 <= v < 0x1_0000_0000_0000i64,
    ;
}

/// A value that the rejection loop accepts lies in `[0, bound)`.
proof fn lemma_bounded_loop_range(state: i64, bound: i32, fuel: nat)
    requires
        0 < bound,
        lcg_bounded_loop(state, bound, fuel) is Some,
    ensures
        0 <= lcg_bounded_loop(state, bound, fuel).unwrap().0 < bound,
    decreases fuel,
{
    let s1 = lcg_step(state);
    lemma_lcg_step_range(state);
    lemma_lcg_bits31(s1);
    let i = lcg_bits(s1, 31);
    let test = i - i % bound + (bound - 1);
    if test < 0 && fuel > 0 {
        lemma_bounded_loop_range(s1, bound, (fuel - 1) as nat);
    }
}

/// `next_int` with a positive bound returns a value in `[0, bound)`.
pub proof fn lemma_next_int_in_range(state: i64, bound: i32)
    requires
        0 < bound,
        lcg_next_int_returns(state, bound),
    ensures
        0 <= lcg_next_int(state, bound).0 < bound,
{
    let s1 = lcg_step(state);
    lemma_lcg_step_range(state);
    lemma_lcg_bits31(s1);
    if is_pow2_bound(bound) {
        let b = bound as i64;
        let v = lcg_bits(s1, 31) as i64;
        assert(0 <= b * v < b * 0x8000_0000int) by (nonlinear_arith)
            requires
                0 < b < 0x8000_0000,
                0 <= v < 0x8000_0000,
        ;
        let x = (b * v) as i64;
        assert(x == b * v);
        assert(x >> 31i64 == x / 0x8000_0000i64) by (bit_vector)
            requires
                0 <= x,
        ;
        assert(0 <= x / 0x8000_0000i64 < b) by (nonlinear_arith)
            requires
                0 <= x < b * 0x8000_0000,
                0 < b,
        ;
    } else {
        let fuel = choose|fuel: nat| #[trigger] lcg_bounded_loop(state, bound, fuel) is Some;
        lemma_bounded_loop_range(state, bound, fuel);
    }
}

/// The state after `n` steps.
pub open spec fn lcg_iter(state: i64, n: nat) -> i64
    decreases n,
{
    if n == 0 {
        state
    } else {
        lcg_iter(lcg_step(state), (n - 1) as nat)
    }
}

proof fn lemma_lcg_iter_succ(state: i64, n: nat)
    ensures
        lcg_iter(state, n + 1) == lcg_step(lcg_iter(state, n)),
    decreases n,
{
    if n > 0 {
        lemma_lcg_iter_succ(lcg_step(state), (n - 1) as nat);
    } else {
        assert(lcg_iter(lcg_step(state), 0) == lcg_step(state));
    }
}

/// The legacy 48-bit linear congruential generator.
#[derive(Clone, Copy, Debug)]
pub struct CheckedRandom {
    seed: i64,
}

impl View for CheckedRandom {
    type V = i64;

    /// The 48-bit generator state.
    closed spec fn view(&self) -> i64 {
        self.seed
    }
}

impl CheckedRandom {
    /// A generator whose state is the seed scrambled with the multiplier and
    /// cut to 48 bits.
    pub fn new(seed: i64) -> (r: Self)
        ensures
            r@ == lcg_scramble(seed),
    {
        let mut rng = Self { seed: 0 };
        rng.set_seed(seed);
        rng
    }

    /// Resets the state to the scrambled seed.
    pub fn set_seed(&mut self, s: i64)
        ensures
            final(self)@ == lcg_scramble(s),
    {
        self.seed = (s ^ LCG_MULTIPLIER) & LCG_MASK;
    }

    /// Steps the generator and returns the top `bits` of the 48-bit state.
    pub fn next(&mut self, bits: i32) -> (r: i32)
        requires
            -15 <= bits <= 48,
        ensures
            final(self)@ == lcg_step(old(self)@),
            r == lcg_bits(lcg_step(old(self)@), bits),
    {
        proof {
            reveal(lcg_step);
        }
        self.seed = (self.seed.wrapping_mul(LCG_MULTIPLIER).wrapping_add(LCG_INCREMENT)) & LCG_MASK;
        (self.seed >> (48 - bits)) as i32
    }

    /// The 53-bit integer behind `next_double`: 26 bits then 27 bits; the
    /// double is this value divided by `2^53`.
    pub fn next_double_bits(&mut self) -> (r: u64)
        ensures
            final(self)@ == lcg_iter(old(self)@, 2),
            r == (((lcg_bits(lcg_step(old(self)@), 26) as u64) << 27u64) | (lcg_bits(
                lcg_iter(old(self)@, 2),
                27,
            ) as u64)),
    {
        proof {
            lemma_lcg_iter_succ(self@, 0);
            lemma_lcg_iter_succ(self@, 1);
        }
        let hi = self.next(26) as u64;
        let lo = self.next(27) as u64;
        (hi << 27u64) | lo
    }

    /// A value in `[0, bound)` for a positive bound: multiply-and-shift for a
    /// power of two, otherwise `next(31) % bound` with rejection.
    pub fn next_int(&mut self, bound: i32) -> (r: i32)
        requires
            lcg_next_int_returns(old(self)@, bound),
        ensures
            r == lcg_next_int(old(self)@, bound).0,
            final(self)@ == lcg_next_int(old(self)@, bound).1,
    {
        if bound & (bound - 1) == 0 {
            self.next_int_pow2(bound)
        } else {
            self.next_int_rejecting(bound)
        }
    }

    fn next_int_pow2(&mut self, bound: i32) -> (r: i32)
        requires
            is_pow2_bound(bound),
        ensures
            r == lcg_next_int(old(self)@, bound).0,
            final(self)@ == lcg_next_int(old(self)@, bound).1,
    {
        proof {
            lemma_lcg_step_range(self@);
            lemma_lcg_bits31(lcg_step(self@));
        }
        let v = self.next(31) as i64;
        let b = bound as i64;
        assert(-0x4000_0000_0000_0000 <= b * v <= 0x4000_0000_0000_0000) by (nonlinear_arith)
            requires
                -0x8000_0000 <= b < 0x8000_0000,
                0 <= v < 0x8000_0000,
        ;
        ((b * v) >> 31) as i32
    }

    fn next_int_rejecting(&mut self, bound: i32) -> (r: i32)
        requires
            !is_pow2_bound(bound),
            bound != i32::MIN,
            exists|fuel: nat| #[trigger] lcg_bounded_loop(old(self)@, bound, fuel) is Some,
        ensures
            r == lcg_next_int(old(self)@, bound).0,
            final(self)@ == lcg_next_int(old(self)@, bound).1,
    {
        let ghost s0 = self@;
        let ghost fuel0 = choose|fuel: nat| #[trigger] lcg_bounded_loop(s0, bound, fuel) is Some;
        let ghost target = lcg_bounded_loop(s0, bound, fuel0);
        let ghost mut fuel: nat = fuel0;
        assert(target.unwrap() == lcg_next_int(s0, bound));
        assert(bound != 0) by (bit_vector)
            requires
                bound & ((bound - 1) as i32) != 0i32,
        ;
        loop
            invariant
                target is Some,
                target.unwrap() == lcg_next_int(s0, bound),
                s0 == old(self)@,
                bound != 0,
                bound != i32::MIN,
                lcg_bounded_loop(self@, bound, fuel) == target,
            decreases fuel,
        {
            proof {
                lemma_lcg_step_range(self@);
                lemma_lcg_bits31(lcg_step(self@));
            }
            let ghost before = self@;
            let i = self.next(31);
            let j = i % bound;
            assert(0 <= i);
            assert(j == i % bound);
            assert(lcg_bounded_loop(before, bound, fuel) == target);
            assert(i == lcg_bits(lcg_step(before), 31));
            assert(i - j + (bound - 1) <= i32::MAX);
            assert(0 <= j <= i) by (nonlinear_arith)
                requires
                    0 <= i,
                    bound != 0,
                    j == i % bound,
            ;
            if i - j + (bound - 1) >= 0 {
                return j;
            }
            proof {
                fuel = (fuel - 1) as nat;
            }
        }
    }

    /// Two 32-bit draws combined as `(hi << 32) + lo`, with `lo` sign-extended.
    pub fn next_long(&mut self) -> (r: i64)
        requires
            lcg_long_fits(old(self)@),
        ensures
            r == lcg_long(old(self)@),
            r as int == (lcg_bits(lcg_step(old(self)@), 32) as int) * 0x1_0000_0000 + (lcg_bits(
                lcg_iter(old(self)@, 2),
                32,
            ) as int),
            final(self)@ == lcg_iter(old(self)@, 2),
    {
        proof {
            lemma_lcg_iter_succ(self@, 0);
            lemma_lcg_iter_succ(self@, 1);
        }
        let a = self.next(32) as i64;
        assert(a << 32i64 == a * 0x1_0000_0000i64) by (bit_vector)
            requires
                -0x8000_0000i64 <= a < 0x8000_0000i64,
        ;
        let i = a << 32;
        let j = self.next(32) as i64;
        i + j
    }

    /// Advances the generator by two steps `n` times (none when `n <= 0`).
    pub fn skip(&mut self, n: i64)
        ensures
            final(self)@ == lcg_iter(old(self)@, if n < 0 { 0nat } else { 2 * n as nat }),
    {
        let ghost start = self@;
        let mut k: i64 = 0;
        while k < n
            invariant
                0 <= k,
                n >= 0 ==> k <= n,
                n < 0 ==> k == 0,
                self@ == lcg_iter(start, 2 * k as nat),
            decreases n - k,
        {
            proof {
                lemma_lcg_iter_succ(start, 2 * k as nat);
                lemma_lcg_iter_succ(start, 2 * k as nat + 1);
            }
            self.next(32);
            self.next(32);
            k = k + 1;
        }
    }

    /// A splitter seeded with the next 64-bit value.
    pub fn next_splitter(&mut self) -> (r: RandomSplitter)
        requires
            lcg_long_fits(old(self)@),
        ensures
            r@ == lcg_long(old(self)@),
            final(self)@ == lcg_iter(old(self)@, 2),
    {
        RandomSplitter::new(self.next_long())
    }
}

/// Positional hash of block coordinates used by `RandomSplitter::split`.
pub open spec fn position_hash(x: i32, y: i32, z: i32) -> i64 {
    let h0 = (x as i64).wrapping_mul(3129871i64) ^ (z as i64).wrapping_mul(116129781i64);
    let h1 = h0 ^ (y as i64);
    let h2 = h1.wrapping_mul(h1).wrapping_mul(42317861i64).wrapping_add(h1.wrapping_mul(11i64));
    h2 >> 16i64
}

/// Java's `String.hashCode` over the characters of a string:
/// `h = 31 * h + c` with 32-bit wrapping arithmetic.
pub open spec fn java_hash(cs: Seq<char>) -> i32
    decreases cs.len(),
{
    if cs.len() == 0 {
        0
    } else {
        java_hash(cs.drop_last()).wrapping_mul(31i32).wrapping_add(cs.last() as i32)
    }
}

/// Java's `String.hashCode` computed over the characters of `s`.
pub fn java_str_hash_code(s: &str) -> (h: i32)
    ensures
        h == java_hash(s@),
{
    let mut h: i32 = 0;
    let n = s.unicode_len();
    let mut i: usize = 0;
    while i < n
        invariant
            i <= n,
            n == s@.len(),
            h == java_hash(s@.subrange(0, i as int)),
        decreases n - i,
    {
        let c = s.get_char(i);
        assert(s@.subrange(0, i as int + 1).drop_last() == s@.subrange(0, i as int));
        h = h.wrapping_mul(31).wrapping_add(c as i32);
        i = i + 1;
    }
    assert(s@.subrange(0, n as int) == s@);
    h
}

/// Derives legacy generators from a base seed.
#[derive(Clone, Copy, Debug)]
pub struct RandomSplitter {
    base_seed: i64,
}

impl View for RandomSplitter {
    type V = i64;

    /// The base seed.
    closed spec fn view(&self) -> i64 {
        self.base_seed
    }
}

impl RandomSplitter {
    pub fn new(seed: i64) -> (r: Self)
        ensures
            r@ == seed,
    {
        Self { base_seed: seed }
    }

    /// The generator for a block position.
    pub fn split(&self, x: i32, y: i32, z: i32) -> (r: CheckedRandom)
        ensures
            r@ == lcg_scramble(position_hash(x, y, z) ^ self@),
    {
        let h = Self::hash_code(x, y, z);
        CheckedRandom::new(h ^ self.base_seed)
    }

    /// The generator for a name, via Java's string hash.
    pub fn split_str(&self, s: &str) -> (r: CheckedRandom)
        ensures
            r@ == lcg_scramble((java_hash(s@) as i64) ^ self@),
    {
        let h = java_str_hash_code(s) as i64;
        CheckedRandom::new(h ^ self.base_seed)
    }

    /// A generator seeded directly with `seed` (the base seed is not used).
    pub fn split_seed(&self, seed: i64) -> (r: CheckedRandom)
        ensures
            r@ == lcg_scramble(seed),
    {
        CheckedRandom::new(seed)
    }

    fn hash_code(x: i32, y: i32, z: i32) -> (h: i64)
        ensures
            h == position_hash(x, y, z),
    {
        let mut h: i64 = (x as i64).wrapping_mul(3129871) ^ (z as i64).wrapping_mul(116129781);
        h ^= y as i64;
        h = h.wrapping_mul(h).wrapping_mul(42317861).wrapping_add(h.wrapping_mul(11));
        h >> 16
    }
}


/// `next_long` is built from the two `next(32)` draws that follow the
/// state, both read as signed 32-bit values: the first is the high half,
/// and the second is added as it is (so a negative second draw borrows from
/// the high half).
pub proof fn lemma_next_long_from_draws(state: i64)
    ensures
        lcg_long_sum(state) == (lcg_bits(lcg_step(state), 32) as int) * 0x1_0000_0000 + (lcg_bits(
            lcg_step(lcg_step(state)),
            32,
        ) as int),
        lcg_long_fits(state) ==> lcg_long(state) as int == (lcg_bits(lcg_step(state), 32) as int)
            * 0x1_0000_0000 + (lcg_bits(lcg_step(lcg_step(state)), 32) as int),
{
}

/// A product of a coordinate and a constant, as Java forms it on `long`
/// values: the mathematical product, taken modulo `2^64` into the signed
/// range.
pub open spec fn java_long_product(v: int, c: int) -> i64 {
    let m = (v * c) % 0x1_0000_0000_0000_0000;
    if m > i64::MAX {
        (m - 0x1_0000_0000_0000_0000) as i64
    } else {
        m as i64
    }
}

/// The mixing that follows the coordinate products in the position hash.
pub open spec fn position_mix(h1: i64) -> i64 {
    h1.wrapping_mul(h1).wrapping_mul(42317861i64).wrapping_add(h1.wrapping_mul(11i64)) >> 16i64
}

/// The position hash takes each coordinate at its signed value, as Java's
/// `(long) x` does: the coordinate products are the mathematical products of
/// the (possibly negative) coordinates, reduced modulo `2^64`.
pub proof fn lemma_position_hash_signed(x: i32, y: i32, z: i32)
    ensures
        position_hash(x, y, z) == position_mix(
            java_long_product(x as int, 3129871) ^ java_long_product(z as int, 116129781) ^ (y as i64),
        ),
{
}

} // verus!
