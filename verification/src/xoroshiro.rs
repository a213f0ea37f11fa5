use vstd::prelude::*;
use vstd::string::StringSliceAdditionalSpecFns;

verus! {

/// The 64-bit golden-ratio constant used when seeding Xoroshiro128++.
pub const GOLDEN_RATIO_64: i64 = -7046029254386353131i64;

/// The 64-bit silver-ratio constant used when seeding Xoroshiro128++.
pub const SILVER_RATIO_64: i64 = 7640891576956012809i64;

// ── Seed mixing ──────────────────────────────────────────────────────────────

/// Stafford's variant-13 finaliser on the unsigned 64-bit pattern of a seed.
pub open spec fn stafford13(z: u64) -> u64 {
    let a = (z ^ (z >> 30u64)).wrapping_mul(0xbf58476d1ce4e5b9u64);
    let b = (a ^ (a >> 27u64)).wrapping_mul(0x94d049bb133111ebu64);
    b ^ (b >> 31u64)
}

/// Mixes a 64-bit seed with Stafford's variant-13 finaliser; the signed
/// result has the same bit pattern as the unsigned mix of the input's bits.
pub fn mix_stafford13(seed: i64) -> (r: i64)
    ensures
        r == stafford13(seed as u64) as i64,
{
    let z = seed as u64;
    let a = (z ^ (z >> 30u64)).wrapping_mul(0xbf58476d1ce4e5b9u64);
    let b = (a ^ (a >> 27u64)).wrapping_mul(0x94d049bb133111ebu64);
    (b ^ (b >> 31u64)) as i64
}

/// Undoes Stafford's variant-13 finaliser: each of its steps, an xor with
/// a right shift or a multiplication by an odd constant, is undone in turn.
pub open spec fn unstafford13(r: u64) -> u64 {
    let b = r ^ (r >> 31u64) ^ (r >> 62u64);
    let a0 = b.wrapping_mul(0x319642b2d24d8ec3u64);
    let a = a0 ^ (a0 >> 27u64) ^ (a0 >> 54u64);
    let z0 = a.wrapping_mul(0x96de1b173f119089u64);
    z0 ^ (z0 >> 30u64) ^ (z0 >> 60u64)
}

proof fn lemma_unstafford13(z: u64)
    ensures
        unstafford13(stafford13(z)) == z,
{
    let x1 = z ^ (z >> 30u64);
    assert(x1 ^ (x1 >> 30u64) ^ (x1 >> 60u64) == z) by (bit_vector)
        requires
            x1 == z ^ (z >> 30u64),
    ;
    let a = x1.wrapping_mul(0xbf58476d1ce4e5b9u64);
    assert(a.wrapping_mul(0x96de1b173f119089u64) == x1) by (bit_vector)
        requires
            a == x1.wrapping_mul(0xbf58476d1ce4e5b9u64),
    ;
    let x2 = a ^ (a >> 27u64);
    assert(x2 ^ (x2 >> 27u64) ^ (x2 >> 54u64) == a) by (bit_vector)
        requires
            x2 == a ^ (a >> 27u64),
    ;
    let b = x2.wrapping_mul(0x94d049bb133111ebu64);
    assert(b.wrapping_mul(0x319642b2d24d8ec3u64) == x2) by (bit_vector)
        requires
            b == x2.wrapping_mul(0x94d049bb133111ebu64),
    ;
    let r = b ^ (b >> 31u64);
    assert(r ^ (r >> 31u64) ^ (r >> 62u64) == b) by (bit_vector)
        requires
            r == b ^ (b >> 31u64),
    ;
}

/// The Stafford mix is a bijection on 64-bit patterns: distinct seeds mix
/// to distinct values, and zero mixes to zero.
pub proof fn lemma_stafford13_injective(a: u64, b: u64)
    ensures
        stafford13(a) == stafford13(b) ==> a == b,
        stafford13(0) == 0,
{
    lemma_unstafford13(a);
    lemma_unstafford13(b);
    assert(stafford13(0) == 0) by (bit_vector);
}

// ── Seeds ────────────────────────────────────────────────────────────────────

/// The two 64-bit halves of a Xoroshiro128++ seed.
#[derive(Clone, Copy, Debug, PartialEq, Eq, Structural)]
pub struct XoroshiroSeed {
    pub seed_lo: i64,
    pub seed_hi: i64,
}

/// Both halves XOR-ed with the pair `(lo, hi)`.
pub open spec fn seed_split(s: XoroshiroSeed, lo: i64, hi: i64) -> XoroshiroSeed {
    XoroshiroSeed { seed_lo: lo ^ s.seed_lo, seed_hi: hi ^ s.seed_hi }
}

/// Both halves mixed with Stafford's variant-13 finaliser.
pub open spec fn seed_mix(s: XoroshiroSeed) -> XoroshiroSeed {
    XoroshiroSeed {
        seed_lo: stafford13(s.seed_lo as u64) as i64,
        seed_hi: stafford13(s.seed_hi as u64) as i64,
    }
}

impl XoroshiroSeed {
    pub fn new(seed_lo: i64, seed_hi: i64) -> (r: Self)
        ensures
            r.seed_lo == seed_lo,
            r.seed_hi == seed_hi,
    {
        Self { seed_lo, seed_hi }
    }

    /// XORs both halves with the given pair.
    pub fn split_with(&self, lo: i64, hi: i64) -> (r: Self)
        ensures
            r == seed_split(*self, lo, hi),
    {
        Self { seed_lo: lo ^ self.seed_lo, seed_hi: hi ^ self.seed_hi }
    }

    /// Applies Stafford's variant-13 mix to both halves.
    pub fn mix(&self) -> (r: Self)
        ensures
            r == seed_mix(*self),
    {
        Self { seed_lo: mix_stafford13(self.seed_lo), seed_hi: mix_stafford13(self.seed_hi) }
    }
}

/// The unmixed seed pair derived from a 64-bit world seed.
pub open spec fn unmixed_seed(seed: i64) -> XoroshiroSeed {
    let lo = seed ^ SILVER_RATIO_64;
    XoroshiroSeed { seed_lo: lo, seed_hi: lo.wrapping_add(GOLDEN_RATIO_64) }
}

/// The mixed seed pair derived from a 64-bit world seed.
pub open spec fn mixed_seed(seed: i64) -> XoroshiroSeed {
    let u = unmixed_seed(seed);
    XoroshiroSeed {
        seed_lo: stafford13(u.seed_lo as u64) as i64,
        seed_hi: stafford13(u.seed_hi as u64) as i64,
    }
}

/// Splitting twice with the same pair gives the seed back.
pub proof fn lemma_split_with_involution(s: XoroshiroSeed, lo: i64, hi: i64)
    ensures
        seed_split(seed_split(s, lo, hi), lo, hi) == s,
{
    let a = s.seed_lo;
    let b = s.seed_hi;
    assert(lo ^ (lo ^ a) == a) by (bit_vector);
    assert(hi ^ (hi ^ b) == b) by (bit_vector);
}

/// The mixed seed of a world seed is its unmixed seed, mixed.
pub proof fn lemma_mixed_is_mix_of_unmixed(seed: i64)
    ensures
        mixed_seed(seed) == seed_mix(unmixed_seed(seed)),
{
}

/// Seed pair for a world seed: XOR with the silver ratio, add the golden
/// ratio for the high half, then mix both halves.
pub fn create_xoroshiro_seed(seed: i64) -> (r: XoroshiroSeed)
    ensures
        r == mixed_seed(seed),
{
    let lo = seed ^ SILVER_RATIO_64;
    let hi = lo.wrapping_add(GOLDEN_RATIO_64);
    XoroshiroSeed::new(lo, hi).mix()
}

/// Seed pair for a world seed without the final mixing step.
pub fn create_unmixed_xoroshiro_seed(seed: i64) -> (r: XoroshiroSeed)
    ensures
        r == unmixed_seed(seed),
{
    let lo = seed ^ SILVER_RATIO_64;
    let hi = lo.wrapping_add(GOLDEN_RATIO_64);
    XoroshiroSeed::new(lo, hi)
}

/// MD5 digest of a byte string.
pub uninterp spec fn md5_digest(data: Seq<u8>) -> Seq<u8>;

/// Calls `md5::compute` on the bytes and returns the 16 digest bytes.
#[verifier::external_body]
fn md5_compute(data: &[u8]) -> (r: [u8; 16])
    ensures
        r@ == md5_digest(data@),
{
    md5::compute(data).0
}

/// `256^n`.
pub open spec fn pow256(n: nat) -> nat
    decreases n,
{
    if n == 0 {
        1
    } else {
        256 * pow256((n - 1) as nat)
    }
}

/// The big-endian value of a byte string.
pub open spec fn be_value(b: Seq<u8>) -> nat
    decreases b.len(),
{
    if b.len() == 0 {
        0
    } else {
        be_value(b.drop_last()) * 256 + b.last() as nat
    }
}

/// The signed 64-bit integer whose big-endian bytes are `b[start..start + 8]`.
pub open spec fn be_i64(b: Seq<u8>, start: int) -> i64 {
    (be_value(b.subrange(start, start + 8)) as u64) as i64
}

proof fn lemma_be_value_bound(b: Seq<u8>)
    ensures
        be_value(b) < pow256(b.len()),
    decreases b.len(),
{
    if b.len() > 0 {
        lemma_be_value_bound(b.drop_last());
    }
}

/// Reads eight bytes as a big-endian signed 64-bit integer.
fn read_be_i64(b: &[u8; 16], start: usize) -> (r: i64)
    requires
        start + 8 <= 16,
    ensures
        r == be_i64(b@, start as int),
{
    let mut v: u64 = 0;
    let mut i: usize = 0;
    while i < 8
        invariant
            i <= 8,
            start + 8 <= 16,
            v as nat == be_value(b@.subrange(start as int, start + i)),
            v < pow256(i as nat),
        decreases 8 - i,
    {
        assert(b@.subrange(start as int, start + i + 1).drop_last() == b@.subrange(start as int, start + i));
        assert(pow256((i + 1) as nat) == 256 * pow256(i as nat));
        assert(pow256(8) == 0x1_0000_0000_0000_0000nat) by {
            reveal_with_fuel(pow256, 9);
        }
        proof {
            if i < 7 {
                lemma_pow256_mono((i + 1) as nat, 8);
            }
        }
        v = v * 256 + b[start + i] as u64;
        i = i + 1;
    }
    v as i64
}

proof fn lemma_pow256_mono(a: nat, b: nat)
    requires
        a <= b,
    ensures
        pow256(a) <= pow256(b),
    decreases b,
{
    if a < b {
        lemma_pow256_mono(a, (b - 1) as nat);
    }
}

/// The seed pair of a name: the MD5 digest of its UTF-8 bytes, read as two
/// big-endian 64-bit halves.
pub open spec fn name_seed(name: Seq<u8>) -> XoroshiroSeed {
    XoroshiroSeed {
        seed_lo: be_i64(md5_digest(name), 0),
        seed_hi: be_i64(md5_digest(name), 8),
    }
}

/// Seed pair from a name string, via the MD5 digest of its bytes.
pub fn create_xoroshiro_seed_str(seed: &str) -> (r: XoroshiroSeed)
    ensures
        r == name_seed(seed.spec_bytes()),
{
    let hash = md5_compute(seed.as_bytes());
    let lo = read_be_i64(&hash, 0);
    let hi = read_be_i64(&hash, 8);
    XoroshiroSeed::new(lo, hi)
}

// ── The generator ────────────────────────────────────────────────────────────

/// Rotation of a 64-bit word to the left by `n` bits.
pub open spec fn rotl(x: u64, n: u64) -> u64 {
    (x << n) | (x >> ((64 - n) as u64))
}

fn rotate_left(x: u64, n: u64) -> (r: u64)
    requires
        0 < n < 64,
    ensures
        r == rotl(x, n),
{
    (x << n) | (x >> (64 - n))
}

/// Xoroshiro128++ generator state.
#[derive(Clone, Copy, Debug, PartialEq, Eq, Structural)]
pub struct Xoroshiro128PlusPlusRandom {
    pub seed_lo: i64,
    pub seed_hi: i64,
}

/// The generator built from a seed pair: an all-zero pair is replaced by the
/// golden and silver ratios, since the generator would otherwise stay at zero.
pub open spec fn xoro_init(seed_lo: i64, seed_hi: i64) -> Xoroshiro128PlusPlusRandom {
    if seed_lo == 0 && seed_hi == 0 {
        Xoroshiro128PlusPlusRandom { seed_lo: GOLDEN_RATIO_64, seed_hi: SILVER_RATIO_64 }
    } else {
        Xoroshiro128PlusPlusRandom { seed_lo, seed_hi }
    }
}

/// The 64-bit output of one step: `rotl(lo + hi, 17) + lo`.
pub open spec fn xoro_out(r: Xoroshiro128PlusPlusRandom) -> i64 {
    let l = r.seed_lo as u64;
    let h = r.seed_hi as u64;
    rotl(l.wrapping_add(h), 17).wrapping_add(l) as i64
}

/// The state after one step.
pub open spec fn xoro_step(r: Xoroshiro128PlusPlusRandom) -> Xoroshiro128PlusPlusRandom {
    let l = r.seed_lo as u64;
    let m = (r.seed_hi as u64) ^ l;
    Xoroshiro128PlusPlusRandom {
        seed_lo: (rotl(l, 49) ^ m ^ (m << 21u64)) as i64,
        seed_hi: rotl(m, 28) as i64,
    }
}

/// The state after `n` steps.
pub open spec fn xoro_iter(r: Xoroshiro128PlusPlusRandom, n: nat) -> Xoroshiro128PlusPlusRandom
    decreases n,
{
    if n == 0 {
        r
    } else {
        xoro_iter(xoro_step(r), (n - 1) as nat)
    }
}

/// Low 32 bits of a product, as a non-negative value.
pub open spec fn low32(m: i64) -> i64 {
    m & 0xFFFFFFFFi64
}

/// A 32-bit sample read as an unsigned value in `[0, 2^32)`.
pub open spec fn unsigned_sample(r: Xoroshiro128PlusPlusRandom) -> i64 {
    ((xoro_out(r) as i32) as u32) as i64
}

/// Rejection loop of the bounded draw: keeps the product `m` once its low 32
/// bits reach `threshold`, otherwise draws again (reading the 32-bit output
/// as unsigned). `None` when `fuel` redraws are not enough.
pub open spec fn bound_redraws(
    m: i64,
    r: Xoroshiro128PlusPlusRandom,
    bound: i32,
    threshold: i64,
    fuel: nat,
) -> Option<(i64, Xoroshiro128PlusPlusRandom)>
    decreases fuel,
{
    if low32(m) >= threshold {
        Some((m, r))
    } else if fuel == 0 {
        None
    } else {
        let l = unsigned_sample(r);
        bound_redraws(l.wrapping_mul(bound as i64), xoro_step(r), bound, threshold, (fuel - 1) as nat)
    }
}

/// The product from the first draw of a bounded draw (zero-extended sample).
pub open spec fn bound_first_product(r: Xoroshiro128PlusPlusRandom, bound: i32) -> i64 {
    unsigned_sample(r).wrapping_mul(bound as i64)
}

/// The rejection threshold `2^32 mod bound` (for a positive bound).
pub open spec fn bound_threshold(bound: i32) -> i64 {
    ((0x1_0000_0000int - bound) % (bound as int)) as i64
}

/// Whether the first draw is kept without entering the rejection loop.
pub open spec fn bound_first_kept(r: Xoroshiro128PlusPlusRandom, bound: i32) -> bool {
    low32(bound_first_product(r, bound)) >= bound as i64
}

/// Whether a bounded draw from state `r` returns (its rejection loop ends).
pub open spec fn bound_draw_returns(r: Xoroshiro128PlusPlusRandom, bound: i32) -> bool {
    bound_first_kept(r, bound) || exists|fuel: nat|
        #[trigger] bound_redraws(
            bound_first_product(r, bound),
            xoro_step(r),
            bound,
            bound_threshold(bound),
            fuel,
        ) is Some
}

/// Redraw budget that suffices for the rejection loop from `r`.
pub open spec fn bound_fuel(r: Xoroshiro128PlusPlusRandom, bound: i32) -> nat {
    choose|fuel: nat|
        #[trigger] bound_redraws(
            bound_first_product(r, bound),
            xoro_step(r),
            bound,
            bound_threshold(bound),
            fuel,
        ) is Some
}

/// The accepted product and the final state of a bounded draw.
pub open spec fn bound_draw_product(r: Xoroshiro128PlusPlusRandom, bound: i32) -> (
    i64,
    Xoroshiro128PlusPlusRandom,
) {
    if bound_first_kept(r, bound) {
        (bound_first_product(r, bound), xoro_step(r))
    } else {
        bound_redraws(
            bound_first_product(r, bound),
            xoro_step(r),
            bound,
            bound_threshold(bound),
            bound_fuel(r, bound),
        ).unwrap()
    }
}

/// The value returned by a bounded draw from state `r`: the high 32 bits of
/// the accepted product.
pub open spec fn bound_draw_value(r: Xoroshiro128PlusPlusRandom, bound: i32) -> i32 {
    (bound_draw_product(r, bound).0 >> 32i64) as i32
}

/// The state after a bounded draw from state `r`.
pub open spec fn bound_draw_state(r: Xoroshiro128PlusPlusRandom, bound: i32) -> Xoroshiro128PlusPlusRandom {
    bound_draw_product(r, bound).1
}

/// Once the rejection loop ends within some budget, any larger budget ends
/// it the same way.
pub proof fn lemma_bound_redraws_more_fuel(
    m: i64,
    r: Xoroshiro128PlusPlusRandom,
    bound: i32,
    threshold: i64,
    f1: nat,
    f2: nat,
)
    requires
        f1 <= f2,
        bound_redraws(m, r, bound, threshold, f1) is Some,
    ensures
        bound_redraws(m, r, bound, threshold, f2) == bound_redraws(m, r, bound, threshold, f1),
    decreases f1,
{
    if low32(m) < threshold {
        let l = unsigned_sample(r);
        lemma_bound_redraws_more_fuel(
            l.wrapping_mul(bound as i64),
            xoro_step(r),
            bound,
            threshold,
            (f1 - 1) as nat,
            (f2 - 1) as nat,
        );
    }
}

/// The product of an unsigned sample and a positive bound lies in
/// `[0, 2^32 * bound)`.
proof fn lemma_sample_product_range(r: Xoroshiro128PlusPlusRandom, bound: i32)
    requires
        0 < bound,
    ensures
        0 <= unsigned_sample(r).wrapping_mul(bound as i64) < 0x1_0000_0000 * bound,
{
    let o = xoro_out(r);
    let l = unsigned_sample(r);
    let b = bound as i64;
    assert(0 <= l < 0x1_0000_0000i64) by (bit_vector)
        requires
            l == ((o as i32) as u32) as i64,
    ;
    assert(0 <= l * b < 0x1_0000_0000 * b) by (nonlinear_arith)
        requires
            0 <= l < 0x1_0000_0000,
            0 < b < 0x8000_0000,
    ;
}

/// Every product the rejection loop can keep lies in `[0, 2^32 * bound)`
/// when the product it starts from does.
proof fn lemma_redraws_range(
    m: i64,
    r: Xoroshiro128PlusPlusRandom,
    bound: i32,
    threshold: i64,
    fuel: nat,
)
    requires
        0 < bound,
        0 <= m < 0x1_0000_0000 * bound,
        bound_redraws(m, r, bound, threshold, fuel) is Some,
    ensures
        0 <= bound_redraws(m, r, bound, threshold, fuel).unwrap().0 < 0x1_0000_0000 * bound,
    decreases fuel,
{
    if low32(m) < threshold {
        lemma_sample_product_range(r, bound);
        lemma_redraws_range(
            unsigned_sample(r).wrapping_mul(bound as i64),
            xoro_step(r),
            bound,
            threshold,
            (fuel - 1) as nat,
        );
    }
}

/// A bounded draw that returns gives a value in `[0, bound)`: every sample,
/// the first and each redraw, is read as an unsigned 32-bit value.
pub proof fn lemma_bound_draw_in_range(r: Xoroshiro128PlusPlusRandom, bound: i32)
    requires
        0 < bound,
        bound_draw_returns(r, bound),
    ensures
        0 <= bound_draw_value(r, bound) < bound,
{
    let b = bound as i64;
    lemma_sample_product_range(r, bound);
    if !bound_first_kept(r, bound) {
        lemma_redraws_range(
            bound_first_product(r, bound),
            xoro_step(r),
            bound,
            bound_threshold(bound),
            bound_fuel(r, bound),
        );
    }
    let m = bound_draw_product(r, bound).0;
    assert(0 <= m < 0x1_0000_0000 * b);
    assert(m >> 32i64 == m / 0x1_0000_0000i64) by (bit_vector)
        requires
            0 <= m,
    ;
    assert(0 <= m / 0x1_0000_0000i64 < b) by (nonlinear_arith)
        requires
            0 <= m < 0x1_0000_0000 * b,
            0 < b,
    ;
}

/// Remainder of unsigned 32-bit division.
pub fn remainder_unsigned(a: u32, b: u32) -> (r: u32)
    requires
        b != 0,
    ensures
        r == a % b,
{
    ((a as u64) % (b as u64)) as u32
}

impl Xoroshiro128PlusPlusRandom {
    /// Builds a generator from two seed halves (an all-zero pair is replaced
    /// by the golden and silver ratios).
    pub fn new(seed_lo: i64, seed_hi: i64) -> (r: Self)
        ensures
            r == xoro_init(seed_lo, seed_hi),
    {
        if (seed_lo | seed_hi) == 0 {
            assert(seed_lo == 0 && seed_hi == 0) by (bit_vector)
                requires
                    (seed_lo | seed_hi) == 0i64,
            ;
            Self { seed_lo: GOLDEN_RATIO_64, seed_hi: SILVER_RATIO_64 }
        } else {
            assert(!(seed_lo == 0 && seed_hi == 0)) by (bit_vector)
                requires
                    (seed_lo | seed_hi) != 0i64,
            ;
            Self { seed_lo, seed_hi }
        }
    }

    /// Builds a generator from a seed pair.
    pub fn from_seed(seed: &XoroshiroSeed) -> (r: Self)
        ensures
            r == xoro_init(seed.seed_lo, seed.seed_hi),
    {
        Self::new(seed.seed_lo, seed.seed_hi)
    }

    /// One step of Xoroshiro128++: returns `rotl(lo + hi, 17) + lo` and moves
    /// to `lo' = rotl(lo, 49) ^ m ^ (m << 21)`, `hi' = rotl(m, 28)` where
    /// `m = hi ^ lo`.
    pub fn next_raw(&mut self) -> (r: i64)
        ensures
            r == xoro_out(*old(self)),
            *final(self) == xoro_step(*old(self)),
    {
        let l = self.seed_lo as u64;
        let h = self.seed_hi as u64;
        let result = rotate_left(l.wrapping_add(h), 17).wrapping_add(l) as i64;
        let m = h ^ l;
        let new_lo = rotate_left(l, 49) ^ m ^ (m << 21u64);
        let new_hi = rotate_left(m, 28);
        self.seed_lo = new_lo as i64;
        self.seed_hi = new_hi as i64;
        result
    }

    /// The top `bits` bits of the next output, as a non-negative `i32` for
    /// `bits < 32`.
    pub fn next(&mut self, bits: i32) -> (r: i32)
        requires
            1 <= bits <= 64,
        ensures
            r == ((xoro_out(*old(self)) as u64) >> ((64 - bits) as u64)) as i32,
            *final(self) == xoro_step(*old(self)),
    {
        let raw = self.next_raw() as u64;
        let shift = (64 - bits) as u32;
        (raw >> shift) as i32
    }

    /// The full 64-bit output.
    pub fn next_long(&mut self) -> (r: i64)
        ensures
            r == xoro_out(*old(self)),
            *final(self) == xoro_step(*old(self)),
    {
        self.next_raw()
    }

    /// The low 32 bits of the next output.
    pub fn next_int(&mut self) -> (r: i32)
        ensures
            r == xoro_out(*old(self)) as i32,
            *final(self) == xoro_step(*old(self)),
    {
        self.next_raw() as i32
    }

    /// The 53 high bits of the next output; a uniform double in `[0, 1)` is
    /// this value divided by `2^53`.
    pub fn next_double_bits(&mut self) -> (r: u64)
        ensures
            r == (xoro_out(*old(self)) as u64) >> 11u64,
            r < 0x20_0000_0000_0000u64,
            *final(self) == xoro_step(*old(self)),
    {
        let raw = self.next_raw() as u64;
        assert(raw >> 11u64 < 0x20_0000_0000_0000u64) by (bit_vector);
        raw >> 11u64
    }

    /// Bounded draw by multiply-and-shift with rejection of biased samples;
    /// every sample is read as an unsigned 32-bit value.
    pub fn next_int_bound(&mut self, bound: i32) -> (r: i32)
        requires
            bound_draw_returns(*old(self), bound),
        ensures
            r == bound_draw_value(*old(self), bound),
            *final(self) == bound_draw_state(*old(self), bound),
            0 < bound ==> 0 <= r < bound,
    {
        let ghost r0 = *self;
        proof {
            if 0 < bound {
                lemma_bound_draw_in_range(r0, bound);
            }
        }
        let mut l = self.next_int() as u32 as u64 as i64;
        let mut m = l.wrapping_mul(bound as i64);
        let mut n = m & 0xFFFFFFFFi64;
        assert(m == bound_first_product(r0, bound));
        if n < bound as i64 {
            assert(0 <= n) by (bit_vector)
                requires
                    n == m & 0xFFFFFFFFi64,
            ;
            let b = bound as u32;
            assert(b as int == bound as int);
            assert(!b == 0xFFFF_FFFFu32 - b) by (bit_vector);
            let threshold = remainder_unsigned((!b) + 1, b);
            assert(threshold as i64 == bound_threshold(bound));
            let ghost fuel0 = bound_fuel(r0, bound);
            let ghost mut fuel: nat = fuel0;
            let ghost target = bound_redraws(
                m,
                xoro_step(r0),
                bound,
                bound_threshold(bound),
                fuel0,
            );
            while n < threshold as i64
                invariant
                    target is Some,
                    bound_redraws(m, *self, bound, threshold as i64, fuel) == target,
                    n == low32(m),
                decreases fuel,
            {
                l = self.next_int() as u32 as u64 as i64;
                m = l.wrapping_mul(bound as i64);
                n = m & 0xFFFFFFFFi64;
                proof {
                    fuel = (fuel - 1) as nat;
                }
            }
            assert(target == Some((m, *self)));
        }
        (m >> 32i64) as i32
    }

    /// Advances the generator by `n` steps (none when `n <= 0`).
    pub fn skip(&mut self, n: i64)
        ensures
            *final(self) == xoro_iter(*old(self), if n < 0 { 0nat } else { n as nat }),
    {
        let ghost start = *self;
        let mut i: i64 = 0;
        while i < n
            invariant
                0 <= i,
                n >= 0 ==> i <= n,
                n < 0 ==> i == 0,
                *self == xoro_iter(start, i as nat),
            decreases n - i,
        {
            proof {
                lemma_xoro_iter_succ(start, i as nat);
            }
            self.next_raw();
            i = i + 1;
        }
    }

    /// Draws two outputs and turns them into a splitter seed.
    pub fn next_splitter(&mut self) -> (r: XoroshiroRandomSplitter)
        ensures
            r@ == (XoroshiroSeed {
                seed_lo: xoro_out(*old(self)),
                seed_hi: xoro_out(xoro_step(*old(self))),
            }),
            *final(self) == xoro_iter(*old(self), 2),
    {
        proof {
            lemma_xoro_iter_succ(*self, 0);
            lemma_xoro_iter_succ(*self, 1);
        }
        let lo = self.next_long();
        let hi = self.next_long();
        XoroshiroRandomSplitter { seed: XoroshiroSeed::new(lo, hi) }
    }
}

/// Stepping `n + 1` times is stepping `n` times and then once more.
pub proof fn lemma_xoro_iter_succ(r: Xoroshiro128PlusPlusRandom, n: nat)
    ensures
        xoro_iter(r, n + 1) == xoro_step(xoro_iter(r, n)),
    decreases n,
{
    if n > 0 {
        lemma_xoro_iter_succ(xoro_step(r), (n - 1) as nat);
    } else {
        assert(xoro_iter(xoro_step(r), 0) == xoro_step(r));
    }
}

/// Stepping `a + b` times is stepping `a` times and then `b` times.
pub proof fn lemma_xoro_iter_add(r: Xoroshiro128PlusPlusRandom, a: nat, b: nat)
    ensures
        xoro_iter(r, a + b) == xoro_iter(xoro_iter(r, a), b),
    decreases a,
{
    if a > 0 {
        lemma_xoro_iter_add(xoro_step(r), (a - 1) as nat, b);
    } else {
        assert(xoro_iter(r, 0) == r);
    }
}

/// Derives generators from a base seed by XOR-ing in per-use seed pairs.
pub struct XoroshiroRandomSplitter {
    seed: XoroshiroSeed,
}

impl View for XoroshiroRandomSplitter {
    type V = XoroshiroSeed;

    closed spec fn view(&self) -> XoroshiroSeed {
        self.seed
    }
}

impl XoroshiroRandomSplitter {
    /// The generator for the pair `(seed_low, seed_high)`.
    pub fn split(&mut self, seed_low: i64, seed_high: i64) -> (r: Xoroshiro128PlusPlusRandom)
        ensures
            final(self)@ == old(self)@,
            r == xoro_init(seed_low ^ old(self)@.seed_lo, seed_high ^ old(self)@.seed_hi),
    {
        let new_seed = self.seed.split_with(seed_low, seed_high);
        Xoroshiro128PlusPlusRandom::from_seed(&new_seed)
    }
}

} // verus!
