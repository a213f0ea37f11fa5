use vstd::prelude::*;
use vstd::string::StringSliceAdditionalSpecFns;
use crate::xoroshiro::{
    bound_draw_returns, bound_draw_state, bound_draw_value, bound_first_kept,
    bound_first_product, bound_fuel, bound_redraws, bound_threshold, lemma_bound_draw_in_range,
    lemma_bound_redraws_more_fuel,
    low32, remainder_unsigned, create_xoroshiro_seed, create_xoroshiro_seed_str, name_seed,
    lemma_xoro_iter_add, lemma_xoro_iter_succ, mixed_seed, xoro_init, xoro_iter, xoro_out,
    xoro_step, Xoroshiro128PlusPlusRandom,
};

verus! {

/// A Perlin noise sampler as drawn from a generator: a permutation of the
/// byte values and the three 53-bit draws behind its origin (each origin
/// coordinate is `bits / 2^53 * 256`).
#[derive(Clone, Copy, Debug)]
pub struct PerlinNoiseSampler {
    pub permutation: [u8; 256],
    pub origin_x_bits: u64,
    pub origin_y_bits: u64,
    pub origin_z_bits: u64,
}

/// The identity table `[0, 1, ..., 255]`.
pub open spec fn identity_table() -> Seq<u8> {
    Seq::new(256, |i: int| i as u8)
}

/// Swaps positions `a` and `b` of a table.
pub open spec fn swap_at(p: Seq<u8>, a: int, b: int) -> Seq<u8> {
    p.update(a, p[b]).update(b, p[a])
}

/// Whether the shuffle draws from position `i` on all return and land in
/// range: at position `i` the bounded draw with bound `256 - i` must return a
/// value `j` with `0 <= j < 256 - i`.
pub open spec fn shuffle_draws_ok(r: Xoroshiro128PlusPlusRandom, i: nat) -> bool
    decreases 256 - i,
{
    if i >= 256 {
        true
    } else {
        let bound = (256 - i) as i32;
        &&& bound_draw_returns(r, bound)
        &&& 0 <= bound_draw_value(r, bound) < bound
        &&& shuffle_draws_ok(bound_draw_state(r, bound), i + 1)
    }
}

/// The table and generator state after the shuffle steps from position `i`:
/// each step swaps position `i` with position `i + j`, where `j` is the
/// bounded draw with bound `256 - i`.
pub open spec fn shuffle_from(p: Seq<u8>, r: Xoroshiro128PlusPlusRandom, i: nat) -> (
    Seq<u8>,
    Xoroshiro128PlusPlusRandom,
)
    decreases 256 - i,
{
    if i >= 256 {
        (p, r)
    } else {
        let bound = (256 - i) as i32;
        let j = bound_draw_value(r, bound);
        shuffle_from(swap_at(p, i as int, i + j), bound_draw_state(r, bound), i + 1)
    }
}

/// Whether a sampler can be drawn from `r`: after the three origin draws the
/// shuffle draws all return in range.
pub open spec fn sampler_draws_ok(r: Xoroshiro128PlusPlusRandom) -> bool {
    shuffle_draws_ok(xoro_iter(r, 3), 0)
}

/// The 53 high bits of the `k`-th output drawn from `r`.
pub open spec fn origin_draw(r: Xoroshiro128PlusPlusRandom, k: nat) -> u64 {
    (xoro_out(xoro_iter(r, k)) as u64) >> 11u64
}

/// The permutation drawn from `r`.
pub open spec fn permutation_from(r: Xoroshiro128PlusPlusRandom) -> Seq<u8> {
    shuffle_from(identity_table(), xoro_iter(r, 3), 0).0
}

/// The generator state after a sampler has been drawn from `r`.
pub open spec fn state_after_sampler(r: Xoroshiro128PlusPlusRandom) -> Xoroshiro128PlusPlusRandom {
    shuffle_from(identity_table(), xoro_iter(r, 3), 0).1
}

/// Whether `s` is the sampler drawn from `r`.
pub open spec fn is_sampler_from(s: PerlinNoiseSampler, r: Xoroshiro128PlusPlusRandom) -> bool {
    &&& s.origin_x_bits == origin_draw(r, 0)
    &&& s.origin_y_bits == origin_draw(r, 1)
    &&& s.origin_z_bits == origin_draw(r, 2)
    &&& s.permutation@ == permutation_from(r)
}

/// Whether all entries of a table differ.
pub open spec fn all_distinct(p: Seq<u8>) -> bool {
    forall|a: int, b: int| 0 <= a < b < p.len() ==> p[a] != p[b]
}

/// Draws a sampler: three origin draws (53 bits each), then a shuffle of
/// the identity table in which position `i` is swapped with position
/// `i + next_int_bound(256 - i)`.
pub fn create_perlin_noise_sampler(rng: &mut Xoroshiro128PlusPlusRandom) -> (s: PerlinNoiseSampler)
    requires
        sampler_draws_ok(*old(rng)),
    ensures
        is_sampler_from(s, *old(rng)),
        all_distinct(s.permutation@),
        *final(rng) == state_after_sampler(*old(rng)),
{
    let ghost r0 = *rng;
    proof {
        assert(xoro_iter(r0, 0) == r0);
        lemma_xoro_iter_succ(r0, 0);
        lemma_xoro_iter_succ(r0, 1);
        lemma_xoro_iter_succ(r0, 2);
    }
    let origin_x_bits = rng.next_double_bits();
    let origin_y_bits = rng.next_double_bits();
    let origin_z_bits = rng.next_double_bits();
    let mut p: [u8; 256] = [0u8; 256];
    let mut i: usize = 0;
    while i < 256
        invariant
            i <= 256,
            forall|k: int| 0 <= k < i ==> p@[k] == k as u8,
        decreases 256 - i,
    {
        p[i] = i as u8;
        i = i + 1;
    }
    assert(p@ == identity_table());
    let ghost target = shuffle_from(identity_table(), *rng, 0);
    let mut i: usize = 0;
    while i < 256
        invariant
            i <= 256,
            shuffle_draws_ok(*rng, i as nat),
            shuffle_from(p@, *rng, i as nat) == target,
            all_distinct(p@),
            p@.len() == 256,
        decreases 256 - i,
    {
        let ghost before = p@;
        let j = rng.next_int_bound(256 - i as i32) as usize;
        let k = p[i];
        let other = p[j + i];
        p[i] = other;
        p[j + i] = k;
        assert(p@ == swap_at(before, i as int, (i + j) as int));
        i = i + 1;
    }
    PerlinNoiseSampler { permutation: p, origin_x_bits, origin_y_bits, origin_z_bits }
}

/// The permutation entry used for a lattice coordinate (its low 8 bits).
pub open spec fn perm_map(p: Seq<u8>, input: i32) -> i32 {
    p[(input & 0xFFi32) as int] as i32
}

/// Looks up the permutation entry for the low 8 bits of `input`.
pub fn map(pns: &PerlinNoiseSampler, input: i32) -> (r: i32)
    ensures
        r == perm_map(pns.permutation@, input),
        0 <= r < 256,
{
    let idx = input & 0xFF;
    assert(0 <= idx < 256) by (bit_vector)
        requires
            idx == input & 0xFFi32,
    ;
    let v = pns.permutation[idx as usize];
    assert((v as i32) & 0xFFi32 == v as i32) by (bit_vector);
    v as i32 & 0xFF
}

/// The hashes of the eight corners of a lattice cell, in the order
/// `(0,0,0) (1,0,0) (0,1,0) (1,1,0) (0,0,1) (1,0,1) (0,1,1) (1,1,1)`.
pub open spec fn corner_hashes(p: Seq<u8>, sx: i32, sy: i32, sz: i32) -> Seq<i32> {
    let i = perm_map(p, sx);
    let j = perm_map(p, (sx + 1) as i32);
    let k = perm_map(p, (i + sy) as i32);
    let l = perm_map(p, (i + sy + 1) as i32);
    let m = perm_map(p, (j + sy) as i32);
    let n = perm_map(p, (j + sy + 1) as i32);
    seq![
        perm_map(p, (k + sz) as i32),
        perm_map(p, (m + sz) as i32),
        perm_map(p, (l + sz) as i32),
        perm_map(p, (n + sz) as i32),
        perm_map(p, (k + sz + 1) as i32),
        perm_map(p, (m + sz + 1) as i32),
        perm_map(p, (l + sz + 1) as i32),
        perm_map(p, (n + sz + 1) as i32),
    ]
}

/// Whether the index sums of `corner_hashes` stay within `i32` (entries are
/// below 256, so this fails only near `i32::MAX`).
pub open spec fn corner_sums_fit(p: Seq<u8>, sx: i32, sy: i32, sz: i32) -> bool {
    let i = perm_map(p, sx);
    let j = perm_map(p, (sx + 1) as i32);
    &&& sx < i32::MAX
    &&& i + sy + 1 <= i32::MAX
    &&& j + sy + 1 <= i32::MAX
    &&& perm_map(p, (i + sy) as i32) + sz + 1 <= i32::MAX
    &&& perm_map(p, (i + sy + 1) as i32) + sz + 1 <= i32::MAX
    &&& perm_map(p, (j + sy) as i32) + sz + 1 <= i32::MAX
    &&& perm_map(p, (j + sy + 1) as i32) + sz + 1 <= i32::MAX
}

/// Hashes the eight corners of the lattice cell at `(sx, sy, sz)` through
/// the permutation table; the gradient of each corner is chosen by the low
/// four bits of its hash.
pub fn section_corner_hashes(pns: &PerlinNoiseSampler, sx: i32, sy: i32, sz: i32) -> (r: [i32; 8])
    requires
        corner_sums_fit(pns.permutation@, sx, sy, sz),
    ensures
        r@ == corner_hashes(pns.permutation@, sx, sy, sz),
        forall|c: int| 0 <= c < 8 ==> 0 <= #[trigger] r@[c] < 256,
{
    let i = map(pns, sx);
    let j = map(pns, sx + 1);
    let k = map(pns, i + sy);
    let l = map(pns, i + sy + 1);
    let m = map(pns, j + sy);
    let n = map(pns, j + sy + 1);
    let r = [
        map(pns, k + sz),
        map(pns, m + sz),
        map(pns, l + sz),
        map(pns, n + sz),
        map(pns, k + sz + 1),
        map(pns, m + sz + 1),
        map(pns, l + sz + 1),
        map(pns, n + sz + 1),
    ];
    assert(r@ == corner_hashes(pns.permutation@, sx, sy, sz));
    r
}

/// The generator from which `make_permutation_table` draws its sampler:
/// the world seed's generator yields a splitter, which is split with the
/// first pair; that generator yields `iteration_count` splitters (discarded)
/// and one more, which is split with the second pair.
pub open spec fn table_generator(
    seed: i64,
    seed_low_1: i64,
    seed_high_1: i64,
    iteration_count: i64,
    seed_low_2: i64,
    seed_high_2: i64,
) -> Xoroshiro128PlusPlusRandom {
    let ms = mixed_seed(seed);
    let base = xoro_init(ms.seed_lo, ms.seed_hi);
    let rng1 = xoro_init(seed_low_1 ^ xoro_out(base), seed_high_1 ^ xoro_out(xoro_step(base)));
    let skipped = if iteration_count < 0 { 0nat } else { 2 * iteration_count as nat };
    let rng1b = xoro_iter(rng1, skipped);
    xoro_init(seed_low_2 ^ xoro_out(rng1b), seed_high_2 ^ xoro_out(xoro_step(rng1b)))
}

/// Builds the sampler of one noise octave from a world seed and two seed
/// pairs, discarding `iteration_count` splitters in between.
pub fn make_permutation_table(
    seed: i64,
    seed_low_1: i64,
    seed_high_1: i64,
    iteration_count: i64,
    seed_low_2: i64,
    seed_high_2: i64,
) -> (r: Box<PerlinNoiseSampler>)
    requires
        sampler_draws_ok(
            table_generator(seed, seed_low_1, seed_high_1, iteration_count, seed_low_2, seed_high_2),
        ),
    ensures
        is_sampler_from(
            *r,
            table_generator(seed, seed_low_1, seed_high_1, iteration_count, seed_low_2, seed_high_2),
        ),
        all_distinct(r.permutation@),
{
    let mut rng2 = table_generator_state(
        seed,
        seed_low_1,
        seed_high_1,
        iteration_count,
        seed_low_2,
        seed_high_2,
    );
    Box::new(create_perlin_noise_sampler(&mut rng2))
}

/// Steps the generators the way `make_permutation_table` does, up to the
/// generator its sampler is drawn from.
fn table_generator_state(
    seed: i64,
    seed_low_1: i64,
    seed_high_1: i64,
    iteration_count: i64,
    seed_low_2: i64,
    seed_high_2: i64,
) -> (r: Xoroshiro128PlusPlusRandom)
    ensures
        r == table_generator(seed, seed_low_1, seed_high_1, iteration_count, seed_low_2, seed_high_2),
{
    let mut base = Xoroshiro128PlusPlusRandom::from_seed(&create_xoroshiro_seed(seed));
    let mut rngparent = base.next_splitter();
    let mut rng1 = rngparent.split(seed_low_1, seed_high_1);
    let ghost rng1_start = rng1;
    let mut c: i64 = 0;
    while c < iteration_count
        invariant
            0 <= c,
            iteration_count >= 0 ==> c <= iteration_count,
            iteration_count < 0 ==> c == 0,
            rng1 == xoro_iter(rng1_start, 2 * c as nat),
        decreases iteration_count - c,
    {
        proof {
            lemma_xoro_iter_add(rng1_start, 2 * c as nat, 2);
        }
        rng1.next_splitter();
        c = c + 1;
    }
    let mut rng1_split = rng1.next_splitter();
    rng1_split.split(seed_low_2, seed_high_2)
}

/// The sampler of `make_permutation_table`, or `None` when one of its
/// shuffle draws would need more than `MAX_REDRAWS` redraws.
pub fn try_make_permutation_table(
    seed: i64,
    seed_low_1: i64,
    seed_high_1: i64,
    iteration_count: i64,
    seed_low_2: i64,
    seed_high_2: i64,
) -> (r: Option<Box<PerlinNoiseSampler>>)
    ensures
        r is Some <==> sampler_draws_within(
            table_generator(seed, seed_low_1, seed_high_1, iteration_count, seed_low_2, seed_high_2),
            MAX_REDRAWS as nat,
        ),
        r matches Some(s) ==> is_sampler_from(
            *s,
            table_generator(seed, seed_low_1, seed_high_1, iteration_count, seed_low_2, seed_high_2),
        ) && all_distinct(s.permutation@),
{
    let g = table_generator_state(
        seed,
        seed_low_1,
        seed_high_1,
        iteration_count,
        seed_low_2,
        seed_high_2,
    );
    if check_sampler_draws(g, MAX_REDRAWS) {
        proof {
            lemma_shuffle_within_ok(xoro_iter(g, 3), 0, MAX_REDRAWS as nat);
        }
        Some(
            make_permutation_table(
                seed,
                seed_low_1,
                seed_high_1,
                iteration_count,
                seed_low_2,
                seed_high_2,
            ),
        )
    } else {
        None
    }
}

/// Whether `n` samplers can be drawn one after another from `r`.
pub open spec fn samplers_draws_ok(r: Xoroshiro128PlusPlusRandom, n: nat) -> bool
    decreases n,
{
    n == 0 || (sampler_draws_ok(r) && samplers_draws_ok(state_after_sampler(r), (n - 1) as nat))
}

/// The generator state after `n` samplers have been drawn from `r`.
pub open spec fn state_after_samplers(r: Xoroshiro128PlusPlusRandom, n: nat) -> Xoroshiro128PlusPlusRandom
    decreases n,
{
    if n == 0 {
        r
    } else {
        state_after_samplers(state_after_sampler(r), (n - 1) as nat)
    }
}

proof fn lemma_samplers_succ(r: Xoroshiro128PlusPlusRandom, n: nat)
    ensures
        state_after_samplers(r, n + 1) == state_after_sampler(state_after_samplers(r, n)),
        samplers_draws_ok(r, n + 1) ==> samplers_draws_ok(r, n) && sampler_draws_ok(
            state_after_samplers(r, n),
        ),
    decreases n,
{
    if n > 0 {
        lemma_samplers_succ(state_after_sampler(r), (n - 1) as nat);
    } else {
        assert(state_after_samplers(state_after_sampler(r), 0) == state_after_sampler(r));
    }
}

proof fn lemma_samplers_add(r: Xoroshiro128PlusPlusRandom, a: nat, b: nat)
    ensures
        state_after_samplers(r, a + b) == state_after_samplers(state_after_samplers(r, a), b),
        samplers_draws_ok(r, a + b) ==> samplers_draws_ok(state_after_samplers(r, a), b),
    decreases a,
{
    if a > 0 {
        lemma_samplers_add(state_after_sampler(r), (a - 1) as nat, b);
    }
}

/// Fills an octave array the way the legacy octave noise does: the last
/// slot is drawn first, then the slots below it from the top down, so slot
/// `k` holds the `(NUM - 1 - k)`-th sampler drawn from the generator.
pub fn create_legacy<const NUM: usize>(
    rng: &mut Xoroshiro128PlusPlusRandom,
    samplers: &mut [PerlinNoiseSampler; NUM],
)
    requires
        samplers_draws_ok(*old(rng), NUM as nat),
    ensures
        forall|k: int|
            0 <= k < NUM ==> is_sampler_from(
                #[trigger] final(samplers)@[k],
                state_after_samplers(*old(rng), (NUM - 1 - k) as nat),
            ),
        *final(rng) == state_after_samplers(*old(rng), NUM as nat),
        NUM == 0 ==> final(samplers)@ == old(samplers)@,
{
    if NUM == 0 {
        return ;
    }
    let ghost r0 = *rng;
    let mut drawn: usize = 0;
    while drawn < NUM
        invariant
            drawn <= NUM,
            samplers_draws_ok(r0, NUM as nat),
            *rng == state_after_samplers(r0, drawn as nat),
            samplers@.len() == NUM,
            forall|k: int|
                NUM - drawn <= k < NUM ==> is_sampler_from(
                    #[trigger] samplers@[k],
                    state_after_samplers(r0, (NUM - 1 - k) as nat),
                ),
        decreases NUM - drawn,
    {
        proof {
            lemma_samplers_add(r0, drawn as nat, (NUM - drawn) as nat);
            lemma_samplers_succ(r0, drawn as nat);
            assert(samplers_draws_ok(state_after_samplers(r0, drawn as nat), (NUM - drawn) as nat));
        }
        let s = create_perlin_noise_sampler(rng);
        samplers[NUM - 1 - drawn] = s;
        drawn = drawn + 1;
    }
}

/// The samplers of the blended (legacy interpolated) noise: two groups of 16
/// octaves and one of 8.
pub struct InterpolatedNoiseSampler {
    pub lower: [PerlinNoiseSampler; 16],
    pub upper: [PerlinNoiseSampler; 16],
    pub interpolation: [PerlinNoiseSampler; 8],
}

/// Whether `s` holds the 40 samplers drawn from `r`: the lower group first
/// (16), then the upper group (16), then the interpolation group (8), each
/// filled the legacy way.
pub open spec fn is_blended_from(s: InterpolatedNoiseSampler, r: Xoroshiro128PlusPlusRandom) -> bool {
    &&& forall|k: int|
        0 <= k < 16 ==> is_sampler_from(#[trigger] s.lower@[k], state_after_samplers(r, (15 - k) as nat))
    &&& forall|k: int|
        0 <= k < 16 ==> is_sampler_from(
            #[trigger] s.upper@[k],
            state_after_samplers(r, (16 + 15 - k) as nat),
        )
    &&& forall|k: int|
        0 <= k < 8 ==> is_sampler_from(
            #[trigger] s.interpolation@[k],
            state_after_samplers(r, (32 + 7 - k) as nat),
        )
}

impl InterpolatedNoiseSampler {
    /// Draws the three octave groups from `rng`, in the order lower, upper,
    /// interpolation.
    pub fn new_boxed(rng: &mut Xoroshiro128PlusPlusRandom) -> (r: Box<InterpolatedNoiseSampler>)
        requires
            samplers_draws_ok(*old(rng), 40),
        ensures
            is_blended_from(*r, *old(rng)),
            *final(rng) == state_after_samplers(*old(rng), 40),
    {
        let ghost r0 = *rng;
        let blank = PerlinNoiseSampler {
            permutation: [0u8; 256],
            origin_x_bits: 0,
            origin_y_bits: 0,
            origin_z_bits: 0,
        };
        let mut base = Box::new(
            InterpolatedNoiseSampler { lower: [blank; 16], upper: [blank; 16], interpolation: [blank; 8] },
        );
        proof {
            lemma_samplers_add(r0, 16, 24);
            lemma_samplers_add(r0, 32, 8);
            lemma_samplers_add(state_after_samplers(r0, 16), 16, 8);
            lemma_samplers_add(r0, 16, 16);
            let s16 = state_after_samplers(r0, 16);
            let s32 = state_after_samplers(r0, 32);
            assert forall|k: int| 0 <= k < 16 implies #[trigger] state_after_samplers(
                s16,
                (15 - k) as nat,
            ) == state_after_samplers(r0, (16 + 15 - k) as nat) by {
                lemma_samplers_add(r0, 16, (15 - k) as nat);
            }
            assert forall|k: int| 0 <= k < 8 implies #[trigger] state_after_samplers(
                s32,
                (7 - k) as nat,
            ) == state_after_samplers(r0, (32 + 7 - k) as nat) by {
                lemma_samplers_add(r0, 32, (7 - k) as nat);
            }
            assert(samplers_draws_ok(r0, 16)) by {
                lemma_samplers_prefix(r0, 16, 40);
            }
            assert(samplers_draws_ok(state_after_samplers(r0, 16), 16)) by {
                lemma_samplers_prefix(state_after_samplers(r0, 16), 16, 24);
            }
        }
        create_legacy(rng, &mut base.lower);
        create_legacy(rng, &mut base.upper);
        create_legacy(rng, &mut base.interpolation);
        base
    }
}

proof fn lemma_samplers_prefix(r: Xoroshiro128PlusPlusRandom, a: nat, b: nat)
    requires
        a <= b,
        samplers_draws_ok(r, b),
    ensures
        samplers_draws_ok(r, a),
    decreases a,
{
    if a > 0 {
        lemma_samplers_prefix(state_after_sampler(r), (a - 1) as nat, (b - 1) as nat);
    }
}

/// The generator from which the blended-noise samplers of a world seed are
/// drawn: the world seed's generator yields a splitter, which is split with
/// the seed pair of the name `minecraft:terrain`.
pub open spec fn base3d_generator(seed: i64) -> Xoroshiro128PlusPlusRandom {
    let ms = mixed_seed(seed);
    let base = xoro_init(ms.seed_lo, ms.seed_hi);
    let ns = name_seed("minecraft:terrain".spec_bytes());
    xoro_init(ns.seed_lo ^ xoro_out(base), ns.seed_hi ^ xoro_out(xoro_step(base)))
}

impl InterpolatedNoiseSampler {
    /// The blended-noise samplers of a world seed.
    pub fn create_base3d(seed: i64) -> (r: Box<InterpolatedNoiseSampler>)
        requires
            samplers_draws_ok(base3d_generator(seed), 40),
        ensures
            is_blended_from(*r, base3d_generator(seed)),
    {
        let mut rng = Xoroshiro128PlusPlusRandom::from_seed(&create_xoroshiro_seed(seed));
        let mut random_splitter = rng.next_splitter();
        let xoroshiro_seed = create_xoroshiro_seed_str("minecraft:terrain");
        let mut rng = random_splitter.split(xoroshiro_seed.seed_lo, xoroshiro_seed.seed_hi);
        Self::new_boxed(&mut rng)
    }
}

/// The blended-noise samplers of a world seed.
pub fn make_base3d_perm_table(seed: i64) -> (r: Box<InterpolatedNoiseSampler>)
    requires
        samplers_draws_ok(base3d_generator(seed), 40),
    ensures
        is_blended_from(*r, base3d_generator(seed)),
{
    InterpolatedNoiseSampler::create_base3d(seed)
}

/// The most redraws a single bounded draw may take before a table is given
/// up: every exec loop needs a bound, and each redraw is taken with
/// probability below `2^-24`, so in practice the cap is never reached.
pub const MAX_REDRAWS: u32 = 0xFFFF_FFFFu32;

/// Whether a bounded draw from `r` settles within `max_redraws` redraws:
/// its first sample is kept, or the rejection loop ends within that many
/// redraws.
pub open spec fn draw_settles_within(r: Xoroshiro128PlusPlusRandom, bound: i32, max_redraws: nat) -> bool {
    bound_first_kept(r, bound) || bound_redraws(
        bound_first_product(r, bound),
        xoro_step(r),
        bound,
        bound_threshold(bound),
        max_redraws,
    ) is Some
}

/// Whether every shuffle draw from position `i` on settles within
/// `max_redraws` redraws.
pub open spec fn shuffle_draws_within(r: Xoroshiro128PlusPlusRandom, i: nat, max_redraws: nat) -> bool
    decreases 256 - i,
{
    if i >= 256 {
        true
    } else {
        let bound = (256 - i) as i32;
        &&& draw_settles_within(r, bound, max_redraws)
        &&& shuffle_draws_within(bound_draw_state(r, bound), i + 1, max_redraws)
    }
}

/// Whether the shuffle draws of a sampler drawn from `r` all settle within
/// `max_redraws` redraws.
pub open spec fn sampler_draws_within(r: Xoroshiro128PlusPlusRandom, max_redraws: nat) -> bool {
    shuffle_draws_within(xoro_iter(r, 3), 0, max_redraws)
}

/// Whether `n` samplers drawn one after another from `r` have all their
/// shuffle draws settle within `max_redraws` redraws.
pub open spec fn samplers_draws_within(r: Xoroshiro128PlusPlusRandom, n: nat, max_redraws: nat) -> bool
    decreases n,
{
    n == 0 || (sampler_draws_within(r, max_redraws) && samplers_draws_within(
        state_after_sampler(r),
        (n - 1) as nat,
        max_redraws,
    ))
}

proof fn lemma_shuffle_within_ok(r: Xoroshiro128PlusPlusRandom, i: nat, max_redraws: nat)
    requires
        i <= 256,
        shuffle_draws_within(r, i, max_redraws),
    ensures
        shuffle_draws_ok(r, i),
    decreases 256 - i,
{
    if i < 256 {
        let bound = (256 - i) as i32;
        if !bound_first_kept(r, bound) {
            assert(bound_redraws(
                bound_first_product(r, bound),
                xoro_step(r),
                bound,
                bound_threshold(bound),
                max_redraws,
            ) is Some);
        }
        assert(bound_draw_returns(r, bound));
        lemma_bound_draw_in_range(r, bound);
        lemma_shuffle_within_ok(bound_draw_state(r, bound), i + 1, max_redraws);
    }
}

proof fn lemma_samplers_within_ok(r: Xoroshiro128PlusPlusRandom, n: nat, max_redraws: nat)
    requires
        samplers_draws_within(r, n, max_redraws),
    ensures
        samplers_draws_ok(r, n),
    decreases n,
{
    if n > 0 {
        lemma_shuffle_within_ok(xoro_iter(r, 3), 0, max_redraws);
        lemma_samplers_within_ok(state_after_sampler(r), (n - 1) as nat, max_redraws);
    }
}

/// Draws a sampler from `rng` when every shuffle draw settles within
/// `max_redraws` redraws; otherwise leaves `rng` as it is and gives `None`.
pub fn try_create_perlin_noise_sampler(rng: &mut Xoroshiro128PlusPlusRandom, max_redraws: u32) -> (r:
    Option<PerlinNoiseSampler>)
    ensures
        r is Some <==> sampler_draws_within(*old(rng), max_redraws as nat),
        r matches Some(s) ==> is_sampler_from(s, *old(rng)) && all_distinct(s.permutation@)
            && *final(rng) == state_after_sampler(*old(rng)),
        r is None ==> *final(rng) == *old(rng),
{
    if check_sampler_draws(*rng, max_redraws) {
        proof {
            lemma_shuffle_within_ok(xoro_iter(*rng, 3), 0, max_redraws as nat);
        }
        Some(create_perlin_noise_sampler(rng))
    } else {
        None
    }
}

/// Checks that `n` samplers drawn one after another from `r` have all their
/// shuffle draws settle within `max_redraws` redraws.
fn check_samplers_draws(r: Xoroshiro128PlusPlusRandom, n: usize, max_redraws: u32) -> (b: bool)
    ensures
        b == samplers_draws_within(r, n as nat, max_redraws as nat),
{
    let mut g = r;
    let mut k: usize = 0;
    while k < n
        invariant
            k <= n,
            samplers_draws_within(r, n as nat, max_redraws as nat) == samplers_draws_within(
                g,
                (n - k) as nat,
                max_redraws as nat,
            ),
        decreases n - k,
    {
        match try_create_perlin_noise_sampler(&mut g, max_redraws) {
            None => {
                return false;
            },
            Some(_) => {},
        }
        k = k + 1;
    }
    true
}

/// The blended-noise samplers of a world seed, or `None` when some shuffle
/// draw of the 40 samplers would need more than `MAX_REDRAWS` redraws.
pub fn try_make_base3d_perm_table(seed: i64) -> (r: Option<Box<InterpolatedNoiseSampler>>)
    ensures
        r is Some <==> samplers_draws_within(base3d_generator(seed), 40, MAX_REDRAWS as nat),
        r matches Some(s) ==> is_blended_from(*s, base3d_generator(seed)),
{
    let mut rng = Xoroshiro128PlusPlusRandom::from_seed(&create_xoroshiro_seed(seed));
    let mut random_splitter = rng.next_splitter();
    let xoroshiro_seed = create_xoroshiro_seed_str("minecraft:terrain");
    let gen = random_splitter.split(xoroshiro_seed.seed_lo, xoroshiro_seed.seed_hi);
    if check_samplers_draws(gen, 40, MAX_REDRAWS) {
        proof {
            lemma_samplers_within_ok(gen, 40, MAX_REDRAWS as nat);
        }
        Some(make_base3d_perm_table(seed))
    } else {
        None
    }
}

/// A bounded draw whose rejection loop is cut off after `max_redraws`
/// redraws: `Some` of the drawn value when the loop ends within them.
fn draw_within(g: &mut Xoroshiro128PlusPlusRandom, bound: i32, max_redraws: u32) -> (r: Option<i32>)
    requires
        0 < bound,
    ensures
        r is Some <==> draw_settles_within(*old(g), bound, max_redraws as nat),
        r matches Some(v) ==> {
            &&& bound_draw_returns(*old(g), bound)
            &&& v == bound_draw_value(*old(g), bound)
            &&& *final(g) == bound_draw_state(*old(g), bound)
        },
{
    let ghost r0 = *g;
    let l = g.next_int() as u32 as u64 as i64;
    let mut m = l.wrapping_mul(bound as i64);
    let mut n = m & 0xFFFFFFFFi64;
    assert(m == bound_first_product(r0, bound));
    if n < bound as i64 {
        let b = bound as u32;
        assert(!b == 0xFFFF_FFFFu32 - b) by (bit_vector);
        let threshold = remainder_unsigned((!b) + 1, b);
        assert(threshold as i64 == bound_threshold(bound));
        let ghost start = *g;
        let ghost m0 = m;
        let mut used: u32 = 0;
        while n < threshold as i64
            invariant
                used <= max_redraws,
                r0 == *old(g),
                !bound_first_kept(r0, bound),
                threshold as i64 == bound_threshold(bound),
                n == low32(m),
                m0 == bound_first_product(r0, bound),
                start == xoro_step(r0),
                forall|f: nat|
                    #![trigger bound_redraws(m0, start, bound, bound_threshold(bound), f)]
                    f >= used ==> bound_redraws(m0, start, bound, bound_threshold(bound), f)
                        == bound_redraws(m, *g, bound, bound_threshold(bound), (f - used) as nat),
            decreases max_redraws - used,
        {
            if used == max_redraws {
                proof {
                    let f = max_redraws as nat;
                    assert(bound_redraws(m0, start, bound, bound_threshold(bound), f) == bound_redraws(
                        m,
                        *g,
                        bound,
                        bound_threshold(bound),
                        0,
                    ));
                }
                return None;
            }
            let ghost before_m = m;
            let ghost before_g = *g;
            let l2 = g.next_int() as u32 as u64 as i64;
            m = l2.wrapping_mul(bound as i64);
            n = m & 0xFFFFFFFFi64;
            assert forall|f: nat|
                #![trigger bound_redraws(m0, start, bound, bound_threshold(bound), f)]
                f >= used + 1 implies bound_redraws(m0, start, bound, bound_threshold(bound), f)
                    == bound_redraws(m, *g, bound, bound_threshold(bound), (f - (used + 1)) as nat) by {
                assert(bound_redraws(before_m, before_g, bound, bound_threshold(bound), (f - used) as nat)
                    == bound_redraws(m, *g, bound, bound_threshold(bound), (f - used - 1) as nat));
            }
            used = used + 1;
        }
        proof {
            let f = used as nat;
            assert(bound_redraws(m0, start, bound, bound_threshold(bound), f) == bound_redraws(
                m,
                *g,
                bound,
                bound_threshold(bound),
                0,
            ));
            assert(bound_redraws(m0, start, bound, bound_threshold(bound), f) is Some);
            lemma_bound_redraws_more_fuel(
                m0,
                start,
                bound,
                bound_threshold(bound),
                f,
                max_redraws as nat,
            );
            let chosen = bound_fuel(r0, bound);
            if chosen <= f {
                lemma_bound_redraws_more_fuel(m0, start, bound, bound_threshold(bound), chosen, f);
            } else {
                lemma_bound_redraws_more_fuel(m0, start, bound, bound_threshold(bound), f, chosen);
            }
        }
    }
    Some((m >> 32i64) as i32)
}

/// Checks, by stepping a copy of the generator, that the shuffle draws from
/// `r` all settle within `max_redraws` redraws each.
fn check_shuffle_draws(r: Xoroshiro128PlusPlusRandom, max_redraws: u32) -> (b: bool)
    ensures
        b == shuffle_draws_within(r, 0, max_redraws as nat),
{
    let mut g = r;
    let mut i: usize = 0;
    while i < 256
        invariant
            i <= 256,
            shuffle_draws_within(r, 0, max_redraws as nat) == shuffle_draws_within(
                g,
                i as nat,
                max_redraws as nat,
            ),
        decreases 256 - i,
    {
        let bound = (256 - i) as i32;
        if draw_within(&mut g, bound, max_redraws).is_none() {
            return false;
        }
        i = i + 1;
    }
    true
}

/// Checks that the shuffle draws of a sampler drawn from `r` all settle
/// within `max_redraws` redraws.
fn check_sampler_draws(r: Xoroshiro128PlusPlusRandom, max_redraws: u32) -> (b: bool)
    ensures
        b == sampler_draws_within(r, max_redraws as nat),
{
    let mut g = r;
    g.next_raw();
    g.next_raw();
    g.next_raw();
    proof {
        assert(xoro_iter(r, 0) == r);
        lemma_xoro_iter_succ(r, 0);
        lemma_xoro_iter_succ(r, 1);
        lemma_xoro_iter_succ(r, 2);
    }
    check_shuffle_draws(g, max_redraws)
}

/// The gradient direction of a lattice hash (its low four bits select one
/// of sixteen directions).
pub open spec fn gradient_of(hash: i32) -> (int, int, int) {
    let k = hash & 15i32;
    if k == 0 {
        (1, 1, 0)
    } else if k == 1 {
        (-1, 1, 0)
    } else if k == 2 {
        (1, -1, 0)
    } else if k == 3 {
        (-1, -1, 0)
    } else if k == 4 {
        (1, 0, 1)
    } else if k == 5 {
        (-1, 0, 1)
    } else if k == 6 {
        (1, 0, -1)
    } else if k == 7 {
        (-1, 0, -1)
    } else if k == 8 {
        (0, 1, 1)
    } else if k == 9 {
        (0, -1, 1)
    } else if k == 10 {
        (0, 1, -1)
    } else if k == 11 {
        (0, -1, -1)
    } else if k == 12 {
        (1, 1, 0)
    } else if k == 13 {
        (0, -1, 1)
    } else if k == 14 {
        (-1, 1, 0)
    } else {
        (0, -1, -1)
    }
}

/// The gradient direction that a lattice hash selects.
pub fn gradient(hash: i32) -> (r: [i32; 3])
    ensures
        (r[0] as int, r[1] as int, r[2] as int) == gradient_of(hash),
{
    let k = hash & 15;
    let g: (i32, i32, i32) = if k == 0 {
        (1, 1, 0)
    } else if k == 1 {
        (-1, 1, 0)
    } else if k == 2 {
        (1, -1, 0)
    } else if k == 3 {
        (-1, -1, 0)
    } else if k == 4 {
        (1, 0, 1)
    } else if k == 5 {
        (-1, 0, 1)
    } else if k == 6 {
        (1, 0, -1)
    } else if k == 7 {
        (-1, 0, -1)
    } else if k == 8 {
        (0, 1, 1)
    } else if k == 9 {
        (0, -1, 1)
    } else if k == 10 {
        (0, 1, -1)
    } else if k == 11 {
        (0, -1, -1)
    } else if k == 12 {
        (1, 1, 0)
    } else if k == 13 {
        (0, -1, 1)
    } else if k == 14 {
        (-1, 1, 0)
    } else {
        (0, -1, -1)
    };
    [g.0, g.1, g.2]
}

/// Whether a direction is an edge direction of the cube: one coordinate is
/// zero and the other two are each `1` or `-1`.
pub open spec fn is_cube_edge(g: (int, int, int)) -> bool {
    let unit = |v: int| v == 1 || v == -1;
    ||| g.0 == 0 && unit(g.1) && unit(g.2)
    ||| g.1 == 0 && unit(g.0) && unit(g.2)
    ||| g.2 == 0 && unit(g.0) && unit(g.1)
}

/// How the low four bits of a hash select its gradient. For the first
/// twelve values, bits 2 and 3 choose the plane (`xy`, `xz`, `yz`), bit 0
/// the sign of the plane's first axis and bit 1 the sign of its second
/// axis, so the twelve cube-edge directions each come once; the last four
/// values repeat four of them (those of 0, 9, 1 and 11). Every gradient is
/// therefore a cube-edge direction, and two hashes below twelve select the
/// same direction only when they are equal.
pub proof fn lemma_gradient_selection(hash: i32, other: i32)
    ensures
        is_cube_edge(gradient_of(hash)),
        ({
            let k = (hash & 15i32) as int;
            let s1: int = if k % 2 == 1 { -1 } else { 1 };
            let s2: int = if (k / 2) % 2 == 1 { -1 } else { 1 };
            &&& 0 <= k < 4 ==> gradient_of(hash) == (s1, s2, 0int)
            &&& 4 <= k < 8 ==> gradient_of(hash) == (s1, 0int, s2)
            &&& 8 <= k < 12 ==> gradient_of(hash) == (0int, s1, s2)
            &&& k == 12 ==> gradient_of(hash) == gradient_of(0)
            &&& k == 13 ==> gradient_of(hash) == gradient_of(9)
            &&& k == 14 ==> gradient_of(hash) == gradient_of(1)
            &&& k == 15 ==> gradient_of(hash) == gradient_of(11)
        }),
        (hash & 15i32) < 12 && (other & 15i32) < 12 && gradient_of(hash) == gradient_of(other) ==> (
        hash & 15i32) == (other & 15i32),
{
    let k = hash & 15i32;
    let j = other & 15i32;
    assert(0 <= k < 16) by (bit_vector)
        requires
            k == hash & 15i32,
    ;
    assert(0 <= j < 16) by (bit_vector)
        requires
            j == other & 15i32,
    ;
    assert(0i32 & 15i32 == 0i32 && 9i32 & 15i32 == 9i32 && 1i32 & 15i32 == 1i32 && 11i32 & 15i32
        == 11i32) by (bit_vector);
}

/// A permutation table given as signed bytes, read as the unsigned bytes
/// with the same bit patterns.
pub fn table_from_signed(t: &[i8; 256]) -> (r: [u8; 256])
    ensures
        forall|k: int| 0 <= k < 256 ==> #[trigger] r@[k] == t@[k] as u8,
{
    let mut r: [u8; 256] = [0u8; 256];
    let mut i: usize = 0;
    while i < 256
        invariant
            i <= 256,
            forall|k: int| 0 <= k < i ==> #[trigger] r@[k] == t@[k] as u8,
        decreases 256 - i,
    {
        r[i] = t[i] as u8;
        i = i + 1;
    }
    r
}

/// Whether the permutation tables must be rebuilt for `seed` when
/// `current` is the seed they were built for.
pub open spec fn perlin_rebuild_needed(current: Option<i64>, seed: i64) -> bool {
    current != Some(seed)
}

/// Makes `seed` the current Perlin seed. Returns whether the permutation
/// tables must be rebuilt: when no seed was current, or another one was.
pub fn set_perlin_seed(current_seed: &mut Option<i64>, seed: i64) -> (rebuild: bool)
    ensures
        rebuild == perlin_rebuild_needed(*old(current_seed), seed),
        *final(current_seed) == Some(seed),
{
    let rebuild = match *current_seed {
        Some(current) => current != seed,
        None => true,
    };
    if rebuild {
        *current_seed = Some(seed);
    }
    rebuild
}

/// Setting the same seed again never rebuilds: after a call with `seed`,
/// the next call with `seed` answers `false`.
pub proof fn lemma_set_perlin_seed_idempotent(seed: i64)
    ensures
        !perlin_rebuild_needed(Some(seed), seed),
{
}

} // verus!
