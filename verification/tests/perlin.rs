use tungsten_mc::perlin::{
    create_legacy, create_perlin_noise_sampler, gradient, make_base3d_perm_table,
    make_permutation_table, section_corner_hashes, set_perlin_seed, table_from_signed,
    try_make_base3d_perm_table, try_make_permutation_table, InterpolatedNoiseSampler,
    PerlinNoiseSampler,
};
use tungsten_mc::xoroshiro::{create_xoroshiro_seed, create_xoroshiro_seed_str, Xoroshiro128PlusPlusRandom};

fn sampler_of_world_seed_zero() -> PerlinNoiseSampler {
    let mut rng = Xoroshiro128PlusPlusRandom::from_seed(&create_xoroshiro_seed(0));
    create_perlin_noise_sampler(&mut rng)
}

#[test]
fn sampler_draws_origin_and_shuffle() {
    let s = sampler_of_world_seed_zero();
    assert_eq!(s.origin_x_bits, 1483879275744746);
    assert_eq!(s.origin_y_bits, 7203469134254840);
    assert_eq!(s.origin_z_bits, 2262574125342359);
    assert_eq!(&s.permutation[..8], &[79, 225, 253, 23, 87, 169, 96, 152]);
    assert_eq!(s.permutation[255], 230);
}

#[test]
fn sampler_table_is_a_permutation() {
    let s = sampler_of_world_seed_zero();
    let mut seen = [false; 256];
    for &v in s.permutation.iter() {
        assert!(!seen[v as usize]);
        seen[v as usize] = true;
    }
}

#[test]
fn lattice_lookup() {
    let s = sampler_of_world_seed_zero();
    assert_eq!(tungsten_mc::perlin::map(&s, 0), 79);
    assert_eq!(tungsten_mc::perlin::map(&s, 255), 230);
    assert_eq!(tungsten_mc::perlin::map(&s, 256), 79);
    assert_eq!(tungsten_mc::perlin::map(&s, -1), 230);
    assert_eq!(section_corner_hashes(&s, 0, 0, 0), [237, 226, 170, 99, 154, 86, 54, 224]);
    assert_eq!(section_corner_hashes(&s, -3, 70, 12), [129, 16, 155, 172, 178, 211, 164, 187]);
}

#[test]
fn permutation_table_from_names() {
    let s1 = create_xoroshiro_seed_str("minecraft:ore_gap");
    let t = make_permutation_table(0, s1.seed_lo, s1.seed_hi, 0, s1.seed_lo, s1.seed_hi);
    assert_eq!(t.origin_x_bits, 1223931868127310);
    assert_eq!(t.origin_y_bits, 2415895971684193);
    assert_eq!(t.origin_z_bits, 7811988405439908);
    assert_eq!(&t.permutation[..5], &[89, 35, 222, 254, 165]);
    assert_eq!(t.permutation[255], 131);
    let t42 = make_permutation_table(42, s1.seed_lo, s1.seed_hi, 1, s1.seed_lo, s1.seed_hi);
    assert_eq!(t42.origin_x_bits, 2786133867021397);
    assert_eq!(&t42.permutation[..5], &[41, 128, 225, 9, 175]);
}

#[test]
fn checked_permutation_table_agrees() {
    let s1 = create_xoroshiro_seed_str("minecraft:ore_gap");
    let t = make_permutation_table(0, s1.seed_lo, s1.seed_hi, 0, s1.seed_lo, s1.seed_hi);
    let u = try_make_permutation_table(0, s1.seed_lo, s1.seed_hi, 0, s1.seed_lo, s1.seed_hi)
        .expect("draws of this table return at once");
    assert_eq!(t.permutation, u.permutation);
    assert_eq!(t.origin_x_bits, u.origin_x_bits);
}

#[test]
fn legacy_fill_is_top_down() {
    let mut rng = Xoroshiro128PlusPlusRandom::new(7, 8);
    let blank = PerlinNoiseSampler {
        permutation: [0u8; 256],
        origin_x_bits: 0,
        origin_y_bits: 0,
        origin_z_bits: 0,
    };
    let mut samplers = [blank; 3];
    create_legacy(&mut rng, &mut samplers);
    assert_eq!(samplers[2].origin_x_bits, 960);
    assert_eq!(samplers[1].origin_x_bits, 5956636754611358);
    assert_eq!(samplers[0].origin_x_bits, 5545119479001460);
    assert_eq!(rng.next_raw(), 177372585342399173);
}

#[test]
fn blended_noise_samplers() {
    let b = make_base3d_perm_table(0);
    assert_eq!(b.lower[15].origin_x_bits, 641177278365088);
    assert_eq!(&b.lower[15].permutation[..4], &[59, 36, 80, 191]);
    assert_eq!(b.lower[0].origin_x_bits, 8515613179067865);
    assert_eq!(b.upper[15].origin_x_bits, 2275049057038044);
    assert_eq!(b.interpolation[0].origin_x_bits, 8490784240770086);
    assert_eq!(&b.interpolation[0].permutation[..4], &[147, 20, 69, 250]);
    let c = InterpolatedNoiseSampler::create_base3d(0);
    assert_eq!(c.upper[15].origin_x_bits, 2275049057038044);
    let d = try_make_base3d_perm_table(0).expect("draws return at once");
    assert_eq!(d.interpolation[0].origin_x_bits, 8490784240770086);
}

#[test]
fn perlin_seed_cache() {
    let mut current = None;
    assert!(set_perlin_seed(&mut current, 5));
    assert_eq!(current, Some(5));
    assert!(!set_perlin_seed(&mut current, 5));
    assert!(set_perlin_seed(&mut current, 6));
    assert_eq!(current, Some(6));
}

#[test]
fn gradient_table() {
    assert_eq!(gradient(0), [1, 1, 0]);
    assert_eq!(gradient(7), [-1, 0, -1]);
    assert_eq!(gradient(13), [0, -1, 1]);
    assert_eq!(gradient(16 + 3), [-1, -1, 0]);
    assert_eq!(gradient(-1), [0, -1, -1]);
}

#[test]
fn signed_table_bytes() {
    let mut t = [0i8; 256];
    t[0] = -1;
    t[1] = 5;
    t[255] = -128;
    let r = table_from_signed(&t);
    assert_eq!(r[0], 255);
    assert_eq!(r[1], 5);
    assert_eq!(r[255], 128);
}
