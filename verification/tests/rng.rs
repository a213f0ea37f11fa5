use tungsten_mc::random::{java_str_hash_code, CheckedRandom, RandomSplitter};
use tungsten_mc::xoroshiro::{
    create_unmixed_xoroshiro_seed, create_xoroshiro_seed, create_xoroshiro_seed_str,
    mix_stafford13, remainder_unsigned, Xoroshiro128PlusPlusRandom, XoroshiroSeed,
};

#[test]
fn stafford_mix_values() {
    assert_eq!(mix_stafford13(0), 0);
    assert_eq!(mix_stafford13(1), 6238072747940578789);
    assert_eq!(mix_stafford13(-1), -5417735806833148549);
    assert_eq!(mix_stafford13(123456789), -1000775671988880032);
}

#[test]
fn seed_split_and_mix() {
    let s = XoroshiroSeed::new(5, -9);
    assert_eq!((s.seed_lo, s.seed_hi), (5, -9));
    let t = s.split_with(3, 3);
    assert_eq!((t.seed_lo, t.seed_hi), (6, -12));
    let m = XoroshiroSeed::new(1, -1).mix();
    assert_eq!(m.seed_lo, 6238072747940578789);
    assert_eq!(m.seed_hi, -5417735806833148549);
}

#[test]
fn split_with_twice_gives_seed_back() {
    let s = XoroshiroSeed::new(0x1234_5678, -987654321);
    let back = s.split_with(-42, 77).split_with(-42, 77);
    assert_eq!(back, s);
}

#[test]
fn world_seed_pairs() {
    let u = create_unmixed_xoroshiro_seed(0);
    assert_eq!((u.seed_lo, u.seed_hi), (7640891576956012809, 594862322569659678));
    let m = create_xoroshiro_seed(0);
    assert_eq!((m.seed_lo, m.seed_hi), (3847398142028685078, 7192185014346937746));
    let m42 = create_xoroshiro_seed(42);
    assert_eq!((m42.seed_lo, m42.seed_hi), (6720814022939733433, -2851323883594622011));
    assert_eq!(create_unmixed_xoroshiro_seed(42).mix(), m42);
}

#[test]
fn name_seed_pairs() {
    let t = create_xoroshiro_seed_str("minecraft:terrain");
    assert_eq!((t.seed_lo, t.seed_hi), (2226279196109926164, -2108001439914377933));
    let o = create_xoroshiro_seed_str("minecraft:ore_gap");
    assert_eq!((o.seed_lo, o.seed_hi), (-7184148833544444741, -4802697093981160610));
    let e = create_xoroshiro_seed_str("");
    assert_eq!((e.seed_lo, e.seed_hi), (-3162216497309240828, -1621285313438006658));
}

#[test]
fn xoroshiro_outputs() {
    let mut r = Xoroshiro128PlusPlusRandom::new(1, 2);
    assert_eq!(r.next_raw(), 393217);
    assert_eq!(r.next_raw(), 669327710093319);
    assert_eq!(r.next_long(), 1732421326133921491);
}

#[test]
fn xoroshiro_zero_seed_uses_ratios() {
    let mut r = Xoroshiro128PlusPlusRandom::new(0, 0);
    assert_eq!(r.next_raw(), 6807859099481836695);
    assert_eq!(r.next_raw(), 5275285228792843439);
}

#[test]
fn xoroshiro_derived_draws() {
    let seed = create_xoroshiro_seed(0);
    let mut r = Xoroshiro128PlusPlusRandom::from_seed(&seed);
    assert_eq!(r.next_int(), -160476802);
    assert_eq!(r.next_int(), 781697906);
    let mut r = Xoroshiro128PlusPlusRandom::from_seed(&seed);
    assert_eq!(r.next_double_bits(), 1483879275744746);
    assert_eq!(r.next_double_bits(), 7203469134254840);
    let mut r = Xoroshiro128PlusPlusRandom::from_seed(&seed);
    assert_eq!(r.next(5), 5);
    assert_eq!(r.next(5), 25);
}

#[test]
fn xoroshiro_bounded_draws() {
    let mut r = Xoroshiro128PlusPlusRandom::from_seed(&create_xoroshiro_seed(0));
    let got: Vec<i32> = (0..5).map(|_| r.next_int_bound(10)).collect();
    assert_eq!(got, vec![9, 1, 1, 3, 8]);
}

#[test]
fn xoroshiro_skip_matches_steps() {
    let mut a = Xoroshiro128PlusPlusRandom::new(11, 22);
    let mut b = Xoroshiro128PlusPlusRandom::new(11, 22);
    a.skip(3);
    for _ in 0..3 {
        b.next_raw();
    }
    assert_eq!(a.next_raw(), b.next_raw());
    let mut c = Xoroshiro128PlusPlusRandom::new(11, 22);
    c.skip(-4);
    assert_eq!(c.next_raw(), Xoroshiro128PlusPlusRandom::new(11, 22).next_raw());
}

#[test]
fn xoroshiro_splitter() {
    let mut base = Xoroshiro128PlusPlusRandom::new(1, 2);
    let mut splitter = base.next_splitter();
    let mut derived = splitter.split(0, 0);
    let mut expected = Xoroshiro128PlusPlusRandom::new(393217, 669327710093319);
    assert_eq!(derived.next_raw(), expected.next_raw());
    assert_eq!(base.next_raw(), 1732421326133921491);
}

#[test]
fn unsigned_remainder() {
    assert_eq!(remainder_unsigned(10, 3), 1);
    assert_eq!(remainder_unsigned(u32::MAX, 256), 255);
}

#[test]
fn java_random_values() {
    let mut c = CheckedRandom::new(0);
    assert_eq!(c.next(32), -1155484576);
    assert_eq!(c.next(32), -723955400);
    let mut c = CheckedRandom::new(42);
    let got: Vec<i32> = (0..5).map(|_| c.next_int(10)).collect();
    assert_eq!(got, vec![0, 3, 8, 4, 0]);
    assert_eq!(CheckedRandom::new(42).next_int(16), 11);
    assert_eq!(CheckedRandom::new(42).next_long(), -5025562857975149833);
    assert_eq!(CheckedRandom::new(42).next_double_bits(), 6553311036568663);
}

#[test]
fn java_random_skip_and_reset() {
    let mut c = CheckedRandom::new(42);
    c.skip(3);
    assert_eq!(c.next(32), 1190043011);
    c.set_seed(0);
    assert_eq!(c.next(32), -1155484576);
}

#[test]
fn java_string_hash() {
    assert_eq!(java_str_hash_code("hello"), 99162322);
    assert_eq!(java_str_hash_code(""), 0);
    assert_eq!(java_str_hash_code("minecraft:terrain"), 1657813608);
}

#[test]
fn legacy_splitter() {
    let s = RandomSplitter::new(12345);
    assert_eq!(s.split(1, 2, 3).next(32), 705897015);
    let s = RandomSplitter::new(777);
    assert_eq!(s.split_str("abc").next(32), -350266425);
    assert_eq!(s.split_seed(0).next(32), -1155484576);
    let mut c = CheckedRandom::new(42);
    let splitter = c.next_splitter();
    let mut d = CheckedRandom::new(42);
    d.skip(1);
    assert_eq!(c.next(32), d.next(32));
    assert_eq!(
        splitter.split(0, 0, 0).next(32),
        CheckedRandom::new(-5025562857975149833).next(32)
    );
}

#[test]
fn bounded_draw_after_a_redraw_stays_in_range() {
    let mut r = Xoroshiro128PlusPlusRandom::new(16384, 7);
    assert_eq!(r.next_int_bound(1431655766), 721054381);
    assert_eq!(r.next_int_bound(1431655766), 267008483);
}

#[test]
fn bounded_draws_kept_at_once_are_in_range() {
    let mut r = Xoroshiro128PlusPlusRandom::new(3, 4);
    let got: Vec<i32> = [1, 2, 3, 10, 255, 1000, i32::MAX].iter().map(|&b| r.next_int_bound(b)).collect();
    assert_eq!(got, vec![0, 0, 0, 0, 15, 25, 1712793367]);
    let mut c = CheckedRandom::new(7);
    let got: Vec<i32> = [1, 2, 3, 10, 16, 1 << 30, i32::MAX].iter().map(|&b| c.next_int(b)).collect();
    assert_eq!(got, vec![0, 1, 0, 4, 5, 526783127, 1926887968]);
}
