use tungsten_mc::shrink::bounds::counts_fit_check;
use tungsten_mc::density::{
    BinaryOp, DensitySource, DensityType, Dimensions, NormalNoiseType, SplinePoint, SplineType,
    SplineValue, UnaryOp,
};
use tungsten_mc::shrink::rebuild::{compact_source_to_new_arena, replace_nth_node};
use tungsten_mc::shrink::remove_named_references::RemoveNamedReferences;
use tungsten_mc::shrink::remove_operand::RemoveOperand;
use tungsten_mc::shrink::remove_wrappers::RemoveWrappers;
use tungsten_mc::shrink::replace_with_constant::ReplaceWithConstant;
use tungsten_mc::shrink::simplify_noise::SimplifyNoise;
use tungsten_mc::shrink::simplify_noise_params::SimplifyNoiseParams;
use tungsten_mc::shrink::take_subtree::TakeSubtree;
use tungsten_mc::shrink::{ShrinkMethod, Shrinker};

fn c(v: u64) -> DensityType {
    DensityType::Const(v)
}

fn bin(op: BinaryOp, l: DensityType, r: DensityType) -> DensityType {
    DensityType::Binary { op, left: Box::new(l), right: Box::new(r) }
}

fn add(l: DensityType, r: DensityType) -> DensityType {
    bin(BinaryOp::Add, l, r)
}

fn un(op: UnaryOp, a: DensityType) -> DensityType {
    DensityType::Unary { op, argument: Box::new(a) }
}

fn named(n: &str, a: DensityType) -> DensityType {
    DensityType::NamedDensityReference { name: n.to_string(), argument: Box::new(a) }
}

fn noise(n: &str, amps: Vec<u64>) -> DensityType {
    DensityType::Noise {
        name: n.to_string(),
        noise: NormalNoiseType { first_octave: -3, amplitudes: amps },
        xz_scale: 1.0f64.to_bits(),
        y_scale: 1.0f64.to_bits(),
    }
}

fn single(d: DensityType) -> DensitySource {
    DensitySource::SingleSamplingDensity { density: Box::new(d) }
}

fn multi(d: DensityType) -> DensitySource {
    DensitySource::MultiSamplingDensity {
        density: Box::new(d),
        dimensions: Dimensions { x: 4, y: 8, z: 4 },
    }
}

fn density_of(s: &DensitySource) -> &DensityType {
    s.get_density()
}

fn same(a: &DensityType, b: &DensityType) -> bool {
    a.same_as(b)
}

#[test]
fn tree_equality_and_copies() {
    let t = named("a", add(un(UnaryOp::Cache2d, c(1)), noise("n", vec![1, 2])));
    assert!(same(&t, &t.deep_clone()));
    assert!(!same(&t, &named("b", add(un(UnaryOp::Cache2d, c(1)), noise("n", vec![1, 2])))));
    assert!(!same(&t, &named("a", add(un(UnaryOp::Cache2d, c(1)), noise("n", vec![1])))));
    assert!(!same(&c(1), &c(2)));
    let s = multi(t.deep_clone());
    let copy = compact_source_to_new_arena(&s);
    assert!(same(density_of(&copy), &t));
    assert!(matches!(copy, DensitySource::MultiSamplingDensity { dimensions: Dimensions { x: 4, y: 8, z: 4 }, .. }));
}

#[test]
fn spline_equality() {
    let mk = |v: u64| DensityType::Spline {
        spline: Box::new(SplineType {
            coordinate: Box::new(c(1)),
            spline_points: vec![
                SplinePoint { derivative: 0, location: 1, value: SplineValue::Const(v) },
                SplinePoint {
                    derivative: 2,
                    location: 3,
                    value: SplineValue::Spline(Box::new(SplineType {
                        coordinate: Box::new(named("x", c(4))),
                        spline_points: vec![],
                    })),
                },
            ],
        }),
    };
    assert!(same(&mk(5), &mk(5).deep_clone()));
    assert!(!same(&mk(5), &mk(6)));
}

#[test]
fn remove_named_references_strips_inner_names() {
    let t = named("root", add(un(UnaryOp::Cache2d, c(1)), un(UnaryOp::FlatCache, named("x", c(2)))));
    let src = single(t);
    let mut m = RemoveNamedReferences { exhausted: false };
    assert_eq!(m.name(), "remove_named_references");
    assert_eq!(m.can_shrink(0, &src), (true, 0));
    let out = m.perform_shrink(0, src);
    let want = named("root", add(un(UnaryOp::Cache2d, c(1)), un(UnaryOp::FlatCache, c(2))));
    assert!(same(density_of(&out), &want));
    assert_eq!(m.can_shrink(0, &out), (false, 0));
    assert!(m.exhausted);
    assert_eq!(m.can_shrink(0, &out), (false, 0));
    m.reenable();
    assert!(!m.exhausted);
}

#[test]
fn remove_wrappers_candidates() {
    let t = add(un(UnaryOp::Cache2d, c(1)), un(UnaryOp::FlatCache, un(UnaryOp::Cache2d, c(2))));
    let mut m = RemoveWrappers { exhausted: false };
    assert_eq!(m.can_shrink(2, &single(t.deep_clone())), (true, 2));
    let r0 = m.perform_shrink(0, single(t.deep_clone()));
    assert!(same(density_of(&r0), &add(c(1), un(UnaryOp::FlatCache, un(UnaryOp::Cache2d, c(2))))));
    let r1 = m.perform_shrink(1, single(t.deep_clone()));
    assert!(same(density_of(&r1), &add(un(UnaryOp::Cache2d, c(1)), c(2))));
    let r2 = m.perform_shrink(2, single(t.deep_clone()));
    assert!(same(density_of(&r2), &add(un(UnaryOp::Cache2d, c(1)), un(UnaryOp::FlatCache, c(2)))));
    assert_eq!(m.can_shrink(3, &single(t)), (false, 3));
    assert!(m.exhausted);
}

#[test]
fn remove_wrappers_enters_named_references() {
    let t = named("n", un(UnaryOp::Cache2d, c(1)));
    let mut m = RemoveWrappers { exhausted: false };
    assert_eq!(m.can_shrink(0, &single(t.deep_clone())), (true, 0));
    let r = m.perform_shrink(0, single(t));
    assert!(same(density_of(&r), &named("n", c(1))));
}

#[test]
fn take_subtree_keeps_vital_wrappers() {
    let t = named("n", un(UnaryOp::Cache2d, add(c(1), c(2))));
    let mut m = TakeSubtree { exhausted: false };
    assert_eq!(m.name(), "take_subtree");
    assert_eq!(m.can_shrink(1, &single(t.deep_clone())), (true, 1));
    let r = m.perform_shrink(1, multi(t.deep_clone()));
    assert!(same(density_of(&r), &named("n", un(UnaryOp::Cache2d, c(2)))));
    assert!(matches!(r, DensitySource::MultiSamplingDensity { .. }));
    assert_eq!(m.can_shrink(2, &single(t)), (false, 2));
    let leaf = single(un(UnaryOp::FlatCache, c(7)));
    let mut m = TakeSubtree { exhausted: false };
    assert_eq!(m.can_shrink(0, &leaf), (false, 0));
}

#[test]
fn take_subtree_strictly_shrinks() {
    let t = add(add(c(1), c(2)), c(3));
    let mut m = TakeSubtree { exhausted: false };
    let r = m.perform_shrink(0, single(t));
    assert!(same(density_of(&r), &add(c(1), c(2))));
}

#[test]
fn replace_with_constant_candidates() {
    let zero = 0u64;
    let t = add(c(1), c(zero));
    let mut m = ReplaceWithConstant { exhausted: false };
    assert_eq!(m.can_shrink(1, &single(t.deep_clone())), (true, 0));
    let r0 = m.perform_shrink(0, single(t.deep_clone()));
    assert!(same(density_of(&r0), &c(0)));
    let r1 = m.perform_shrink(1, single(t.deep_clone()));
    assert!(same(density_of(&r1), &add(c(0), c(0))));
    assert_eq!(m.can_shrink(2, &single(t)), (false, 2));
    let neg_zero = (-0.0f64).to_bits();
    assert_eq!(ReplaceWithConstant { exhausted: false }.can_shrink(0, &single(c(neg_zero))), (false, 0));
}

#[test]
fn simplify_noise_params_drops_an_octave() {
    let t = add(noise("a", vec![1, 2, 3]), noise("b", vec![7]));
    let mut m = SimplifyNoiseParams { exhausted: false };
    assert_eq!(m.can_shrink(0, &single(t.deep_clone())), (true, 0));
    let r = m.perform_shrink(0, single(t.deep_clone()));
    assert!(same(density_of(&r), &add(noise("a", vec![1, 2]), noise("b", vec![7]))));
    assert_eq!(m.can_shrink(1, &single(t)), (false, 1));
}

#[test]
fn methods_without_candidates() {
    let src = single(add(c(1), c(2)));
    let mut ro = RemoveOperand;
    assert_eq!(ro.name(), "remove_operand");
    assert_eq!(ro.can_shrink(0, &src), (false, 0));
    ro.reenable();
    let mut sn = SimplifyNoise;
    assert_eq!(sn.name(), "simplify_noise");
    assert_eq!(sn.can_shrink(5, &src), (false, 0));
    let mut m = ShrinkMethod::RemoveOperand(RemoveOperand);
    assert_eq!(m.can_shrink(0, &src), (false, 0));
    assert_eq!(m.name(), "remove_operand");
}

fn expect_candidate(s: &mut Shrinker, want: &DensityType) {
    let got = s.shrink().expect("a candidate");
    assert!(same(density_of(&got), want));
}

#[test]
fn shrinker_walks_all_candidates_and_wraps_once() {
    let t = add(c(1), c(2));
    let mut s = Shrinker::new(single(t));
    s.set_density_function_name("final_density".to_string());
    let sequence = [
        c(1),
        c(2),
        c(0),
        c(1),
        add(c(1), c(0)),
        c(0),
        add(c(0), c(2)),
        add(c(1), c(0)),
    ];
    for want in sequence.iter() {
        expect_candidate(&mut s, want);
        s.mark_last_shrink_successful();
    }
    assert_eq!(s.strikes(), 8);
    assert!(s.shrink().is_none());
    assert!(same(density_of(&s.finish()), &add(c(1), c(2))));
}

#[test]
fn shrinker_keeps_buggy_candidates() {
    let mut s = Shrinker::new(single(add(c(1), c(2))));
    expect_candidate(&mut s, &c(1));
    s.mark_last_shrink_buggy();
    assert_eq!(s.strikes(), 0);
    expect_candidate(&mut s, &c(0));
    s.mark_last_shrink_buggy();
    assert!(s.shrink().is_none());
    assert!(same(density_of(&s.finish()), &c(0)));
}

#[test]
fn replace_nth_node_walks_sums_products_and_caches() {
    let t = || add(c(1), un(UnaryOp::Cache2d, c(2)));
    let nine = |_d: DensityType| DensityType::Const(9);
    let mut cur = 0u32;
    let r = replace_nth_node(t(), 2, &mut cur, &nine);
    assert!(same(&r, &add(c(1), c(9))));
    assert_eq!(cur, 3);
    let mut cur = 0u32;
    let r = replace_nth_node(t(), 3, &mut cur, &nine);
    assert!(same(&r, &add(c(1), un(UnaryOp::Cache2d, c(9)))));
    assert_eq!(cur, 4);
    let mut cur = 0u32;
    let r = replace_nth_node(t(), 10, &mut cur, &nine);
    assert!(same(&r, &t()));
    assert_eq!(cur, 4);
    let mut cur = 5u32;
    let r = replace_nth_node(bin(BinaryOp::Min, c(1), c(2)), 6, &mut cur, &nine);
    assert!(same(&r, &bin(BinaryOp::Min, c(1), c(2))));
    assert_eq!(cur, 6);
    let mut cur = 0u32;
    let wrap = |d: DensityType| un(UnaryOp::Abs, d);
    let r = replace_nth_node(t(), 0, &mut cur, &wrap);
    assert!(same(&r, &un(UnaryOp::Abs, t())));
    assert_eq!(cur, 1);
}

#[test]
fn each_shrink_lowers_the_candidate_count() {
    let mut rc = ReplaceWithConstant { exhausted: false };
    let r = rc.perform_shrink(1, single(add(c(1), c(0))));
    assert_eq!(ReplaceWithConstant { exhausted: false }.can_shrink(5, &r), (false, 1));

    let t = add(un(UnaryOp::Cache2d, c(1)), un(UnaryOp::FlatCache, un(UnaryOp::Cache2d, c(2))));
    let mut rw = RemoveWrappers { exhausted: false };
    let r = rw.perform_shrink(0, single(t));
    assert_eq!(RemoveWrappers { exhausted: false }.can_shrink(5, &r), (false, 2));

    let mut snp = SimplifyNoiseParams { exhausted: false };
    let r = snp.perform_shrink(0, single(noise("a", vec![1, 2, 3])));
    assert!(same(density_of(&r), &noise("a", vec![1, 2])));
    let r = snp.perform_shrink(0, r);
    assert!(same(density_of(&r), &noise("a", vec![1])));
    assert_eq!(SimplifyNoiseParams { exhausted: false }.can_shrink(0, &r), (false, 0));
}

#[test]
fn strikes_past_the_candidates_change_nothing() {
    let t = add(c(1), c(2));
    let mut rc = ReplaceWithConstant { exhausted: false };
    let r = rc.perform_shrink(7, single(t.deep_clone()));
    assert!(same(density_of(&r), &t));
}

#[test]
fn small_trees_fit_the_counters() {
    let t = add(un(UnaryOp::Cache2d, c(1)), named("n", noise("minecraft:x", vec![1, 2, 3])));
    assert!(counts_fit_check(&single(t.deep_clone())));
    let s = Shrinker::new(multi(t));
    assert!(s.fits_counters());
}
