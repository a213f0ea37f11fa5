use vstd::prelude::*;
use crate::density::{
    lemma_points_view, spline_view, lemma_prefix_step, point_view, points_view,
    source_density, with_density, DensityModel, DensitySource, DensityType, PointModel,
    SplineModel, SplinePoint, SplineType, SplineValue, NormalNoiseType, NoiseModel, ValueModel,
};

verus! {

/// The normal noise referenced directly by a node, if any.
pub open spec fn snp_noise_of(d: DensityModel) -> Option<NoiseModel> {
    match d {
        DensityModel::Noise { noise, .. } => Some(noise),
        DensityModel::ShiftedNoise { noise, .. } => Some(noise),
        DensityModel::ShiftA { argument, .. } => Some(argument),
        DensityModel::ShiftB { argument, .. } => Some(argument),
        DensityModel::WeirdScaledSampler { noise_to_sample, .. } => Some(noise_to_sample),
        _ => None,
    }
}

/// Whether a node references a noise that still has more than one octave.
pub open spec fn snp_is_target(d: DensityModel) -> bool {
    snp_noise_of(d) matches Some(n) && n.amplitudes.len() > 1
}

/// A noise with its highest octave (last amplitude) dropped; a noise with
/// no amplitude is left as it is.
pub open spec fn snp_simplified(n: NoiseModel) -> NoiseModel {
    if n.amplitudes.len() == 0 {
        n
    } else {
        NoiseModel { first_octave: n.first_octave, amplitudes: n.amplitudes.drop_last() }
    }
}

/// A node with its noise simplified, every other field kept.
pub open spec fn snp_with_simplified(d: DensityModel) -> DensityModel {
    match d {
        DensityModel::Noise { name, noise, xz_scale, y_scale } => DensityModel::Noise {
            name,
            noise: snp_simplified(noise),
            xz_scale,
            y_scale,
        },
        DensityModel::ShiftedNoise { name, noise, shift_x, shift_y, shift_z, xz_scale, y_scale } =>
            DensityModel::ShiftedNoise {
            name,
            noise: snp_simplified(noise),
            shift_x,
            shift_y,
            shift_z,
            xz_scale,
            y_scale,
        },
        DensityModel::ShiftA { name, argument } => DensityModel::ShiftA {
            name,
            argument: snp_simplified(argument),
        },
        DensityModel::ShiftB { name, argument } => DensityModel::ShiftB {
            name,
            argument: snp_simplified(argument),
        },
        DensityModel::WeirdScaledSampler { input, noise_name, noise_to_sample, rarity_value_mapper } =>
            DensityModel::WeirdScaledSampler {
            input,
            noise_name,
            noise_to_sample: snp_simplified(noise_to_sample),
            rarity_value_mapper,
        },
        _ => d,
    }
}

/// The number of nodes referencing a noise that can still lose an octave.
/// Named references are looked through and never counted themselves.
pub open spec fn snp_count(d: DensityModel) -> nat
    decreases d,
{
    match d {
        DensityModel::NamedDensityReference { argument, .. } => snp_count(*argument),
        _ => (if snp_is_target(d) { 1nat } else { 0nat }) + match d {
            DensityModel::Binary { left, right, .. } => snp_count(*left) + snp_count(*right),
            DensityModel::Unary { argument, .. } => snp_count(*argument),
            DensityModel::XNegative { argument, .. } => snp_count(*argument),
            DensityModel::Clamp { input, .. } => snp_count(*input),
            DensityModel::WeirdScaledSampler { input, .. } => snp_count(*input),
            DensityModel::RangeChoice { input, when_in_range, when_out_of_range, .. } => snp_count(
                *input,
            ) + snp_count(*when_in_range) + snp_count(*when_out_of_range),
            DensityModel::ShiftedNoise { shift_x, shift_y, shift_z, .. } => snp_count(*shift_x)
                + snp_count(*shift_y) + snp_count(*shift_z),
            DensityModel::Spline { spline } => snp_count_spline(*spline),
            _ => 0nat,
        },
    }
}

pub open spec fn snp_count_spline(s: SplineModel) -> nat
    decreases s,
{
    snp_count(*s.coordinate) + snp_count_points(s.points)
}

pub open spec fn snp_count_points(ps: Seq<PointModel>) -> nat
    decreases ps,
{
    if ps.len() == 0 {
        0
    } else {
        snp_count_points(ps.drop_last()) + snp_count_point(ps.last())
    }
}

pub open spec fn snp_count_point(p: PointModel) -> nat
    decreases p,
{
    match p.value {
        ValueModel::Const(_) => 0,
        ValueModel::Spline(s) => snp_count_spline(*s),
    }
}

/// The tree with the noise of its node number `k` (counting from 0 in
/// pre-order among the nodes that sample a noise with more than one octave;
/// named references are looked through) simplified.
pub open spec fn snp_at(d: DensityModel, k: nat) -> DensityModel
    decreases d,
{
    if d is NamedDensityReference {
        match d {
            DensityModel::NamedDensityReference { name, argument } =>
                DensityModel::NamedDensityReference { name, argument: Box::new(snp_at(*argument, k)) },
            _ => d,
        }
    } else if snp_is_target(d) && k == 0 {
        snp_with_simplified(d)
    } else {
        let j: nat = if snp_is_target(d) { (k - 1) as nat } else { k };
        match d {
            DensityModel::Binary { op, left, right } => if j < snp_count(*left) {
                DensityModel::Binary { op, left: Box::new(snp_at(*left, j)), right }
            } else {
                DensityModel::Binary {
                    op,
                    left,
                    right: Box::new(snp_at(*right, (j - snp_count(*left)) as nat)),
                }
            },
            DensityModel::Unary { op, argument } => DensityModel::Unary {
                op,
                argument: Box::new(snp_at(*argument, j)),
            },
            DensityModel::Clamp { input, min, max } => DensityModel::Clamp {
                input: Box::new(snp_at(*input, j)),
                min,
                max,
            },
            DensityModel::XNegative { argument, neg_x_multiplier } => DensityModel::XNegative {
                argument: Box::new(snp_at(*argument, j)),
                neg_x_multiplier,
            },
            DensityModel::WeirdScaledSampler {
                input,
                noise_name,
                noise_to_sample,
                rarity_value_mapper,
            } => DensityModel::WeirdScaledSampler {
                input: Box::new(snp_at(*input, j)),
                noise_name,
                noise_to_sample,
                rarity_value_mapper,
            },
            DensityModel::RangeChoice {
                input,
                min_inclusive,
                max_exclusive,
                when_in_range,
                when_out_of_range,
            } => if j < snp_count(*input) {
                DensityModel::RangeChoice {
                    input: Box::new(snp_at(*input, j)),
                    min_inclusive,
                    max_exclusive,
                    when_in_range,
                    when_out_of_range,
                }
            } else if j < snp_count(*input) + snp_count(*when_in_range) {
                DensityModel::RangeChoice {
                    input,
                    min_inclusive,
                    max_exclusive,
                    when_in_range: Box::new(snp_at(*when_in_range, (j - snp_count(*input)) as nat)),
                    when_out_of_range,
                }
            } else {
                DensityModel::RangeChoice {
                    input,
                    min_inclusive,
                    max_exclusive,
                    when_in_range,
                    when_out_of_range: Box::new(
                        snp_at(
                            *when_out_of_range,
                            (j - snp_count(*input) - snp_count(*when_in_range)) as nat,
                        ),
                    ),
                }
            },
            DensityModel::ShiftedNoise { name, noise, shift_x, shift_y, shift_z, xz_scale, y_scale } =>
                if j < snp_count(*shift_x) {
                DensityModel::ShiftedNoise {
                    name,
                    noise,
                    shift_x: Box::new(snp_at(*shift_x, j)),
                    shift_y,
                    shift_z,
                    xz_scale,
                    y_scale,
                }
            } else if j < snp_count(*shift_x) + snp_count(*shift_y) {
                DensityModel::ShiftedNoise {
                    name,
                    noise,
                    shift_x,
                    shift_y: Box::new(snp_at(*shift_y, (j - snp_count(*shift_x)) as nat)),
                    shift_z,
                    xz_scale,
                    y_scale,
                }
            } else {
                DensityModel::ShiftedNoise {
                    name,
                    noise,
                    shift_x,
                    shift_y,
                    shift_z: Box::new(
                        snp_at(*shift_z, (j - snp_count(*shift_x) - snp_count(*shift_y)) as nat),
                    ),
                    xz_scale,
                    y_scale,
                }
            },
            DensityModel::Spline { spline } => DensityModel::Spline {
                spline: Box::new(snp_at_spline(*spline, j)),
            },
            _ => d,
        }
    }
}

/// A spline with its removable wrapper number `k` removed: in the
/// coordinate first, then in the points in order.
pub open spec fn snp_at_spline(s: SplineModel, k: nat) -> SplineModel
    decreases s,
{
    if k < snp_count(*s.coordinate) {
        SplineModel { coordinate: Box::new(snp_at(*s.coordinate, k)), points: s.points }
    } else {
        SplineModel {
            coordinate: s.coordinate,
            points: snp_at_points(s.points, (k - snp_count(*s.coordinate)) as nat),
        }
    }
}

pub open spec fn snp_at_points(ps: Seq<PointModel>, k: nat) -> Seq<PointModel>
    decreases ps,
{
    if ps.len() == 0 {
        ps
    } else if k < snp_count_points(ps.drop_last()) {
        snp_at_points(ps.drop_last(), k).push(ps.last())
    } else {
        ps.drop_last().push(snp_at_point(ps.last(), (k - snp_count_points(ps.drop_last())) as nat))
    }
}

pub open spec fn snp_at_point(p: PointModel, k: nat) -> PointModel
    decreases p,
{
    match p.value {
        ValueModel::Const(_) => p,
        ValueModel::Spline(s) => PointModel {
            derivative: p.derivative,
            location: p.location,
            value: ValueModel::Spline(Box::new(snp_at_spline(*s, k))),
        },
    }
}

/// The candidate of strike `k`: the tree with the noise of node number `k`
/// simplified, or the tree itself when it has no such node.
pub open spec fn snp_candidate(d: DensityModel, k: nat) -> DensityModel {
    if k < snp_count(d) {
        snp_at(d, k)
    } else {
        d
    }
}

/// Rebuilds a tree with the noise of the `target`-th candidate node
/// (counting from `cur`, in pre-order) simplified; also returns the advanced
/// counter. The children of the simplified node are not visited.
spec fn snp_replace(d: DensityModel, target: nat, cur: nat) -> (DensityModel, nat)
    decreases d,
{
    match d {
        DensityModel::NamedDensityReference { name, argument } => {
            let (a, c1) = snp_replace(*argument, target, cur);
            (DensityModel::NamedDensityReference { name, argument: Box::new(a) }, c1)
        },
        _ => {
            if snp_is_target(d) && cur == target {
                (snp_with_simplified(d), cur + 1)
            } else {
                let c = if snp_is_target(d) { cur + 1 } else { cur };
                match d {
                    DensityModel::Binary { op, left, right } => {
                        let (l, c1) = snp_replace(*left, target, c);
                        let (r, c2) = snp_replace(*right, target, c1);
                        (DensityModel::Binary { op, left: Box::new(l), right: Box::new(r) }, c2)
                    },
                    DensityModel::Unary { op, argument } => {
                        let (a, c1) = snp_replace(*argument, target, c);
                        (DensityModel::Unary { op, argument: Box::new(a) }, c1)
                    },
                    DensityModel::Clamp { input, min, max } => {
                        let (a, c1) = snp_replace(*input, target, c);
                        (DensityModel::Clamp { input: Box::new(a), min, max }, c1)
                    },
                    DensityModel::XNegative { argument, neg_x_multiplier } => {
                        let (a, c1) = snp_replace(*argument, target, c);
                        (DensityModel::XNegative { argument: Box::new(a), neg_x_multiplier }, c1)
                    },
                    DensityModel::WeirdScaledSampler {
                        input,
                        noise_name,
                        noise_to_sample,
                        rarity_value_mapper,
                    } => {
                        let (a, c1) = snp_replace(*input, target, c);
                        (
                            DensityModel::WeirdScaledSampler {
                                input: Box::new(a),
                                noise_name,
                                noise_to_sample,
                                rarity_value_mapper,
                            },
                            c1,
                        )
                    },
                    DensityModel::RangeChoice {
                        input,
                        min_inclusive,
                        max_exclusive,
                        when_in_range,
                        when_out_of_range,
                    } => {
                        let (a, c1) = snp_replace(*input, target, c);
                        let (b, c2) = snp_replace(*when_in_range, target, c1);
                        let (e, c3) = snp_replace(*when_out_of_range, target, c2);
                        (
                            DensityModel::RangeChoice {
                                input: Box::new(a),
                                min_inclusive,
                                max_exclusive,
                                when_in_range: Box::new(b),
                                when_out_of_range: Box::new(e),
                            },
                            c3,
                        )
                    },
                    DensityModel::ShiftedNoise {
                        name,
                        noise,
                        shift_x,
                        shift_y,
                        shift_z,
                        xz_scale,
                        y_scale,
                    } => {
                        let (x, c1) = snp_replace(*shift_x, target, c);
                        let (y, c2) = snp_replace(*shift_y, target, c1);
                        let (z, c3) = snp_replace(*shift_z, target, c2);
                        (
                            DensityModel::ShiftedNoise {
                                name,
                                noise,
                                shift_x: Box::new(x),
                                shift_y: Box::new(y),
                                shift_z: Box::new(z),
                                xz_scale,
                                y_scale,
                            },
                            c3,
                        )
                    },
                    DensityModel::Spline { spline } => {
                        let (s, c1) = snp_replace_spline(*spline, target, c);
                        (DensityModel::Spline { spline: Box::new(s) }, c1)
                    },
                    _ => (d, c),
                }
            }
        },
    }
}

spec fn snp_replace_spline(s: SplineModel, target: nat, cur: nat) -> (SplineModel, nat)
    decreases s,
{
    let (coord, c1) = snp_replace(*s.coordinate, target, cur);
    let (points, c2) = snp_replace_points(s.points, target, c1);
    (SplineModel { coordinate: Box::new(coord), points }, c2)
}

spec fn snp_replace_points(ps: Seq<PointModel>, target: nat, cur: nat) -> (
    Seq<PointModel>,
    nat,
)
    decreases ps,
{
    if ps.len() == 0 {
        (Seq::empty(), cur)
    } else {
        let (pre, c1) = snp_replace_points(ps.drop_last(), target, cur);
        let (p, c2) = snp_replace_point(ps.last(), target, c1);
        (pre.push(p), c2)
    }
}

spec fn snp_replace_point(p: PointModel, target: nat, cur: nat) -> (PointModel, nat)
    decreases p,
{
    match p.value {
        ValueModel::Const(_) => (p, cur),
        ValueModel::Spline(s) => {
            let (s2, c1) = snp_replace_spline(*s, target, cur);
            (
                PointModel {
                    derivative: p.derivative,
                    location: p.location,
                    value: ValueModel::Spline(Box::new(s2)),
                },
                c1,
            )
        },
    }
}

proof fn lemma_snp_count_points_prefix(ps: Seq<PointModel>, i: int)
    requires
        0 <= i <= ps.len(),
    ensures
        snp_count_points(ps.subrange(0, i)) <= snp_count_points(ps),
    decreases ps.len(),
{
    if i < ps.len() {
        assert(ps.subrange(0, i) == ps.drop_last().subrange(0, i));
        lemma_snp_count_points_prefix(ps.drop_last(), i);
    } else {
        assert(ps.subrange(0, i) == ps);
    }
}

/// Drops the highest octave (last amplitude) from the noise referenced by
/// one node of the tree, chosen by the strike index.
#[derive(Clone, Copy, Debug, PartialEq, Eq, Structural)]
pub struct SimplifyNoiseParams {
    pub exhausted: bool,
}

impl SimplifyNoiseParams {
    /// A noise can be simplified as long as it has more than one octave.
    fn is_candidate(noise: &NormalNoiseType) -> (b: bool)
        ensures
            b == (noise@.amplitudes.len() > 1),
    {
        noise.amplitudes.len() > 1
    }

    /// Drops the last amplitude.
    fn simplify(noise: NormalNoiseType) -> (r: NormalNoiseType)
        ensures
            r@ == snp_simplified(noise@),
    {
        let mut amplitudes = noise.amplitudes;
        amplitudes.pop();
        NormalNoiseType { first_octave: noise.first_octave, amplitudes }
    }

    /// The noise referenced directly by a node, if any.
    fn noise_of(density: &DensityType) -> (r: Option<&NormalNoiseType>)
        ensures
            r matches Some(n) ==> snp_noise_of(density@) == Some(n@),
            r is None ==> snp_noise_of(density@) is None,
    {
        match density {
            DensityType::Noise { noise, .. } => Some(noise),
            DensityType::ShiftedNoise { noise, .. } => Some(noise),
            DensityType::ShiftA { argument, .. } => Some(argument),
            DensityType::ShiftB { argument, .. } => Some(argument),
            DensityType::WeirdScaledSampler { noise_to_sample, .. } => Some(noise_to_sample),
            _ => None,
        }
    }

    /// Whether a node references a noise with more than one octave.
    fn is_target(density: &DensityType) -> (b: bool)
        ensures
            b == snp_is_target(density@),
    {
        match Self::noise_of(density) {
            Some(noise) => Self::is_candidate(noise),
            None => false,
        }
    }

    /// The node with its noise's highest octave dropped.
    fn with_simplified_noise(density: DensityType) -> (r: DensityType)
        requires
            snp_is_target(density@),
        ensures
            r@ == snp_with_simplified(density@),
    {
        match density {
            DensityType::Noise { name, noise, xz_scale, y_scale } => DensityType::Noise {
                name,
                noise: Self::simplify(noise),
                xz_scale,
                y_scale,
            },
            DensityType::ShiftedNoise { name, noise, shift_x, shift_y, shift_z, xz_scale, y_scale } =>
                DensityType::ShiftedNoise {
                name,
                noise: Self::simplify(noise),
                shift_x,
                shift_y,
                shift_z,
                xz_scale,
                y_scale,
            },
            DensityType::ShiftA { name, argument } => DensityType::ShiftA {
                name,
                argument: Self::simplify(argument),
            },
            DensityType::ShiftB { name, argument } => DensityType::ShiftB {
                name,
                argument: Self::simplify(argument),
            },
            DensityType::WeirdScaledSampler {
                input,
                noise_name,
                noise_to_sample,
                rarity_value_mapper,
            } => DensityType::WeirdScaledSampler {
                input,
                noise_name,
                noise_to_sample: Self::simplify(noise_to_sample),
                rarity_value_mapper,
            },
            other => other,
        }
    }

    /// Counts the nodes whose noise can be simplified.
    fn count_candidates(density: &DensityType) -> (n: u32)
        requires
            snp_count(density@) <= u32::MAX,
        ensures
            n == snp_count(density@),
        decreases density,
    {
        if let DensityType::NamedDensityReference { argument, .. } = density {
            return Self::count_candidates(argument);
        }
        let own: u32 = if Self::is_target(density) { 1 } else { 0 };
        let rest = match density {
            DensityType::Binary { left, right, .. } => Self::count_candidates(left)
                + Self::count_candidates(right),
            DensityType::Unary { argument, .. } => Self::count_candidates(argument),
            DensityType::XNegative { argument, .. } => Self::count_candidates(argument),
            DensityType::Clamp { input, .. } => Self::count_candidates(input),
            DensityType::WeirdScaledSampler { input, .. } => Self::count_candidates(input),
            DensityType::RangeChoice { input, when_in_range, when_out_of_range, .. } => {
                Self::count_candidates(input) + Self::count_candidates(when_in_range)
                    + Self::count_candidates(when_out_of_range)
            },
            DensityType::ShiftedNoise { shift_x, shift_y, shift_z, .. } => {
                Self::count_candidates(shift_x) + Self::count_candidates(shift_y)
                    + Self::count_candidates(shift_z)
            },
            DensityType::Spline { spline } => Self::count_spline_candidates(spline),
            _ => 0,
        };
        own + rest
    }

    fn count_spline_candidates(spline: &SplineType) -> (n: u32)
        requires
            snp_count_spline(spline@) <= u32::MAX,
        ensures
            n == snp_count_spline(spline@),
        decreases spline,
    {
        let ghost pts = points_view(spline.spline_points@);
        proof {
            lemma_points_view(spline.spline_points@);
        }
        let mut count = Self::count_candidates(&spline.coordinate);
        let mut i: usize = 0;
        while i < spline.spline_points.len()
            invariant
                i <= spline.spline_points.len(),
                pts == points_view(spline.spline_points@),
                pts.len() == spline.spline_points.len(),
                snp_count_spline(spline@) <= u32::MAX,
                count == snp_count(*spline@.coordinate) + snp_count_points(pts.subrange(0, i as int)),
            decreases spline.spline_points.len() - i,
        {
            proof {
                lemma_points_view(spline.spline_points@);
                lemma_prefix_step(pts, i as int);
                lemma_snp_count_points_prefix(pts, i + 1);
                assert(pts[i as int] == point_view(spline.spline_points@[i as int]));
            }
            assert(snp_count_points(pts.subrange(0, i + 1)) == snp_count_points(
                pts.subrange(0, i as int),
            ) + snp_count_point(pts[i as int]));
            match &spline.spline_points[i].value {
                SplineValue::Spline(inner) => {
                    proof {
                        assert(decreases_to!(spline => spline.spline_points));
                        assert(decreases_to!(spline.spline_points => spline.spline_points@));
                        assert(decreases_to!(spline.spline_points@ => spline.spline_points@[i as int]));
                        assert(snp_count_point(pts[i as int]) == snp_count_spline(spline_view(**inner)));
                    }
                    count = count + Self::count_spline_candidates(inner);
                },
                SplineValue::Const(_) => {
                    assert(snp_count_point(pts[i as int]) == 0);
                },
            }
            i = i + 1;
        }
        assert(pts.subrange(0, pts.len() as int) == pts);
        count
    }

    /// Rebuilds the tree with the noise of the `target_strike`-th candidate
    /// simplified, counting candidates from `current_strike`.
    fn replace_nth(density: DensityType, target_strike: u32, current_strike: &mut u32) -> (r: DensityType)
        requires
            *old(current_strike) + snp_count(density@) <= u32::MAX,
        ensures
            r@ == snp_replace(density@, target_strike as nat, *old(current_strike) as nat).0,
            *final(current_strike) == snp_replace(density@, target_strike as nat, *old(current_strike) as nat).1,
            *final(current_strike) <= *old(current_strike) + snp_count(density@),
        decreases density@,
    {
        if let DensityType::NamedDensityReference { .. } = &density {
            match density {
                DensityType::NamedDensityReference { name, argument } => {
                    let a = Self::replace_nth(*argument, target_strike, current_strike);
                    return DensityType::NamedDensityReference { name, argument: Box::new(a) };
                },
                other => {
                    return other;
                },
            }
        }
        if Self::is_target(&density) {
            if *current_strike == target_strike {
                *current_strike += 1;
                return Self::with_simplified_noise(density);
            }
            *current_strike += 1;
        }
        match density {
            DensityType::Binary { op, left, right } => {
                let l = Self::replace_nth(*left, target_strike, current_strike);
                let r = Self::replace_nth(*right, target_strike, current_strike);
                DensityType::Binary { op, left: Box::new(l), right: Box::new(r) }
            },
            DensityType::Unary { op, argument } => {
                let a = Self::replace_nth(*argument, target_strike, current_strike);
                DensityType::Unary { op, argument: Box::new(a) }
            },
            DensityType::Clamp { input, min, max } => {
                let a = Self::replace_nth(*input, target_strike, current_strike);
                DensityType::Clamp { input: Box::new(a), min, max }
            },
            DensityType::XNegative { argument, neg_x_multiplier } => {
                let a = Self::replace_nth(*argument, target_strike, current_strike);
                DensityType::XNegative { argument: Box::new(a), neg_x_multiplier }
            },
            DensityType::WeirdScaledSampler { input, noise_name, noise_to_sample, rarity_value_mapper } => {
                let a = Self::replace_nth(*input, target_strike, current_strike);
                DensityType::WeirdScaledSampler {
                    input: Box::new(a),
                    noise_name,
                    noise_to_sample,
                    rarity_value_mapper,
                }
            },
            DensityType::RangeChoice {
                input,
                min_inclusive,
                max_exclusive,
                when_in_range,
                when_out_of_range,
            } => {
                let a = Self::replace_nth(*input, target_strike, current_strike);
                let b = Self::replace_nth(*when_in_range, target_strike, current_strike);
                let e = Self::replace_nth(*when_out_of_range, target_strike, current_strike);
                DensityType::RangeChoice {
                    input: Box::new(a),
                    min_inclusive,
                    max_exclusive,
                    when_in_range: Box::new(b),
                    when_out_of_range: Box::new(e),
                }
            },
            DensityType::ShiftedNoise { name, noise, shift_x, shift_y, shift_z, xz_scale, y_scale } => {
                let x = Self::replace_nth(*shift_x, target_strike, current_strike);
                let y = Self::replace_nth(*shift_y, target_strike, current_strike);
                let z = Self::replace_nth(*shift_z, target_strike, current_strike);
                DensityType::ShiftedNoise {
                    name,
                    noise,
                    shift_x: Box::new(x),
                    shift_y: Box::new(y),
                    shift_z: Box::new(z),
                    xz_scale,
                    y_scale,
                }
            },
            DensityType::Spline { spline } => {
                let s = Self::replace_nth_spline(*spline, target_strike, current_strike);
                DensityType::Spline { spline: Box::new(s) }
            },
            other => other,
        }
    }

    fn replace_nth_spline(spline: SplineType, target_strike: u32, current_strike: &mut u32) -> (r: SplineType)
        requires
            *old(current_strike) + snp_count_spline(spline@) <= u32::MAX,
        ensures
            r@ == snp_replace_spline(spline@, target_strike as nat, *old(current_strike) as nat).0,
            *final(current_strike) == snp_replace_spline(spline@, target_strike as nat, *old(current_strike) as nat).1,
            *final(current_strike) <= *old(current_strike) + snp_count_spline(spline@),
        decreases spline@,
    {
        let ghost whole = spline;
        let ghost orig = spline.spline_points@;
        let ghost pts = points_view(orig);
        let ghost start = *current_strike;
        proof {
            lemma_points_view(orig);
        }
        let SplineType { coordinate, spline_points } = spline;
        let coord = Self::replace_nth(*coordinate, target_strike, current_strike);
        let ghost mid = *current_strike;
        let mut rest = spline_points;
        let mut out: Vec<SplinePoint> = Vec::new();
        let ghost mut i: int = 0;
        while rest.len() > 0
            invariant
                0 <= i <= orig.len(),
                rest@ == orig.subrange(i, orig.len() as int),
                orig == whole.spline_points@,
                whole == spline,
                pts == points_view(orig),
                pts.len() == orig.len(),
                forall|k: int| 0 <= k < orig.len() ==> #[trigger] pts[k] == point_view(orig[k]),
                mid + snp_count_points(pts) <= u32::MAX,
                points_view(out@) == snp_replace_points(pts.subrange(0, i), target_strike as nat, mid as nat).0,
                *current_strike == snp_replace_points(pts.subrange(0, i), target_strike as nat, mid as nat).1,
                *current_strike <= mid + snp_count_points(pts.subrange(0, i)),
            decreases rest.len(),
        {
            proof {
                lemma_prefix_step(pts, i);
                lemma_snp_count_points_prefix(pts, i + 1);
            }
            let pt = rest.remove(0);
            assert(pt == orig[i]);
            assert(pts[i] == point_view(orig[i]));
            let ghost c_before = *current_strike;
            let SplinePoint { derivative, location, value } = pt;
            let new_value = match value {
                SplineValue::Const(c) => SplineValue::Const(c),
                SplineValue::Spline(inner) => {
                    proof {
                        assert(snp_count_point(pts[i]) == snp_count_spline(spline_view(*inner)));
                        assert(decreases_to!(whole@ => whole@.points));
                        assert(decreases_to!(whole@.points => pts[i]));
                        assert(decreases_to!(pts[i] => pts[i].value));
                        assert(decreases_to!(spline@ => (*inner)@));
                    }
                    SplineValue::Spline(Box::new(Self::replace_nth_spline(*inner, target_strike, current_strike)))
                },
            };
            let new_point = SplinePoint { derivative, location, value: new_value };
            assert(point_view(new_point) == snp_replace_point(pts[i], target_strike as nat, c_before as nat).0);
            assert(*current_strike == snp_replace_point(pts[i], target_strike as nat, c_before as nat).1);
            let ghost before = out@;
            out.push(new_point);
            assert(out@.drop_last() == before);
            assert(points_view(out@) == points_view(before).push(point_view(new_point)));
            proof {
                i = i + 1;
            }
        }
        assert(pts.subrange(0, i) == pts);
        SplineType { coordinate: Box::new(coord), spline_points: out }
    }

    pub fn name(&self) -> (r: &'static str)
        ensures
            r@ == "simplify_noise_params"@,
    {
        "simplify_noise_params"
    }

    /// Whether a shrink is available at strike `remaining_strikes`: yes when
    /// the strike indexes one of the tree's simplifiable noise references. Otherwise the
    /// method is exhausted and reports how many strikes it used up (its
    /// candidate count). An exhausted method answers `(false, 0)`.
    pub fn can_shrink(&mut self, remaining_strikes: u32, source: &DensitySource) -> (r: (bool, u32))
        requires
            snp_count(source_density(source@)) <= u32::MAX,
        ensures
            old(self).exhausted ==> r == (false, 0u32) && final(self).exhausted,
            !old(self).exhausted && remaining_strikes < snp_count(source_density(source@)) ==> r == (
                true,
                remaining_strikes,
            ) && !final(self).exhausted,
            !old(self).exhausted && remaining_strikes >= snp_count(source_density(source@)) ==> r == (
                false,
                snp_count(source_density(source@)) as u32,
            ) && final(self).exhausted,
    {
        if self.exhausted {
            return (false, 0);
        }
        let candidate_count = Self::count_candidates(source.get_density());
        if remaining_strikes < candidate_count {
            (true, remaining_strikes)
        } else {
            self.exhausted = true;
            (false, candidate_count)
        }
    }

    /// Simplifies the noise of the node selected by `remaining_strikes` (counting in
    /// pre-order from 0), keeping the source's sampling grid.
    pub fn perform_shrink(&mut self, remaining_strikes: u32, source: DensitySource) -> (r: DensitySource)
        requires
            snp_count(source_density(source@)) <= u32::MAX,
        ensures
            r@ == with_density(
                source@,
                snp_candidate(source_density(source@), remaining_strikes as nat),
            ),
            final(self).exhausted == old(self).exhausted,
    {
        proof {
            lemma_snp_replace(source_density(source@), remaining_strikes as nat, 0);
        }
        let mut current_strike: u32 = 0;
        match source {
            DensitySource::MultiSamplingDensity { density, dimensions } => {
                let new_density = Self::replace_nth(*density, remaining_strikes, &mut current_strike);
                DensitySource::MultiSamplingDensity { density: Box::new(new_density), dimensions }
            },
            DensitySource::SingleSamplingDensity { density } => {
                let new_density = Self::replace_nth(*density, remaining_strikes, &mut current_strike);
                DensitySource::SingleSamplingDensity { density: Box::new(new_density) }
            },
        }
    }

    pub fn reenable(&mut self)
        ensures
            !final(self).exhausted,
    {
        self.exhausted = false;
    }
}

/// The number of octaves of the noise a node references directly.
pub open spec fn snp_node_octaves(d: DensityModel) -> nat {
    match snp_noise_of(d) {
        Some(n) => n.amplitudes.len(),
        None => 0,
    }
}

/// The octaves of all referenced noises, over the nodes the method walks.
pub open spec fn snp_octaves(d: DensityModel) -> nat
    decreases d,
{
    match d {
        DensityModel::NamedDensityReference { argument, .. } => snp_octaves(*argument),
        _ => snp_node_octaves(d) + match d {
            DensityModel::Binary { left, right, .. } => snp_octaves(*left) + snp_octaves(*right),
            DensityModel::Unary { argument, .. } => snp_octaves(*argument),
            DensityModel::XNegative { argument, .. } => snp_octaves(*argument),
            DensityModel::Clamp { input, .. } => snp_octaves(*input),
            DensityModel::WeirdScaledSampler { input, .. } => snp_octaves(*input),
            DensityModel::RangeChoice { input, when_in_range, when_out_of_range, .. } => snp_octaves(
                *input,
            ) + snp_octaves(*when_in_range) + snp_octaves(*when_out_of_range),
            DensityModel::ShiftedNoise { shift_x, shift_y, shift_z, .. } => snp_octaves(*shift_x)
                + snp_octaves(*shift_y) + snp_octaves(*shift_z),
            DensityModel::Spline { spline } => snp_octaves_spline(*spline),
            _ => 0nat,
        },
    }
}

pub open spec fn snp_octaves_spline(s: SplineModel) -> nat
    decreases s,
{
    snp_octaves(*s.coordinate) + snp_octaves_points(s.points)
}

pub open spec fn snp_octaves_points(ps: Seq<PointModel>) -> nat
    decreases ps,
{
    if ps.len() == 0 {
        0
    } else {
        snp_octaves_points(ps.drop_last()) + snp_octaves_point(ps.last())
    }
}

pub open spec fn snp_octaves_point(p: PointModel) -> nat
    decreases p,
{
    match p.value {
        ValueModel::Const(_) => 0,
        ValueModel::Spline(s) => snp_octaves_spline(*s),
    }
}

/// The walk of `snp_replace` from counter `cur`: when it misses the target,
/// the tree is unchanged and the counter moves past every candidate; when
/// it hits, exactly one octave is dropped and the counter moves past the
/// target.
proof fn lemma_snp_replace(d: DensityModel, t: nat, c: nat)
    ensures
        (t < c || t >= c + snp_count(d)) ==> snp_replace(d, t, c) == (d, c + snp_count(d)),
        (c <= t < c + snp_count(d)) ==> snp_octaves(snp_replace(d, t, c).0) + 1 == snp_octaves(d)
            && t < snp_replace(d, t, c).1 <= c + snp_count(d) && snp_replace(d, t, c).0 == snp_at(
            d,
            (t - c) as nat,
        ),
    decreases d,
{
    match d {
        DensityModel::NamedDensityReference { argument, .. } => {
            lemma_snp_replace(*argument, t, c);
        },
        _ => {
            if !(snp_is_target(d) && c == t) {
                let c1 = if snp_is_target(d) {
                    c + 1
                } else {
                    c
                };
                match d {
                    DensityModel::Binary { left, right, .. } => {
                        lemma_snp_replace(*left, t, c1);
                        lemma_snp_replace(*right, t, snp_replace(*left, t, c1).1);
                    },
                    DensityModel::Unary { argument, .. } => {
                        lemma_snp_replace(*argument, t, c1);
                    },
                    DensityModel::Clamp { input, .. } => {
                        lemma_snp_replace(*input, t, c1);
                    },
                    DensityModel::XNegative { argument, .. } => {
                        lemma_snp_replace(*argument, t, c1);
                    },
                    DensityModel::WeirdScaledSampler { input, .. } => {
                        lemma_snp_replace(*input, t, c1);
                    },
                    DensityModel::RangeChoice { input, when_in_range, when_out_of_range, .. } => {
                        lemma_snp_replace(*input, t, c1);
                        let c2 = snp_replace(*input, t, c1).1;
                        lemma_snp_replace(*when_in_range, t, c2);
                        let c3 = snp_replace(*when_in_range, t, c2).1;
                        lemma_snp_replace(*when_out_of_range, t, c3);
                    },
                    DensityModel::ShiftedNoise { shift_x, shift_y, shift_z, .. } => {
                        lemma_snp_replace(*shift_x, t, c1);
                        let c2 = snp_replace(*shift_x, t, c1).1;
                        lemma_snp_replace(*shift_y, t, c2);
                        let c3 = snp_replace(*shift_y, t, c2).1;
                        lemma_snp_replace(*shift_z, t, c3);
                    },
                    DensityModel::Spline { spline } => {
                        lemma_snp_replace_spline(*spline, t, c1);
                    },
                    _ => {},
                }
            }
        },
    }
}

proof fn lemma_snp_replace_spline(s: SplineModel, t: nat, c: nat)
    ensures
        (t < c || t >= c + snp_count_spline(s)) ==> snp_replace_spline(s, t, c) == (
            s,
            c + snp_count_spline(s),
        ),
        (c <= t < c + snp_count_spline(s)) ==> snp_octaves_spline(snp_replace_spline(s, t, c).0) + 1
            == snp_octaves_spline(s) && t < snp_replace_spline(s, t, c).1 <= c + snp_count_spline(s)
            && snp_replace_spline(s, t, c).0 == snp_at_spline(s, (t - c) as nat),
    decreases s,
{
    lemma_snp_replace(*s.coordinate, t, c);
    lemma_snp_replace_points(s.points, t, snp_replace(*s.coordinate, t, c).1);
}

proof fn lemma_snp_replace_points(ps: Seq<PointModel>, t: nat, c: nat)
    ensures
        (t < c || t >= c + snp_count_points(ps)) ==> snp_replace_points(ps, t, c) == (
            ps,
            c + snp_count_points(ps),
        ),
        (c <= t < c + snp_count_points(ps)) ==> snp_octaves_points(snp_replace_points(ps, t, c).0)
            + 1 == snp_octaves_points(ps) && t < snp_replace_points(ps, t, c).1 <= c
            + snp_count_points(ps) && snp_replace_points(ps, t, c).0 == snp_at_points(
            ps,
            (t - c) as nat,
        ),
    decreases ps,
{
    if ps.len() > 0 {
        lemma_snp_replace_points(ps.drop_last(), t, c);
        let c1 = snp_replace_points(ps.drop_last(), t, c).1;
        lemma_snp_replace_point(ps.last(), t, c1);
        let pre = snp_replace_points(ps.drop_last(), t, c).0;
        let p = snp_replace_point(ps.last(), t, c1).0;
        assert(pre.push(p).drop_last() == pre);
        assert(pre.push(p).last() == p);
        if pre == ps.drop_last() && p == ps.last() {
            assert(pre.push(p) =~= ps);
        }
    }
}

proof fn lemma_snp_replace_point(p: PointModel, t: nat, c: nat)
    ensures
        (t < c || t >= c + snp_count_point(p)) ==> snp_replace_point(p, t, c) == (
            p,
            c + snp_count_point(p),
        ),
        (c <= t < c + snp_count_point(p)) ==> snp_octaves_point(snp_replace_point(p, t, c).0) + 1
            == snp_octaves_point(p) && t < snp_replace_point(p, t, c).1 <= c + snp_count_point(p)
            && snp_replace_point(p, t, c).0 == snp_at_point(p, (t - c) as nat),
    decreases p,
{
    match p.value {
        ValueModel::Const(_) => {},
        ValueModel::Spline(s) => {
            lemma_snp_replace_spline(*s, t, c);
        },
    }
}

/// Each candidate drops exactly one octave from one noise of the tree: the
/// total number of octaves falls by one with every such shrink.
pub proof fn lemma_simplify_noise_params_progress(d: DensityModel, k: nat)
    requires
        k < snp_count(d),
    ensures
        snp_octaves(snp_at(d, k)) + 1 == snp_octaves(d),
{
    lemma_snp_replace(d, k, 0);
}

} // verus!
