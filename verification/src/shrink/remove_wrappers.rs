use vstd::prelude::*;
use crate::density::{
    density_view, lemma_points_view, spline_view, lemma_prefix_step, point_view, points_view,
    source_density, with_density, DensityModel, DensitySource, DensityType, PointModel,
    SplineModel, SplinePoint, SplineType, SplineValue, UnaryOp, ValueModel,
};

verus! {

/// Whether a node is a removable wrapper (`Cache2d` or `FlatCache`).
pub open spec fn rw_is_candidate(d: DensityModel) -> bool {
    d matches DensityModel::Unary { op, .. } && (op == UnaryOp::Cache2d || op == UnaryOp::FlatCache)
}

/// The density that replaces a removed wrapper: its argument, except that a
/// `FlatCache` directly over a `Cache2d` is removed together with it.
pub open spec fn rw_removed(d: DensityModel) -> DensityModel {
    match d {
        DensityModel::Unary { op, argument } => {
            if op == UnaryOp::FlatCache {
                match *argument {
                    DensityModel::Unary { op: inner_op, argument: inner } => {
                        if inner_op == UnaryOp::Cache2d {
                            *inner
                        } else {
                            *argument
                        }
                    },
                    _ => *argument,
                }
            } else {
                *argument
            }
        },
        _ => d,
    }
}

/// The number of removable wrappers in a tree (looking through every node
/// with arguments, named references included).
pub open spec fn rw_count(d: DensityModel) -> nat
    decreases d,
{
    (if rw_is_candidate(d) { 1nat } else { 0nat }) + match d {
        DensityModel::Binary { left, right, .. } => rw_count(*left) + rw_count(*right),
        DensityModel::Unary { argument, .. } => rw_count(*argument),
        DensityModel::NamedDensityReference { argument, .. } => rw_count(*argument),
        DensityModel::XNegative { argument, .. } => rw_count(*argument),
        DensityModel::Clamp { input, .. } => rw_count(*input),
        DensityModel::WeirdScaledSampler { input, .. } => rw_count(*input),
        DensityModel::RangeChoice { input, when_in_range, when_out_of_range, .. } => rw_count(
            *input,
        ) + rw_count(*when_in_range) + rw_count(*when_out_of_range),
        DensityModel::ShiftedNoise { shift_x, shift_y, shift_z, .. } => rw_count(*shift_x)
            + rw_count(*shift_y) + rw_count(*shift_z),
        DensityModel::Spline { spline } => rw_count_spline(*spline),
        _ => 0nat,
    }
}

pub open spec fn rw_count_spline(s: SplineModel) -> nat
    decreases s,
{
    rw_count(*s.coordinate) + rw_count_points(s.points)
}

pub open spec fn rw_count_points(ps: Seq<PointModel>) -> nat
    decreases ps,
{
    if ps.len() == 0 {
        0
    } else {
        rw_count_points(ps.drop_last()) + rw_count_point(ps.last())
    }
}

pub open spec fn rw_count_point(p: PointModel) -> nat
    decreases p,
{
    match p.value {
        ValueModel::Const(_) => 0,
        ValueModel::Spline(s) => rw_count_spline(*s),
    }
}

/// The tree with its removable wrapper number `k` (counting from 0 in
/// pre-order: a node before its arguments, arguments left to right) removed.
/// The wrapper lies in the first argument whose wrappers, together with
/// those before it, number more than `k`.
pub open spec fn rw_at(d: DensityModel, k: nat) -> DensityModel
    decreases d,
{
    if rw_is_candidate(d) && k == 0 {
        rw_removed(d)
    } else {
        let j: nat = if rw_is_candidate(d) { (k - 1) as nat } else { k };
        match d {
            DensityModel::Binary { op, left, right } => if j < rw_count(*left) {
                DensityModel::Binary { op, left: Box::new(rw_at(*left, j)), right }
            } else {
                DensityModel::Binary {
                    op,
                    left,
                    right: Box::new(rw_at(*right, (j - rw_count(*left)) as nat)),
                }
            },
            DensityModel::Unary { op, argument } => DensityModel::Unary {
                op,
                argument: Box::new(rw_at(*argument, j)),
            },
            DensityModel::NamedDensityReference { name, argument } =>
                DensityModel::NamedDensityReference { name, argument: Box::new(rw_at(*argument, j)) },
            DensityModel::Clamp { input, min, max } => DensityModel::Clamp {
                input: Box::new(rw_at(*input, j)),
                min,
                max,
            },
            DensityModel::XNegative { argument, neg_x_multiplier } => DensityModel::XNegative {
                argument: Box::new(rw_at(*argument, j)),
                neg_x_multiplier,
            },
            DensityModel::WeirdScaledSampler {
                input,
                noise_name,
                noise_to_sample,
                rarity_value_mapper,
            } => DensityModel::WeirdScaledSampler {
                input: Box::new(rw_at(*input, j)),
                noise_name,
                noise_to_sample,
                rarity_value_mapper,
            },
            DensityModel::RangeChoice {
                input,
                min_inclusive,
                max_exclusive,
                when_in_range,
                when_out_of_range,
            } => if j < rw_count(*input) {
                DensityModel::RangeChoice {
                    input: Box::new(rw_at(*input, j)),
                    min_inclusive,
                    max_exclusive,
                    when_in_range,
                    when_out_of_range,
                }
            } else if j < rw_count(*input) + rw_count(*when_in_range) {
                DensityModel::RangeChoice {
                    input,
                    min_inclusive,
                    max_exclusive,
                    when_in_range: Box::new(rw_at(*when_in_range, (j - rw_count(*input)) as nat)),
                    when_out_of_range,
                }
            } else {
                DensityModel::RangeChoice {
                    input,
                    min_inclusive,
                    max_exclusive,
                    when_in_range,
                    when_out_of_range: Box::new(
                        rw_at(
                            *when_out_of_range,
                            (j - rw_count(*input) - rw_count(*when_in_range)) as nat,
                        ),
                    ),
                }
            },
            DensityModel::ShiftedNoise { name, noise, shift_x, shift_y, shift_z, xz_scale, y_scale } =>
                if j < rw_count(*shift_x) {
                DensityModel::ShiftedNoise {
                    name,
                    noise,
                    shift_x: Box::new(rw_at(*shift_x, j)),
                    shift_y,
                    shift_z,
                    xz_scale,
                    y_scale,
                }
            } else if j < rw_count(*shift_x) + rw_count(*shift_y) {
                DensityModel::ShiftedNoise {
                    name,
                    noise,
                    shift_x,
                    shift_y: Box::new(rw_at(*shift_y, (j - rw_count(*shift_x)) as nat)),
                    shift_z,
                    xz_scale,
                    y_scale,
                }
            } else {
                DensityModel::ShiftedNoise {
                    name,
                    noise,
                    shift_x,
                    shift_y,
                    shift_z: Box::new(
                        rw_at(*shift_z, (j - rw_count(*shift_x) - rw_count(*shift_y)) as nat),
                    ),
                    xz_scale,
                    y_scale,
                }
            },
            DensityModel::Spline { spline } => DensityModel::Spline {
                spline: Box::new(rw_at_spline(*spline, j)),
            },
            _ => d,
        }
    }
}

/// A spline with its removable wrapper number `k` removed: in the
/// coordinate first, then in the points in order.
pub open spec fn rw_at_spline(s: SplineModel, k: nat) -> SplineModel
    decreases s,
{
    if k < rw_count(*s.coordinate) {
        SplineModel { coordinate: Box::new(rw_at(*s.coordinate, k)), points: s.points }
    } else {
        SplineModel {
            coordinate: s.coordinate,
            points: rw_at_points(s.points, (k - rw_count(*s.coordinate)) as nat),
        }
    }
}

pub open spec fn rw_at_points(ps: Seq<PointModel>, k: nat) -> Seq<PointModel>
    decreases ps,
{
    if ps.len() == 0 {
        ps
    } else if k < rw_count_points(ps.drop_last()) {
        rw_at_points(ps.drop_last(), k).push(ps.last())
    } else {
        ps.drop_last().push(rw_at_point(ps.last(), (k - rw_count_points(ps.drop_last())) as nat))
    }
}

pub open spec fn rw_at_point(p: PointModel, k: nat) -> PointModel
    decreases p,
{
    match p.value {
        ValueModel::Const(_) => p,
        ValueModel::Spline(s) => PointModel {
            derivative: p.derivative,
            location: p.location,
            value: ValueModel::Spline(Box::new(rw_at_spline(*s, k))),
        },
    }
}

/// The candidate of strike `k`: the tree with wrapper number `k` removed,
/// or the tree itself when it has no such wrapper.
pub open spec fn rw_candidate(d: DensityModel, k: nat) -> DensityModel {
    if k < rw_count(d) {
        rw_at(d, k)
    } else {
        d
    }
}

/// Rebuilds a tree with the `target`-th removable wrapper (counting from
/// `cur`, in pre-order) removed; also returns the advanced counter. A
/// removed wrapper's argument is not visited.
spec fn rw_replace(d: DensityModel, target: nat, cur: nat) -> (DensityModel, nat)
    decreases d,
{
    if rw_is_candidate(d) && cur == target {
        (rw_removed(d), cur + 1)
    } else {
        let c = if rw_is_candidate(d) { cur + 1 } else { cur };
        match d {
            DensityModel::Binary { op, left, right } => {
                let (l, c1) = rw_replace(*left, target, c);
                let (r, c2) = rw_replace(*right, target, c1);
                (DensityModel::Binary { op, left: Box::new(l), right: Box::new(r) }, c2)
            },
            DensityModel::Unary { op, argument } => {
                let (a, c1) = rw_replace(*argument, target, c);
                (DensityModel::Unary { op, argument: Box::new(a) }, c1)
            },
            DensityModel::NamedDensityReference { name, argument } => {
                let (a, c1) = rw_replace(*argument, target, c);
                (DensityModel::NamedDensityReference { name, argument: Box::new(a) }, c1)
            },
            DensityModel::Clamp { input, min, max } => {
                let (a, c1) = rw_replace(*input, target, c);
                (DensityModel::Clamp { input: Box::new(a), min, max }, c1)
            },
            DensityModel::XNegative { argument, neg_x_multiplier } => {
                let (a, c1) = rw_replace(*argument, target, c);
                (DensityModel::XNegative { argument: Box::new(a), neg_x_multiplier }, c1)
            },
            DensityModel::WeirdScaledSampler {
                input,
                noise_name,
                noise_to_sample,
                rarity_value_mapper,
            } => {
                let (a, c1) = rw_replace(*input, target, c);
                (
                    DensityModel::WeirdScaledSampler {
                        input: Box::new(a),
                        noise_name,
                        noise_to_sample,
                        rarity_value_mapper,
                    },
                    c1,
                )
            },
            DensityModel::RangeChoice {
                input,
                min_inclusive,
                max_exclusive,
                when_in_range,
                when_out_of_range,
            } => {
                let (a, c1) = rw_replace(*input, target, c);
                let (b, c2) = rw_replace(*when_in_range, target, c1);
                let (e, c3) = rw_replace(*when_out_of_range, target, c2);
                (
                    DensityModel::RangeChoice {
                        input: Box::new(a),
                        min_inclusive,
                        max_exclusive,
                        when_in_range: Box::new(b),
                        when_out_of_range: Box::new(e),
                    },
                    c3,
                )
            },
            DensityModel::ShiftedNoise { name, noise, shift_x, shift_y, shift_z, xz_scale, y_scale } => {
                let (x, c1) = rw_replace(*shift_x, target, c);
                let (y, c2) = rw_replace(*shift_y, target, c1);
                let (z, c3) = rw_replace(*shift_z, target, c2);
                (
                    DensityModel::ShiftedNoise {
                        name,
                        noise,
                        shift_x: Box::new(x),
                        shift_y: Box::new(y),
                        shift_z: Box::new(z),
                        xz_scale,
                        y_scale,
                    },
                    c3,
                )
            },
            DensityModel::Spline { spline } => {
                let (s, c1) = rw_replace_spline(*spline, target, c);
                (DensityModel::Spline { spline: Box::new(s) }, c1)
            },
            _ => (d, c),
        }
    }
}

spec fn rw_replace_spline(s: SplineModel, target: nat, cur: nat) -> (SplineModel, nat)
    decreases s,
{
    let (coord, c1) = rw_replace(*s.coordinate, target, cur);
    let (points, c2) = rw_replace_points(s.points, target, c1);
    (SplineModel { coordinate: Box::new(coord), points }, c2)
}

spec fn rw_replace_points(ps: Seq<PointModel>, target: nat, cur: nat) -> (
    Seq<PointModel>,
    nat,
)
    decreases ps,
{
    if ps.len() == 0 {
        (Seq::empty(), cur)
    } else {
        let (pre, c1) = rw_replace_points(ps.drop_last(), target, cur);
        let (p, c2) = rw_replace_point(ps.last(), target, c1);
        (pre.push(p), c2)
    }
}

spec fn rw_replace_point(p: PointModel, target: nat, cur: nat) -> (PointModel, nat)
    decreases p,
{
    match p.value {
        ValueModel::Const(_) => (p, cur),
        ValueModel::Spline(s) => {
            let (s2, c1) = rw_replace_spline(*s, target, cur);
            (
                PointModel {
                    derivative: p.derivative,
                    location: p.location,
                    value: ValueModel::Spline(Box::new(s2)),
                },
                c1,
            )
        },
    }
}

proof fn lemma_rw_count_points_prefix(ps: Seq<PointModel>, i: int)
    requires
        0 <= i <= ps.len(),
    ensures
        rw_count_points(ps.subrange(0, i)) <= rw_count_points(ps),
    decreases ps.len(),
{
    if i < ps.len() {
        assert(ps.subrange(0, i) == ps.drop_last().subrange(0, i));
        lemma_rw_count_points_prefix(ps.drop_last(), i);
    } else {
        assert(ps.subrange(0, i) == ps);
    }
}

/// Unwraps `Cache2d` and `FlatCache` nodes: each shrink removes one of them,
/// chosen by the strike index (a `FlatCache` directly over a `Cache2d` is
/// removed together with it, so no `Cache2d` is left without its cache).
#[derive(Clone, Copy, Debug, PartialEq, Eq, Structural)]
pub struct RemoveWrappers {
    pub exhausted: bool,
}

impl RemoveWrappers {
    fn is_candidate(density: &DensityType) -> (b: bool)
        ensures
            b == rw_is_candidate(density@),
    {
        match density {
            DensityType::Unary { op, .. } => match op {
                UnaryOp::Cache2d => true,
                UnaryOp::FlatCache => true,
                _ => false,
            },
            _ => false,
        }
    }

    fn removed(density: DensityType) -> (r: DensityType)
        requires
            rw_is_candidate(density@),
        ensures
            r@ == rw_removed(density@),
    {
        proof {
            reveal_with_fuel(density_view, 2);
        }
        match density {
            DensityType::Unary { op, argument } => {
                match op {
                    UnaryOp::FlatCache => match *argument {
                        DensityType::Unary { op: UnaryOp::Cache2d, argument: inner } => *inner,
                        other => other,
                    },
                    _ => *argument,
                }
            },
            other => other,
        }
    }

    /// Counts the removable wrappers of a tree.
    fn count_candidates(density: &DensityType) -> (n: u32)
        requires
            rw_count(density@) <= u32::MAX,
        ensures
            n == rw_count(density@),
        decreases density,
    {
        let own: u32 = if Self::is_candidate(density) { 1 } else { 0 };
        let rest = match density {
            DensityType::Binary { left, right, .. } => Self::count_candidates(left)
                + Self::count_candidates(right),
            DensityType::Unary { argument, .. } => Self::count_candidates(argument),
            DensityType::NamedDensityReference { argument, .. } => Self::count_candidates(argument),
            DensityType::XNegative { argument, .. } => Self::count_candidates(argument),
            DensityType::Clamp { input, .. } => Self::count_candidates(input),
            DensityType::WeirdScaledSampler { input, .. } => Self::count_candidates(input),
            DensityType::RangeChoice { input, when_in_range, when_out_of_range, .. } => {
                Self::count_candidates(input) + Self::count_candidates(when_in_range)
                    + Self::count_candidates(when_out_of_range)
            },
            DensityType::ShiftedNoise { shift_x, shift_y, shift_z, .. } => {
                Self::count_candidates(shift_x) + Self::count_candidates(shift_y)
                    + Self::count_candidates(shift_z)
            },
            DensityType::Spline { spline } => Self::count_spline_candidates(spline),
            _ => 0,
        };
        own + rest
    }

    fn count_spline_candidates(spline: &SplineType) -> (n: u32)
        requires
            rw_count_spline(spline@) <= u32::MAX,
        ensures
            n == rw_count_spline(spline@),
        decreases spline,
    {
        let ghost pts = points_view(spline.spline_points@);
        proof {
            lemma_points_view(spline.spline_points@);
        }
        let mut count = Self::count_candidates(&spline.coordinate);
        let mut i: usize = 0;
        while i < spline.spline_points.len()
            invariant
                i <= spline.spline_points.len(),
                pts == points_view(spline.spline_points@),
                pts.len() == spline.spline_points.len(),
                rw_count_spline(spline@) <= u32::MAX,
                count == rw_count(*spline@.coordinate) + rw_count_points(pts.subrange(0, i as int)),
            decreases spline.spline_points.len() - i,
        {
            proof {
                lemma_points_view(spline.spline_points@);
                lemma_prefix_step(pts, i as int);
                lemma_rw_count_points_prefix(pts, i + 1);
                assert(pts[i as int] == point_view(spline.spline_points@[i as int]));
            }
            assert(rw_count_points(pts.subrange(0, i + 1)) == rw_count_points(
                pts.subrange(0, i as int),
            ) + rw_count_point(pts[i as int]));
            match &spline.spline_points[i].value {
                SplineValue::Spline(inner) => {
                    proof {
                        assert(decreases_to!(spline => spline.spline_points));
                        assert(decreases_to!(spline.spline_points => spline.spline_points@));
                        assert(decreases_to!(spline.spline_points@ => spline.spline_points@[i as int]));
                        assert(rw_count_point(pts[i as int]) == rw_count_spline(spline_view(**inner)));
                    }
                    count = count + Self::count_spline_candidates(inner);
                },
                SplineValue::Const(_) => {
                    assert(rw_count_point(pts[i as int]) == 0);
                },
            }
            i = i + 1;
        }
        assert(pts.subrange(0, pts.len() as int) == pts);
        count
    }

    /// Rebuilds the tree with the `target_strike`-th removable wrapper
    /// removed, counting candidates from `current_strike`.
    fn replace_nth(density: DensityType, target_strike: u32, current_strike: &mut u32) -> (r: DensityType)
        requires
            *old(current_strike) + rw_count(density@) <= u32::MAX,
        ensures
            r@ == rw_replace(density@, target_strike as nat, *old(current_strike) as nat).0,
            *final(current_strike) == rw_replace(density@, target_strike as nat, *old(current_strike) as nat).1,
            *final(current_strike) <= *old(current_strike) + rw_count(density@),
        decreases density@,
    {
        if Self::is_candidate(&density) {
            if *current_strike == target_strike {
                *current_strike += 1;
                return Self::removed(density);
            }
            *current_strike += 1;
        }
        match density {
            DensityType::Binary { op, left, right } => {
                let l = Self::replace_nth(*left, target_strike, current_strike);
                let r = Self::replace_nth(*right, target_strike, current_strike);
                DensityType::Binary { op, left: Box::new(l), right: Box::new(r) }
            },
            DensityType::Unary { op, argument } => {
                let a = Self::replace_nth(*argument, target_strike, current_strike);
                DensityType::Unary { op, argument: Box::new(a) }
            },
            DensityType::NamedDensityReference { name, argument } => {
                let a = Self::replace_nth(*argument, target_strike, current_strike);
                DensityType::NamedDensityReference { name, argument: Box::new(a) }
            },
            DensityType::Clamp { input, min, max } => {
                let a = Self::replace_nth(*input, target_strike, current_strike);
                DensityType::Clamp { input: Box::new(a), min, max }
            },
            DensityType::XNegative { argument, neg_x_multiplier } => {
                let a = Self::replace_nth(*argument, target_strike, current_strike);
                DensityType::XNegative { argument: Box::new(a), neg_x_multiplier }
            },
            DensityType::WeirdScaledSampler { input, noise_name, noise_to_sample, rarity_value_mapper } => {
                let a = Self::replace_nth(*input, target_strike, current_strike);
                DensityType::WeirdScaledSampler {
                    input: Box::new(a),
                    noise_name,
                    noise_to_sample,
                    rarity_value_mapper,
                }
            },
            DensityType::RangeChoice {
                input,
                min_inclusive,
                max_exclusive,
                when_in_range,
                when_out_of_range,
            } => {
                let a = Self::replace_nth(*input, target_strike, current_strike);
                let b = Self::replace_nth(*when_in_range, target_strike, current_strike);
                let e = Self::replace_nth(*when_out_of_range, target_strike, current_strike);
                DensityType::RangeChoice {
                    input: Box::new(a),
                    min_inclusive,
                    max_exclusive,
                    when_in_range: Box::new(b),
                    when_out_of_range: Box::new(e),
                }
            },
            DensityType::ShiftedNoise { name, noise, shift_x, shift_y, shift_z, xz_scale, y_scale } => {
                let x = Self::replace_nth(*shift_x, target_strike, current_strike);
                let y = Self::replace_nth(*shift_y, target_strike, current_strike);
                let z = Self::replace_nth(*shift_z, target_strike, current_strike);
                DensityType::ShiftedNoise {
                    name,
                    noise,
                    shift_x: Box::new(x),
                    shift_y: Box::new(y),
                    shift_z: Box::new(z),
                    xz_scale,
                    y_scale,
                }
            },
            DensityType::Spline { spline } => {
                let s = Self::replace_nth_spline(*spline, target_strike, current_strike);
                DensityType::Spline { spline: Box::new(s) }
            },
            other => other,
        }
    }

    fn replace_nth_spline(spline: SplineType, target_strike: u32, current_strike: &mut u32) -> (r: SplineType)
        requires
            *old(current_strike) + rw_count_spline(spline@) <= u32::MAX,
        ensures
            r@ == rw_replace_spline(spline@, target_strike as nat, *old(current_strike) as nat).0,
            *final(current_strike) == rw_replace_spline(spline@, target_strike as nat, *old(current_strike) as nat).1,
            *final(current_strike) <= *old(current_strike) + rw_count_spline(spline@),
        decreases spline@,
    {
        let ghost whole = spline;
        let ghost orig = spline.spline_points@;
        let ghost pts = points_view(orig);
        let ghost start = *current_strike;
        proof {
            lemma_points_view(orig);
        }
        let SplineType { coordinate, spline_points } = spline;
        let coord = Self::replace_nth(*coordinate, target_strike, current_strike);
        let ghost mid = *current_strike;
        let mut rest = spline_points;
        let mut out: Vec<SplinePoint> = Vec::new();
        let ghost mut i: int = 0;
        while rest.len() > 0
            invariant
                0 <= i <= orig.len(),
                rest@ == orig.subrange(i, orig.len() as int),
                orig == whole.spline_points@,
                whole == spline,
                pts == points_view(orig),
                pts.len() == orig.len(),
                forall|k: int| 0 <= k < orig.len() ==> #[trigger] pts[k] == point_view(orig[k]),
                mid + rw_count_points(pts) <= u32::MAX,
                points_view(out@) == rw_replace_points(pts.subrange(0, i), target_strike as nat, mid as nat).0,
                *current_strike == rw_replace_points(pts.subrange(0, i), target_strike as nat, mid as nat).1,
                *current_strike <= mid + rw_count_points(pts.subrange(0, i)),
            decreases rest.len(),
        {
            proof {
                lemma_prefix_step(pts, i);
                lemma_rw_count_points_prefix(pts, i + 1);
            }
            let pt = rest.remove(0);
            assert(pt == orig[i]);
            assert(pts[i] == point_view(orig[i]));
            let ghost c_before = *current_strike;
            let SplinePoint { derivative, location, value } = pt;
            let new_value = match value {
                SplineValue::Const(c) => SplineValue::Const(c),
                SplineValue::Spline(inner) => {
                    proof {
                        assert(rw_count_point(pts[i]) == rw_count_spline(spline_view(*inner)));
                        assert(decreases_to!(whole@ => whole@.points));
                        assert(decreases_to!(whole@.points => pts[i]));
                        assert(decreases_to!(pts[i] => pts[i].value));
                        assert(decreases_to!(spline@ => (*inner)@));
                    }
                    SplineValue::Spline(Box::new(Self::replace_nth_spline(*inner, target_strike, current_strike)))
                },
            };
            let new_point = SplinePoint { derivative, location, value: new_value };
            assert(point_view(new_point) == rw_replace_point(pts[i], target_strike as nat, c_before as nat).0);
            assert(*current_strike == rw_replace_point(pts[i], target_strike as nat, c_before as nat).1);
            let ghost before = out@;
            out.push(new_point);
            assert(out@.drop_last() == before);
            assert(points_view(out@) == points_view(before).push(point_view(new_point)));
            proof {
                i = i + 1;
            }
        }
        assert(pts.subrange(0, i) == pts);
        SplineType { coordinate: Box::new(coord), spline_points: out }
    }

    pub fn name(&self) -> (r: &'static str)
        ensures
            r@ == "remove_wrappers"@,
    {
        "remove_wrappers"
    }

    /// Whether a shrink is available at strike `remaining_strikes`: yes when
    /// the strike indexes one of the tree's removable wrappers. Otherwise the
    /// method is exhausted and reports how many strikes it used up (its
    /// candidate count). An exhausted method answers `(false, 0)`.
    pub fn can_shrink(&mut self, remaining_strikes: u32, source: &DensitySource) -> (r: (bool, u32))
        requires
            rw_count(source_density(source@)) <= u32::MAX,
        ensures
            old(self).exhausted ==> r == (false, 0u32) && final(self).exhausted,
            !old(self).exhausted && remaining_strikes < rw_count(source_density(source@)) ==> r == (
                true,
                remaining_strikes,
            ) && !final(self).exhausted,
            !old(self).exhausted && remaining_strikes >= rw_count(source_density(source@)) ==> r == (
                false,
                rw_count(source_density(source@)) as u32,
            ) && final(self).exhausted,
    {
        if self.exhausted {
            return (false, 0);
        }
        let candidate_count = Self::count_candidates(source.get_density());
        if remaining_strikes < candidate_count {
            (true, remaining_strikes)
        } else {
            self.exhausted = true;
            (false, candidate_count)
        }
    }

    /// Removes the wrapper selected by `remaining_strikes` (counting in
    /// pre-order from 0), keeping the source's sampling grid.
    pub fn perform_shrink(&mut self, remaining_strikes: u32, source: DensitySource) -> (r: DensitySource)
        requires
            rw_count(source_density(source@)) <= u32::MAX,
        ensures
            r@ == with_density(
                source@,
                rw_candidate(source_density(source@), remaining_strikes as nat),
            ),
            final(self).exhausted == old(self).exhausted,
    {
        proof {
            lemma_rw_replace(source_density(source@), remaining_strikes as nat, 0);
        }
        let mut current_strike: u32 = 0;
        match source {
            DensitySource::MultiSamplingDensity { density, dimensions } => {
                let new_density = Self::replace_nth(*density, remaining_strikes, &mut current_strike);
                DensitySource::MultiSamplingDensity { density: Box::new(new_density), dimensions }
            },
            DensitySource::SingleSamplingDensity { density } => {
                let new_density = Self::replace_nth(*density, remaining_strikes, &mut current_strike);
                DensitySource::SingleSamplingDensity { density: Box::new(new_density) }
            },
        }
    }

    pub fn reenable(&mut self)
        ensures
            !final(self).exhausted,
    {
        self.exhausted = false;
    }
}

/// The walk of `rw_replace` from counter `cur`: when it misses the target, the tree is unchanged and the
/// counter moves past every candidate; when it hits, the tree loses
/// candidates and the counter moves past the target.
proof fn lemma_rw_replace(d: DensityModel, t: nat, c: nat)
    ensures
        (t < c || t >= c + rw_count(d)) ==> rw_replace(d, t, c) == (d, c + rw_count(d)),
        (c <= t < c + rw_count(d)) ==> rw_count(rw_replace(d, t, c).0) < rw_count(d) && t
            < rw_replace(d, t, c).1 <= c + rw_count(d) && rw_replace(d, t, c).0 == rw_at(
            d,
            (t - c) as nat,
        ),
    decreases d,
{
    if rw_is_candidate(d) && c == t {
        match d {
            DensityModel::Unary { op, argument } => {
                if op == UnaryOp::FlatCache {
                    match *argument {
                        DensityModel::Unary { op: inner_op, argument: inner } => {},
                        _ => {},
                    }
                }
            },
            _ => {},
        }
    } else {
        let c1 = if rw_is_candidate(d) {
            c + 1
        } else {
            c
        };
        match d {
            DensityModel::Binary { left, right, .. } => {
                lemma_rw_replace(*left, t, c1);
                lemma_rw_replace(*right, t, rw_replace(*left, t, c1).1);
            },
            DensityModel::Unary { argument, .. } => {
                lemma_rw_replace(*argument, t, c1);
            },
            DensityModel::NamedDensityReference { argument, .. } => {
                lemma_rw_replace(*argument, t, c1);
            },
            DensityModel::Clamp { input, .. } => {
                lemma_rw_replace(*input, t, c1);
            },
            DensityModel::XNegative { argument, .. } => {
                lemma_rw_replace(*argument, t, c1);
            },
            DensityModel::WeirdScaledSampler { input, .. } => {
                lemma_rw_replace(*input, t, c1);
            },
            DensityModel::RangeChoice { input, when_in_range, when_out_of_range, .. } => {
                lemma_rw_replace(*input, t, c1);
                let c2 = rw_replace(*input, t, c1).1;
                lemma_rw_replace(*when_in_range, t, c2);
                let c3 = rw_replace(*when_in_range, t, c2).1;
                lemma_rw_replace(*when_out_of_range, t, c3);
            },
            DensityModel::ShiftedNoise { shift_x, shift_y, shift_z, .. } => {
                lemma_rw_replace(*shift_x, t, c1);
                let c2 = rw_replace(*shift_x, t, c1).1;
                lemma_rw_replace(*shift_y, t, c2);
                let c3 = rw_replace(*shift_y, t, c2).1;
                lemma_rw_replace(*shift_z, t, c3);
            },
            DensityModel::Spline { spline } => {
                lemma_rw_replace_spline(*spline, t, c1);
            },
            _ => {},
        }
    }
}

proof fn lemma_rw_replace_spline(s: SplineModel, t: nat, c: nat)
    ensures
        (t < c || t >= c + rw_count_spline(s)) ==> rw_replace_spline(s, t, c) == (
            s,
            c + rw_count_spline(s),
        ),
        (c <= t < c + rw_count_spline(s)) ==> rw_count_spline(rw_replace_spline(s, t, c).0)
            < rw_count_spline(s) && t < rw_replace_spline(s, t, c).1 <= c + rw_count_spline(s)
            && rw_replace_spline(s, t, c).0 == rw_at_spline(s, (t - c) as nat),
    decreases s,
{
    lemma_rw_replace(*s.coordinate, t, c);
    lemma_rw_replace_points(s.points, t, rw_replace(*s.coordinate, t, c).1);
}

proof fn lemma_rw_replace_points(ps: Seq<PointModel>, t: nat, c: nat)
    ensures
        (t < c || t >= c + rw_count_points(ps)) ==> rw_replace_points(ps, t, c) == (
            ps,
            c + rw_count_points(ps),
        ),
        (c <= t < c + rw_count_points(ps)) ==> rw_count_points(rw_replace_points(ps, t, c).0)
            < rw_count_points(ps) && t < rw_replace_points(ps, t, c).1 <= c + rw_count_points(ps)
            && rw_replace_points(ps, t, c).0 == rw_at_points(ps, (t - c) as nat),
    decreases ps,
{
    if ps.len() > 0 {
        lemma_rw_replace_points(ps.drop_last(), t, c);
        let c1 = rw_replace_points(ps.drop_last(), t, c).1;
        lemma_rw_replace_point(ps.last(), t, c1);
        let pre = rw_replace_points(ps.drop_last(), t, c).0;
        let p = rw_replace_point(ps.last(), t, c1).0;
        assert(pre.push(p).drop_last() == pre);
        assert(pre.push(p).last() == p);
        if pre == ps.drop_last() && p == ps.last() {
            assert(pre.push(p) =~= ps);
        }
    }
}

proof fn lemma_rw_replace_point(p: PointModel, t: nat, c: nat)
    ensures
        (t < c || t >= c + rw_count_point(p)) ==> rw_replace_point(p, t, c) == (
            p,
            c + rw_count_point(p),
        ),
        (c <= t < c + rw_count_point(p)) ==> rw_count_point(rw_replace_point(p, t, c).0)
            < rw_count_point(p) && t < rw_replace_point(p, t, c).1 <= c + rw_count_point(p)
            && rw_replace_point(p, t, c).0 == rw_at_point(p, (t - c) as nat),
    decreases p,
{
    match p.value {
        ValueModel::Const(_) => {},
        ValueModel::Spline(s) => {
            lemma_rw_replace_spline(*s, t, c);
        },
    }
}

/// Removing a wrapper strictly lowers the number of wrappers left, wherever
/// in the tree it stands: every such shrink makes progress.
pub proof fn lemma_remove_wrappers_progress(d: DensityModel, k: nat)
    requires
        k < rw_count(d),
    ensures
        rw_count(rw_at(d, k)) < rw_count(d),
{
    lemma_rw_replace(d, k, 0);
}

} // verus!
