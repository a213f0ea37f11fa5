use vstd::prelude::*;
use crate::density::{
    lemma_points_view, spline_view, lemma_prefix_step, point_view, points_view,
    source_density, with_density, DensityModel, DensitySource, DensityType, PointModel,
    SplineModel, SplinePoint, SplineType, SplineValue, ValueModel,
};

verus! {

/// Whether the tree holds a named reference other than at the root (when
/// `is_root`): every node with arguments is looked through, spline points
/// included.
pub open spec fn rnr_has_any(d: DensityModel, is_root: bool) -> bool
    decreases d,
{
    (!is_root && d is NamedDensityReference) || match d {
        DensityModel::Binary { left, right, .. } => rnr_has_any(*left, false) || rnr_has_any(
            *right,
            false,
        ),
        DensityModel::Unary { argument, .. } => rnr_has_any(*argument, false),
        DensityModel::NamedDensityReference { argument, .. } => rnr_has_any(*argument, false),
        DensityModel::XNegative { argument, .. } => rnr_has_any(*argument, false),
        DensityModel::Clamp { input, .. } => rnr_has_any(*input, false),
        DensityModel::WeirdScaledSampler { input, .. } => rnr_has_any(*input, false),
        DensityModel::RangeChoice { input, when_in_range, when_out_of_range, .. } => rnr_has_any(
            *input,
            false,
        ) || rnr_has_any(*when_in_range, false) || rnr_has_any(*when_out_of_range, false),
        DensityModel::ShiftedNoise { shift_x, shift_y, shift_z, .. } => rnr_has_any(*shift_x, false)
            || rnr_has_any(*shift_y, false) || rnr_has_any(*shift_z, false),
        DensityModel::Spline { spline } => rnr_has_any_spline(*spline),
        _ => false,
    }
}

pub open spec fn rnr_has_any_spline(s: SplineModel) -> bool
    decreases s,
{
    rnr_has_any(*s.coordinate, false) || rnr_has_any_points(s.points)
}

pub open spec fn rnr_has_any_points(ps: Seq<PointModel>) -> bool
    decreases ps,
{
    ps.len() > 0 && (rnr_has_any_points(ps.drop_last()) || rnr_has_any_point(ps.last()))
}

pub open spec fn rnr_has_any_point(p: PointModel) -> bool
    decreases p,
{
    match p.value {
        ValueModel::Const(_) => false,
        ValueModel::Spline(s) => rnr_has_any_spline(*s),
    }
}

/// The tree with every named reference removed (replaced by its argument),
/// except a reference at the root when `is_root`.
pub open spec fn rnr_strip(d: DensityModel, is_root: bool) -> DensityModel
    decreases d,
{
    match d {
        DensityModel::NamedDensityReference { name, argument } => {
            if is_root {
                DensityModel::NamedDensityReference {
                    name,
                    argument: Box::new(rnr_strip(*argument, false)),
                }
            } else {
                rnr_strip(*argument, false)
            }
        },
        DensityModel::Binary { op, left, right } => DensityModel::Binary {
            op,
            left: Box::new(rnr_strip(*left, false)),
            right: Box::new(rnr_strip(*right, false)),
        },
        DensityModel::Unary { op, argument } => DensityModel::Unary {
            op,
            argument: Box::new(rnr_strip(*argument, false)),
        },
        DensityModel::Clamp { input, min, max } => DensityModel::Clamp {
            input: Box::new(rnr_strip(*input, false)),
            min,
            max,
        },
        DensityModel::XNegative { argument, neg_x_multiplier } => DensityModel::XNegative {
            argument: Box::new(rnr_strip(*argument, false)),
            neg_x_multiplier,
        },
        DensityModel::WeirdScaledSampler { input, noise_name, noise_to_sample, rarity_value_mapper } =>
            DensityModel::WeirdScaledSampler {
            input: Box::new(rnr_strip(*input, false)),
            noise_name,
            noise_to_sample,
            rarity_value_mapper,
        },
        DensityModel::RangeChoice {
            input,
            min_inclusive,
            max_exclusive,
            when_in_range,
            when_out_of_range,
        } => DensityModel::RangeChoice {
            input: Box::new(rnr_strip(*input, false)),
            min_inclusive,
            max_exclusive,
            when_in_range: Box::new(rnr_strip(*when_in_range, false)),
            when_out_of_range: Box::new(rnr_strip(*when_out_of_range, false)),
        },
        DensityModel::ShiftedNoise { name, noise, shift_x, shift_y, shift_z, xz_scale, y_scale } =>
            DensityModel::ShiftedNoise {
            name,
            noise,
            shift_x: Box::new(rnr_strip(*shift_x, false)),
            shift_y: Box::new(rnr_strip(*shift_y, false)),
            shift_z: Box::new(rnr_strip(*shift_z, false)),
            xz_scale,
            y_scale,
        },
        DensityModel::Spline { spline } => DensityModel::Spline {
            spline: Box::new(rnr_strip_spline(*spline)),
        },
        _ => d,
    }
}

pub open spec fn rnr_strip_spline(s: SplineModel) -> SplineModel
    decreases s,
{
    SplineModel {
        coordinate: Box::new(rnr_strip(*s.coordinate, false)),
        points: rnr_strip_points(s.points),
    }
}

pub open spec fn rnr_strip_points(ps: Seq<PointModel>) -> Seq<PointModel>
    decreases ps,
{
    if ps.len() == 0 {
        Seq::empty()
    } else {
        rnr_strip_points(ps.drop_last()).push(rnr_strip_point(ps.last()))
    }
}

pub open spec fn rnr_strip_point(p: PointModel) -> PointModel
    decreases p,
{
    match p.value {
        ValueModel::Const(_) => p,
        ValueModel::Spline(s) => PointModel {
            derivative: p.derivative,
            location: p.location,
            value: ValueModel::Spline(Box::new(rnr_strip_spline(*s))),
        },
    }
}

/// Unwraps every named-reference label in the tree at once, except the
/// outermost one at the root, which must never be removed. Stripping all of
/// them in one shrink means the method only ever needs to run once.
#[derive(Clone, Copy, Debug, PartialEq, Eq, Structural)]
pub struct RemoveNamedReferences {
    pub exhausted: bool,
}

impl RemoveNamedReferences {
    /// Whether any named reference other than the root one exists.
    fn has_any(density: &DensityType, is_root: bool) -> (b: bool)
        ensures
            b == rnr_has_any(density@, is_root),
        decreases density,
    {
        if !is_root {
            if let DensityType::NamedDensityReference { .. } = density {
                return true;
            }
        }
        match density {
            DensityType::Binary { left, right, .. } => Self::has_any(left, false) || Self::has_any(
                right,
                false,
            ),
            DensityType::Unary { argument, .. } => Self::has_any(argument, false),
            DensityType::NamedDensityReference { argument, .. } => Self::has_any(argument, false),
            DensityType::XNegative { argument, .. } => Self::has_any(argument, false),
            DensityType::Clamp { input, .. } => Self::has_any(input, false),
            DensityType::WeirdScaledSampler { input, .. } => Self::has_any(input, false),
            DensityType::RangeChoice { input, when_in_range, when_out_of_range, .. } => {
                Self::has_any(input, false) || Self::has_any(when_in_range, false) || Self::has_any(
                    when_out_of_range,
                    false,
                )
            },
            DensityType::ShiftedNoise { shift_x, shift_y, shift_z, .. } => {
                Self::has_any(shift_x, false) || Self::has_any(shift_y, false) || Self::has_any(
                    shift_z,
                    false,
                )
            },
            DensityType::Spline { spline } => Self::has_any_in_spline(spline),
            _ => false,
        }
    }

    /// Whether any named reference is hidden in a spline.
    fn has_any_in_spline(spline: &SplineType) -> (b: bool)
        ensures
            b == rnr_has_any_spline(spline@),
        decreases spline,
    {
        if Self::has_any(&spline.coordinate, false) {
            return true;
        }
        let ghost pts = points_view(spline.spline_points@);
        proof {
            lemma_points_view(spline.spline_points@);
        }
        let mut i: usize = 0;
        while i < spline.spline_points.len()
            invariant
                i <= spline.spline_points.len(),
                pts == points_view(spline.spline_points@),
                pts.len() == spline.spline_points.len(),
                !rnr_has_any(*spline@.coordinate, false),
                !rnr_has_any_points(pts.subrange(0, i as int)),
            decreases spline.spline_points.len() - i,
        {
            proof {
                lemma_points_view(spline.spline_points@);
                lemma_prefix_step(pts, i as int);
                assert(pts[i as int] == point_view(spline.spline_points@[i as int]));
            }
            assert(rnr_has_any_points(pts.subrange(0, i + 1)) == (rnr_has_any_points(
                pts.subrange(0, i as int),
            ) || rnr_has_any_point(pts[i as int])));
            match &spline.spline_points[i].value {
                SplineValue::Spline(inner) => {
                    proof {
                        assert(decreases_to!(spline => spline.spline_points));
                        assert(decreases_to!(spline.spline_points => spline.spline_points@));
                        assert(decreases_to!(spline.spline_points@ => spline.spline_points@[i as int]));
                        assert(rnr_has_any_point(pts[i as int]) == rnr_has_any_spline(spline_view(**inner)));
                    }
                    if Self::has_any_in_spline(inner) {
                        proof {
                            lemma_rnr_points_prefix_any(pts, i + 1);
                        }
                        return true;
                    }
                },
                SplineValue::Const(_) => {},
            }
            i = i + 1;
        }
        assert(pts.subrange(0, pts.len() as int) == pts);
        false
    }

    /// Rebuilds the tree with every named reference removed, except the one
    /// at the root when `is_root`.
    fn strip_all(density: DensityType, is_root: bool) -> (r: DensityType)
        ensures
            r@ == rnr_strip(density@, is_root),
        decreases density@,
    {
        match density {
            DensityType::NamedDensityReference { name, argument } => {
                if is_root {
                    let a = Self::strip_all(*argument, false);
                    DensityType::NamedDensityReference { name, argument: Box::new(a) }
                } else {
                    Self::strip_all(*argument, false)
                }
            },
            DensityType::Binary { op, left, right } => {
                let l = Self::strip_all(*left, false);
                let r = Self::strip_all(*right, false);
                DensityType::Binary { op, left: Box::new(l), right: Box::new(r) }
            },
            DensityType::Unary { op, argument } => {
                let a = Self::strip_all(*argument, false);
                DensityType::Unary { op, argument: Box::new(a) }
            },
            DensityType::Clamp { input, min, max } => {
                let a = Self::strip_all(*input, false);
                DensityType::Clamp { input: Box::new(a), min, max }
            },
            DensityType::XNegative { argument, neg_x_multiplier } => {
                let a = Self::strip_all(*argument, false);
                DensityType::XNegative { argument: Box::new(a), neg_x_multiplier }
            },
            DensityType::WeirdScaledSampler { input, noise_name, noise_to_sample, rarity_value_mapper } => {
                let a = Self::strip_all(*input, false);
                DensityType::WeirdScaledSampler {
                    input: Box::new(a),
                    noise_name,
                    noise_to_sample,
                    rarity_value_mapper,
                }
            },
            DensityType::RangeChoice {
                input,
                min_inclusive,
                max_exclusive,
                when_in_range,
                when_out_of_range,
            } => {
                let a = Self::strip_all(*input, false);
                let b = Self::strip_all(*when_in_range, false);
                let e = Self::strip_all(*when_out_of_range, false);
                DensityType::RangeChoice {
                    input: Box::new(a),
                    min_inclusive,
                    max_exclusive,
                    when_in_range: Box::new(b),
                    when_out_of_range: Box::new(e),
                }
            },
            DensityType::ShiftedNoise { name, noise, shift_x, shift_y, shift_z, xz_scale, y_scale } => {
                let x = Self::strip_all(*shift_x, false);
                let y = Self::strip_all(*shift_y, false);
                let z = Self::strip_all(*shift_z, false);
                DensityType::ShiftedNoise {
                    name,
                    noise,
                    shift_x: Box::new(x),
                    shift_y: Box::new(y),
                    shift_z: Box::new(z),
                    xz_scale,
                    y_scale,
                }
            },
            DensityType::Spline { spline } => {
                let s = Self::strip_all_spline(*spline);
                DensityType::Spline { spline: Box::new(s) }
            },
            other => other,
        }
    }

    /// Rebuilds a spline with every named reference removed.
    fn strip_all_spline(spline: SplineType) -> (r: SplineType)
        ensures
            r@ == rnr_strip_spline(spline@),
        decreases spline@,
    {
        let ghost whole = spline;
        let ghost orig = spline.spline_points@;
        let ghost pts = points_view(orig);
        proof {
            lemma_points_view(orig);
        }
        let SplineType { coordinate, spline_points } = spline;
        let coord = Self::strip_all(*coordinate, false);
        let mut rest = spline_points;
        let mut out: Vec<SplinePoint> = Vec::new();
        let ghost mut i: int = 0;
        while rest.len() > 0
            invariant
                0 <= i <= orig.len(),
                rest@ == orig.subrange(i, orig.len() as int),
                orig == whole.spline_points@,
                whole == spline,
                pts == points_view(orig),
                pts.len() == orig.len(),
                forall|k: int| 0 <= k < orig.len() ==> #[trigger] pts[k] == point_view(orig[k]),
                points_view(out@) == rnr_strip_points(pts.subrange(0, i)),
            decreases rest.len(),
        {
            proof {
                lemma_prefix_step(pts, i);
            }
            let pt = rest.remove(0);
            assert(pt == orig[i]);
            assert(pts[i] == point_view(orig[i]));
            let SplinePoint { derivative, location, value } = pt;
            let new_value = match value {
                SplineValue::Const(c) => SplineValue::Const(c),
                SplineValue::Spline(inner) => {
                    proof {
                        assert(decreases_to!(whole@ => whole@.points));
                        assert(decreases_to!(whole@.points => pts[i]));
                        assert(decreases_to!(pts[i] => pts[i].value));
                        assert(decreases_to!(spline@ => (*inner)@));
                    }
                    SplineValue::Spline(Box::new(Self::strip_all_spline(*inner)))
                },
            };
            let new_point = SplinePoint { derivative, location, value: new_value };
            assert(point_view(new_point) == rnr_strip_point(pts[i]));
            let ghost before = out@;
            out.push(new_point);
            assert(out@.drop_last() == before);
            assert(points_view(out@) == points_view(before).push(point_view(new_point)));
            proof {
                i = i + 1;
            }
        }
        assert(pts.subrange(0, i) == pts);
        SplineType { coordinate: Box::new(coord), spline_points: out }
    }

    pub fn name(&self) -> (r: &'static str)
        ensures
            r@ == "remove_named_references"@,
    {
        "remove_named_references"
    }

    /// Whether a shrink is available at strike `remaining_strikes`: there is
    /// a single candidate (strip every non-root reference at once) when the
    /// tree holds such a reference. Otherwise the method is exhausted and
    /// reports its candidate count. An exhausted method answers `(false, 0)`.
    pub fn can_shrink(&mut self, remaining_strikes: u32, source: &DensitySource) -> (r: (bool, u32))
        ensures
            old(self).exhausted ==> r == (false, 0u32) && final(self).exhausted,
            !old(self).exhausted && remaining_strikes < rnr_count(source_density(source@)) ==> r == (
                true,
                remaining_strikes,
            ) && !final(self).exhausted,
            !old(self).exhausted && remaining_strikes >= rnr_count(source_density(source@)) ==> r == (
                false,
                rnr_count(source_density(source@)) as u32,
            ) && final(self).exhausted,
    {
        if self.exhausted {
            return (false, 0);
        }
        let candidate_count: u32 = if Self::has_any(source.get_density(), true) { 1 } else { 0 };
        if remaining_strikes < candidate_count {
            (true, remaining_strikes)
        } else {
            self.exhausted = true;
            (false, candidate_count)
        }
    }

    /// Strips every non-root named reference, keeping the source's grid.
    pub fn perform_shrink(&mut self, remaining_strikes: u32, source: DensitySource) -> (r: DensitySource)
        ensures
            r@ == with_density(source@, rnr_strip(source_density(source@), true)),
            final(self).exhausted == old(self).exhausted,
    {
        match source {
            DensitySource::MultiSamplingDensity { density, dimensions } => {
                let new_density = Self::strip_all(*density, true);
                DensitySource::MultiSamplingDensity { density: Box::new(new_density), dimensions }
            },
            DensitySource::SingleSamplingDensity { density } => {
                let new_density = Self::strip_all(*density, true);
                DensitySource::SingleSamplingDensity { density: Box::new(new_density) }
            },
        }
    }

    pub fn reenable(&mut self)
        ensures
            !final(self).exhausted,
    {
        self.exhausted = false;
    }
}

/// The candidate count of this method: 1 when the tree holds a non-root
/// named reference, else 0.
pub open spec fn rnr_count(d: DensityModel) -> nat {
    if rnr_has_any(d, true) { 1 } else { 0 }
}

proof fn lemma_rnr_points_prefix_any(ps: Seq<PointModel>, i: int)
    requires
        0 <= i <= ps.len(),
        rnr_has_any_points(ps.subrange(0, i)),
    ensures
        rnr_has_any_points(ps),
    decreases ps.len(),
{
    if i < ps.len() {
        assert(ps.subrange(0, i) == ps.drop_last().subrange(0, i));
        lemma_rnr_points_prefix_any(ps.drop_last(), i);
    } else {
        assert(ps.subrange(0, i) == ps);
    }
}

/// After stripping, no named reference is left but (when `is_root`) the
/// one at the root: a single shrink removes them all.
pub proof fn lemma_strip_leaves_no_reference(d: DensityModel, is_root: bool)
    ensures
        !rnr_has_any(rnr_strip(d, is_root), is_root),
    decreases d,
{
    match d {
        DensityModel::NamedDensityReference { argument, .. } => {
            lemma_strip_leaves_no_reference(*argument, false);
        },
        DensityModel::Binary { left, right, .. } => {
            lemma_strip_leaves_no_reference(*left, false);
            lemma_strip_leaves_no_reference(*right, false);
        },
        DensityModel::Unary { argument, .. } => {
            lemma_strip_leaves_no_reference(*argument, false);
        },
        DensityModel::Clamp { input, .. } => {
            lemma_strip_leaves_no_reference(*input, false);
        },
        DensityModel::XNegative { argument, .. } => {
            lemma_strip_leaves_no_reference(*argument, false);
        },
        DensityModel::WeirdScaledSampler { input, .. } => {
            lemma_strip_leaves_no_reference(*input, false);
        },
        DensityModel::RangeChoice { input, when_in_range, when_out_of_range, .. } => {
            lemma_strip_leaves_no_reference(*input, false);
            lemma_strip_leaves_no_reference(*when_in_range, false);
            lemma_strip_leaves_no_reference(*when_out_of_range, false);
        },
        DensityModel::ShiftedNoise { shift_x, shift_y, shift_z, .. } => {
            lemma_strip_leaves_no_reference(*shift_x, false);
            lemma_strip_leaves_no_reference(*shift_y, false);
            lemma_strip_leaves_no_reference(*shift_z, false);
        },
        DensityModel::Spline { spline } => {
            lemma_strip_spline_leaves_no_reference(*spline);
        },
        _ => {},
    }
}

proof fn lemma_strip_spline_leaves_no_reference(s: SplineModel)
    ensures
        !rnr_has_any_spline(rnr_strip_spline(s)),
    decreases s,
{
    lemma_strip_leaves_no_reference(*s.coordinate, false);
    lemma_strip_points_leave_no_reference(s.points);
}

proof fn lemma_strip_points_leave_no_reference(ps: Seq<PointModel>)
    ensures
        !rnr_has_any_points(rnr_strip_points(ps)),
    decreases ps,
{
    if ps.len() > 0 {
        let stripped = rnr_strip_points(ps);
        assert(stripped.drop_last() == rnr_strip_points(ps.drop_last()));
        assert(stripped.last() == rnr_strip_point(ps.last()));
        lemma_strip_points_leave_no_reference(ps.drop_last());
        lemma_strip_point_leaves_no_reference(ps.last());
    }
}

proof fn lemma_strip_point_leaves_no_reference(p: PointModel)
    ensures
        !rnr_has_any_point(rnr_strip_point(p)),
    decreases p,
{
    match p.value {
        ValueModel::Const(_) => {},
        ValueModel::Spline(s) => {
            lemma_strip_spline_leaves_no_reference(*s);
        },
    }
}

/// A tree without named references (but at the root, when `is_root`) is
/// left as it is by stripping.
pub proof fn lemma_strip_without_references(d: DensityModel, is_root: bool)
    requires
        !rnr_has_any(d, is_root),
    ensures
        rnr_strip(d, is_root) == d,
    decreases d,
{
    match d {
        DensityModel::NamedDensityReference { argument, .. } => {
            lemma_strip_without_references(*argument, false);
        },
        DensityModel::Binary { left, right, .. } => {
            lemma_strip_without_references(*left, false);
            lemma_strip_without_references(*right, false);
        },
        DensityModel::Unary { argument, .. } => {
            lemma_strip_without_references(*argument, false);
        },
        DensityModel::Clamp { input, .. } => {
            lemma_strip_without_references(*input, false);
        },
        DensityModel::XNegative { argument, .. } => {
            lemma_strip_without_references(*argument, false);
        },
        DensityModel::WeirdScaledSampler { input, .. } => {
            lemma_strip_without_references(*input, false);
        },
        DensityModel::RangeChoice { input, when_in_range, when_out_of_range, .. } => {
            lemma_strip_without_references(*input, false);
            lemma_strip_without_references(*when_in_range, false);
            lemma_strip_without_references(*when_out_of_range, false);
        },
        DensityModel::ShiftedNoise { shift_x, shift_y, shift_z, .. } => {
            lemma_strip_without_references(*shift_x, false);
            lemma_strip_without_references(*shift_y, false);
            lemma_strip_without_references(*shift_z, false);
        },
        DensityModel::Spline { spline } => {
            lemma_strip_spline_without_references(*spline);
        },
        _ => {},
    }
}

proof fn lemma_strip_spline_without_references(s: SplineModel)
    requires
        !rnr_has_any_spline(s),
    ensures
        rnr_strip_spline(s) == s,
    decreases s,
{
    lemma_strip_without_references(*s.coordinate, false);
    lemma_strip_points_without_references(s.points);
}

proof fn lemma_strip_points_without_references(ps: Seq<PointModel>)
    requires
        !rnr_has_any_points(ps),
    ensures
        rnr_strip_points(ps) == ps,
    decreases ps,
{
    if ps.len() > 0 {
        lemma_strip_points_without_references(ps.drop_last());
        lemma_strip_point_without_references(ps.last());
        assert(ps.drop_last().push(ps.last()) =~= ps);
    }
}

proof fn lemma_strip_point_without_references(p: PointModel)
    requires
        !rnr_has_any_point(p),
    ensures
        rnr_strip_point(p) == p,
    decreases p,
{
    match p.value {
        ValueModel::Const(_) => {},
        ValueModel::Spline(s) => {
            lemma_strip_spline_without_references(*s);
        },
    }
}

} // verus!
