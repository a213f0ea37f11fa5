//! A check, run before shrinking, that a tree's candidate counts fit the
//! shrinker's `u32` counters: every count is at most the number of density
//! nodes, so a tree of at most `u32::MAX` nodes always fits.

use vstd::prelude::*;
use crate::density::{
    density_size, lemma_points_view, lemma_prefix_step, point_size, point_view, points_size,
    points_view, source_density, spline_size, spline_view, DensityModel, DensitySource,
    DensityType, PointModel, SplineModel, SplineType, SplineValue, ValueModel,
};
use crate::shrink::counts_fit;
use crate::shrink::remove_wrappers::{rw_count, rw_count_point, rw_count_points, rw_count_spline};
use crate::shrink::replace_with_constant::{
    rc_count, rc_count_point, rc_count_points, rc_count_spline,
};
use crate::shrink::simplify_noise_params::{
    snp_count, snp_count_point, snp_count_points, snp_count_spline,
};

verus! {

/// `x`, but no more than `cap`.
pub open spec fn capped(x: nat, cap: nat) -> nat {
    if x < cap {
        x
    } else {
        cap
    }
}

proof fn lemma_counts_within_size(d: DensityModel)
    ensures
        rc_count(d) <= density_size(d),
        rw_count(d) <= density_size(d),
        snp_count(d) <= density_size(d),
    decreases d,
{
    match d {
        DensityModel::Binary { left, right, .. } => {
            lemma_counts_within_size(*left);
            lemma_counts_within_size(*right);
        },
        DensityModel::Unary { argument, .. } => lemma_counts_within_size(*argument),
        DensityModel::NamedDensityReference { argument, .. } => lemma_counts_within_size(*argument),
        DensityModel::XNegative { argument, .. } => lemma_counts_within_size(*argument),
        DensityModel::Clamp { input, .. } => lemma_counts_within_size(*input),
        DensityModel::WeirdScaledSampler { input, .. } => lemma_counts_within_size(*input),
        DensityModel::RangeChoice { input, when_in_range, when_out_of_range, .. } => {
            lemma_counts_within_size(*input);
            lemma_counts_within_size(*when_in_range);
            lemma_counts_within_size(*when_out_of_range);
        },
        DensityModel::ShiftedNoise { shift_x, shift_y, shift_z, .. } => {
            lemma_counts_within_size(*shift_x);
            lemma_counts_within_size(*shift_y);
            lemma_counts_within_size(*shift_z);
        },
        DensityModel::Spline { spline } => lemma_counts_within_spline(*spline),
        _ => {},
    }
}

proof fn lemma_counts_within_spline(s: SplineModel)
    ensures
        rc_count_spline(s) <= spline_size(s),
        rw_count_spline(s) <= spline_size(s),
        snp_count_spline(s) <= spline_size(s),
    decreases s,
{
    lemma_counts_within_size(*s.coordinate);
    lemma_counts_within_points(s.points);
}

proof fn lemma_counts_within_points(ps: Seq<PointModel>)
    ensures
        rc_count_points(ps) <= points_size(ps),
        rw_count_points(ps) <= points_size(ps),
        snp_count_points(ps) <= points_size(ps),
    decreases ps,
{
    if ps.len() > 0 {
        lemma_counts_within_points(ps.drop_last());
        lemma_counts_within_point(ps.last());
    }
}

proof fn lemma_counts_within_point(p: PointModel)
    ensures
        rc_count_point(p) <= point_size(p),
        rw_count_point(p) <= point_size(p),
        snp_count_point(p) <= point_size(p),
    decreases p,
{
    match p.value {
        ValueModel::Const(_) => {},
        ValueModel::Spline(s) => lemma_counts_within_spline(*s),
    }
}

/// The number of density nodes in a tree, counted up to `cap`.
fn size_capped(d: &DensityType, cap: u64) -> (r: u64)
    requires
        cap <= 0x1_0000_0000,
    ensures
        r == capped(density_size(d@), cap as nat),
    decreases d,
{
    let inner: u64 = match d {
        DensityType::Binary { left, right, .. } => size_capped(left, cap) + size_capped(right, cap),
        DensityType::Unary { argument, .. } => size_capped(argument, cap),
        DensityType::NamedDensityReference { argument, .. } => size_capped(argument, cap),
        DensityType::XNegative { argument, .. } => size_capped(argument, cap),
        DensityType::Clamp { input, .. } => size_capped(input, cap),
        DensityType::WeirdScaledSampler { input, .. } => size_capped(input, cap),
        DensityType::RangeChoice { input, when_in_range, when_out_of_range, .. } => size_capped(
            input,
            cap,
        ) + size_capped(when_in_range, cap) + size_capped(when_out_of_range, cap),
        DensityType::ShiftedNoise { shift_x, shift_y, shift_z, .. } => size_capped(shift_x, cap)
            + size_capped(shift_y, cap) + size_capped(shift_z, cap),
        DensityType::Spline { spline } => spline_size_capped(spline, cap),
        _ => 0,
    };
    let total = 1 + inner;
    if total < cap {
        total
    } else {
        cap
    }
}

/// The number of density nodes in a spline, counted up to `cap`.
fn spline_size_capped(s: &SplineType, cap: u64) -> (r: u64)
    requires
        cap <= 0x1_0000_0000,
    ensures
        r == capped(spline_size(s@), cap as nat),
    decreases s,
{
    let ghost pts = points_view(s.spline_points@);
    proof {
        lemma_points_view(s.spline_points@);
        assert(pts.subrange(0, 0) =~= Seq::<PointModel>::empty());
    }
    let mut acc = size_capped(&s.coordinate, cap);
    let mut i: usize = 0;
    while i < s.spline_points.len()
        invariant
            i <= s.spline_points.len(),
            cap <= 0x1_0000_0000,
            pts == points_view(s.spline_points@),
            pts.len() == s.spline_points.len(),
            acc == capped(density_size(*s@.coordinate) + points_size(pts.subrange(0, i as int)), cap as nat),
        decreases s.spline_points.len() - i,
    {
        proof {
            lemma_points_view(s.spline_points@);
            lemma_prefix_step(pts, i as int);
            assert(pts[i as int] == point_view(s.spline_points@[i as int]));
        }
        assert(points_size(pts.subrange(0, i + 1)) == points_size(pts.subrange(0, i as int))
            + point_size(pts[i as int]));
        let more: u64 = match &s.spline_points[i].value {
            SplineValue::Spline(inner) => {
                proof {
                    assert(decreases_to!(s => s.spline_points));
                    assert(decreases_to!(s.spline_points => s.spline_points@));
                    assert(decreases_to!(s.spline_points@ => s.spline_points@[i as int]));
                    assert(point_size(pts[i as int]) == spline_size(spline_view(**inner)));
                }
                spline_size_capped(inner, cap)
            },
            SplineValue::Const(_) => {
                assert(point_size(pts[i as int]) == 0);
                0
            },
        };
        let total = acc + more;
        acc = if total < cap {
            total
        } else {
            cap
        };
        i = i + 1;
    }
    assert(pts.subrange(0, pts.len() as int) =~= pts);
    acc
}

/// Whether a source has at most `u32::MAX` density nodes. When it has, the
/// candidate counts of the shrink methods all fit the shrinker's counters.
pub fn counts_fit_check(source: &DensitySource) -> (r: bool)
    ensures
        r == (density_size(source_density(source@)) <= u32::MAX),
        r ==> counts_fit(source_density(source@)),
{
    proof {
        lemma_counts_within_size(source_density(source@));
    }
    size_capped(source.get_density(), 0x1_0000_0000u64) <= 0xFFFF_FFFFu64
}

} // verus!
