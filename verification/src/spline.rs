//! Segment selection of cubic spline evaluation.

use vstd::prelude::*;

verus! {

/// Where a spline is evaluated relative to its points.
#[derive(Clone, Copy, Debug, PartialEq, Eq, Structural)]
pub enum SplineSegment {
    /// Outside the points: extrapolate linearly from point `k`.
    Extrapolate(usize),
    /// Between points `k - 1` and `k`: interpolate.
    Interpolate(usize),
}

/// The segment of a spline of `n` points for the search result `index`
/// (the first point past the coordinate). The index is read as an unsigned
/// position, so a negative one lands past the end: at the first point and
/// past the end the spline is extrapolated (past the end from the last
/// point), elsewhere interpolated.
pub open spec fn segment_of(index: i32, n: usize) -> SplineSegment {
    let u = index as usize;
    if u == 0 || u >= n {
        SplineSegment::Extrapolate(if u < n - 1 { u } else { (n - 1) as usize })
    } else {
        SplineSegment::Interpolate(u)
    }
}

/// Picks the segment of a spline of `n` points for the search result
/// `index`.
pub fn spline_segment(index: i32, n: usize) -> (r: SplineSegment)
    requires
        n > 0,
    ensures
        r == segment_of(index, n),
{
    let u = index as usize;
    if u == 0 || u >= n {
        let last = n - 1;
        SplineSegment::Extrapolate(if u < last { u } else { last })
    } else {
        SplineSegment::Interpolate(u)
    }
}

} // verus!
