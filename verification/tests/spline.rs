use tungsten_mc::spline::{spline_segment, SplineSegment};

#[test]
fn spline_segments() {
    assert_eq!(spline_segment(0, 4), SplineSegment::Extrapolate(0));
    assert_eq!(spline_segment(1, 4), SplineSegment::Interpolate(1));
    assert_eq!(spline_segment(3, 4), SplineSegment::Interpolate(3));
    assert_eq!(spline_segment(4, 4), SplineSegment::Extrapolate(3));
    assert_eq!(spline_segment(9, 4), SplineSegment::Extrapolate(3));
    assert_eq!(spline_segment(-1, 4), SplineSegment::Extrapolate(3));
    assert_eq!(spline_segment(0, 1), SplineSegment::Extrapolate(0));
}
