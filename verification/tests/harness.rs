use tungsten_mc::density::{BinaryOp, DensitySource, DensityType};
use tungsten_mc::harness::{cdylib_file_name, index_to_coord, ShrinkSession, ShrinkStep, TargetOs};

#[test]
fn chunk_index_to_coordinate() {
    assert_eq!(index_to_coord(0), (0, 0, 0));
    assert_eq!(index_to_coord(17), (1, 0, 1));
    assert_eq!(index_to_coord(256), (0, 1, 0));
    assert_eq!(index_to_coord(98303), (15, 383, 15));
    for (x, y, z) in [(3usize, 200usize, 9usize), (15, 0, 0), (0, 383, 15)] {
        let idx = (y * 16 + z) * 16 + x;
        assert_eq!(index_to_coord(idx), (x, y, z));
    }
}

#[test]
fn shared_library_names() {
    assert_eq!(cdylib_file_name("tungsten_diff_rust_wrapper", TargetOs::Other), "libtungsten_diff_rust_wrapper.so");
    assert_eq!(cdylib_file_name("foo", TargetOs::MacOs), "libfoo.dylib");
    assert_eq!(cdylib_file_name("foo", TargetOs::Windows), "foo.dll");
}

fn c(v: u64) -> DensityType {
    DensityType::Const(v)
}

fn candidate_is(step: &ShrinkStep, iteration: u64, want: &DensityType) -> bool {
    match step {
        ShrinkStep::Test { iteration: i, candidate } => *i == iteration && candidate.get_density().same_as(want),
        _ => false,
    }
}

#[test]
fn shrink_session_caches_results() {
    let tree = DensityType::Binary { op: BinaryOp::Add, left: Box::new(c(1)), right: Box::new(c(2)) };
    let mut session = ShrinkSession::new(DensitySource::SingleSamplingDensity { density: Box::new(tree) });
    let step = session.advance();
    assert!(candidate_is(&step, 1, &c(1)));
    session.report(false);
    assert_eq!(session.strikes(), 1);
    let step = session.advance();
    assert!(candidate_is(&step, 2, &c(2)));
    session.report(true);
    assert_eq!(session.strikes(), 0);
    let step = session.advance();
    assert!(candidate_is(&step, 3, &c(0)));
    session.report(false);
    let step = session.advance();
    assert!(matches!(step, ShrinkStep::Cached { iteration: 4, reproduces: false }));
    assert_eq!(session.strikes(), 2);
    assert!(matches!(session.advance(), ShrinkStep::Exhausted));
    assert!(session.finish().get_density().same_as(&c(2)));
}
