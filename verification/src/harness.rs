//! Index arithmetic and file naming for the differential harness.

use vstd::prelude::*;
use vstd::string::StringExecFns;
use crate::density::{density_size, source_density, with_density, DensityModel, DensitySource, DensityType};
use crate::shrink::{
    counts_fit, initial_methods, search, ScanOutcome, Shrinker, ShrinkerModel,
};

verus! {

/// Width (x) of a chunk.
pub const WIDTH: usize = 16;

/// Height (y) of a chunk.
pub const HEIGHT: usize = 384;

/// Depth (z) of a chunk.
pub const DEPTH: usize = 16;

/// The flattened index of a grid coordinate in the chunk layout: x varies
/// fastest, then z, then y.
pub open spec fn coord_to_index(x: int, y: int, z: int) -> int {
    (y * DEPTH + z) * WIDTH + x
}

/// Reverses the flattened index back into the `(x, y, z)` grid coordinate.
pub fn index_to_coord(idx: usize) -> (r: (usize, usize, usize))
    requires
        idx < WIDTH * DEPTH * HEIGHT,
    ensures
        r.0 == idx % WIDTH,
        r.2 == (idx / WIDTH) % DEPTH,
        r.1 == idx / ((WIDTH * DEPTH) as usize),
        r.0 < WIDTH && r.1 < HEIGHT && r.2 < DEPTH,
        coord_to_index(r.0 as int, r.1 as int, r.2 as int) == idx,
{
    let x = idx % WIDTH;
    let z = (idx / WIDTH) % DEPTH;
    let y = idx / (WIDTH * DEPTH);
    assert(coord_to_index(x as int, y as int, z as int) == idx) by (nonlinear_arith)
        requires
            x == idx % 16,
            z == (idx / 16) % 16,
            y == idx / 256,
    ;
    assert(y < HEIGHT) by (nonlinear_arith)
        requires
            y == idx / 256,
            idx < 98304,
    ;
    (x, y, z)
}

/// Every grid coordinate of a chunk has its own index, and reversing that
/// index gives the coordinate back.
pub proof fn lemma_coord_index_roundtrip(x: int, y: int, z: int)
    requires
        0 <= x < WIDTH,
        0 <= y < HEIGHT,
        0 <= z < DEPTH,
    ensures
        0 <= coord_to_index(x, y, z) < WIDTH * DEPTH * HEIGHT,
        coord_to_index(x, y, z) % (WIDTH as int) == x,
        (coord_to_index(x, y, z) / (WIDTH as int)) % (DEPTH as int) == z,
        coord_to_index(x, y, z) / ((WIDTH * DEPTH) as int) == y,
{
    let i = coord_to_index(x, y, z);
    assert(i == y * 256 + z * 16 + x && 0 <= i < 98304) by (nonlinear_arith)
        requires
            i == (y * 16 + z) * 16 + x,
            0 <= x < 16,
            0 <= y < 384,
            0 <= z < 16,
    ;
    assert(i % 16 == x && (i / 16) % 16 == z && i / 256 == y) by (nonlinear_arith)
        requires
            i == y * 256 + z * 16 + x,
            0 <= x < 16,
            0 <= y < 384,
            0 <= z < 16,
    ;
}

/// The operating system a shared library is built for.
#[derive(Clone, Copy, Debug, PartialEq, Eq, Structural)]
pub enum TargetOs {
    Windows,
    MacOs,
    Other,
}

/// The file name cargo gives the cdylib of `crate_name` on `os`.
pub open spec fn cdylib_name(crate_name: Seq<char>, os: TargetOs) -> Seq<char> {
    match os {
        TargetOs::Windows => crate_name + ".dll"@,
        TargetOs::MacOs => "lib"@ + crate_name + ".dylib"@,
        TargetOs::Other => "lib"@ + crate_name + ".so"@,
    }
}

/// The platform-specific file name cargo produces for the cdylib of
/// `crate_name` (it lives in the `release` directory of the target
/// directory).
pub fn cdylib_file_name(crate_name: &str, os: TargetOs) -> (r: String)
    ensures
        r@ == cdylib_name(crate_name@, os),
{
    match os {
        TargetOs::Windows => {
            let name = String::from_str(crate_name);
            name.concat(".dll")
        },
        TargetOs::MacOs => {
            let name = String::from_str("lib");
            let name = name.concat(crate_name);
            name.concat(".dylib")
        },
        TargetOs::Other => {
            let name = String::from_str("lib");
            let name = name.concat(crate_name);
            name.concat(".so")
        },
    }
}

/// The result recorded for a tree, if any: the first entry for an equal
/// tree.
pub open spec fn cached_result(results: Seq<(DensityModel, bool)>, d: DensityModel) -> Option<bool>
    decreases results.len(),
{
    if results.len() == 0 {
        None
    } else if results[0].0 == d {
        Some(results[0].1)
    } else {
        cached_result(results.drop_first(), d)
    }
}

/// A tree is tested at most once: once its result is recorded (it had none
/// before), looking it up gives that result, and the results of other trees
/// are unchanged.
pub proof fn lemma_recorded_result_is_found(
    results: Seq<(DensityModel, bool)>,
    d: DensityModel,
    reproduces: bool,
    other: DensityModel,
)
    requires
        cached_result(results, d) is None,
    ensures
        cached_result(results.push((d, reproduces)), d) == Some(reproduces),
        other != d ==> cached_result(results.push((d, reproduces)), other) == cached_result(
            results,
            other,
        ),
    decreases results.len(),
{
    let pushed = results.push((d, reproduces));
    if results.len() > 0 {
        assert(pushed[0] == results[0]);
        assert(pushed.drop_first() =~= results.drop_first().push((d, reproduces)));
        lemma_recorded_result_is_found(results.drop_first(), d, reproduces, other);
    } else {
        assert(pushed[0] == (d, reproduces));
        assert(pushed.drop_first() =~= Seq::<(DensityModel, bool)>::empty());
        assert(cached_result(pushed.drop_first(), other) is None);
    }
}

/// The shrink loop of the harness, as a state machine: `advance` proposes
/// the next candidate (answering at once from the results of earlier tests
/// when it can), and `report` takes the result of testing it.
pub struct ShrinkSession {
    shrinker: Shrinker,
    results: Vec<(DensityType, bool)>,
    iterations: u64,
    pending: Option<DensityType>,
}

/// Model of a shrink session.
pub struct SessionModel {
    pub shrinker: ShrinkerModel,
    /// The trees tested so far, each with whether it still showed the bug.
    pub results: Seq<(DensityModel, bool)>,
    /// How many candidates have been proposed.
    pub iterations: u64,
    /// The candidate being tested.
    pub pending: Option<DensityModel>,
}

/// The models of recorded results.
pub open spec fn results_view(rs: Seq<(DensityType, bool)>) -> Seq<(DensityModel, bool)> {
    rs.map_values(|e: (DensityType, bool)| (e.0@, e.1))
}

impl View for ShrinkSession {
    type V = SessionModel;

    closed spec fn view(&self) -> SessionModel {
        SessionModel {
            shrinker: self.shrinker@,
            results: results_view(self.results@),
            iterations: self.iterations,
            pending: match self.pending {
                Some(d) => Some(d@),
                None => None,
            },
        }
    }
}

/// What the shrink loop does next.
pub enum ShrinkStep {
    /// Candidate number `iteration` had been tested before, with this
    /// result; the shrinker moved past it.
    Cached { iteration: u64, reproduces: bool },
    /// Candidate number `iteration` must be tested; report the result.
    Test { iteration: u64, candidate: DensitySource },
    /// No candidate is left.
    Exhausted,
}

impl ShrinkSession {
    /// A session shrinking the `final_density` tree of `initial`.
    pub fn new(initial: DensitySource) -> (r: ShrinkSession)
        ensures
            r@.shrinker.initial == initial@,
            r@.shrinker.strikes == 0,
            r@.shrinker.last_shrink is None,
            r@.shrinker.methods == initial_methods(),
            r@.shrinker.density_function_name == Some("final_density"@),
            r@.results.len() == 0,
            r@.iterations == 0,
            r@.pending is None,
    {
        let mut shrinker = Shrinker::new(initial);
        shrinker.set_density_function_name(String::from_str("final_density"));
        let r = ShrinkSession { shrinker, results: Vec::new(), iterations: 0, pending: None };
        assert(results_view(r.results@) =~= Seq::<(DensityModel, bool)>::empty());
        r
    }

    /// How many candidates to skip next time.
    pub fn strikes(&self) -> (r: u32)
        ensures
            r == self@.shrinker.strikes,
    {
        self.shrinker.strikes()
    }

    /// Whether the current tree has at most `u32::MAX` density nodes, so
    /// that its candidate counts fit the shrinker's counters.
    pub fn fits_counters(&self) -> (r: bool)
        ensures
            r == (density_size(source_density(self@.shrinker.initial)) <= u32::MAX),
            r ==> counts_fit(source_density(self@.shrinker.initial)),
    {
        self.shrinker.fits_counters()
    }

    /// The result recorded for a tree.
    fn lookup(&self, d: &DensityType) -> (r: Option<bool>)
        ensures
            r == cached_result(self@.results, d@),
    {
        let ghost rs = results_view(self.results@);
        assert(rs.skip(0) =~= rs);
        let mut i: usize = 0;
        while i < self.results.len()
            invariant
                i <= self.results.len(),
                rs == results_view(self.results@),
                cached_result(rs, d@) == cached_result(rs.skip(i as int), d@),
            decreases self.results.len() - i,
        {
            let ghost tail = rs.skip(i as int);
            assert(tail[0] == (self.results@[i as int].0@, self.results@[i as int].1));
            assert(tail.drop_first() =~= rs.skip(i + 1));
            if self.results[i].0.same_as(d) {
                return Some(self.results[i].1);
            }
            i = i + 1;
        }
        assert(rs.skip(i as int).len() == 0);
        None
    }

    /// Proposes the next candidate. When the shrinker has none left, the
    /// session is exhausted. When the candidate's tree was tested before,
    /// the shrinker moves past it at once (whatever the result was) and the
    /// recorded result is returned; otherwise it is to be tested.
    pub fn advance(&mut self) -> (r: ShrinkStep)
        requires
            old(self)@.pending is None,
            old(self)@.shrinker.last_shrink is None,
            old(self)@.shrinker.strikes < u32::MAX,
            old(self)@.iterations < u64::MAX,
            counts_fit(source_density(old(self)@.shrinker.initial)),
        ensures
            final(self)@.results == old(self)@.results,
            final(self)@.shrinker.initial == old(self)@.shrinker.initial,
            match search(
                old(self)@.shrinker.methods,
                source_density(old(self)@.shrinker.initial),
                old(self)@.shrinker.strikes as nat,
            ) {
                ScanOutcome::Found { index, strike, methods } => {
                    let cand = with_density(
                        old(self)@.shrinker.initial,
                        methods[index].candidate(source_density(old(self)@.shrinker.initial), strike),
                    );
                    &&& final(self)@.iterations == old(self)@.iterations + 1
                    &&& final(self)@.shrinker.methods == methods
                    &&& match cached_result(old(self)@.results, source_density(cand)) {
                        Some(b) => {
                            &&& r == ShrinkStep::Cached { iteration: final(self)@.iterations, reproduces: b }
                            &&& final(self)@.shrinker.strikes == old(self)@.shrinker.strikes + 1
                            &&& final(self)@.shrinker.last_shrink is None
                            &&& final(self)@.pending is None
                        },
                        None => {
                            &&& r matches ShrinkStep::Test { iteration, candidate } && iteration
                                == final(self)@.iterations && candidate@ == cand
                            &&& final(self)@.shrinker.strikes == old(self)@.shrinker.strikes
                            &&& final(self)@.shrinker.last_shrink == Some(cand)
                            &&& final(self)@.pending == Some(source_density(cand))
                        },
                    }
                },
                ScanOutcome::Exhausted { methods, .. } => {
                    &&& r is Exhausted
                    &&& final(self)@.iterations == old(self)@.iterations
                    &&& final(self)@.shrinker.methods == methods
                    &&& final(self)@.shrinker.strikes == old(self)@.shrinker.strikes
                    &&& final(self)@.shrinker.last_shrink is None
                    &&& final(self)@.pending is None
                },
            },
    {
        match self.shrinker.shrink() {
            None => ShrinkStep::Exhausted,
            Some(shrunk) => {
                self.iterations = self.iterations + 1;
                match self.lookup(shrunk.get_density()) {
                    Some(reproduces) => {
                        self.shrinker.mark_last_shrink_successful();
                        ShrinkStep::Cached { iteration: self.iterations, reproduces }
                    },
                    None => {
                        self.pending = Some(shrunk.get_density().deep_clone());
                        ShrinkStep::Test { iteration: self.iterations, candidate: shrunk }
                    },
                }
            },
        }
    }

    /// Takes the result of testing the pending candidate: when it still
    /// shows the bug it becomes the current tree (the strikes start again);
    /// otherwise the shrinker goes back to the current tree and skips one
    /// more candidate. The result is recorded either way.
    pub fn report(&mut self, reproduces: bool)
        requires
            old(self)@.pending is Some,
            old(self)@.shrinker.last_shrink is Some,
            old(self)@.shrinker.strikes < u32::MAX,
        ensures
            final(self)@.results == old(self)@.results.push(
                (old(self)@.pending->Some_0, reproduces),
            ),
            final(self)@.pending is None,
            final(self)@.iterations == old(self)@.iterations,
            final(self)@.shrinker.last_shrink is None,
            final(self)@.shrinker.methods == old(self)@.shrinker.methods,
            reproduces ==> final(self)@.shrinker.strikes == 0 && old(self)@.shrinker.last_shrink
                == Some(final(self)@.shrinker.initial),
            !reproduces ==> final(self)@.shrinker.strikes == old(self)@.shrinker.strikes + 1
                && final(self)@.shrinker.initial == old(self)@.shrinker.initial,
    {
        let tested = self.pending.take();
        if reproduces {
            self.shrinker.mark_last_shrink_buggy();
        } else {
            self.shrinker.mark_last_shrink_successful();
        }
        match tested {
            Some(d) => {
                let ghost before = self.results@;
                self.results.push((d, reproduces));
                assert(results_view(self.results@) =~= results_view(before).push((d@, reproduces)));
            },
            None => {},
        }
    }

    /// The smallest tree found that still shows the bug.
    pub fn finish(self) -> (r: DensitySource)
        ensures
            r@ == self@.shrinker.initial,
    {
        self.shrinker.finish()
    }
}

} // verus!
