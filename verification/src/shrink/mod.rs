//! Shrinking of density function trees: each method proposes smaller
//! candidate trees, selected by a strike index, and the shrinker walks the
//! candidates of all methods in turn.

pub mod remove_named_references;
pub mod remove_operand;
pub mod rebuild;
pub mod remove_wrappers;
pub mod replace_with_constant;
pub mod simplify_noise;
pub mod simplify_noise_params;
pub mod take_subtree;
pub mod bounds;

use vstd::prelude::*;
use crate::density::{density_size, source_density, with_density, DensityModel, DensitySource, SourceModel};
use self::bounds::counts_fit_check;
use self::remove_named_references::{rnr_count, rnr_strip, RemoveNamedReferences};
use self::remove_operand::RemoveOperand;
use self::remove_wrappers::{rw_at, rw_count, RemoveWrappers};
use self::replace_with_constant::{rc_at, rc_count, ReplaceWithConstant};
use self::simplify_noise::SimplifyNoise;
use self::simplify_noise_params::{snp_at, snp_count, SimplifyNoiseParams};
use self::take_subtree::{ts_count, ts_result, TakeSubtree};

verus! {

/// One shrink method, with its state.
#[derive(Clone, Copy, Debug, PartialEq, Eq, Structural)]
pub enum ShrinkMethod {
    RemoveNamedReferences(RemoveNamedReferences),
    TakeSubtree(TakeSubtree),
    ReplaceWithConstant(ReplaceWithConstant),
    RemoveOperand(RemoveOperand),
    RemoveWrappers(RemoveWrappers),
    SimplifyNoise(SimplifyNoise),
    SimplifyNoiseParams(SimplifyNoiseParams),
}

/// The candidate counts of the counting methods fit in the `u32` counters.
pub open spec fn counts_fit(d: DensityModel) -> bool {
    &&& rc_count(d) <= u32::MAX
    &&& rw_count(d) <= u32::MAX
    &&& snp_count(d) <= u32::MAX
}

impl ShrinkMethod {
    /// Whether the method has been struck out.
    pub open spec fn is_exhausted(self) -> bool {
        match self {
            ShrinkMethod::RemoveNamedReferences(m) => m.exhausted,
            ShrinkMethod::TakeSubtree(m) => m.exhausted,
            ShrinkMethod::ReplaceWithConstant(m) => m.exhausted,
            ShrinkMethod::RemoveOperand(_) => false,
            ShrinkMethod::RemoveWrappers(m) => m.exhausted,
            ShrinkMethod::SimplifyNoise(_) => false,
            ShrinkMethod::SimplifyNoiseParams(m) => m.exhausted,
        }
    }

    /// The same method with its exhaustion flag set to `flag` (methods
    /// without state stay as they are).
    pub open spec fn with_exhausted(self, flag: bool) -> ShrinkMethod {
        match self {
            ShrinkMethod::RemoveNamedReferences(_) => ShrinkMethod::RemoveNamedReferences(
                RemoveNamedReferences { exhausted: flag },
            ),
            ShrinkMethod::TakeSubtree(_) => ShrinkMethod::TakeSubtree(TakeSubtree { exhausted: flag }),
            ShrinkMethod::ReplaceWithConstant(_) => ShrinkMethod::ReplaceWithConstant(
                ReplaceWithConstant { exhausted: flag },
            ),
            ShrinkMethod::RemoveOperand(m) => ShrinkMethod::RemoveOperand(m),
            ShrinkMethod::RemoveWrappers(_) => ShrinkMethod::RemoveWrappers(
                RemoveWrappers { exhausted: flag },
            ),
            ShrinkMethod::SimplifyNoise(m) => ShrinkMethod::SimplifyNoise(m),
            ShrinkMethod::SimplifyNoiseParams(_) => ShrinkMethod::SimplifyNoiseParams(
                SimplifyNoiseParams { exhausted: flag },
            ),
        }
    }

    /// The number of candidates the method proposes for a tree.
    pub open spec fn candidate_count(self, d: DensityModel) -> nat {
        match self {
            ShrinkMethod::RemoveNamedReferences(_) => rnr_count(d),
            ShrinkMethod::TakeSubtree(_) => ts_count(d),
            ShrinkMethod::ReplaceWithConstant(_) => rc_count(d),
            ShrinkMethod::RemoveOperand(_) => 0,
            ShrinkMethod::RemoveWrappers(_) => rw_count(d),
            ShrinkMethod::SimplifyNoise(_) => 0,
            ShrinkMethod::SimplifyNoiseParams(_) => snp_count(d),
        }
    }

    /// The candidate number `k` the method proposes for a tree.
    pub open spec fn candidate(self, d: DensityModel, k: nat) -> DensityModel {
        match self {
            ShrinkMethod::RemoveNamedReferences(_) => rnr_strip(d, true),
            ShrinkMethod::TakeSubtree(_) => ts_result(d, k),
            ShrinkMethod::ReplaceWithConstant(_) => rc_at(d, k),
            ShrinkMethod::RemoveOperand(_) => d,
            ShrinkMethod::RemoveWrappers(_) => rw_at(d, k),
            ShrinkMethod::SimplifyNoise(_) => d,
            ShrinkMethod::SimplifyNoiseParams(_) => snp_at(d, k),
        }
    }

    /// The name of the method.
    pub open spec fn method_name(self) -> Seq<char> {
        match self {
            ShrinkMethod::RemoveNamedReferences(_) => "remove_named_references"@,
            ShrinkMethod::TakeSubtree(_) => "take_subtree"@,
            ShrinkMethod::ReplaceWithConstant(_) => "replace_with_constant"@,
            ShrinkMethod::RemoveOperand(_) => "remove_operand"@,
            ShrinkMethod::RemoveWrappers(_) => "remove_wrappers"@,
            ShrinkMethod::SimplifyNoise(_) => "simplify_noise"@,
            ShrinkMethod::SimplifyNoiseParams(_) => "simplify_noise_params"@,
        }
    }

    pub fn name(&self) -> (r: &'static str)
        ensures
            r@ == self.method_name(),
    {
        match self {
            ShrinkMethod::RemoveNamedReferences(m) => m.name(),
            ShrinkMethod::TakeSubtree(m) => m.name(),
            ShrinkMethod::ReplaceWithConstant(m) => m.name(),
            ShrinkMethod::RemoveOperand(m) => m.name(),
            ShrinkMethod::RemoveWrappers(m) => m.name(),
            ShrinkMethod::SimplifyNoise(m) => m.name(),
            ShrinkMethod::SimplifyNoiseParams(m) => m.name(),
        }
    }

    /// Whether the method has a candidate at strike `remaining_strikes`, and
    /// if not, how many strikes it used up. A struck-out method answers
    /// `(false, 0)`; one that finds no candidate is struck out and reports
    /// its candidate count. On success the strike is reported back, except
    /// by `ReplaceWithConstant`, which reports 0.
    pub fn can_shrink(&mut self, remaining_strikes: u32, source: &DensitySource) -> (r: (bool, u32))
        requires
            counts_fit(source_density(source@)),
        ensures
            old(self).is_exhausted() ==> r == (false, 0u32) && *final(self) == *old(self),
            !old(self).is_exhausted() && remaining_strikes < old(self).candidate_count(
                source_density(source@),
            ) ==> r == (
                true,
                if *old(self) is ReplaceWithConstant {
                    0u32
                } else {
                    remaining_strikes
                },
            ) && *final(self) == *old(self),
            !old(self).is_exhausted() && remaining_strikes >= old(self).candidate_count(
                source_density(source@),
            ) ==> r == (false, old(self).candidate_count(source_density(source@)) as u32)
                && *final(self) == old(self).with_exhausted(true),
    {
        match self {
            ShrinkMethod::RemoveNamedReferences(m) => m.can_shrink(remaining_strikes, source),
            ShrinkMethod::TakeSubtree(m) => m.can_shrink(remaining_strikes, source),
            ShrinkMethod::ReplaceWithConstant(m) => m.can_shrink(remaining_strikes, source),
            ShrinkMethod::RemoveOperand(m) => m.can_shrink(remaining_strikes, source),
            ShrinkMethod::RemoveWrappers(m) => m.can_shrink(remaining_strikes, source),
            ShrinkMethod::SimplifyNoise(m) => m.can_shrink(remaining_strikes, source),
            ShrinkMethod::SimplifyNoiseParams(m) => m.can_shrink(remaining_strikes, source),
        }
    }

    /// Builds candidate number `remaining_strikes`, keeping the sampling grid.
    pub fn perform_shrink(&mut self, remaining_strikes: u32, source: DensitySource) -> (r: DensitySource)
        requires
            counts_fit(source_density(source@)),
            remaining_strikes < old(self).candidate_count(source_density(source@)),
        ensures
            r@ == with_density(
                source@,
                old(self).candidate(source_density(source@), remaining_strikes as nat),
            ),
            *final(self) == *old(self),
    {
        match self {
            ShrinkMethod::RemoveNamedReferences(m) => m.perform_shrink(remaining_strikes, source),
            ShrinkMethod::TakeSubtree(m) => m.perform_shrink(remaining_strikes, source),
            ShrinkMethod::ReplaceWithConstant(m) => m.perform_shrink(remaining_strikes, source),
            ShrinkMethod::RemoveWrappers(m) => m.perform_shrink(remaining_strikes, source),
            ShrinkMethod::SimplifyNoiseParams(m) => m.perform_shrink(remaining_strikes, source),
            ShrinkMethod::RemoveOperand(_) | ShrinkMethod::SimplifyNoise(_) => source,
        }
    }

    /// Re-enables the method after it has been struck out.
    pub fn reenable(&mut self)
        ensures
            *final(self) == old(self).with_exhausted(false),
    {
        match self {
            ShrinkMethod::RemoveNamedReferences(m) => m.reenable(),
            ShrinkMethod::TakeSubtree(m) => m.reenable(),
            ShrinkMethod::ReplaceWithConstant(m) => m.reenable(),
            ShrinkMethod::RemoveOperand(m) => m.reenable(),
            ShrinkMethod::RemoveWrappers(m) => m.reenable(),
            ShrinkMethod::SimplifyNoise(m) => m.reenable(),
            ShrinkMethod::SimplifyNoiseParams(m) => m.reenable(),
        }
    }
}

/// The outcome of a pass over the shrink methods.
pub enum ScanOutcome {
    /// Method `index` has a candidate at strike `strike`; `methods` is the
    /// state of the methods at that point.
    Found { index: int, strike: nat, methods: Seq<ShrinkMethod> },
    /// No method had a candidate; `strikes` is what was left of the strike.
    Exhausted { strikes: nat, methods: Seq<ShrinkMethod> },
}

/// A pass over the methods from position `i` on, at strike `strikes`: a
/// struck-out method is skipped at no cost; a method with a candidate at the
/// strike ends the pass; any other method is struck out and its candidate
/// count is taken off the strike.
pub open spec fn scan(ms: Seq<ShrinkMethod>, d: DensityModel, strikes: nat, i: nat) -> ScanOutcome
    decreases ms.len() - i,
{
    if i >= ms.len() {
        ScanOutcome::Exhausted { strikes, methods: ms }
    } else if ms[i as int].is_exhausted() {
        scan(ms, d, strikes, i + 1)
    } else if strikes < ms[i as int].candidate_count(d) {
        ScanOutcome::Found { index: i as int, strike: strikes, methods: ms }
    } else {
        scan(
            ms.update(i as int, ms[i as int].with_exhausted(true)),
            d,
            (strikes - ms[i as int].candidate_count(d)) as nat,
            i + 1,
        )
    }
}

/// Every method re-enabled.
pub open spec fn reenable_all(ms: Seq<ShrinkMethod>) -> Seq<ShrinkMethod> {
    ms.map_values(|m: ShrinkMethod| m.with_exhausted(false))
}

/// The whole search of one call to `shrink`: a first pass, and when it finds
/// nothing, a second pass over the re-enabled methods with the strikes that
/// were left; when that finds nothing either, the methods end re-enabled.
pub open spec fn search(ms: Seq<ShrinkMethod>, d: DensityModel, strikes: nat) -> ScanOutcome {
    match scan(ms, d, strikes, 0) {
        ScanOutcome::Found { .. } => scan(ms, d, strikes, 0),
        ScanOutcome::Exhausted { strikes: left, methods } => match scan(
            reenable_all(methods),
            d,
            left,
            0,
        ) {
            ScanOutcome::Found { .. } => scan(reenable_all(methods), d, left, 0),
            ScanOutcome::Exhausted { strikes: rest, methods: after } => ScanOutcome::Exhausted {
                strikes: rest,
                methods: reenable_all(after),
            },
        },
    }
}

/// Whether no method is struck out.
pub open spec fn all_enabled(ms: Seq<ShrinkMethod>) -> bool {
    forall|k: int| 0 <= k < ms.len() ==> !(#[trigger] ms[k]).is_exhausted()
}

/// The candidate counts of the methods at positions `lo..hi`, added up.
pub open spec fn count_range(ms: Seq<ShrinkMethod>, d: DensityModel, lo: int, hi: int) -> nat
    decreases hi - lo,
{
    if lo >= hi {
        0
    } else {
        ms[lo].candidate_count(d) + count_range(ms, d, lo + 1, hi)
    }
}

/// Counting depends only on the methods in the range, not on their flags.
proof fn lemma_count_range_same(a: Seq<ShrinkMethod>, b: Seq<ShrinkMethod>, d: DensityModel, lo: int, hi: int)
    requires
        forall|k: int|
            lo <= k < hi ==> (#[trigger] a[k]).with_exhausted(false) == b[k].with_exhausted(false),
    ensures
        count_range(a, d, lo, hi) == count_range(b, d, lo, hi),
    decreases hi - lo,
{
    if lo < hi {
        assert(a[lo].with_exhausted(false) == b[lo].with_exhausted(false));
        assert(a[lo].candidate_count(d) == b[lo].candidate_count(d));
        lemma_count_range_same(a, b, d, lo + 1, hi);
    }
}

/// A pass over methods that are all enabled from position `i` on finds the
/// candidate that the strike indexes among their candidates, in order, and
/// otherwise uses up their whole count; only flags change on the way.
proof fn lemma_scan_enabled(ms: Seq<ShrinkMethod>, d: DensityModel, s: nat, i: nat)
    requires
        i <= ms.len(),
        forall|k: int| i <= k < ms.len() ==> !(#[trigger] ms[k]).is_exhausted(),
    ensures
        s < count_range(ms, d, i as int, ms.len() as int) ==> (scan(ms, d, s, i) matches
            ScanOutcome::Found { index, strike, methods } && i <= index < ms.len() && methods[index]
            == ms[index] && count_range(ms, d, i as int, index) + strike == s && strike
            < ms[index].candidate_count(d)),
        s >= count_range(ms, d, i as int, ms.len() as int) ==> (scan(ms, d, s, i) matches
            ScanOutcome::Exhausted { strikes, methods } && strikes == s - count_range(
            ms,
            d,
            i as int,
            ms.len() as int,
        ) && methods.len() == ms.len() && forall|k: int|
            0 <= k < ms.len() ==> (#[trigger] methods[k]).with_exhausted(false)
                == ms[k].with_exhausted(false)),
    decreases ms.len() - i,
{
    if i < ms.len() {
        let c = ms[i as int].candidate_count(d);
        assert(!ms[i as int].is_exhausted());
        if s >= c {
            let ms2 = ms.update(i as int, ms[i as int].with_exhausted(true));
            assert(ms[i as int].with_exhausted(true).with_exhausted(false) == ms[i as int].with_exhausted(
                false,
            ));
            assert forall|k: int| 0 <= k < ms.len() implies (#[trigger] ms2[k]).with_exhausted(false)
                == ms[k].with_exhausted(false) by {}
            assert forall|k: int| (i + 1) <= k < ms2.len() implies !(#[trigger] ms2[k]).is_exhausted() by {
                assert(ms2[k] == ms[k]);
            }
            lemma_count_range_same(ms2, ms, d, i + 1 as int, ms.len() as int);
            lemma_scan_enabled(ms2, d, (s - c) as nat, i + 1);
            match scan(ms2, d, (s - c) as nat, i + 1) {
                ScanOutcome::Found { index, strike, methods } => {
                    if (s - c) < count_range(ms2, d, i + 1 as int, ms.len() as int) {
                        lemma_count_range_same(ms2, ms, d, i + 1 as int, index);
                    }
                },
                ScanOutcome::Exhausted { .. } => {},
            }
        }
    }
}

/// A method that is not struck out is its own re-enabled form.
proof fn lemma_enabled_fixed(m: ShrinkMethod)
    requires
        !m.is_exhausted(),
    ensures
        m.with_exhausted(false) == m,
{
}

/// With every method enabled and `t` candidates in all, strike `s` selects
/// candidate number `s % t` of the methods' candidates taken in method order,
/// as long as `s < 2 * t`: past the last candidate the search wraps around
/// once. From `2 * t` strikes on nothing is found, and every method ends
/// enabled again.
pub proof fn lemma_search_enumerates(ms: Seq<ShrinkMethod>, d: DensityModel, s: nat)
    requires
        all_enabled(ms),
    ensures
        s < 2 * count_range(ms, d, 0, ms.len() as int) ==> (search(ms, d, s) matches
            ScanOutcome::Found { index, strike, methods } && 0 <= index < ms.len() && methods[index]
            == ms[index] && count_range(ms, d, 0, index) + strike == s % count_range(
            ms,
            d,
            0,
            ms.len() as int,
        ) && strike < ms[index].candidate_count(d)),
        s >= 2 * count_range(ms, d, 0, ms.len() as int) ==> (search(ms, d, s) matches
            ScanOutcome::Exhausted { methods, .. } && all_enabled(methods)),
{
    let t = count_range(ms, d, 0, ms.len() as int);
    lemma_scan_enabled(ms, d, s, 0);
    if s >= t {
        let first = scan(ms, d, s, 0);
        let m1 = first->Exhausted_methods;
        let again = reenable_all(m1);
        assert forall|k: int| 0 <= k < ms.len() implies again[k] == ms[k] by {
            lemma_enabled_fixed(ms[k]);
        }
        assert(again =~= ms);
        lemma_scan_enabled(ms, d, (s - t) as nat, 0);
        if s < 2 * t {
            assert((s - t) as nat == s % t) by (nonlinear_arith)
                requires
                    t <= s < 2 * t,
            ;
        } else {
            let second = scan(again, d, (s - t) as nat, 0);
            let after = reenable_all(second->Exhausted_methods);
            assert forall|k: int| 0 <= k < after.len() implies !(#[trigger] after[k]).is_exhausted() by {}
        }
    } else {
        assert(s == s % t) by (nonlinear_arith)
            requires
                s < t,
        ;
    }
}

/// A search that finds nothing leaves every method enabled again.
pub proof fn lemma_exhausted_search_reenables(ms: Seq<ShrinkMethod>, d: DensityModel, s: nat)
    ensures
        search(ms, d, s) matches ScanOutcome::Exhausted { methods, .. } ==> all_enabled(methods),
{
    match search(ms, d, s) {
        ScanOutcome::Exhausted { methods, .. } => {
            assert forall|k: int| 0 <= k < methods.len() implies !(#[trigger] methods[k]).is_exhausted() by {}
        },
        _ => {},
    }
}

/// Drives the shrink methods over a density source: each call to `shrink`
/// proposes the candidate selected by the current strike count; the caller
/// then reports whether the candidate still shows the bug.
pub struct Shrinker {
    initial: DensitySource,
    strikes: u32,
    last_shrink: Option<DensitySource>,
    shrink_methods: Vec<ShrinkMethod>,
    density_function_name: Option<String>,
}

/// Model of a shrinker.
pub struct ShrinkerModel {
    /// The current tree: the last candidate that still showed the bug.
    pub initial: SourceModel,
    /// How many candidates to skip.
    pub strikes: u32,
    /// The candidate proposed and not yet judged.
    pub last_shrink: Option<SourceModel>,
    pub methods: Seq<ShrinkMethod>,
    pub density_function_name: Option<Seq<char>>,
}

impl View for Shrinker {
    type V = ShrinkerModel;

    closed spec fn view(&self) -> ShrinkerModel {
        ShrinkerModel {
            initial: self.initial@,
            strikes: self.strikes,
            last_shrink: match self.last_shrink {
                Some(s) => Some(s@),
                None => None,
            },
            methods: self.shrink_methods@,
            density_function_name: match self.density_function_name {
                Some(n) => Some(n@),
                None => None,
            },
        }
    }
}

/// The methods a new shrinker starts with, in the order they are tried.
pub open spec fn initial_methods() -> Seq<ShrinkMethod> {
    seq![
        ShrinkMethod::RemoveNamedReferences(RemoveNamedReferences { exhausted: false }),
        ShrinkMethod::TakeSubtree(TakeSubtree { exhausted: false }),
        ShrinkMethod::ReplaceWithConstant(ReplaceWithConstant { exhausted: false }),
        ShrinkMethod::RemoveOperand(RemoveOperand),
        ShrinkMethod::RemoveWrappers(RemoveWrappers { exhausted: false }),
        ShrinkMethod::SimplifyNoise(SimplifyNoise),
        ShrinkMethod::SimplifyNoiseParams(SimplifyNoiseParams { exhausted: false }),
    ]
}

impl Shrinker {
    pub fn new(initial: DensitySource) -> (r: Shrinker)
        ensures
            r@.initial == initial@,
            r@.strikes == 0,
            r@.last_shrink is None,
            r@.methods == initial_methods(),
            r@.density_function_name is None,
    {
        let mut shrink_methods: Vec<ShrinkMethod> = Vec::new();
        shrink_methods.push(
            ShrinkMethod::RemoveNamedReferences(RemoveNamedReferences { exhausted: false }),
        );
        shrink_methods.push(ShrinkMethod::TakeSubtree(TakeSubtree { exhausted: false }));
        shrink_methods.push(
            ShrinkMethod::ReplaceWithConstant(ReplaceWithConstant { exhausted: false }),
        );
        shrink_methods.push(ShrinkMethod::RemoveOperand(RemoveOperand));
        shrink_methods.push(ShrinkMethod::RemoveWrappers(RemoveWrappers { exhausted: false }));
        shrink_methods.push(ShrinkMethod::SimplifyNoise(SimplifyNoise));
        shrink_methods.push(
            ShrinkMethod::SimplifyNoiseParams(SimplifyNoiseParams { exhausted: false }),
        );
        assert(shrink_methods@ =~= initial_methods());
        Shrinker {
            initial,
            strikes: 0,
            last_shrink: None,
            shrink_methods,
            density_function_name: None,
        }
    }

    pub fn set_density_function_name(&mut self, name: String)
        ensures
            final(self)@.density_function_name == Some(name@),
            final(self)@.initial == old(self)@.initial,
            final(self)@.strikes == old(self)@.strikes,
            final(self)@.last_shrink == old(self)@.last_shrink,
            final(self)@.methods == old(self)@.methods,
    {
        self.density_function_name = Some(name);
    }

    /// One pass over the methods at strike `strikes` (see `scan`). Returns
    /// the candidate found, if any, and what is left of the strike.
    fn scan_methods(&mut self, strikes: u32) -> (r: (Option<DensitySource>, u32))
        requires
            counts_fit(source_density(old(self)@.initial)),
        ensures
            final(self)@.initial == old(self)@.initial,
            final(self)@.strikes == old(self)@.strikes,
            final(self)@.last_shrink == old(self)@.last_shrink,
            final(self)@.density_function_name == old(self)@.density_function_name,
            match scan(old(self)@.methods, source_density(old(self)@.initial), strikes as nat, 0) {
                ScanOutcome::Found { index, strike, methods } => {
                    &&& r.0 matches Some(shrunk) && shrunk@ == with_density(
                        old(self)@.initial,
                        methods[index].candidate(source_density(old(self)@.initial), strike),
                    )
                    &&& final(self)@.methods == methods
                },
                ScanOutcome::Exhausted { strikes: left, methods } => {
                    &&& r.0 is None
                    &&& r.1 == left
                    &&& final(self)@.methods == methods
                },
            },
    {
        let ghost d = source_density(self.initial@);
        let ghost goal = scan(self.shrink_methods@, d, strikes as nat, 0);
        let mut remaining = strikes;
        let mut i: usize = 0;
        while i < self.shrink_methods.len()
            invariant
                i <= self.shrink_methods.len(),
                self.initial == old(self).initial,
                self.strikes == old(self).strikes,
                self.last_shrink == old(self).last_shrink,
                self.density_function_name == old(self).density_function_name,
                d == source_density(self.initial@),
                counts_fit(d),
                goal == scan(old(self).shrink_methods@, d, strikes as nat, 0),
                scan(self.shrink_methods@, d, remaining as nat, i as nat) == goal,
            decreases self.shrink_methods.len() - i,
        {
            let ghost ms = self.shrink_methods@;
            let ghost s0 = remaining;
            let mut m = self.shrink_methods[i];
            assert(m == ms[i as int]);
            let (can, used) = m.can_shrink(remaining, &self.initial);
            if can {
                assert(scan(ms, d, s0 as nat, i as nat) == ScanOutcome::Found {
                    index: i as int,
                    strike: s0 as nat,
                    methods: ms,
                });
                let shrunk = m.perform_shrink(remaining, self.initial.deep_clone());
                return (Some(shrunk), remaining);
            }
            remaining = remaining - used;
            self.shrink_methods.set(i, m);
            proof {
                if ms[i as int].is_exhausted() {
                    assert(ms.update(i as int, m) =~= ms);
                    assert(scan(ms, d, s0 as nat, i as nat) == scan(ms, d, s0 as nat, (i + 1) as nat));
                } else {
                    assert(scan(ms, d, s0 as nat, i as nat) == scan(
                        ms.update(i as int, ms[i as int].with_exhausted(true)),
                        d,
                        (s0 - ms[i as int].candidate_count(d)) as nat,
                        (i + 1) as nat,
                    ));
                }
            }
            i = i + 1;
        }
        (None, remaining)
    }

    /// Re-enables every method.
    fn reenable_methods(&mut self)
        ensures
            final(self)@.methods == reenable_all(old(self)@.methods),
            final(self)@.initial == old(self)@.initial,
            final(self)@.strikes == old(self)@.strikes,
            final(self)@.last_shrink == old(self)@.last_shrink,
            final(self)@.density_function_name == old(self)@.density_function_name,
    {
        let ghost start = self.shrink_methods@;
        let mut i: usize = 0;
        while i < self.shrink_methods.len()
            invariant
                i <= self.shrink_methods.len(),
                self.shrink_methods@.len() == start.len(),
                start == old(self).shrink_methods@,
                self.initial == old(self).initial,
                self.strikes == old(self).strikes,
                self.last_shrink == old(self).last_shrink,
                self.density_function_name == old(self).density_function_name,
                forall|k: int|
                    0 <= k < i ==> #[trigger] self.shrink_methods@[k] == start[k].with_exhausted(false),
                forall|k: int| i <= k < start.len() ==> #[trigger] self.shrink_methods@[k] == start[k],
            decreases self.shrink_methods.len() - i,
        {
            let mut m = self.shrink_methods[i];
            m.reenable();
            self.shrink_methods.set(i, m);
            i = i + 1;
        }
        assert(self.shrink_methods@ =~= reenable_all(start));
    }

    /// Proposes the next candidate: tries the methods in order, starting
    /// after the candidates already struck out; when the methods run out it
    /// re-enables them and tries once more with the strikes left. Returns
    /// `None` when that second pass finds nothing either. The candidate is
    /// kept until it is judged.
    pub fn shrink(&mut self) -> (r: Option<DensitySource>)
        requires
            old(self)@.last_shrink is None,
            counts_fit(source_density(old(self)@.initial)),
        ensures
            final(self)@.initial == old(self)@.initial,
            final(self)@.strikes == old(self)@.strikes,
            final(self)@.density_function_name == old(self)@.density_function_name,
            match search(
                old(self)@.methods,
                source_density(old(self)@.initial),
                old(self)@.strikes as nat,
            ) {
                ScanOutcome::Found { index, strike, methods } => {
                    &&& r matches Some(shrunk) && shrunk@ == with_density(
                        old(self)@.initial,
                        methods[index].candidate(source_density(old(self)@.initial), strike),
                    ) && final(self)@.last_shrink == Some(shrunk@)
                    &&& final(self)@.methods == methods
                },
                ScanOutcome::Exhausted { methods, .. } => {
                    &&& r is None
                    &&& final(self)@.last_shrink is None
                    &&& final(self)@.methods == methods
                },
            },
    {
        let strikes = self.strikes;
        let (found, left) = self.scan_methods(strikes);
        if let Some(shrunk) = found {
            self.last_shrink = Some(shrunk.deep_clone());
            return Some(shrunk);
        }
        self.reenable_methods();
        let (found, _) = self.scan_methods(left);
        if let Some(shrunk) = found {
            self.last_shrink = Some(shrunk.deep_clone());
            return Some(shrunk);
        }
        self.reenable_methods();
        None
    }

    /// The last candidate no longer shows the bug: go back to the current
    /// tree and skip one more candidate next time.
    pub fn mark_last_shrink_successful(&mut self)
        requires
            old(self)@.strikes < u32::MAX,
            old(self)@.last_shrink is Some,
        ensures
            final(self)@.strikes == old(self)@.strikes + 1,
            final(self)@.last_shrink is None,
            final(self)@.initial == old(self)@.initial,
            final(self)@.methods == old(self)@.methods,
            final(self)@.density_function_name == old(self)@.density_function_name,
    {
        self.strikes = self.strikes + 1;
        self.last_shrink = None;
    }

    /// The last candidate still shows the bug: it becomes the current tree,
    /// and the strikes start again from zero.
    pub fn mark_last_shrink_buggy(&mut self)
        requires
            old(self)@.last_shrink is Some,
        ensures
            final(self)@.strikes == 0,
            old(self)@.last_shrink == Some(final(self)@.initial),
            final(self)@.last_shrink is None,
            final(self)@.methods == old(self)@.methods,
            final(self)@.density_function_name == old(self)@.density_function_name,
    {
        self.strikes = 0;
        let last = self.last_shrink.take();
        match last {
            Some(source) => {
                self.initial = source;
            },
            None => {},
        }
    }

    /// How many candidates to skip next time.
    pub fn strikes(&self) -> (r: u32)
        ensures
            r == self@.strikes,
    {
        self.strikes
    }

    /// Whether the current tree has at most `u32::MAX` density nodes, so
    /// that its candidate counts fit the counters.
    pub fn fits_counters(&self) -> (r: bool)
        ensures
            r == (density_size(source_density(self@.initial)) <= u32::MAX),
            r ==> counts_fit(source_density(self@.initial)),
    {
        counts_fit_check(&self.initial)
    }

    /// The current tree.
    pub fn finish(self) -> (r: DensitySource)
        ensures
            r@ == self@.initial,
    {
        self.initial
    }
}

} // verus!
