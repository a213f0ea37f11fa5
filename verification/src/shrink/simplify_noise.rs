use vstd::prelude::*;
use crate::density::DensitySource;

verus! {

/// Replaces a noise-based density function with a cheaper approximation.
/// It proposes no candidate yet: it never shrinks, and a strike costs it
/// nothing.
#[derive(Clone, Copy, Debug, PartialEq, Eq, Structural)]
pub struct SimplifyNoise;

impl SimplifyNoise {
    pub fn name(&self) -> (r: &'static str)
        ensures
            r@ == "simplify_noise"@,
    {
        "simplify_noise"
    }

    /// Never available, and uses no strike.
    pub fn can_shrink(&mut self, remaining_strikes: u32, source: &DensitySource) -> (r: (bool, u32))
        ensures
            r == (false, 0u32),
            *final(self) == *old(self),
    {
        (false, 0)
    }

    /// Nothing to re-enable: the method has no state.
    pub fn reenable(&mut self)
        ensures
            *final(self) == *old(self),
    {
    }
}

} // verus!
