use vstd::prelude::*;

verus! {

/// Cyclic progress indicator state.
///
/// The counter's value always stays in the half-open range `[lo, hi)`.
/// Every poll tick advances it by one, wrapping back to `lo` once it
/// reaches `hi - 1`; it carries no relation to actual request completion.
pub struct ProgressCounter {
    pub value: u8,
    pub lo: u8,
    pub hi: u8,
}

impl ProgressCounter {
    /// The counter's bounds are sane and its value lies inside them.
    pub open spec fn wf(&self) -> bool {
        self.lo < self.hi && self.lo <= self.value < self.hi
    }

    /// The value one tick later: one more, wrapping to `lo` at `hi - 1`.
    pub open spec fn spec_next(&self) -> u8 {
        if self.value == self.hi - 1 {
            self.lo
        } else {
            (self.value + 1) as u8
        }
    }

    pub fn new(lo: u8, hi: u8) -> (c: Self)
        requires
            lo < hi,
        ensures
            c.wf(),
            c.lo == lo,
            c.hi == hi,
            c.value == lo,
    {
        ProgressCounter { value: lo, lo, hi }
    }

    /// Advance the counter by one poll tick.
    pub fn tick(&mut self)
        requires
            old(self).wf(),
        ensures
            final(self).wf(),
            final(self).lo == old(self).lo,
            final(self).hi == old(self).hi,
            final(self).value == old(self).spec_next(),
    {
        if self.value == self.hi - 1 {
            self.value = self.lo;
        } else {
            self.value = self.value + 1;
        }
    }

    /// Drop the counter back to its minimum.
    pub fn reset(&mut self)
        requires
            old(self).wf(),
        ensures
            final(self).wf(),
            final(self).lo == old(self).lo,
            final(self).hi == old(self).hi,
            final(self).value == old(self).lo,
    {
        self.value = self.lo;
    }
}

} // verus!
