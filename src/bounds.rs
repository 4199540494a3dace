//! A value kept inside a closed range.
use vstd::prelude::*;

verus! {

/// A value with the lower and upper bound it is to be kept within.
#[derive(Clone, Copy, Debug, PartialEq, Eq, Structural)]
pub struct BoundedValue {
    pub value: i64,
    pub lower: i64,
    pub upper: i64,
}

/// `v` clamped to `upper` from above first, then to `lower` from below.
pub open spec fn clamped(v: int, lower: int, upper: int) -> int {
    if v > upper {
        upper
    } else if v < lower {
        lower
    } else {
        v
    }
}

impl BoundedValue {
    /// Moves the value to the bound it lies beyond, if any. Returns whether
    /// it was already in `[lower, upper]`.
    pub fn maintain_bounds(&mut self) -> (r: bool)
        ensures
            r == (old(self).lower <= old(self).value <= old(self).upper),
            final(self).value == clamped(
                old(self).value as int,
                old(self).lower as int,
                old(self).upper as int,
            ),
            final(self).lower == old(self).lower,
            final(self).upper == old(self).upper,
            old(self).lower <= old(self).upper ==> final(self).lower <= final(self).value
                <= final(self).upper,
    {
        if self.value > self.upper {
            self.value = self.upper;
            false
        } else if self.value < self.lower {
            self.value = self.lower;
            false
        } else {
            true
        }
    }
}

} // verus!
