//! Rates and factors by their binary64 encoding.

use vstd::prelude::*;

verus! {

/// A double-precision number, held as its IEEE 754 bit pattern. The library
/// carries, stores and classifies such numbers; arithmetic on them is done by
/// the functions its callers hand in.
#[derive(Clone, Copy, Debug, PartialEq, Eq, Structural, Hash)]
pub struct Binary64 {
    pub bits: u64,
}

/// The bit pattern of positive infinity: the patterns strictly between zero
/// and this one are the positive finite numbers.
pub const INFINITY_BITS: u64 = 0x7FF0_0000_0000_0000;

impl View for Binary64 {
    type V = Binary64;

    open spec fn view(&self) -> Binary64 {
        *self
    }
}

impl Binary64 {
    /// The number is finite and greater than zero.
    pub open spec fn positive_finite(self) -> bool {
        0 < self.bits < INFINITY_BITS
    }

    pub fn is_positive_finite(self) -> (positive: bool)
        ensures
            positive == self.positive_finite(),
    {
        0 < self.bits && self.bits < INFINITY_BITS
    }
}

impl Default for Binary64 {
    /// Zero.
    fn default() -> (zero: Self)
        ensures
            zero.bits == 0,
    {
        Binary64 { bits: 0 }
    }
}

} // verus!
