//! Single-precision numbers, held by their bits.
//!
//! The IEEE-754 order makes the comparisons that the library needs comparisons
//! of the bits: a positive finite number has bits between those of zero and of
//! infinity, and a number between zero and one has bits between those of the two.

use vstd::prelude::*;

verus! {

/// The bits of positive infinity.
pub const INFINITY_BITS: u32 = 0x7F80_0000;

/// The bits of one.
pub const ONE_BITS: u32 = 0x3F80_0000;

/// A single-precision number: its bits, and the text it is shown by.
#[derive(Debug, PartialEq, Eq)]
pub struct Real {
    pub bits: u32,
    pub shown: String,
}

impl Clone for Real {
    fn clone(&self) -> (r: Self)
        ensures
            r == *self,
    {
        Real { bits: self.bits, shown: self.shown.clone() }
    }
}

impl Real {
    /// The number is positive and finite.
    pub open spec fn is_positive_finite(self) -> bool {
        0 < self.bits < INFINITY_BITS
    }

    /// The number lies strictly between zero and one.
    pub open spec fn is_proper_fraction(self) -> bool {
        0 < self.bits < ONE_BITS
    }

    /// Whether the number is positive and finite.
    pub fn positive_finite(&self) -> (r: bool)
        ensures
            r == self.is_positive_finite(),
    {
        0 < self.bits && self.bits < INFINITY_BITS
    }

    /// Whether the number lies strictly between zero and one.
    pub fn proper_fraction(&self) -> (r: bool)
        ensures
            r == self.is_proper_fraction(),
    {
        0 < self.bits && self.bits < ONE_BITS
    }
}

/// A number is positive and finite exactly where its sign bit is clear, it is not zero,
/// and its exponent is not the one of infinity and of what is no number.
pub proof fn lemma_what_is_positive_and_finite(r: Real)
    ensures
        r.is_positive_finite() <==> r.bits != 0 && r.bits < 0x8000_0000 && r.bits / 0x80_0000
            != 255,
        r.bits == 0 || r.bits >= 0x7F80_0000 ==> !r.is_positive_finite(),
{
}

/// A share is a positive finite number below one: one itself is none, and whatever lies
/// between zero and a share is one.
pub proof fn lemma_what_is_a_share(r: Real, smaller: Real)
    ensures
        r.is_proper_fraction() <==> r.is_positive_finite() && r.bits < 0x3F80_0000,
        r.bits == 0x3F80_0000 || r.bits == 0 ==> !r.is_proper_fraction(),
        r.is_proper_fraction() && 0 < smaller.bits <= r.bits ==> smaller.is_proper_fraction(),
{
}

} // verus!
