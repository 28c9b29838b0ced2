//! Polarity carried beside an unsigned fixed-point magnitude.

use vstd::prelude::*;

verus! {

/// The sign of a value whose magnitude is stored separately. The fixed-point
/// magnitude format is unsigned, so evaluation carries the sign extracted
/// from the raw representation alongside it.
#[derive(Debug, Clone, Copy, PartialEq, Eq, Structural)]
pub enum Sign {
    Positive,
    Negative,
}

impl Sign {
    /// Decode a sign bit: a set bit means negative.
    pub fn from_bit(bit: bool) -> (s: Self)
        ensures
            s == (if bit {
                Sign::Negative
            } else {
                Sign::Positive
            }),
    {
        match bit {
            false => Sign::Positive,
            true => Sign::Negative,
        }
    }
}

} // verus!
