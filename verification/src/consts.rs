//! Fixed-point constants, derived offline from their real-valued definitions.

use crate::repr::BaseRepr;
use vstd::prelude::*;

verus! {

/// The word of tau (one rotation in radians, ~6.283) at offset 3: tau needs
/// three integer bits, so the word is tau scaled by `2^61`.
pub const TAU_WORD: u64 = 0xC90F_DAA2_2168_C234;

/// The word of 360 (degrees per rotation) at offset 9: 360 needs nine
/// integer bits, so the word is 360 scaled by `2^55`.
pub const DEGREES_WORD: u64 = 0xB400_0000_0000_0000;

/// Tau in fixed-point form, for turning rotation fractions into radians.
pub fn tau() -> (r: BaseRepr<3>)
    ensures
        r.0 == TAU_WORD,
{
    BaseRepr::new(TAU_WORD)
}

/// 360 in fixed-point form, for turning rotation fractions into degrees.
pub fn degrees() -> (r: BaseRepr<9>)
    ensures
        r.0 == DEGREES_WORD,
{
    BaseRepr::new(DEGREES_WORD)
}

} // verus!
