//! The public angle value: a 64-bit fraction of one full rotation.
//!
//! Floating-point values cross this API as raw IEEE-754 double bit
//! patterns held in `u64`, so every conversion here is a deterministic
//! function of bits.

use crate::consts::degrees;
use crate::consts::tau;
use crate::consts::DEGREES_WORD;
use crate::consts::TAU_WORD;
use crate::repr::fixed_word;
use crate::repr::float_encoding;
use crate::repr::float_is_normal;
use crate::repr::float_is_zero;
use crate::repr::word_span;
use crate::repr::Repr;
use crate::trig;
use crate::trig::sin_float_bits;
use vstd::prelude::*;

verus! {

/// The word of radians corresponding to a rotation-fraction word: the
/// product with tau, truncated onto tau's scale of `[0, 8)`.
pub open spec fn radians_word(w: u64) -> u64 {
    ((TAU_WORD as nat * w as nat) / word_span()) as u64
}

/// The word of degrees corresponding to a rotation-fraction word: the
/// product with 360, truncated onto the scale of `[0, 512)`.
pub open spec fn degrees_word(w: u64) -> u64 {
    ((DEGREES_WORD as nat * w as nat) / word_span()) as u64
}

/// An angle, stored as a fraction of a full rotation in `[0, 1)` filling the
/// whole 64-bit word. The most significant bit marks the half-turn, so it
/// doubles as the sign of the angle's sine.
#[derive(Debug, Clone, Copy, PartialEq, Eq, Hash)]
pub struct Angle(pub Repr);

impl Angle {
    /// Build an angle from the representational format: a fractional number
    /// of rotations in `[0, 1)` filling the full space of a `u64`.
    pub fn from_repr(repr: u64) -> (a: Self)
        ensures
            a.0.0 == repr,
    {
        Self(Repr::new(repr))
    }

    /// Build an angle from the IEEE-754 bit pattern of a fractional number
    /// of rotations. Fails exactly when the pattern is neither zero nor a
    /// normal finite number; a value outside `[0, 1)` wraps modularly, the
    /// encoding of periodicity.
    pub fn from_rotations(rotations: u64) -> (a: Option<Self>)
        ensures
            a is Some <==> float_is_zero(rotations) || float_is_normal(rotations),
            float_is_zero(rotations) ==> (a matches Some(v) && v.0.0 == 0),
            float_is_normal(rotations) ==> (a matches Some(v) && v.0.0 as nat == fixed_word(
                rotations,
                0,
            )),
    {
        match Repr::from_float(rotations) {
            Some(r) => Some(Self(r)),
            None => None,
        }
    }

    /// The lossless representation of this angle as an unsigned integer.
    /// Persisting it reproduces the exact angle, bypassing any float
    /// round-trip error.
    pub fn repr(self) -> (r: u64)
        ensures
            r == self.0.0,
    {
        self.0.0
    }

    /// The IEEE-754 bit pattern of this angle as a fraction of a rotation.
    pub fn as_rotations(self) -> (r: u64)
        ensures
            r == float_encoding(self.0.0, 0),
    {
        self.0.as_float()
    }

    /// The IEEE-754 bit pattern of this angle in radians: the rotation
    /// fraction times tau.
    pub fn as_radians(self) -> (r: u64)
        ensures
            r == float_encoding(radians_word(self.0.0), 3),
    {
        tau().mul(self.0).as_float()
    }

    /// The IEEE-754 bit pattern of this angle in degrees: the rotation
    /// fraction times 360.
    pub fn as_degrees(self) -> (r: u64)
        ensures
            r == float_encoding(degrees_word(self.0.0), 9),
    {
        degrees().mul(self.0).as_float()
    }

    /// The IEEE-754 bit pattern of the sine of this angle.
    pub fn sin(self) -> (r: u64)
        ensures
            r == sin_float_bits(self.0.0),
    {
        trig::sin(self.repr()).as_float()
    }

    /// The IEEE-754 bit pattern of the cosine of this angle, computed as
    /// the sine a quarter turn further on: `cos(x) == sin(x + 1/4)`, with
    /// the modular add handling the boundary crossing for free.
    pub fn cos(self) -> (r: u64)
        ensures
            r == sin_float_bits(trig::turn_add(self.0.0, 0x4000_0000_0000_0000)),
    {
        let quarter: u64 = 0x4000_0000_0000_0000;
        trig::sin(self.repr().wrapping_add(quarter)).as_float()
    }
}

} // verus!
