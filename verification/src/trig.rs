//! The sine evaluator: table lookup plus a first-order correction.
//!
//! The identity behind the correction: `sin(A + b) == sin(A)cos(b) +
//! cos(A)sin(b)`. The residual `b` is at most a thousandth of a turn, so
//! `sin(b)` is taken as `b` (in radians) and `cos(b)` as 1, giving
//! `sin(A + b) ~= sin(A) + b * cos(A)`, where `cos(A) == sin(quarter - A)`
//! comes from the same table through a mirrored index.

use crate::consts::tau;
use crate::consts::TAU_WORD;
use crate::repr::float_encoding;
use crate::repr::word_span;
use crate::repr::BaseRepr;
use crate::repr::Repr;
use crate::sign::Sign;
use crate::table::CURVE;
use vstd::arithmetic::div_mod::lemma_div_is_ordered;
use vstd::arithmetic::div_mod::lemma_fundamental_div_mod_converse;
use vstd::arithmetic::div_mod::lemma_small_mod;
use vstd::arithmetic::mul::lemma_mul_upper_bound;
use vstd::arithmetic::power2::lemma2_to64;
use vstd::arithmetic::power2::lemma2_to64_rest;
use vstd::arithmetic::power2::lemma_pow2_adds;
use vstd::arithmetic::power2::pow2;
use vstd::bits::lemma_u64_low_bits_mask_is_mod;
use vstd::bits::lemma_u64_shr_is_div;
use vstd::prelude::*;

verus! {

/// The magnitude of an evaluated sine. The fixed-point fraction spans only
/// `[0, 1)`, so an exact result of 1 (sine of a quarter turn) needs its own
/// sentinel.
#[derive(Debug, Clone, Copy)]
pub enum Output {
    One,
    Fraction(Repr),
}

/// A sine magnitude together with the sign extracted from the raw angle.
#[derive(Debug, Clone, Copy)]
pub struct SignedOutput {
    pub sign: Sign,
    pub value: Output,
}

/// The word computed for the sine of `repr`, a fraction of a quarter turn
/// below `2^62`: the table entry for the coarse zone, corrected by the
/// radians-scaled residual times the mirrored (cosine) entry, clamped so
/// the correction never overshoots past 1. A zone of zero degenerates to
/// the residual itself, since there `sin(A) == 0` and `cos(A) == 1`.
pub open spec fn quarter_sin_word(repr: u64) -> nat {
    let zone = repr as nat / pow2(54);
    let eps = repr as nat % pow2(54);
    let eps_radians = (TAU_WORD as nat * eps) / pow2(61);
    if zone == 0 {
        eps_radians
    } else {
        let sin_a = CURVE[zone as int] as nat;
        let cos_a = CURVE[256 - zone as int] as nat;
        let correction = (cos_a * eps_radians) / word_span();
        if sin_a + correction <= u64::MAX as nat {
            sin_a + correction
        } else {
            u64::MAX as nat
        }
    }
}

/// Modular addition of turn fractions: a sum past one full rotation wraps
/// away, the encoding of angular periodicity.
pub open spec fn turn_add(w: u64, offset: u64) -> u64 {
    (((w + offset) % 0x1_0000_0000_0000_0000) as u64)
}

/// The 63 low bits of a full-turn word: the magnitude within one half
/// turn, once the sign (half-turn) bit is stripped.
pub open spec fn half_turn_word(repr: u64) -> u64 {
    (repr as nat % pow2(63)) as u64
}

/// A full-turn word whose sine is exactly 1: the magnitude sits exactly on
/// the quarter turn, the one point the fraction format cannot represent.
pub open spec fn sin_is_one(repr: u64) -> bool {
    half_turn_word(repr) == 0x4000_0000_0000_0000
}

/// The half-turn magnitude folded into the first quarter turn:
/// `sin(half - x) == sin(x)` reflects everything above the quarter-turn
/// threshold back below it.
pub open spec fn folded_quarter_word(repr: u64) -> u64 {
    let h = half_turn_word(repr);
    if h < 0x4000_0000_0000_0000 {
        h
    } else {
        (0x8000_0000_0000_0000 - h) as u64
    }
}

/// The sign of the sine of a full-turn word: negative on the upper half
/// turn, where the top bit is set.
pub open spec fn sin_sign(repr: u64) -> Sign {
    if repr >= 0x8000_0000_0000_0000 {
        Sign::Negative
    } else {
        Sign::Positive
    }
}

/// The sine magnitude of a full-turn word: the exact-1 sentinel on the
/// quarter turn, otherwise the table-corrected fraction of the folded
/// magnitude.
pub open spec fn sin_output(repr: u64) -> Output {
    if sin_is_one(repr) {
        Output::One
    } else {
        Output::Fraction(BaseRepr::<0>(quarter_sin_word(folded_quarter_word(repr)) as u64))
    }
}

/// The IEEE-754 double bit pattern of a sine magnitude: exactly 1.0 for
/// the sentinel, else the encoded fraction. Always below the sign bit.
pub open spec fn output_float_bits(value: Output) -> u64 {
    match value {
        Output::One => 0x3FF0_0000_0000_0000u64,
        Output::Fraction(f) => float_encoding(f.0, 0),
    }
}

/// The IEEE-754 double bit pattern of a signed sine result: the magnitude
/// pattern, with the sign bit set when the sign is negative. Negating a
/// double is exactly setting its sign bit, so a negative zero magnitude
/// encodes -0.0.
pub open spec fn signed_float_bits(s: SignedOutput) -> u64 {
    match s.sign {
        Sign::Positive => output_float_bits(s.value),
        Sign::Negative => (output_float_bits(s.value) + 0x8000_0000_0000_0000) as u64,
    }
}

/// The bit pattern of the sine of a full-turn word: the whole pipeline,
/// sign and magnitude reassembled.
pub open spec fn sin_float_bits(repr: u64) -> u64 {
    signed_float_bits(SignedOutput { sign: sin_sign(repr), value: sin_output(repr) })
}

/// Sine is odd around the half turn: moving any angle by half a rotation
/// flips exactly the sign bit of its sine's bit pattern, leaving the
/// magnitude untouched. (Flipping the sign bit is float negation, so this
/// says `sin(x + half) == -sin(x)`, with -0.0 for a zero magnitude.)
pub proof fn lemma_sin_half_turn_negates(x: u64)
    ensures
        sin_float_bits(turn_add(x, 0x8000_0000_0000_0000)) == sin_float_bits(x)
            ^ 0x8000_0000_0000_0000,
{
    lemma2_to64_rest();
    let y: u64 = turn_add(x, 0x8000_0000_0000_0000);
    // Adding the half turn modularly is flipping the top bit.
    assert(((x + 0x8000_0000_0000_0000) % 0x1_0000_0000_0000_0000) as u64 == x
        ^ 0x8000_0000_0000_0000) by (bit_vector);
    let z: u64 = x ^ 0x8000_0000_0000_0000;
    assert(z & 0x7FFF_FFFF_FFFF_FFFF == x & 0x7FFF_FFFF_FFFF_FFFF) by (bit_vector)
        requires
            z == x ^ 0x8000_0000_0000_0000,
    ;
    assert((z >= 0x8000_0000_0000_0000) <==> !(x >= 0x8000_0000_0000_0000)) by (bit_vector)
        requires
            z == x ^ 0x8000_0000_0000_0000,
    ;
    // Same low 63 bits: the half-turn magnitude, and with it the whole
    // magnitude pipeline, is unchanged.
    lemma_u64_low_bits_mask_is_mod(z, 63);
    lemma_u64_low_bits_mask_is_mod(x, 63);
    assert(half_turn_word(y) == half_turn_word(x));
    assert(sin_output(y) == sin_output(x));
    // The magnitude pattern stays below the sign bit, so setting that bit
    // is addition, and flipping it twice returns the original.
    let v: u64 = output_float_bits(sin_output(x));
    match sin_output(x) {
        Output::One => {
        },
        Output::Fraction(f) => {
            crate::repr::lemma_float_encoding_in_range(f.0, 0);
        },
    }
    assert((v + 0x8000_0000_0000_0000) as u64 == v ^ 0x8000_0000_0000_0000) by (bit_vector)
        requires
            v < 0x8000_0000_0000_0000,
    ;
    assert((v ^ 0x8000_0000_0000_0000) ^ 0x8000_0000_0000_0000 == v) by (bit_vector);
}

/// Look up a sine value in the table, where `repr` indexes multiples of
/// 1/1024 of a turn within `[0, 1/4)` turns. This can never return 1: the
/// largest input falls just short of the quarter turn.
pub fn sin_exact(repr: u8) -> (r: Repr)
    ensures
        r.0 == CURVE[repr as int],
{
    Repr::new(CURVE[repr as usize])
}

/// Sine of `repr`, a fraction of a turn in `[0, 1/4)` turns: split into a
/// coarse table zone and a residual, then corrected to first order.
pub fn quarter_sin(repr: u64) -> (r: Repr)
    requires
        repr < 0x4000_0000_0000_0000,
    ensures
        r.0 as nat == quarter_sin_word(repr),
{
    proof {
        lemma2_to64();
        lemma2_to64_rest();
        lemma_u64_shr_is_div(repr, 54);
        // The zone fits in 8 bits: repr / 2^54 < 2^62 / 2^54.
        lemma_div_is_ordered(repr as int, 0x3FFF_FFFF_FFFF_FFFF, pow2(54) as int);
        lemma_fundamental_div_mod_converse(0x3FFF_FFFF_FFFF_FFFF, pow2(54) as int, 0xFF, (pow2(
            54,
        ) - 1) as int);
        lemma_u64_low_bits_mask_is_mod(repr, 54);
    }
    // The coarse angle: the top bits of the quarter-turn range.
    let zone: u16 = (repr >> 54) as u16;
    // The residual: everything below the zone, still a fraction of a turn.
    let epsilon: Repr = Repr::new(repr & 0x003F_FFFF_FFFF_FFFF);
    // The residual rescaled to radians for use as a product term. It stays
    // well below 1: a residual under 2^-10 of a turn is under 2^-7 radians.
    let epsilon_radians: Repr = tau().mul0(epsilon);
    proof {
        // tau * eps / 2^61 < 2^57, so the modular reduction in mul0 does
        // nothing and the product later cannot be magnified past eps*tau.
        lemma_mul_upper_bound(
            TAU_WORD as int,
            u64::MAX as int,
            epsilon.0 as int,
            (pow2(54) - 1) as int,
        );
        lemma_pow2_adds(57, 61);
        lemma_fundamental_div_mod_converse(
            (pow2(118) - 1) as int,
            pow2(61) as int,
            (pow2(57) - 1) as int,
            (pow2(61) - 1) as int,
        );
        assert((pow2(57) - 1) * pow2(61) + (pow2(61) - 1) == pow2(118) - 1) by (nonlinear_arith)
            requires
                pow2(57) * pow2(61) == pow2(118),
        ;
        lemma_div_is_ordered(
            TAU_WORD as int * epsilon.0 as int,
            (pow2(118) - 1) as int,
            pow2(61) as int,
        );
        lemma_small_mod(
            ((TAU_WORD as nat * epsilon.0 as nat) / pow2(61)) as nat,
            pow2(64),
        );
    }
    if zone == 0 {
        // sin(A) == 0 and cos(A) == 1: the corrected value is the residual
        // itself, already in radians.
        epsilon_radians
    } else {
        let sin_a: Repr = sin_exact(zone as u8);
        // cos(A) == sin(quarter - A): the mirrored table index.
        let cos_a: Repr = sin_exact((0x100u16 - zone) as u8);
        let b_cos_a: Repr = cos_a.mul(epsilon_radians);
        sin_a.saturating_add(b_cos_a)
    }
}

/// Sine of `repr`, a fraction of a turn in `[0, 1/2)` turns, encoded in
/// the low 63 bits: values past the quarter turn reflect back across it
/// (`sin(half - x) == sin(x)`), and the quarter turn itself is the one
/// input whose sine, exactly 1, needs the sentinel.
pub fn half_sin(repr: u64) -> (out: Output)
    ensures
        sin_is_one(repr) ==> out == Output::One,
        !sin_is_one(repr) ==> (out matches Output::Fraction(f) && f.0 as nat == quarter_sin_word(
            folded_quarter_word(repr),
        )),
{
    proof {
        lemma2_to64_rest();
        lemma_u64_low_bits_mask_is_mod(repr, 63);
    }
    let repr: u64 = repr & 0x7FFF_FFFF_FFFF_FFFF;
    if repr < 0x4000_0000_0000_0000 {
        Output::Fraction(quarter_sin(repr))
    } else if repr == 0x4000_0000_0000_0000 {
        Output::One
    } else {
        Output::Fraction(quarter_sin(0x8000_0000_0000_0000 - repr))
    }
}

/// Sine of `repr`, a fraction of one full turn filling the whole word: the
/// top bit carries the sign (`sin` is odd around the half turn), and the
/// rest is the half-turn evaluation.
pub fn sin(repr: u64) -> (out: SignedOutput)
    ensures
        out.sign == sin_sign(repr),
        out.value == sin_output(repr),
{
    proof {
        assert(repr >> 63 == 1 <==> repr >= 0x8000_0000_0000_0000) by (bit_vector);
    }
    let sign = Sign::from_bit(repr >> 63 == 1);
    SignedOutput { sign, value: half_sin(repr) }
}

impl SignedOutput {
    /// The IEEE-754 double bit pattern of this signed sine result. The
    /// sentinel becomes exactly 1.0 with no approximation error; a
    /// fraction keeps its top 53 significant bits. Negation sets the sign
    /// bit, so a negative zero magnitude encodes -0.0, as ordinary float
    /// negation would.
    pub fn as_float(&self) -> (r: u64)
        ensures
            r == signed_float_bits(*self),
    {
        let unsigned: u64 = match self.value {
            Output::One => 0x3FF0_0000_0000_0000,
            Output::Fraction(repr) => repr.as_float(),
        };
        match self.sign {
            Sign::Positive => unsigned,
            Sign::Negative => unsigned + 0x8000_0000_0000_0000,
        }
    }
}

} // verus!
