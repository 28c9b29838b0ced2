//! The fixed-point word underlying every angle value.

use vstd::arithmetic::div_mod::lemma_div_is_ordered;
use vstd::arithmetic::div_mod::lemma_div_denominator;
use vstd::arithmetic::div_mod::lemma_div_multiples_vanish;
use vstd::arithmetic::div_mod::lemma_fundamental_div_mod;
use vstd::arithmetic::div_mod::lemma_hoist_over_denominator;
use vstd::arithmetic::div_mod::lemma_fundamental_div_mod_converse;
use vstd::arithmetic::div_mod::lemma_mod_multiples_basic;
use vstd::arithmetic::div_mod::lemma_mod_multiples_vanish;
use vstd::arithmetic::div_mod::lemma_small_mod;
use vstd::arithmetic::mul::lemma_mul_inequality;
use vstd::arithmetic::mul::lemma_mul_strict_inequality;
use vstd::arithmetic::mul::lemma_mul_is_associative;
use vstd::arithmetic::mul::lemma_mul_upper_bound;
use vstd::arithmetic::power2::lemma2_to64;
use vstd::arithmetic::power2::lemma2_to64_rest;
use vstd::arithmetic::power2::lemma_pow2_adds;
use vstd::arithmetic::power2::lemma_pow2_pos;
use vstd::arithmetic::power2::lemma_pow2_strictly_increases;
use vstd::arithmetic::power2::pow2;
use vstd::bits::lemma_u128_shr_is_div;
use vstd::bits::lemma_u64_low_bits_mask_is_mod;
use vstd::bits::lemma_u64_shl_is_mul;
use vstd::bits::lemma_u64_shr_is_div;
use vstd::bits::low_bits_mask;
use vstd::prelude::*;
use vstd::std_specs::bits::axiom_u64_leading_zeros;
use vstd::std_specs::bits::u64_leading_zeros;

verus! {

/// One full span of the 64-bit word, `2^64`, the modulus of every
/// fixed-point representation here.
pub open spec fn word_span() -> nat {
    pow2(64)
}

/// The sign bit of an IEEE-754 double bit pattern.
pub open spec fn float_sign_bit(bits: u64) -> bool {
    bits >> 63 == 1
}

/// The 11-bit biased exponent field of an IEEE-754 double bit pattern.
pub open spec fn float_exp(bits: u64) -> u64 {
    (bits >> 52) & 0x7FF
}

/// The 52-bit stored fraction field of an IEEE-754 double bit pattern.
pub open spec fn float_frac(bits: u64) -> u64 {
    bits & 0x000F_FFFF_FFFF_FFFF
}

/// An IEEE-754 double bit pattern of positive or negative zero.
pub open spec fn float_is_zero(bits: u64) -> bool {
    float_exp(bits) == 0 && float_frac(bits) == 0
}

/// An IEEE-754 double bit pattern of a normal finite number.
pub open spec fn float_is_normal(bits: u64) -> bool {
    0 < float_exp(bits) < 0x7FF
}

/// The full 53-bit significand of a normal double: the stored fraction with
/// the implicit leading bit restored.
pub open spec fn float_significand(bits: u64) -> nat {
    float_frac(bits) as nat + pow2(52)
}

/// How far the 53-bit significand moves left to line up with a fixed-point
/// word at offset `offset`: the unbiased exponent, plus the 12 positions
/// between the significand's top bit and the word's top bit, minus the
/// offset's integer bits.
pub open spec fn fixed_shift(bits: u64, offset: int) -> int {
    float_exp(bits) - 1023 + 12 - offset
}

/// The magnitude of a normal double as a fixed-point word: the significand
/// shifted into place, wrapping modularly on the left and truncating low
/// bits away on the right.
pub open spec fn shifted_significand(bits: u64, offset: int) -> nat {
    let sh = fixed_shift(bits, offset);
    if sh >= 0 {
        (float_significand(bits) * pow2(sh as nat)) % word_span()
    } else {
        float_significand(bits) / pow2((-sh) as nat)
    }
}

/// The fixed-point word encoding a normal double at offset `offset`: the
/// shifted magnitude, negated modularly when the sign bit is set, so that
/// the same modular addition works uniformly for signed reasoning.
pub open spec fn fixed_word(bits: u64, offset: int) -> nat {
    if float_sign_bit(bits) {
        ((word_span() - shifted_significand(bits, offset)) % word_span() as int) as nat
    } else {
        shifted_significand(bits, offset)
    }
}

/// A left shift that drops bits off the top of the word is multiplication
/// modulo the word span: the kept low bits of `m`, moved up by `sh`, are
/// exactly `m * 2^sh` reduced mod `2^64`.
proof fn lemma_masked_shift_is_mod(m: u64, sh: u64)
    requires
        1 <= sh < 64,
    ensures
        u64::MAX >> sh == low_bits_mask((64 - sh) as nat) as u64,
        (m & (low_bits_mask((64 - sh) as nat) as u64)) as nat * pow2(sh as nat) == (m as nat
            * pow2(sh as nat)) % pow2(64),
        (m & (low_bits_mask((64 - sh) as nat) as u64)) as nat * pow2(sh as nat) <= u64::MAX,
{
    let w: nat = (64 - sh) as nat;
    lemma_pow2_pos(sh as nat);
    lemma_pow2_pos(w);
    lemma_pow2_adds(w, sh as nat);
    lemma_pow2_strictly_increases(w, 64);
    lemma2_to64_rest();
    // The mask is the low (64 - sh)-bit mask.
    lemma_u64_shr_is_div(u64::MAX, sh);
    assert((pow2(w) - 1) * pow2(sh as nat) + (pow2(sh as nat) - 1) == u64::MAX as int)
        by (nonlinear_arith)
        requires
            pow2(w) * pow2(sh as nat) == pow2(64),
            pow2(64) == 0x1_0000_0000_0000_0000,
    ;
    lemma_fundamental_div_mod_converse(
        u64::MAX as int,
        pow2(sh as nat) as int,
        (pow2(w) - 1) as int,
        (pow2(sh as nat) - 1) as int,
    );
    // Masking keeps the low bits: the remainder mod 2^(64 - sh).
    lemma_u64_low_bits_mask_is_mod(m, w);
    let keep: u64 = m & (low_bits_mask(w) as u64);
    lemma_fundamental_div_mod(m as int, pow2(w) as int);
    let q: int = m as int / pow2(w) as int;
    // Moving the kept bits up cannot reach the top of the word.
    lemma_mul_inequality(keep as int, pow2(w) as int - 1, pow2(sh as nat) as int);
    assert((pow2(w) - 1) * pow2(sh as nat) == pow2(64) - pow2(sh as nat)) by (nonlinear_arith)
        requires
            pow2(w) * pow2(sh as nat) == pow2(64),
    ;
    // The dropped high bits are whole multiples of the word span.
    assert(m as int * pow2(sh as nat) == q * pow2(64) + keep as int * pow2(sh as nat))
        by (nonlinear_arith)
        requires
            m as int == q * pow2(w) + keep as int,
            pow2(w) * pow2(sh as nat) == pow2(64),
    ;
    lemma_mod_multiples_vanish(q, keep as int * pow2(sh as nat), pow2(64) as int);
    lemma_small_mod((keep as nat) * pow2(sh as nat), pow2(64));
}

/// The IEEE-754 double bit pattern nearest the fixed-point word `word` at
/// offset `offset`, rounding toward zero: the highest set bit fixes the
/// binary exponent, and the 52 bits below it become the stored fraction,
/// truncated. The all-zero word encodes exactly 0.0.
pub open spec fn float_encoding(word: u64, offset: int) -> u64 {
    if word == 0 {
        0u64
    } else {
        let k = 63 - u64_leading_zeros(word);  // index of the highest set bit
        let frac = (word as nat * pow2(52)) / pow2(k as nat) - pow2(52);
        (((959 + offset + k) * pow2(52) as int) + frac) as u64
    }
}

/// A non-zero word sits between the powers of two around its highest set
/// bit, which the leading-zero count locates.
proof fn lemma_msb_range(word: u64)
    requires
        word != 0,
    ensures
        u64_leading_zeros(word) < 64,
        pow2((63 - u64_leading_zeros(word)) as nat) <= word,
        word < pow2((64 - u64_leading_zeros(word)) as nat),
{
    axiom_u64_leading_zeros(word);
    let lz = u64_leading_zeros(word);
    let k: nat = (63 - lz) as nat;
    lemma2_to64();
    lemma2_to64_rest();
    lemma_pow2_pos(k);
    // The word lies below 2^(k+1): every bit from k + 1 up is clear.
    if lz > 0 {
        assert(word >> ((64 - lz) as u64) == 0);
        lemma_u64_shr_is_div(word, (64 - lz) as u64);
        assert(word as nat / pow2((k + 1) as nat) == 0);
        lemma_fundamental_div_mod(word as int, pow2((k + 1) as nat) as int);
        vstd::arithmetic::div_mod::lemma_mod_pos_bound(word as int, pow2((k + 1) as nat) as int);
    }
    assert(word < pow2((k + 1) as nat));
    // And at least 2^k: the bit at k itself is set.
    lemma_u64_shr_is_div(word, (63 - lz) as u64);
    let top: u64 = word >> ((63 - lz) as u64);
    assert(top & 1 != 0);
    assert(top & 1 != 0 ==> top >= 1) by (bit_vector);
    lemma_fundamental_div_mod(word as int, pow2(k) as int);
    lemma_mul_inequality(1, word as int / pow2(k) as int, pow2(k) as int);
    vstd::arithmetic::mul::lemma_mul_is_commutative(word as int / pow2(k) as int, pow2(k) as int);
    assert(pow2(k) <= word);
}

/// Every float encoding this library produces is finite and non-negative:
/// its sign bit is clear, so negation is exactly setting that bit.
pub proof fn lemma_float_encoding_in_range(word: u64, offset: int)
    requires
        0 <= offset <= 64,
    ensures
        float_encoding(word, offset) < 0x8000_0000_0000_0000,
{
    lemma2_to64();
    lemma2_to64_rest();
    if word != 0 {
        lemma_msb_range(word);
        let lz = u64_leading_zeros(word);
        let k: nat = (63 - lz) as nat;
        lemma_truncated_fraction(word, k);
        let e: int = 959 + offset + k;
        lemma_mul_inequality(e, 1086, pow2(52) as int);
    }
}

/// Once the highest set bit of `word` (at index `k`) is moved to the top of
/// the word and stripped, the remaining bits shifted down by 11 are exactly
/// the truncated 52-bit fraction of `word`'s float encoding, and that
/// fraction fits in 52 bits.
proof fn lemma_truncated_fraction(word: u64, k: nat)
    requires
        k <= 63,
        pow2(k) <= word < pow2(k + 1),
    ensures
        word as int * pow2((63 - k) as nat) - pow2(63) == (word - pow2(k)) * pow2(
            (63 - k) as nat,
        ),
        ((word - pow2(k)) * pow2((63 - k) as nat)) as nat / pow2(11) == (word as nat * pow2(52))
            / pow2(k) - pow2(52),
        (word as nat * pow2(52)) / pow2(k) - pow2(52) < pow2(52),
        pow2(52) <= (word as nat * pow2(52)) / pow2(k),
{
    let d: nat = (word - pow2(k)) as nat;
    let up: nat = (63 - k) as nat;
    // word < 2^(k+1) == 2 * 2^k, so d < 2^k.
    vstd::arithmetic::power2::lemma_pow2_unfold((k + 1) as nat);
    lemma_pow2_pos(k);
    lemma_pow2_pos(up);
    lemma_pow2_pos(52);
    lemma_pow2_adds(k, up);
    lemma_pow2_adds(k, 52);
    // word * 2^(63-k) - 2^63 == d * 2^(63-k), by distributing over
    // word == d + 2^k.
    assert(word as int * pow2(up) - pow2(63) == d * pow2(up)) by (nonlinear_arith)
        requires
            word == d + pow2(k),
            pow2(k) * pow2(up) == pow2(63),
    ;
    // Dividing word * 2^52 == d * 2^52 + 2^52 * 2^k by 2^k hoists out a
    // whole 2^52: the fraction is (d * 2^52) / 2^k.
    assert(word as int * pow2(52) == d * pow2(52) + pow2(52) * pow2(k)) by (nonlinear_arith)
        requires
            word == d + pow2(k),
    ;
    lemma_hoist_over_denominator((d * pow2(52)) as int, pow2(52) as int, pow2(k));
    assert((word as nat * pow2(52)) / pow2(k) - pow2(52) == (d * pow2(52)) as int / pow2(k) as int);
    if k <= 52 {
        // Both quotients are the exact product d * 2^(52-k).
        let e: nat = (52 - k) as nat;
        lemma_pow2_pos(e);
        lemma_pow2_pos(11);
        lemma_pow2_adds(e, 11);
        lemma_pow2_adds(e, k);
        assert(d * pow2(up) == pow2(11) * (d * pow2(e))) by (nonlinear_arith)
            requires
                pow2(e) * pow2(11) == pow2(up),
        ;
        lemma_div_multiples_vanish((d * pow2(e)) as int, pow2(11) as int);
        assert(d * pow2(52) == pow2(k) * (d * pow2(e))) by (nonlinear_arith)
            requires
                pow2(e) * pow2(k) == pow2(52),
        ;
        lemma_div_multiples_vanish((d * pow2(e)) as int, pow2(k) as int);
        // d * 2^(52-k) < 2^k * 2^(52-k) == 2^52.
        lemma_mul_strict_inequality(d as int, pow2(k) as int, pow2(e) as int);
        assert(pow2(k) * pow2(e) == pow2(52)) by (nonlinear_arith)
            requires
                pow2(e) * pow2(k) == pow2(52),
        ;
    } else {
        // Both quotients truncate d by k - 52 positions.
        let down: nat = (k - 52) as nat;
        lemma_pow2_pos(down);
        lemma_pow2_adds(up, down);
        lemma_pow2_adds(52, down);
        // (d * 2^(63-k)) / 2^11 == d / 2^(k-52), peeling the exact factor.
        lemma_div_denominator((d * pow2(up)) as int, pow2(up) as int, pow2(down) as int);
        lemma_div_multiples_vanish(d as int, pow2(up) as int);
        assert(pow2(up) * d == d * pow2(up)) by (nonlinear_arith);
        // (d * 2^52) / 2^k == d / 2^(k-52), the same way.
        lemma_div_denominator((d * pow2(52)) as int, pow2(52) as int, pow2(down) as int);
        lemma_div_multiples_vanish(d as int, pow2(52) as int);
        assert(pow2(52) * d == d * pow2(52)) by (nonlinear_arith);
        // d / 2^(k-52) <= (2^k - 1) / 2^(k-52) == 2^52 - 1.
        lemma_div_is_ordered(d as int, (pow2(k) - 1) as int, pow2(down) as int);
        assert((pow2(52) - 1) * pow2(down) + (pow2(down) - 1) == pow2(k) - 1) by (nonlinear_arith)
            requires
                pow2(52) * pow2(down) == pow2(k),
        ;
        lemma_fundamental_div_mod_converse(
            (pow2(k) - 1) as int,
            pow2(down) as int,
            (pow2(52) - 1) as int,
            (pow2(down) - 1) as int,
        );
    }
}

/// Fixed precision value. Represents a value in the range `[0, 2^O)`: the
/// stored word is the numerator of a fraction over `2^64`, scaled by `2^O`.
/// Usually `O` is 0 and this represents a value from 0 to 1, but it also
/// stores constants such as tau (which needs 3 integer bits).
///
/// Arithmetic on the word is modular: overflow wraps, which is the deliberate
/// encoding of periodicity when the value is a fraction of a rotation.
#[derive(Debug, Clone, Copy, PartialEq, Eq, Hash)]
pub struct BaseRepr<const O: u64>(pub u64);

impl<const O: u64> BaseRepr<O> {
    /// Raw construction: the full 64-bit space is valid.
    pub fn new(repr: u64) -> (r: Self)
        ensures
            r.0 == repr,
    {
        Self(repr)
    }

    /// Build a fixed-point word from the bit pattern of an IEEE-754 double.
    /// Returns `None` if the pattern is not zero and not a normal finite
    /// number: infinities and NaN have no place on the fixed-point scale,
    /// and mapping a subnormal would silently truncate its precision, a
    /// policy decision this type declines to make. An out-of-range finite
    /// value wraps modularly rather than saturating or failing — 1.5 lands
    /// on the word of 0.5 — and a negative value is encoded by modular
    /// negation of its magnitude's word.
    pub fn from_float(value: u64) -> (r: Option<Self>)
        requires
            O <= 64,
        ensures
            r is Some <==> float_is_zero(value) || float_is_normal(value),
            float_is_zero(value) ==> (r matches Some(v) && v.0 == 0),
            float_is_normal(value) ==> (r matches Some(v) && v.0 as nat == fixed_word(
                value,
                O as int,
            )),
    {
        let exp: u64 = (value >> 52) & 0x7FF;
        let frac: u64 = value & 0x000F_FFFF_FFFF_FFFF;
        if exp == 0 {
            if frac == 0 {
                // Positive or negative zero: the word of zero rotations.
                Some(Self(0))
            } else {
                // Subnormal.
                None
            }
        } else if exp == 0x7FF {
            // Infinite or NaN.
            None
        } else {
            proof {
                lemma2_to64();
                lemma2_to64_rest();
                assert(((value >> 52) & 0x7FF) <= 0x7FF) by (bit_vector);
                assert((value & 0x000F_FFFF_FFFF_FFFF) < 0x0010_0000_0000_0000) by (bit_vector);
                assert((value & 0x000F_FFFF_FFFF_FFFF) | 0x0010_0000_0000_0000 == (value
                    & 0x000F_FFFF_FFFF_FFFF) + 0x0010_0000_0000_0000) by (bit_vector);
            }
            // The true significand: the stored fraction plus the omitted
            // leading bit.
            let mantissa: u64 = frac | 0x0010_0000_0000_0000;
            // The aligning shift: unbiased exponent + 12 - O.
            let shift: i64 = (exp as i64) - 1011 - (O as i64);
            let ghost sig: nat = float_significand(value);
            let magnitude: u64 = if shift >= 64 {
                // The whole significand moves past the top of the word:
                // everything wraps away.
                proof {
                    lemma_pow2_adds((shift - 64) as nat, 64);
                    lemma_mul_is_associative(
                        sig as int,
                        pow2((shift - 64) as nat) as int,
                        pow2(64) as int,
                    );
                    lemma_mod_multiples_basic(
                        sig as int * pow2((shift - 64) as nat) as int,
                        pow2(64) as int,
                    );
                }
                0
            } else if shift >= 1 {
                proof {
                    lemma_masked_shift_is_mod(mantissa, shift as u64);
                }
                let keep: u64 = mantissa & (u64::MAX >> (shift as u64));
                proof {
                    lemma_u64_shl_is_mul(keep, shift as u64);
                }
                keep << (shift as u64)
            } else if shift == 0 {
                // Already aligned.
                proof {
                    lemma_small_mod(sig, pow2(64));
                }
                mantissa
            } else if shift <= -64 {
                // The whole significand falls below the bottom of the word.
                proof {
                    lemma_pow2_strictly_increases(53, (-shift) as nat);
                    lemma_fundamental_div_mod_converse(
                        sig as int,
                        pow2((-shift) as nat) as int,
                        0,
                        sig as int,
                    );
                }
                0
            } else {
                proof {
                    lemma_u64_shr_is_div(mantissa, (-shift) as u64);
                }
                mantissa >> ((-shift) as u64)
            };
            assert(magnitude as nat == shifted_significand(value, O as int));
            // A negative value becomes the modular negation of its
            // magnitude, which makes modular addition do the right thing
            // for signed reasoning.
            let signed: u64 = if value >> 63 == 1 {
                proof {
                    if magnitude > 0 {
                        lemma_small_mod((pow2(64) - magnitude as nat) as nat, pow2(64));
                    } else {
                        lemma_mod_multiples_basic(1, pow2(64) as int);
                    }
                }
                0u64.wrapping_sub(magnitude)
            } else {
                magnitude
            };
            Some(Self(signed))
        }
    }

    /// Multiply by a canonical `[0, 1)` fraction, keeping this word's scale:
    /// the widened 128-bit product is cut back down by the full word span.
    /// The result truncates toward zero and cannot exceed `self`, so no
    /// wraparound is possible.
    pub fn mul(self, other: BaseRepr<0>) -> (r: Self)
        ensures
            r.0 as nat == (self.0 as nat * other.0 as nat) / word_span(),
    {
        proof {
            lemma_mul_upper_bound(
                self.0 as int,
                u64::MAX as int,
                other.0 as int,
                u64::MAX as int,
            );
            lemma_u128_shr_is_div((self.0 as u128 * other.0 as u128) as u128, 64);
            vstd::arithmetic::power2::lemma2_to64_rest();
            lemma_div_is_ordered(
                (self.0 as int) * (other.0 as int),
                u64::MAX as int * u64::MAX as int,
                pow2(64) as int,
            );
        }
        Self((((self.0 as u128) * (other.0 as u128)) >> 64u128) as u64)
    }

    /// Multiply by a canonical `[0, 1)` fraction and rescale the product to
    /// the canonical `[0, 1)` representation, shifting `O` fewer positions
    /// than [`Self::mul`]. A product too large for the canonical word wraps
    /// modularly, like every out-of-range value in this encoding.
    pub fn mul0(self, other: BaseRepr<0>) -> (r: BaseRepr<0>)
        requires
            O <= 64,
        ensures
            r.0 as nat == ((self.0 as nat * other.0 as nat) / pow2((64 - O) as nat))
                % word_span(),
    {
        proof {
            lemma_mul_upper_bound(
                self.0 as int,
                u64::MAX as int,
                other.0 as int,
                u64::MAX as int,
            );
        }
        let wide: u128 = (self.0 as u128) * (other.0 as u128);
        let shifted: u128 = wide >> ((64 - O) as u128);
        proof {
            lemma_u128_shr_is_div(wide, (64 - O) as u128);
            vstd::arithmetic::power2::lemma2_to64_rest();
            assert(shifted as u64 as nat == shifted as nat % 0x1_0000_0000_0000_0000nat)
                by (bit_vector);
        }
        BaseRepr::<0>(#[verifier::truncate] (shifted as u64))
    }

    /// Convert this fixed-point word to the bit pattern of the nearest
    /// IEEE-754 double, truncating toward zero: the highest set bit fixes
    /// the exponent and the 52 bits below it the fraction, so at most the
    /// top 53 significant bits survive. The all-zero word converts to
    /// exactly 0.0. The result is always finite and non-negative, so its
    /// sign bit is clear.
    pub fn as_float(self) -> (r: u64)
        requires
            O <= 64,
        ensures
            r == float_encoding(self.0, O as int),
            r < 0x8000_0000_0000_0000,
    {
        if self.0 == 0 {
            return 0u64;
        }
        let lz: u32 = self.0.leading_zeros();
        let ghost k: nat = (63 - lz) as nat;
        proof {
            lemma_msb_range(self.0);
            lemma2_to64();
            lemma2_to64_rest();
            lemma_pow2_pos(k);
            lemma_pow2_pos(lz as nat);
            lemma_pow2_adds(k, lz as nat);
            lemma_pow2_adds((k + 1) as nat, lz as nat);
            // Shifting the top bit to position 63 neither overflows nor
            // loses a bit.
            lemma_mul_inequality(
                self.0 as int,
                pow2((k + 1) as nat) as int - 1,
                pow2(lz as nat) as int,
            );
            assert((pow2((k + 1) as nat) - 1) * pow2(lz as nat) == pow2(64) - pow2(lz as nat))
                by (nonlinear_arith)
                requires
                    pow2((k + 1) as nat) * pow2(lz as nat) == pow2(64),
            ;
            lemma_mul_inequality(pow2(k) as int, self.0 as int, pow2(lz as nat) as int);
            lemma_u64_shl_is_mul(self.0, lz as u64);
        }
        let normalized: u64 = self.0 << (lz as u64);
        proof {
            assert(normalized ^ 0x8000_0000_0000_0000u64 == normalized - 0x8000_0000_0000_0000)
                by (bit_vector)
                requires
                    normalized >= 0x8000_0000_0000_0000u64,
            ;
        }
        // Drop the leading one: what remains, moved down by 11, is the
        // truncated 52-bit fraction.
        let cleared: u64 = normalized ^ 0x8000_0000_0000_0000;
        let mantissa: u64 = cleared >> 11;
        proof {
            lemma_u64_shr_is_div(cleared, 11);
            lemma_truncated_fraction(self.0, k);
        }
        let biased: u64 = 1023 + O - 1 - (lz as u64);
        proof {
            lemma_u64_shl_is_mul(biased, 52);
            assert((biased << 52u64) | mantissa == (biased << 52u64) + mantissa) by (bit_vector)
                requires
                    biased <= 1086,
                    mantissa < 0x0010_0000_0000_0000,
                    (biased << 52u64) == biased * 0x0010_0000_0000_0000,
            ;
        }
        (biased << 52) | mantissa
    }

    /// Add, clamping at the top of the word instead of wrapping. Used when
    /// building a corrected sine value that must not overshoot past 1.
    pub fn saturating_add(self, rhs: Self) -> (r: Self)
        ensures
            r.0 as nat == if self.0 as nat + rhs.0 as nat <= u64::MAX as nat {
                self.0 as nat + rhs.0 as nat
            } else {
                u64::MAX as nat
            },
    {
        Self(self.0.saturating_add(rhs.0))
    }
}

/// The canonical fixed-point word: a fraction of `[0, 1)`, full 64-bit
/// resolution, wrapping at exactly 1.
pub type Repr = BaseRepr<0>;

} // verus!
