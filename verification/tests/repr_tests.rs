//! Round trips between IEEE-754 doubles and fixed-point words.

use sliver::repr::{BaseRepr, Repr};

#[test]
fn half() {
    let repr = Repr::from_float(0.5f64.to_bits()).unwrap();
    assert_eq!(repr.0, 0x80_00_00_00_00_00_00_00)
}

#[test]
fn three_quarters() {
    let repr = Repr::from_float(0.75f64.to_bits()).unwrap();
    assert_eq!(repr.0, 0xC0_00_00_00_00_00_00_00)
}

#[test]
fn one_overflow() {
    let repr = Repr::from_float(1.0f64.to_bits()).unwrap();
    assert_eq!(repr.0, 0)
}

#[test]
fn negative_overflow() {
    let repr = Repr::from_float((-1.5f64).to_bits()).unwrap();
    assert_eq!(repr.0, 0x80_00_00_00_00_00_00_00);
}

#[test]
fn negative_modular_overflow() {
    let repr = Repr::from_float((-1.75f64).to_bits()).unwrap();
    assert_eq!(repr.0, 0x40_00_00_00_00_00_00_00);
}

#[test]
fn one_point_five_overflow() {
    let repr = Repr::from_float(1.5f64.to_bits()).unwrap();
    assert_eq!(repr.0, 0x80_00_00_00_00_00_00_00)
}

#[test]
fn shifted() {
    let repr = BaseRepr::<1>::from_float(1.5f64.to_bits()).unwrap();
    assert_eq!(repr.0, 0xC0_00_00_00_00_00_00_00)
}

#[test]
fn shifted_2() {
    let repr = BaseRepr::<2>::from_float(2.0f64.to_bits()).unwrap();
    assert_eq!(repr.0, 0x80_00_00_00_00_00_00_00)
}

#[test]
fn repr_half() {
    let value = Repr::new(0x80_00_00_00_00_00_00_00);
    let float = f64::from_bits(value.as_float());
    assert_eq!(float, 0.5);
}

#[test]
fn three_fourths() {
    let value = Repr::new(0xC0_00_00_00_00_00_00_00);
    let float = f64::from_bits(value.as_float());
    assert_eq!(float, 0.75);
}

#[test]
fn quarter() {
    let value = Repr::new(0x40_00_00_00_00_00_00_00);
    let float = f64::from_bits(value.as_float());
    assert_eq!(float, 0.25);
}

#[test]
fn two() {
    let value = BaseRepr::<2>::new(0x80_00_00_00_00_00_00_00);
    let float = f64::from_bits(value.as_float());
    assert_eq!(float, 2.0);
}

#[test]
fn rejects_nan_and_infinities() {
    assert!(Repr::from_float(f64::NAN.to_bits()).is_none());
    assert!(Repr::from_float(f64::INFINITY.to_bits()).is_none());
    assert!(Repr::from_float(f64::NEG_INFINITY.to_bits()).is_none());
}

#[test]
fn rejects_subnormals() {
    assert!(Repr::from_float(5e-324f64.to_bits()).is_none());
    assert!(Repr::from_float(f64::MIN_POSITIVE.to_bits()).is_some());
}

#[test]
fn accepts_both_zeroes() {
    assert_eq!(Repr::from_float(0.0f64.to_bits()).unwrap().0, 0);
    assert_eq!(Repr::from_float((-0.0f64).to_bits()).unwrap().0, 0);
}

#[test]
fn wraparound_identifies_equivalent_rotations() {
    let a = Repr::from_float(1.5f64.to_bits()).unwrap();
    let b = Repr::from_float(0.5f64.to_bits()).unwrap();
    assert_eq!(a.0, b.0);
    let c = Repr::from_float((-0.25f64).to_bits()).unwrap();
    let d = Repr::from_float(0.75f64.to_bits()).unwrap();
    assert_eq!(c.0, d.0);
}

#[test]
fn tiny_word_keeps_significant_bits() {
    // The smallest words still convert to exact powers of two and their
    // multiples: 3 * 2^-64 keeps both set bits.
    let value = Repr::new(3);
    let float = f64::from_bits(value.as_float());
    assert_eq!(float, 3.0 / 18446744073709551616.0);
}

#[test]
fn mul_scales_by_fraction() {
    // 0.75 * 0.5 == 0.375.
    let lhs = Repr::new(0xC0_00_00_00_00_00_00_00);
    let rhs = Repr::new(0x80_00_00_00_00_00_00_00);
    assert_eq!(lhs.mul(rhs).0, 0x60_00_00_00_00_00_00_00);
}

#[test]
fn saturating_add_clamps_at_the_top() {
    let big = Repr::new(u64::MAX - 1);
    assert_eq!(big.saturating_add(Repr::new(1)).0, u64::MAX);
    assert_eq!(big.saturating_add(Repr::new(5)).0, u64::MAX);
    assert_eq!(Repr::new(2).saturating_add(Repr::new(3)).0, 5);
}
