//! Angle unit conversions, checked against exact double values.

use sliver::Angle;

#[test]
fn test_half_rotations() {
    let angle = Angle::from_repr(0x80_00_00_00_00_00_00_00);
    assert_eq!(f64::from_bits(angle.as_rotations()), 0.5)
}

#[test]
fn test_half_degrees() {
    let angle = Angle::from_repr(0x80_00_00_00_00_00_00_00);
    assert_eq!(f64::from_bits(angle.as_degrees()), 180.0)
}

#[test]
fn test_half_radians() {
    let angle = Angle::from_repr(0x80_00_00_00_00_00_00_00);
    assert_eq!(f64::from_bits(angle.as_radians()), core::f64::consts::PI)
}

#[test]
fn raw_round_trip_is_exact() {
    let patterns: [u64; 6] = [
        0,
        1,
        0x40_00_00_00_00_00_00_00,
        0x80_00_00_00_00_00_00_00,
        0xDE_AD_BE_EF_CA_FE_F0_0D,
        u64::MAX,
    ];
    for p in patterns {
        assert_eq!(Angle::from_repr(p).repr(), p);
    }
}

#[test]
fn from_rotations_half() {
    let angle = Angle::from_rotations(0.5f64.to_bits()).unwrap();
    assert_eq!(angle.repr(), 0x80_00_00_00_00_00_00_00);
}

#[test]
fn from_rotations_rejects_non_finite() {
    assert!(Angle::from_rotations(f64::NAN.to_bits()).is_none());
    assert!(Angle::from_rotations(f64::INFINITY.to_bits()).is_none());
}

#[test]
fn quarter_degrees() {
    let angle = Angle::from_repr(0x40_00_00_00_00_00_00_00);
    assert_eq!(f64::from_bits(angle.as_degrees()), 90.0)
}
