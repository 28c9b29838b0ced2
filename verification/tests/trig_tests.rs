//! The sine evaluator: exact anchor points, symmetry, table order, and the
//! accuracy of the first-order correction.

use sliver::table::CURVE;
use sliver::trig;
use sliver::Angle;

const HALF: u64 = 0x80_00_00_00_00_00_00_00;
const QUARTER: u64 = 0x40_00_00_00_00_00_00_00;

#[test]
fn sin_of_zero_is_zero() {
    let r = Angle::from_repr(0).sin();
    assert_eq!(f64::from_bits(r), 0.0);
    assert_eq!(r, 0); // +0.0, not -0.0
}

#[test]
fn sin_of_quarter_turn_is_exactly_one() {
    assert_eq!(f64::from_bits(Angle::from_repr(QUARTER).sin()), 1.0);
}

#[test]
fn cos_of_zero_is_exactly_one() {
    assert_eq!(f64::from_bits(Angle::from_repr(0).cos()), 1.0);
}

#[test]
fn sin_of_three_quarter_turn_is_exactly_minus_one() {
    assert_eq!(f64::from_bits(Angle::from_repr(HALF + QUARTER).sin()), -1.0);
}

#[test]
fn half_turn_shift_negates_sine() {
    let patterns: [u64; 7] = [
        0,
        1,
        0x20_00_00_00_00_00_00_00,
        QUARTER,
        0x55_55_55_55_55_55_55_55,
        HALF,
        0xF0_12_34_56_78_9A_BC_DE,
    ];
    for p in patterns {
        let shifted = Angle::from_repr(p.wrapping_add(HALF)).sin();
        let original = Angle::from_repr(p).sin();
        // Negation of a double is exactly flipping its sign bit.
        assert_eq!(shifted, original ^ HALF);
        assert_eq!(f64::from_bits(shifted), -f64::from_bits(original));
    }
}

#[test]
fn cos_is_sine_a_quarter_turn_ahead() {
    let patterns: [u64; 5] = [
        0,
        0x13_57_9B_DF_02_46_8A_CE,
        QUARTER,
        HALF,
        0xFF_FF_FF_FF_FF_FF_FF_FF,
    ];
    for p in patterns {
        let cos = Angle::from_repr(p).cos();
        let shifted_sin = Angle::from_repr(p.wrapping_add(QUARTER)).sin();
        assert_eq!(cos, shifted_sin);
    }
}

#[test]
fn curve_starts_at_zero_and_never_decreases() {
    assert_eq!(CURVE[0], 0);
    for i in 0..255usize {
        assert!(CURVE[i] <= CURVE[i + 1]);
    }
}

#[test]
fn sin_exact_reads_the_table() {
    assert_eq!(trig::sin_exact(0).0, CURVE[0]);
    assert_eq!(trig::sin_exact(128).0, CURVE[128]);
    assert_eq!(trig::sin_exact(255).0, CURVE[255]);
}

#[test]
fn signed_output_carries_the_sign() {
    let below = trig::sin(HALF.wrapping_add(1));
    assert!(f64::from_bits(below.as_float()) <= 0.0);
    let above = trig::sin(1);
    assert!(f64::from_bits(above.as_float()) >= 0.0);
}

#[test]
fn sine_tracks_the_true_function() {
    // The table step is 1/1024 of a turn, so the first-order correction
    // leaves a residual error of at most about 1.9e-5.
    let samples: u64 = 4096;
    let step: u64 = u64::MAX / samples;
    let mut r: u64 = 0;
    for _ in 0..samples {
        let ours = f64::from_bits(Angle::from_repr(r).sin());
        let turns = r as f64 / 18446744073709551616.0;
        let truth = (turns * core::f64::consts::TAU).sin();
        assert!((ours - truth).abs() < 2e-5);
        r = r.wrapping_add(step);
    }
}

#[test]
fn cosine_tracks_the_true_function() {
    let samples: u64 = 4096;
    let step: u64 = u64::MAX / samples;
    let mut r: u64 = 0;
    for _ in 0..samples {
        let ours = f64::from_bits(Angle::from_repr(r).cos());
        let turns = r as f64 / 18446744073709551616.0;
        let truth = (turns * core::f64::consts::TAU).cos();
        assert!((ours - truth).abs() < 2e-5);
        r = r.wrapping_add(step);
    }
}

#[test]
fn radians_round_trip_within_precision() {
    let angle = Angle::from_rotations(0.25f64.to_bits()).unwrap();
    let radians = f64::from_bits(angle.as_radians());
    assert!((radians - core::f64::consts::FRAC_PI_2).abs() < 1e-15);
}
