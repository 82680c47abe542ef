//! Accuracy and fixture tests of the fixed-point trigonometric kernels.

use lockin_dsp::trig::{FULL_SCALE, QUARTER_TURN};
use lockin_dsp::{atan2, cossin};

/// Round trip: for a dense sample of angles, recovering the angle of the unit
/// vector stays within a small fixed error, far below 1e-5 turns.
#[test]
fn round_trip_dense() {
    // 4000 angle units is about 9.3e-7 turns.
    const BOUND: i64 = 4000;
    for i in 0..20000u32 {
        let a = i.wrapping_mul(214_748).wrapping_add(7) as i32;
        let (c, s) = cossin(a);
        let b = atan2(s, c);
        let err = (b.wrapping_sub(a)) as i64;
        assert!(
            err.abs() <= BOUND,
            "angle {} recovered {} err {}",
            a,
            b,
            err
        );
    }
}

/// Unit circle: the squared magnitude of the unit vector stays within a small
/// relative error of the full-scale square for a dense sample of angles.
#[test]
fn unit_circle_dense() {
    let full: i64 = FULL_SCALE as i64;
    // 3e12 is about 6.5e-7 of FULL_SCALE squared.
    const BOUND: i64 = 3_000_000_000_000;
    for i in 0..20000u32 {
        let a = i.wrapping_mul(214_748).wrapping_add(3) as i32;
        let (c, s) = cossin(a);
        let mag2 = (c as i64) * (c as i64) + (s as i64) * (s as i64);
        let err = mag2 - full * full;
        assert!(err.abs() <= BOUND, "angle {} mag2 err {}", a, err);
    }
}

/// Concrete fixtures of the kernels.
#[test]
fn fixtures() {
    assert_eq!(atan2(0, i32::MAX), 0);
    assert_eq!(atan2(i32::MAX, 0), QUARTER_TURN);
    assert_eq!(cossin(0), (FULL_SCALE, 0));
}

/// The cardinal directions of both kernels.
#[test]
fn cardinal_directions() {
    assert_eq!(cossin(QUARTER_TURN), (0, FULL_SCALE));
    assert_eq!(cossin(i32::MIN), (-FULL_SCALE, 0));
    assert_eq!(cossin(-QUARTER_TURN), (0, -FULL_SCALE));
    // Half a turn wraps to the negative end of the angle range.
    assert_eq!(atan2(0, i32::MIN), i32::MIN);
    assert_eq!(atan2(i32::MIN, 0), -QUARTER_TURN);
    assert_eq!(atan2(0, 0), 0);
}

/// The diagonal lies an eighth of a turn up, within the kernel error bound.
#[test]
fn diagonal() {
    let eighth = QUARTER_TURN / 2;
    let err = (atan2(i32::MAX, i32::MAX) - eighth).abs();
    assert!(err <= 4000, "diagonal err {}", err);
}

/// The sine is odd and the cosine even over a sample of angles.
#[test]
fn symmetry() {
    for i in 1..1000u32 {
        let a = i.wrapping_mul(4_294_967).wrapping_add(11) as i32;
        if a == i32::MIN {
            continue;
        }
        let (c_pos, s_pos) = cossin(a);
        let (c_neg, s_neg) = cossin(-a);
        assert!((c_pos - c_neg).abs() <= 4, "cos not even at {}", a);
        assert!((s_pos + s_neg).abs() <= 4, "sin not odd at {}", a);
    }
}
