//! Tests of the scaled-integer biquad filter.

use lockin_dsp::iir_int::{Vec5, IIR, UNIT_COEFF};

/// Direct evaluation of the biquad difference equation with the same Q30
/// scaling, rounding and saturation the filter documents.
fn direct(iir: &IIR, xy: &mut [i64; 4], x0: i32) -> i32 {
    let ba = &iir.ba.0;
    let acc: i64 = (1i64 << 29)
        + (ba[0] as i64) * (x0 as i64)
        + (ba[1] as i64) * xy[0]
        + (ba[2] as i64) * xy[1]
        - (ba[3] as i64) * xy[2]
        - (ba[4] as i64) * xy[3];
    let pre = (acc >> 30) + iir.y_offset as i64;
    let y = if pre < iir.y_min as i64 {
        iir.y_min
    } else if pre > iir.y_max as i64 {
        iir.y_max
    } else {
        pre as i32
    };
    *xy = [x0 as i64, xy[0], y as i64, xy[2]];
    y
}

// A Q30 lowpass biquad shape (corner at 5% of the sample rate).
const LP_BA: [i32; 5] = [21_563_766, 43_127_531, 21_563_766, -1_676_085_001, 688_598_239];

/// The impulse response matches direct evaluation of the difference equation.
#[test]
fn impulse_matches_difference_equation() {
    let iir = IIR::new(Vec5(LP_BA), 0, i32::MIN, i32::MAX);
    let mut state = Vec5::default();
    let mut model: [i64; 4] = [0; 4];
    for n in 0..64 {
        let x: i32 = if n == 0 { 1 << 20 } else { 0 };
        assert_eq!(iir.update(&mut state, x), direct(&iir, &mut model, x), "sample {}", n);
    }
}

/// A varied input stream matches direct evaluation, offset included.
#[test]
fn stream_matches_difference_equation() {
    let iir = IIR::new(Vec5(LP_BA), 12_345, -2_000_000, 2_000_000);
    let mut state = Vec5::default();
    let mut model: [i64; 4] = [0; 4];
    let mut x: i32 = 0x1357_9BDF;
    for n in 0..512 {
        // A deterministic, wide-ranging input sequence.
        x = x.wrapping_mul(1_664_525).wrapping_add(1_013_904_223);
        let input = x >> 12;
        assert_eq!(iir.update(&mut state, input), direct(&iir, &mut model, input), "sample {}", n);
    }
}

/// The output always lies within the clamp range, whatever the input.
#[test]
fn output_is_clamped() {
    let iir = IIR::new(Vec5(LP_BA), 0, -10_000, 10_000);
    let mut state = Vec5::default();
    for n in 0..256 {
        let x: i32 = if n % 2 == 0 { i32::MAX } else { i32::MIN };
        let y = iir.update(&mut state, x);
        assert!(-10_000 <= y && y <= 10_000, "sample {} escaped clamp: {}", n, y);
    }
}

/// A constant input converges the output to the DC gain times the input, plus
/// the offset.
#[test]
fn dc_gain() {
    let iir = IIR::new(Vec5(LP_BA), 0, i32::MIN, i32::MAX);
    let mut state = Vec5::default();
    let input: i32 = 1_000_000;
    let mut y: i32 = 0;
    for _ in 0..500 {
        y = iir.update(&mut state, input);
    }
    let gain_dc = (LP_BA[0] as f64 + LP_BA[1] as f64 + LP_BA[2] as f64)
        / ((1i64 << 30) as f64 + LP_BA[3] as f64 + LP_BA[4] as f64);
    let expect = gain_dc * input as f64;
    assert!((y as f64 - expect).abs() <= 16.0, "dc {} expect {}", y, expect);
}

/// With no feedback path the constant-input limit is exactly the DC gain
/// times the input plus the offset. (With feedback, the stored post-clamp
/// output recirculates the offset through the recursive terms, so the limit
/// scales the offset as well.)
#[test]
fn dc_gain_with_offset() {
    // A three-tap average: DC gain 3/4, no feedback.
    let ba: [i32; 5] = [1 << 28, 1 << 28, 1 << 28, 0, 0];
    let iir = IIR::new(Vec5(ba), 77_777, i32::MIN, i32::MAX);
    let mut state = Vec5::default();
    let input: i32 = -400_000;
    let mut y: i32 = 0;
    for _ in 0..16 {
        y = iir.update(&mut state, input);
    }
    assert_eq!(y, -300_000 + 77_777);
}

/// The identity configuration reproduces the input exactly for every call.
#[test]
fn identity_passthrough() {
    let iir = IIR::new(Vec5([UNIT_COEFF, 0, 0, 0, 0]), 0, i32::MIN, i32::MAX);
    let mut state = Vec5::default();
    let inputs: [i32; 8] = [0, 1, -1, i32::MAX, i32::MIN, 0x0F0F_0F0F, -0x0123_4567, 42];
    for &x in inputs.iter() {
        assert_eq!(iir.update(&mut state, x), x);
    }
}

/// The state layout after a call is the new input, the previous input, the
/// new output and the two previous outputs.
#[test]
fn state_layout() {
    let iir = IIR::new(Vec5([UNIT_COEFF, 0, 0, 0, 0]), 0, i32::MIN, i32::MAX);
    let mut state = Vec5::default();
    iir.update(&mut state, 10);
    iir.update(&mut state, 20);
    let y3 = iir.update(&mut state, 30);
    assert_eq!(y3, 30);
    assert_eq!(state.0, [30, 20, 30, 20, 10]);
}

/// One coefficient set drives many independent channel states.
#[test]
fn shared_coefficients_independent_state() {
    let iir = IIR::new(Vec5(LP_BA), 0, i32::MIN, i32::MAX);
    let mut ch0 = Vec5::default();
    let mut ch1 = Vec5::default();
    let mut last0: i32 = 0;
    for _ in 0..32 {
        last0 = iir.update(&mut ch0, 500_000);
    }
    // The untouched channel state is still quiescent.
    let first1 = iir.update(&mut ch1, 500_000);
    let mut fresh = Vec5::default();
    let first_fresh = iir.update(&mut fresh, 500_000);
    assert_eq!(first1, first_fresh);
    assert_ne!(first1, last0);
}
