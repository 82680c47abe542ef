//! End-to-end tests of the lock-in demodulator and the derived views.

use lockin_dsp::lockin::AdjustableLockin;
use lockin_dsp::trig::QUARTER_TURN;
use lockin_dsp::{cossin, Complex, Lockin};
use lockin_dsp::iir_int::{Vec5, UNIT_COEFF};

/// Demodulate a synthesized sinusoid at the tracked reference frequency with
/// the one-pole lock-in and return the settled (I, Q) pair.
fn run_lockin(amplitude: i32, phase_offset: i32, sig_freq: i32, lo_freq: i32, k: u32) -> Complex {
    let mut lk = AdjustableLockin::default();
    let mut ph_sig: i32 = phase_offset;
    let mut ph_lo: i32 = 0;
    let mut out = Complex(0, 0);
    for _ in 0..16384 {
        let (c, _) = cossin(ph_sig);
        let sample = (((amplitude as i64) * (c as i64)) >> 31) as i16;
        // Demodulate the fundamental: mix with the conjugate local oscillator.
        out = lk.update(sample, ph_lo.wrapping_neg(), k);
        ph_sig = ph_sig.wrapping_add(sig_freq);
        ph_lo = ph_lo.wrapping_add(lo_freq);
    }
    out
}

/// Lock-in end-to-end: a pure sinusoid at the tracked reference frequency
/// with a configured phase offset yields a converged I/Q pair whose magnitude
/// is proportional to the input amplitude and whose phase matches the offset
/// within tolerance.
#[test]
fn on_frequency_amplitude_and_phase() {
    let amp: i32 = 20_000;
    let phi0: i32 = 0x1000_0000;
    let freq: i32 = 0x0400_0000;
    let out = run_lockin(amp, phi0, freq, freq, 8);
    let mag = ((out.0 as f64).powi(2) + (out.1 as f64).powi(2)).sqrt();
    // Mixing gain: the sample is aligned to 32 bits and each oscillator
    // component has near-full amplitude, so the settled magnitude is half the
    // aligned amplitude.
    let expect = (amp as f64) * 32768.0 / 2.0;
    assert!((mag / expect - 1.0).abs() < 0.05, "mag {} expect {}", mag, expect);
    let ang = out.arg();
    let err = (ang.wrapping_sub(phi0)) as f64 / 4294967296.0;
    assert!(err.abs() < 0.01, "phase err {} turns", err);
}

/// The settled magnitude scales linearly with the input amplitude.
#[test]
fn magnitude_proportional_to_amplitude() {
    let phi0: i32 = 0x1000_0000;
    let freq: i32 = 0x0400_0000;
    let full = run_lockin(20_000, phi0, freq, freq, 8);
    let half = run_lockin(10_000, phi0, freq, freq, 8);
    let mag_full = ((full.0 as f64).powi(2) + (full.1 as f64).powi(2)).sqrt();
    let mag_half = ((half.0 as f64).powi(2) + (half.1 as f64).powi(2)).sqrt();
    let ratio = mag_half / mag_full;
    assert!((ratio - 0.5).abs() < 0.02, "ratio {}", ratio);
}

/// A signal away from the reference frequency converges toward zero magnitude
/// after the lowpass settling time.
#[test]
fn off_frequency_rejected() {
    let freq: i32 = 0x0400_0000;
    let off = run_lockin(20_000, 0x123, freq.wrapping_add(0x0800_0000), freq, 8);
    let on = run_lockin(20_000, 0x123, freq, freq, 8);
    let mag_off = ((off.0 as f64).powi(2) + (off.1 as f64).powi(2)).sqrt();
    let mag_on = ((on.0 as f64).powi(2) + (on.1 as f64).powi(2)).sqrt();
    assert!(mag_off < 0.05 * mag_on, "off {} on {}", mag_off, mag_on);
}

/// The biquad-filtered demodulator with identity coefficients hands back the
/// raw mixing products.
#[test]
fn biquad_lockin_identity_filter() {
    let mut lk = Lockin::new(&Vec5([UNIT_COEFF, 0, 0, 0, 0]));
    let sample: i32 = 0x0100_0000;
    let phase: i32 = 0x2000_0000;
    let (c, s) = cossin(phase);
    let out = lk.update(sample, phase);
    let want_i = (((sample as i64) * (c as i64)) >> 32) as i32;
    let want_q = (((sample as i64) * (s as i64)) >> 32) as i32;
    assert_eq!(out, Complex(want_i, want_q));
}

/// The power view is the squared magnitude scaled down by two to the 32nd.
#[test]
fn power_view() {
    assert_eq!(Complex(0x1_0000, 0).power(), 1);
    assert_eq!(Complex(0, -0x2_0000).power(), 4);
    assert_eq!(Complex(0, 0).power(), 0);
    assert_eq!(Complex(i32::MIN, i32::MIN).power(), i32::MAX);
}

/// The log-magnitude view is the floor logarithm of the squared magnitude.
#[test]
fn log2_view() {
    assert_eq!(Complex(0, 0).log2(), 0);
    assert_eq!(Complex(1, 0).log2(), 0);
    assert_eq!(Complex(2, 0).log2(), 2);
    assert_eq!(Complex(3, 4).log2(), 4);
    assert_eq!(Complex(i32::MIN, i32::MIN).log2(), 63);
}

/// The phase view is the four-quadrant angle of the pair.
#[test]
fn arg_view() {
    assert_eq!(Complex(100, 0).arg(), 0);
    assert_eq!(Complex(0, 100).arg(), QUARTER_TURN);
    assert_eq!(Complex(0, -100).arg(), -QUARTER_TURN);
}
