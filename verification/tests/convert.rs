//! Tests of the converter code mappings and the local-oscillator setup.

use lockin_dsp::convert::{adc_sample, dac_code};
use lockin_dsp::lockin::lo_parameters;

/// Raw input codes map to signed, MSB-aligned values.
#[test]
fn adc_sample_alignment() {
    assert_eq!(adc_sample(0), 0);
    assert_eq!(adc_sample(1), 0x1_0000);
    assert_eq!(adc_sample(0x7FFF), 0x7FFF_0000);
    assert_eq!(adc_sample(0x8000), i32::MIN);
    assert_eq!(adc_sample(0xFFFF), -0x1_0000);
}

/// Signed outputs map to offset-binary converter codes.
#[test]
fn dac_code_offset_binary() {
    assert_eq!(dac_code(0), 0x8000);
    assert_eq!(dac_code(i32::MAX), 0xFFFF);
    assert_eq!(dac_code(i32::MIN), 0x0000);
    assert_eq!(dac_code(0x1_0000), 0x8001);
    assert_eq!(dac_code(-0x1_0000), 0x7FFF);
}

/// The round trip from code to value and back is the identity.
#[test]
fn adc_dac_round_trip() {
    for raw in [0u16, 1, 0x1234, 0x7FFF, 0x8000, 0xCAFE, 0xFFFF] {
        assert_eq!(dac_code(adc_sample(raw)) ^ 0x8000, raw);
    }
}

/// The local-oscillator setup: offset plus harmonic multiple of the phase,
/// and the per-sample frequency scaled from the per-window estimate.
#[test]
fn lo_parameters_values() {
    let (phase, freq) = lo_parameters(0x0100_0000, 0x0800_0000, -1, 0x0010_0000, 3);
    assert_eq!(phase, 0x0010_0000i32.wrapping_sub(0x0100_0000));
    assert_eq!(freq, -(0x0800_0000 >> 3));
    // Wrapping is silent by design.
    let (phase2, _) = lo_parameters(i32::MAX, 0, 3, 1, 0);
    assert_eq!(phase2, 1i32.wrapping_add(i32::MAX.wrapping_mul(3)));
}
