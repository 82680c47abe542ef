//! Conversions between the converter hardware's offset-binary sample codes
//! and the core's signed, MSB-aligned fixed-point values. The converters
//! themselves belong to the excluded hardware layer; these functions fix the
//! numeric mapping of their codes.

use vstd::prelude::*;

verus! {

/// The signed value a raw input-converter code stands for, aligned to the top
/// of the 32-bit range.
pub open spec fn spec_adc_sample(raw: u16) -> i32 {
    let signed = if raw > 0x7FFF {
        raw - 0x1_0000
    } else {
        raw as int
    };
    (signed * 0x1_0000) as i32
}

/// Reinterpret a raw input-converter code as a signed sample and align it to
/// the top of the 32-bit range.
pub fn adc_sample(raw: u16) -> (r: i32)
    ensures
        r == spec_adc_sample(raw),
{
    let signed: i32 = if raw > 0x7FFF {
        (raw as i32) - 0x1_0000
    } else {
        raw as i32
    };
    signed * 0x1_0000
}

/// The offset-binary output-converter code of a signed full-range value: its
/// top sixteen bits, shifted to the code range's midpoint.
pub open spec fn spec_dac_code(v: i32) -> u16 {
    ((v >> 16u32) + 0x8000) as u16
}

/// Convert a signed full-range output value to the offset-binary code of the
/// output converter.
pub fn dac_code(v: i32) -> (r: u16)
    ensures
        r == spec_dac_code(v),
{
    proof {
        assert(-0x8000 <= (v >> 16u32) <= 0x7FFF) by (bit_vector);
    }
    let top: i32 = v >> 16u32;
    (top + 0x8000) as u16
}

} // verus!
