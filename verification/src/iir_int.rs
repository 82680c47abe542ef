//! Scaled-integer biquad IIR filter.
//!
//! A filter is split into an immutable, shareable coefficient set (`IIR`) and
//! a per-channel state vector (`Vec5`), so one filter shape can drive many
//! independent channels. Coefficients are Q30 fixed point: the unit
//! coefficient is `UNIT_COEFF`. The accumulator wraps modulo `2^64` by design,
//! while the output saturates to the configured clamp range.

use vstd::arithmetic::div_mod::{
    lemma_fundamental_div_mod, lemma_mod_multiples_vanish, lemma_small_mod,
};
use vstd::prelude::*;
use vstd::wrapping::i64_specs;

verus! {

/// The Q30 fixed-point representation of a coefficient of one.
pub const UNIT_COEFF: i32 = 0x4000_0000;

/// A five-element coefficient or state vector of a biquad section.
///
/// As coefficients the layout is `[b0, b1, b2, a1, a2]` of the difference
/// equation. As state the layout after a call is
/// `[x(n), x(n-1), y(n), y(n-1), y(n-2)]`.
#[derive(Clone, Copy, Debug, PartialEq, Eq)]
pub struct Vec5(pub [i32; 5]);

impl Default for Vec5 {
    /// A zeroed vector: quiescent filter state.
    fn default() -> (r: Vec5)
        ensures
            r.0@ =~= seq![0i32, 0i32, 0i32, 0i32, 0i32],
    {
        Vec5([0i32; 5])
    }
}

/// Biquad coefficients plus output offset and saturation range. Immutable
/// across calls and copyable by value; the clamp range must be non-empty.
#[derive(Clone, Copy, Debug, PartialEq, Eq)]
pub struct IIR {
    /// Q30 coefficients `[b0, b1, b2, a1, a2]`.
    pub ba: Vec5,
    /// Offset added to the output before clamping.
    pub y_offset: i32,
    /// Lower saturation bound of the output.
    pub y_min: i32,
    /// Upper saturation bound of the output.
    pub y_max: i32,
}

impl Default for IIR {
    /// Zero coefficients and offset with the widest clamp range.
    fn default() -> (r: IIR)
        ensures
            r.ba.0@ =~= seq![0i32, 0i32, 0i32, 0i32, 0i32],
            r.y_offset == 0,
            r.y_min == i32::MIN,
            r.y_max == i32::MAX,
    {
        IIR { ba: Vec5([0i32; 5]), y_offset: 0, y_min: i32::MIN, y_max: i32::MAX }
    }
}

/// The wrapped Q30 accumulator of the biquad difference equation, including
/// the half-up rounding bias: `2^29 + b0*x0 + b1*x1 + b2*x2 - a1*y1 - a2*y2`
/// reduced modulo `2^64`.
pub open spec fn spec_iir_accum(ba: Vec5, x0: i32, x1: i32, x2: i32, y1: i32, y2: i32) -> i64 {
    i64_specs::signed_crop(
        0x2000_0000 + ba.0@[0] * x0 + ba.0@[1] * x1 + ba.0@[2] * x2 - ba.0@[3] * y1 - ba.0@[4]
            * y2,
    )
}

/// The filter output for one input sample against a given history: the
/// accumulator scaled back from Q30, plus the output offset, saturated to the
/// clamp range.
pub open spec fn spec_iir_update(iir: IIR, x0: i32, x1: i32, x2: i32, y1: i32, y2: i32) -> i32 {
    let pre = (spec_iir_accum(iir.ba, x0, x1, x2, y1, y2) >> 30u32) + iir.y_offset;
    if pre < iir.y_min {
        iir.y_min
    } else if pre > iir.y_max {
        iir.y_max
    } else {
        pre as i32
    }
}

/// Reduction of an exact integer modulo `2^64` into the `i64` range.
proof fn lemma_crop64_in_range(v: int)
    requires
        i64::MIN <= v <= i64::MAX,
    ensures
        i64_specs::signed_crop(v) == v,
{
    if v >= 0 {
        lemma_small_mod(v as nat, 0x1_0000_0000_0000_0000);
    } else {
        lemma_small_mod((v + 0x1_0000_0000_0000_0000) as nat, 0x1_0000_0000_0000_0000);
        lemma_mod_multiples_vanish(1, v, 0x1_0000_0000_0000_0000);
    }
}

/// Reduction modulo `2^64` is invariant under adding whole multiples of `2^64`.
proof fn lemma_crop64_periodic(v: int, q: int)
    ensures
        i64_specs::signed_crop(v + q * 0x1_0000_0000_0000_0000) == i64_specs::signed_crop(v),
{
    lemma_mod_multiples_vanish(q, v, 0x1_0000_0000_0000_0000);
}

/// Wrapping addition on the accumulator agrees with reduction of the exact sum.
proof fn lemma_wrapping_add64_is_crop(a: i64, b: i64)
    ensures
        i64_specs::wrapping_add(a, b) == i64_specs::signed_crop(a + b),
{
    let v = a + b;
    if v > i64::MAX {
        lemma_small_mod(v as nat, 0x1_0000_0000_0000_0000);
    } else if v >= 0 {
        lemma_small_mod(v as nat, 0x1_0000_0000_0000_0000);
    } else {
        lemma_small_mod((v + 0x1_0000_0000_0000_0000) as nat, 0x1_0000_0000_0000_0000);
        lemma_mod_multiples_vanish(1, v, 0x1_0000_0000_0000_0000);
    }
}

/// Wrapping subtraction on the accumulator agrees with reduction of the exact
/// difference.
proof fn lemma_wrapping_sub64_is_crop(a: i64, b: i64)
    ensures
        i64_specs::wrapping_sub(a, b) == i64_specs::signed_crop(a - b),
{
    let v = a - b;
    if v >= 0 {
        lemma_small_mod(v as nat, 0x1_0000_0000_0000_0000);
    } else {
        lemma_small_mod((v + 0x1_0000_0000_0000_0000) as nat, 0x1_0000_0000_0000_0000);
        lemma_mod_multiples_vanish(1, v, 0x1_0000_0000_0000_0000);
    }
}

/// Reducing an already-reduced value and an offset together agrees with
/// reducing the exact sum.
proof fn lemma_crop64_add(v: int, w: int)
    ensures
        i64_specs::signed_crop(i64_specs::signed_crop(v) + w) == i64_specs::signed_crop(v + w),
{
    lemma_fundamental_div_mod(v, 0x1_0000_0000_0000_0000);
    let q = v / 0x1_0000_0000_0000_0000;
    if v % 0x1_0000_0000_0000_0000 > i64::MAX {
        lemma_crop64_periodic(i64_specs::signed_crop(v) + w, q + 1);
    } else {
        lemma_crop64_periodic(i64_specs::signed_crop(v) + w, q);
    }
}

/// The product of two `i32` values stays well inside the `i64` range.
pub proof fn lemma_i32_prod_bounds(a: i32, b: i32)
    ensures
        -0x4000_0000_0000_0000 <= a * b <= 0x4000_0000_0000_0000,
{
    assert(-0x4000_0000_0000_0000 <= (a as int) * (b as int) <= 0x4000_0000_0000_0000)
        by (nonlinear_arith)
        requires
            -0x8000_0000 <= a <= 0x7FFF_FFFF,
            -0x8000_0000 <= b <= 0x7FFF_FFFF,
    ;
}

/// Scaling the accumulator back from Q30 lands within an `i64` comfortably.
proof fn lemma_i64_shr30_bounds(v: i64)
    ensures
        -0x2_0000_0000 <= (v >> 30u32) <= 0x2_0000_0000,
{
    assert(-0x2_0000_0000 <= (v >> 30u32) <= 0x2_0000_0000) by (bit_vector);
}

impl IIR {
    /// A filter shape from explicit Q30 coefficients, output offset and clamp
    /// bounds.
    pub fn new(ba: Vec5, y_offset: i32, y_min: i32, y_max: i32) -> (r: IIR)
        ensures
            r == (IIR { ba, y_offset, y_min, y_max }),
    {
        IIR { ba, y_offset, y_min, y_max }
    }

    /// Feed one input sample through the biquad against the channel state
    /// `xy`, returning the new output.
    ///
    /// The output is the Q30-scaled difference equation
    /// `b0*x(n) + b1*x(n-1) + b2*x(n-2) - a1*y(n-1) - a2*y(n-2)`, rounded half
    /// up, plus the output offset, saturated to `[y_min, y_max]`. The state
    /// shifts in the new input and the post-clamp output, so every future
    /// recursive term also lies within the clamp range.
    pub fn update(&self, xy: &mut Vec5, x0: i32) -> (y: i32)
        requires
            self.y_min <= self.y_max,
        ensures
            y == spec_iir_update(*self, x0, old(xy).0@[0], old(xy).0@[1], old(xy).0@[2], old(
                xy,
            ).0@[3]),
            self.y_min <= y <= self.y_max,
            final(xy).0@ =~= seq![
                x0,
                old(xy).0@[0],
                y,
                old(xy).0@[2],
                old(xy).0@[3],
            ],
    {
        let x1: i32 = xy.0[0];
        let x2: i32 = xy.0[1];
        let y1: i32 = xy.0[2];
        let y2: i32 = xy.0[3];
        let b0: i32 = self.ba.0[0];
        let b1: i32 = self.ba.0[1];
        let b2: i32 = self.ba.0[2];
        let a1: i32 = self.ba.0[3];
        let a2: i32 = self.ba.0[4];
        proof {
            lemma_i32_prod_bounds(b0, x0);
            lemma_i32_prod_bounds(b1, x1);
            lemma_i32_prod_bounds(b2, x2);
            lemma_i32_prod_bounds(a1, y1);
            lemma_i32_prod_bounds(a2, y2);
        }
        let mut acc: i64 = 0x2000_0000;
        acc = acc.wrapping_add((b0 as i64) * (x0 as i64));
        acc = acc.wrapping_add((b1 as i64) * (x1 as i64));
        acc = acc.wrapping_add((b2 as i64) * (x2 as i64));
        acc = acc.wrapping_sub((a1 as i64) * (y1 as i64));
        acc = acc.wrapping_sub((a2 as i64) * (y2 as i64));
        proof {
            let exact = 0x2000_0000 + b0 * x0 + b1 * x1 + b2 * x2 - a1 * y1 - a2 * y2;
            lemma_crop64_in_range(0x2000_0000);
            lemma_wrapping_add64_is_crop(0x2000_0000, ((b0 as i64) * (x0 as i64)) as i64);
            lemma_wrapping_add64_is_crop(
                i64_specs::signed_crop(0x2000_0000 + b0 * x0),
                ((b1 as i64) * (x1 as i64)) as i64,
            );
            lemma_crop64_add(0x2000_0000 + b0 * x0, b1 * x1);
            lemma_wrapping_add64_is_crop(
                i64_specs::signed_crop(0x2000_0000 + b0 * x0 + b1 * x1),
                ((b2 as i64) * (x2 as i64)) as i64,
            );
            lemma_crop64_add(0x2000_0000 + b0 * x0 + b1 * x1, b2 * x2);
            lemma_wrapping_sub64_is_crop(
                i64_specs::signed_crop(0x2000_0000 + b0 * x0 + b1 * x1 + b2 * x2),
                ((a1 as i64) * (y1 as i64)) as i64,
            );
            lemma_crop64_add(0x2000_0000 + b0 * x0 + b1 * x1 + b2 * x2, -(a1 * y1));
            lemma_wrapping_sub64_is_crop(
                i64_specs::signed_crop(0x2000_0000 + b0 * x0 + b1 * x1 + b2 * x2 - a1 * y1),
                ((a2 as i64) * (y2 as i64)) as i64,
            );
            lemma_crop64_add(0x2000_0000 + b0 * x0 + b1 * x1 + b2 * x2 - a1 * y1, -(a2 * y2));
            assert(acc == spec_iir_accum(self.ba, x0, x1, x2, y1, y2));
            lemma_i64_shr30_bounds(acc);
        }
        let shifted: i64 = acc >> 30u32;
        let pre: i64 = shifted + (self.y_offset as i64);
        let y: i32 = if pre < (self.y_min as i64) {
            self.y_min
        } else if pre > (self.y_max as i64) {
            self.y_max
        } else {
            pre as i32
        };
        xy.0 = [x0, x1, y, y1, y2];
        y
    }
}

/// Law: the filter evaluates the biquad difference equation directly.
/// Whenever the rounded accumulator of the difference equation lies within
/// the 64-bit range — every case except deliberately extreme coefficient and
/// state combinations — the wrapped accumulator the output is computed from
/// is exactly `2^29 + b0*x0 + b1*x1 + b2*x2 - a1*y1 - a2*y2`.
pub proof fn lemma_accum_is_difference_equation(ba: Vec5, x0: i32, x1: i32, x2: i32, y1: i32, y2: i32)
    requires
        i64::MIN <= 0x2000_0000 + ba.0@[0] * x0 + ba.0@[1] * x1 + ba.0@[2] * x2 - ba.0@[3] * y1
            - ba.0@[4] * y2 <= i64::MAX,
    ensures
        spec_iir_accum(ba, x0, x1, x2, y1, y2) == 0x2000_0000 + ba.0@[0] * x0 + ba.0@[1] * x1
            + ba.0@[2] * x2 - ba.0@[3] * y1 - ba.0@[4] * y2,
{
    lemma_crop64_in_range(
        0x2000_0000 + ba.0@[0] * x0 + ba.0@[1] * x1 + ba.0@[2] * x2 - ba.0@[3] * y1 - ba.0@[4]
            * y2,
    );
}

/// Law: the identity configuration — a unit `b0`, all other coefficients
/// zero, zero offset, and the widest clamp range — reproduces the input
/// exactly for every input and every channel state.
pub proof fn lemma_identity_passthrough(x0: i32, x1: i32, x2: i32, y1: i32, y2: i32)
    ensures
        ({
            let iir = IIR {
                ba: Vec5([UNIT_COEFF, 0i32, 0i32, 0i32, 0i32]),
                y_offset: 0,
                y_min: i32::MIN,
                y_max: i32::MAX,
            };
            spec_iir_update(iir, x0, x1, x2, y1, y2) == x0
        }),
{
    let iir = IIR {
        ba: Vec5([UNIT_COEFF, 0i32, 0i32, 0i32, 0i32]),
        y_offset: 0,
        y_min: i32::MIN,
        y_max: i32::MAX,
    };
    let exact = 0x2000_0000 + (UNIT_COEFF as int) * x0;
    assert(iir.ba.0@[0] == UNIT_COEFF);
    assert(-0x4000_0000_0000_0000 <= (UNIT_COEFF as int) * x0 <= 0x4000_0000_0000_0000)
        by (nonlinear_arith)
        requires
            -0x8000_0000 <= x0 <= 0x7FFF_FFFF,
    ;
    lemma_crop64_in_range(exact);
    let acc = spec_iir_accum(iir.ba, x0, x1, x2, y1, y2);
    assert(acc == 0x2000_0000 + (UNIT_COEFF as int) * x0);
    let v: i64 = x0 as i64;
    assert(acc == 0x2000_0000 + v * 0x4000_0000);
    assert(acc >> 30u32 == v) by (bit_vector)
        requires
            acc == 0x2000_0000 + v * 0x4000_0000,
            -0x8000_0000 <= v <= 0x7FFF_FFFF,
    ;
}

} // verus!
