//! Stateless fixed-point trigonometric kernels on turn-scaled angles.
//!
//! An angle is an `i32` whose full range encodes one revolution: the value
//! wraps modulo `2^32` angle units, a quarter turn being `0x4000_0000` units.
//! `cossin` produces the unit vector of an angle with amplitude `FULL_SCALE`;
//! `atan2` recovers the angle of a vector. Both are total: every input is
//! valid, no branch depends on a data-dependent loop count, and the result is
//! a fixed polynomial evaluation of the reduced argument.

use vstd::arithmetic::div_mod::{lemma_div_by_multiple, lemma_div_is_ordered, lemma_div_pos_is_pos};
use vstd::prelude::*;

verus! {

/// Amplitude of the unit vector returned by `cossin`.
pub const FULL_SCALE: i32 = 0x7FFF_FFFF;

/// A quarter of a turn in angle units.
pub const QUARTER_TURN: i32 = 0x4000_0000;

// Fixed-point scale of the polynomial arguments: 30 fractional bits.
pub const Q30: u64 = 0x4000_0000;

// Fixed-point scale of the arctangent ratio argument: 20 fractional bits.
pub const Q20: u64 = 0x10_0000;

// Q30-scaled Taylor coefficients of sin(pi/2 * t) over t in [0, 1/2]:
// sin(pi/2 * t) = t * (S1 - t^2 * (S3 - t^2 * (S5 - t^2 * S7))).
pub const SIN_C1: u64 = 1686629713;

pub const SIN_C3: u64 = 693598668;

pub const SIN_C5: u64 = 85569306;

pub const SIN_C7: u64 = 5026995;

// Q30-scaled Taylor coefficients of cos(pi/2 * t) over t in [0, 1/2]:
// cos(pi/2 * t) = 1 - t^2 * (C2 - t^2 * (C4 - t^2 * (C6 - t^2 * C8))).
pub const COS_C2: u64 = 1324675879;

pub const COS_C4: u64 = 272375560;

pub const COS_C6: u64 = 22401992;

pub const COS_C8: u64 = 987048;

// Angle-unit-scaled coefficients of a degree-eleven odd polynomial for the
// arctangent of a ratio z in [0, 1], interpolated at Chebyshev nodes:
// atan(z) = z * (A1 - z^2 * (A3 - z^2 * (A5 - z^2 * (A7 - z^2 * (A9 - z^2 * A11))))),
// where a full turn of the result is 2^32 units.
pub const ATAN_C1: u64 = 683561745;

pub const ATAN_C3: u64 = 227597919;

pub const ATAN_C5: u64 = 133532146;

pub const ATAN_C7: u64 = 82334470;

pub const ATAN_C9: u64 = 38682949;

pub const ATAN_C11: u64 = 8975473;

/// Bounds of a scaled product: for factors within `[0, amax] x [0, bmax]`,
/// the product stays within `amax * bmax` and its quotient by a positive
/// scale is bounded by the scaled product of the bounds.
proof fn lemma_scaled_mul_le(a: int, b: int, amax: int, bmax: int, d: int)
    requires
        0 <= a <= amax,
        0 <= b <= bmax,
        0 < d,
    ensures
        0 <= a * b <= amax * bmax,
        0 <= (a * b) / d <= (amax * bmax) / d,
{
    assert(0 <= a * b <= amax * bmax) by (nonlinear_arith)
        requires
            0 <= a <= amax,
            0 <= b <= bmax,
    ;
    lemma_div_pos_is_pos(a * b, d);
    lemma_div_is_ordered(a * b, amax * bmax, d);
}

/// The sine kernel on the first half-quadrant: for `w` in Q30 quarter-turn
/// units up to half a quarter turn, the Q30 polynomial value of
/// `sin(pi/2 * w / 2^30)`, rescaled to amplitude `FULL_SCALE`.
pub open spec fn spec_sin_quarter(w: int) -> int {
    let t2 = (w * w) / (Q30 as int);
    let a5 = SIN_C5 - (SIN_C7 * t2) / (Q30 as int);
    let a3 = SIN_C3 - (a5 * t2) / (Q30 as int);
    let a1 = SIN_C1 - (a3 * t2) / (Q30 as int);
    let s = (w * a1) / (Q30 as int);
    (s * (FULL_SCALE as int)) / (Q30 as int)
}

/// The cosine kernel on the first half-quadrant, as `spec_sin_quarter`.
pub open spec fn spec_cos_quarter(w: int) -> int {
    let t2 = (w * w) / (Q30 as int);
    let a6 = COS_C6 - (COS_C8 * t2) / (Q30 as int);
    let a4 = COS_C4 - (a6 * t2) / (Q30 as int);
    let a2 = COS_C2 - (a4 * t2) / (Q30 as int);
    let c = (Q30 as int) - (t2 * a2) / (Q30 as int);
    (c * (FULL_SCALE as int)) / (Q30 as int)
}

fn sin_quarter(w: u32) -> (r: i32)
    requires
        w <= 0x2000_0000,
    ensures
        r == spec_sin_quarter(w as int),
        0 <= r <= FULL_SCALE,
{
    let w64: u64 = w as u64;
    proof {
        lemma_scaled_mul_le(w64 as int, w64 as int, 0x2000_0000, 0x2000_0000, Q30 as int);
    }
    let t2: u64 = (w64 * w64) / Q30;
    proof {
        lemma_scaled_mul_le(SIN_C7 as int, t2 as int, SIN_C7 as int, 0x1000_0000, Q30 as int);
    }
    let a5: u64 = SIN_C5 - (SIN_C7 * t2) / Q30;
    proof {
        lemma_scaled_mul_le(a5 as int, t2 as int, SIN_C5 as int, 0x1000_0000, Q30 as int);
    }
    let a3: u64 = SIN_C3 - (a5 * t2) / Q30;
    proof {
        lemma_scaled_mul_le(a3 as int, t2 as int, SIN_C3 as int, 0x1000_0000, Q30 as int);
    }
    let a1: u64 = SIN_C1 - (a3 * t2) / Q30;
    proof {
        lemma_scaled_mul_le(w64 as int, a1 as int, 0x2000_0000, SIN_C1 as int, Q30 as int);
    }
    let s: u64 = (w64 * a1) / Q30;
    proof {
        lemma_scaled_mul_le(s as int, FULL_SCALE as int, 0x4000_0000, FULL_SCALE as int, Q30 as int);
    }
    ((s * 0x7FFF_FFFFu64) / Q30) as i32
}

fn cos_quarter(w: u32) -> (r: i32)
    requires
        w <= 0x2000_0000,
    ensures
        r == spec_cos_quarter(w as int),
        0 <= r <= FULL_SCALE,
{
    let w64: u64 = w as u64;
    proof {
        lemma_scaled_mul_le(w64 as int, w64 as int, 0x2000_0000, 0x2000_0000, Q30 as int);
    }
    let t2: u64 = (w64 * w64) / Q30;
    proof {
        lemma_scaled_mul_le(COS_C8 as int, t2 as int, COS_C8 as int, 0x1000_0000, Q30 as int);
    }
    let a6: u64 = COS_C6 - (COS_C8 * t2) / Q30;
    proof {
        lemma_scaled_mul_le(a6 as int, t2 as int, COS_C6 as int, 0x1000_0000, Q30 as int);
    }
    let a4: u64 = COS_C4 - (a6 * t2) / Q30;
    proof {
        lemma_scaled_mul_le(a4 as int, t2 as int, COS_C4 as int, 0x1000_0000, Q30 as int);
    }
    let a2: u64 = COS_C2 - (a4 * t2) / Q30;
    proof {
        lemma_scaled_mul_le(t2 as int, a2 as int, 0x1000_0000, COS_C2 as int, Q30 as int);
    }
    let c: u64 = Q30 - (t2 * a2) / Q30;
    proof {
        lemma_scaled_mul_le(c as int, FULL_SCALE as int, 0x4000_0000, FULL_SCALE as int, Q30 as int);
    }
    ((c * 0x7FFF_FFFFu64) / Q30) as i32
}

/// The in-phase and quadrature components of the unit vector at a turn-scaled
/// angle: the quadrant comes from the top two bits of the angle, the kernel
/// polynomials cover the half-quadrant reduced argument, and symmetry supplies
/// the rest.
pub open spec fn spec_cossin(phase: i32) -> (i32, i32) {
    let u = phase as u32;
    let quad = u / 0x4000_0000;
    let w = u % 0x4000_0000;
    let cs = if w < 0x2000_0000 {
        (spec_cos_quarter(w as int), spec_sin_quarter(w as int))
    } else {
        (spec_sin_quarter(0x4000_0000 - w), spec_cos_quarter(0x4000_0000 - w))
    };
    if quad == 0 {
        (cs.0 as i32, cs.1 as i32)
    } else if quad == 1 {
        ((0 - cs.1) as i32, cs.0 as i32)
    } else if quad == 2 {
        ((0 - cs.0) as i32, (0 - cs.1) as i32)
    } else {
        (cs.1 as i32, (0 - cs.0) as i32)
    }
}

/// Combined cosine and sine of a turn-scaled angle: the local-oscillator
/// generator. Both components of the returned (cos, sin) pair have amplitude
/// `FULL_SCALE`; the evaluation runs the same fixed sequence of steps for
/// every input.
pub fn cossin(phase: i32) -> (r: (i32, i32))
    ensures
        r == spec_cossin(phase),
        -FULL_SCALE <= r.0 <= FULL_SCALE,
        -FULL_SCALE <= r.1 <= FULL_SCALE,
{
    let u: u32 = phase as u32;
    let quad: u32 = u / 0x4000_0000;
    let w: u32 = u % 0x4000_0000;
    let cs: (i32, i32) = if w < 0x2000_0000 {
        (cos_quarter(w), sin_quarter(w))
    } else {
        let wp: u32 = 0x4000_0000 - w;
        (sin_quarter(wp), cos_quarter(wp))
    };
    if quad == 0 {
        (cs.0, cs.1)
    } else if quad == 1 {
        (-cs.1, cs.0)
    } else if quad == 2 {
        (-cs.0, -cs.1)
    } else {
        (cs.1, -cs.0)
    }
}

/// The magnitude of a signed component, exact even at the type's minimum.
pub open spec fn spec_mag(v: i32) -> int {
    if v >= 0 {
        v as int
    } else {
        0 - v
    }
}

fn unsigned_mag(v: i32) -> (r: u32)
    ensures
        r == spec_mag(v),
{
    if v >= 0 {
        v as u32
    } else {
        let m: i64 = -(v as i64);
        m as u32
    }
}

/// The arctangent kernel: for a ratio `z` in Q20 units up to one, the angle
/// `atan(z)` in turn-scaled units (a full turn being `2^32` units).
pub open spec fn spec_atan_unit(z: int) -> int {
    let z2 = (z * z) / (Q20 as int);
    let a9 = ATAN_C9 - (ATAN_C11 * z2) / (Q20 as int);
    let a7 = ATAN_C7 - (a9 * z2) / (Q20 as int);
    let a5 = ATAN_C5 - (a7 * z2) / (Q20 as int);
    let a3 = ATAN_C3 - (a5 * z2) / (Q20 as int);
    let a1 = ATAN_C1 - (a3 * z2) / (Q20 as int);
    (z * a1) / (Q20 as int)
}

fn atan_unit(z: u32) -> (r: u32)
    requires
        z <= 0x10_0000,
    ensures
        r == spec_atan_unit(z as int),
        r <= 683561745,
{
    let z64: u64 = z as u64;
    proof {
        lemma_scaled_mul_le(z64 as int, z64 as int, Q20 as int, Q20 as int, Q20 as int);
    }
    let z2: u64 = (z64 * z64) / Q20;
    proof {
        lemma_scaled_mul_le(ATAN_C11 as int, z2 as int, ATAN_C11 as int, Q20 as int, Q20 as int);
    }
    let a9: u64 = ATAN_C9 - (ATAN_C11 * z2) / Q20;
    proof {
        lemma_scaled_mul_le(a9 as int, z2 as int, ATAN_C9 as int, Q20 as int, Q20 as int);
    }
    let a7: u64 = ATAN_C7 - (a9 * z2) / Q20;
    proof {
        lemma_scaled_mul_le(a7 as int, z2 as int, ATAN_C7 as int, Q20 as int, Q20 as int);
    }
    let a5: u64 = ATAN_C5 - (a7 * z2) / Q20;
    proof {
        lemma_scaled_mul_le(a5 as int, z2 as int, ATAN_C5 as int, Q20 as int, Q20 as int);
    }
    let a3: u64 = ATAN_C3 - (a5 * z2) / Q20;
    proof {
        lemma_scaled_mul_le(a3 as int, z2 as int, ATAN_C3 as int, Q20 as int, Q20 as int);
    }
    let a1: u64 = ATAN_C1 - (a3 * z2) / Q20;
    proof {
        lemma_scaled_mul_le(z64 as int, a1 as int, Q20 as int, ATAN_C1 as int, Q20 as int);
    }
    ((z64 * a1) / Q20) as u32
}

/// The turn-scaled angle of the vector `(x, y)`, before reduction into the
/// `i32` range: a value in `[0, 2^32)` angle units measured counterclockwise
/// from the positive x axis, with `spec_atan2_raw(0, 0) == 0`.
pub open spec fn spec_atan2_raw(y: i32, x: i32) -> int {
    let ay = spec_mag(y);
    let ax = spec_mag(x);
    let theta = if ay <= ax {
        if ax == 0 {
            0
        } else {
            spec_atan_unit((ay * (Q20 as int)) / ax)
        }
    } else {
        0x4000_0000 - spec_atan_unit((ax * (Q20 as int)) / ay)
    };
    if x >= 0 && y >= 0 {
        theta
    } else if x < 0 && y >= 0 {
        0x8000_0000 - theta
    } else if x < 0 {
        0x8000_0000 + theta
    } else if theta == 0 {
        0
    } else {
        0x1_0000_0000 - theta
    }
}

/// The turn-scaled angle of the vector `(x, y)`, reduced into the `i32` range.
pub open spec fn spec_atan2(y: i32, x: i32) -> i32 {
    let a = spec_atan2_raw(y, x);
    if a > i32::MAX {
        (a - 0x1_0000_0000) as i32
    } else {
        a as i32
    }
}

/// Four-quadrant arctangent on turn-scaled angles: the angle of the vector
/// `(x, y)`, wrapping at half a turn, with `atan2(0, 0) == 0`. Total for every
/// pair of inputs, with a fixed, input-independent sequence of steps.
pub fn atan2(y: i32, x: i32) -> (r: i32)
    ensures
        r == spec_atan2(y, x),
{
    let ay: u32 = unsigned_mag(y);
    let ax: u32 = unsigned_mag(x);
    let theta: u32 = if ay <= ax {
        if ax == 0 {
            0
        } else {
            proof {
                lemma_scaled_mul_le(ay as int, Q20 as int, ax as int, Q20 as int, ax as int);
                lemma_div_by_multiple(Q20 as int, ax as int);
            }
            atan_unit((((ay as u64) * Q20) / (ax as u64)) as u32)
        }
    } else {
        proof {
            lemma_scaled_mul_le(ax as int, Q20 as int, ay as int, Q20 as int, ay as int);
            lemma_div_by_multiple(Q20 as int, ay as int);
        }
        0x4000_0000 - atan_unit((((ax as u64) * Q20) / (ay as u64)) as u32)
    };
    let a: u64 = if x >= 0 && y >= 0 {
        theta as u64
    } else if x < 0 && y >= 0 {
        0x8000_0000 - (theta as u64)
    } else if x < 0 {
        0x8000_0000 + (theta as u64)
    } else if theta == 0 {
        0
    } else {
        0x1_0000_0000 - (theta as u64)
    };
    if a > 0x7FFF_FFFF {
        ((a as i64) - 0x1_0000_0000) as i32
    } else {
        a as i32
    }
}

} // verus!

