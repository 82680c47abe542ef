//! Reciprocal phase-locked loop: tracks a reference whose edges arrive as
//! sparse timestamps, measuring frequency as the reciprocal of the inter-edge
//! interval for high resolution at reference frequencies far below the sample
//! rate.

use crate::accu::{lemma_wrap_angle_add, lemma_wrapping_add_is_wrap, wrap_angle};
use vstd::prelude::*;
use vstd::wrapping::{i32_specs, u32_specs, u64_specs};

verus! {

/// Reduction of a wide counter value into the turn-scaled `i32` angle range.
pub open spec fn wrap_u64_to_i32(v: u64) -> i32 {
    let m = v % 0x1_0000_0000;
    if m > i32::MAX {
        (m - 0x1_0000_0000) as i32
    } else {
        m as i32
    }
}

/// Reciprocal phase-locked loop state. The phase and frequency estimates are
/// turn scaled; `dt2` fixes the window size as a power of two of counter
/// ticks, scaling the loop's internal units to the sampling cadence.
pub struct RPLL {
    /// Log2 of the number of reference-counter ticks per update window.
    pub dt2: u32,
    /// Timestamp of the most recent captured edge.
    pub x: i32,
    /// Smoothed frequency estimate: the phase increment per window.
    pub f: i32,
    /// Smoothed phase estimate, turn scaled.
    pub y: i32,
}

/// The window-size exponent leaves room for the turn scale in a 64-bit
/// intermediate.
pub open spec fn rpll_wf(r: RPLL) -> bool {
    r.dt2 <= 30
}

/// The holdover transition: with no new edge, the frequency estimate is kept
/// and the phase estimate advances open loop by one window's increment.
pub open spec fn spec_rpll_holdover(r: RPLL) -> RPLL {
    RPLL { dt2: r.dt2, x: r.x, f: r.f, y: i32_specs::wrapping_add(r.y, r.f) }
}

/// The measurement transition for a captured edge at tick `t`.
///
/// The inter-edge interval `dx` gives the instantaneous frequency as the
/// reciprocal `2^(32 + dt2) / dx`: one full turn per `dx` ticks, scaled to
/// phase increment per window. The measured phase at the window end is the
/// tick distance from the edge to the next window boundary times that
/// frequency, the edge itself marking phase zero. Both estimates are smoothed
/// exponentially as in the continuous loop. An interval that is not positive
/// (a counter wrap or a repeated tick) yields no usable measurement and only
/// records the timestamp.
pub open spec fn spec_rpll_measure(r: RPLL, t: i32, shift_frequency: u32, shift_phase: u32) -> RPLL {
    let yadv = i32_specs::wrapping_add(r.y, r.f);
    let dx = i32_specs::wrapping_sub(t, r.x);
    if dx <= 0 {
        RPLL { dt2: r.dt2, x: t, f: r.f, y: yadv }
    } else {
        let fi_wide = (1u64 << ((32 + r.dt2) as u64)) / (dx as u64);
        let fi = wrap_u64_to_i32(fi_wide);
        let dt = u32_specs::wrapping_sub(0u32, t as u32) % (1u32 << r.dt2);
        let ym = wrap_u64_to_i32(u64_specs::wrapping_mul(fi_wide, dt as u64) >> r.dt2);
        let f2 = i32_specs::wrapping_add(r.f, i32_specs::wrapping_sub(fi, r.f) >> shift_frequency);
        let y2 = i32_specs::wrapping_add(yadv, i32_specs::wrapping_sub(ym, yadv) >> shift_phase);
        RPLL { dt2: r.dt2, x: t, f: f2, y: y2 }
    }
}

/// The state after `k` consecutive holdover windows.
pub open spec fn spec_rpll_holdover_n(r: RPLL, k: nat) -> RPLL
    decreases k,
{
    if k == 0 {
        r
    } else {
        spec_rpll_holdover(spec_rpll_holdover_n(r, (k - 1) as nat))
    }
}

impl RPLL {
    /// A cold-started loop for windows of `2^dt2` counter ticks: prior to the
    /// first captured edge both estimates are zero.
    pub fn new(dt2: u32) -> (r: RPLL)
        requires
            dt2 <= 30,
        ensures
            r.dt2 == dt2,
            r.x == 0,
            r.f == 0,
            r.y == 0,
            rpll_wf(r),
    {
        RPLL { dt2, x: 0, f: 0, y: 0 }
    }

    /// Advance the loop by one sampling window.
    ///
    /// With a captured edge timestamp the loop measures the instantaneous
    /// frequency by reciprocal counting and smooths both estimates with
    /// weights `2^-shift_frequency` and `2^-shift_phase`. With no timestamp it
    /// holds over: the frequency estimate is preserved exactly and the phase
    /// estimate advances by it. When several edges fall into one window, the
    /// caller hands in only the most recent capture; the earlier ones are
    /// discarded, a documented precision limitation. Returns the updated
    /// (phase, frequency) pair.
    pub fn update(&mut self, input: Option<i32>, shift_frequency: u32, shift_phase: u32) -> (r: (
        i32,
        i32,
    ))
        requires
            rpll_wf(*old(self)),
            shift_frequency < 32,
            shift_phase < 32,
        ensures
            input is None ==> *final(self) == spec_rpll_holdover(*old(self)),
            input matches Some(t) ==> *final(self) == spec_rpll_measure(
                *old(self),
                t,
                shift_frequency,
                shift_phase,
            ),
            r == (final(self).y, final(self).f),
            rpll_wf(*final(self)),
    {
        self.y = self.y.wrapping_add(self.f);
        if let Some(t) = input {
            let dx: i32 = t.wrapping_sub(self.x);
            self.x = t;
            if dx > 0 {
                let dt2: u32 = self.dt2;
                let fi_wide: u64 = (1u64 << ((32 + dt2) as u64)) / (dx as u64);
                let fi: i32 = wrap_wide(fi_wide);
                proof {
                    assert((1u32 << dt2) > 0) by (bit_vector)
                        requires
                            dt2 <= 30u32,
                    ;
                }
                let dt: u32 = 0u32.wrapping_sub(t as u32) % (1u32 << dt2);
                let ym: i32 = wrap_wide(fi_wide.wrapping_mul(dt as u64) >> dt2);
                self.f = self.f.wrapping_add(fi.wrapping_sub(self.f) >> shift_frequency);
                self.y = self.y.wrapping_add(ym.wrapping_sub(self.y) >> shift_phase);
            }
        }
        (self.y, self.f)
    }
}

/// Reduce a wide counter value into the turn-scaled angle range.
fn wrap_wide(v: u64) -> (r: i32)
    ensures
        r == wrap_u64_to_i32(v),
{
    let m: u64 = v % 0x1_0000_0000;
    if m > 0x7FFF_FFFF {
        ((m as i64) - 0x1_0000_0000) as i32
    } else {
        m as i32
    }
}

/// Law: holdover leaves the frequency estimate exactly unchanged, and after
/// `k` windows without an edge the phase estimate has advanced to
/// `y + k * f` reduced modulo one turn: a linear open-loop extrapolation by
/// the held frequency.
pub proof fn lemma_rpll_holdover_n(r: RPLL, k: nat)
    ensures
        spec_rpll_holdover_n(r, k).f == r.f,
        spec_rpll_holdover_n(r, k).x == r.x,
        spec_rpll_holdover_n(r, k).dt2 == r.dt2,
        spec_rpll_holdover_n(r, k).y == wrap_angle(r.y + k * r.f),
    decreases k,
{
    if k == 0 {
        lemma_wrapping_add_is_wrap(r.y, 0);
        assert(wrap_angle(r.y + 0 * r.f) == wrap_angle(r.y as int));
        assert(i32_specs::wrapping_add(r.y, 0) == r.y);
    } else {
        lemma_rpll_holdover_n(r, (k - 1) as nat);
        let prev = spec_rpll_holdover_n(r, (k - 1) as nat);
        lemma_wrapping_add_is_wrap(prev.y, r.f);
        lemma_wrap_angle_add(r.y + (k - 1) * r.f, r.f as int);
        assert(r.y + (k - 1) * r.f + r.f == r.y + k * r.f) by (nonlinear_arith);
    }
}

} // verus!
