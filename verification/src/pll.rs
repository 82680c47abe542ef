//! Phase-locked loop: tracks the phase and frequency of a reference signal by
//! exponentially smoothing a per-sample phase measurement.

use crate::accu::{
    lemma_wrap_angle_add, lemma_wrap_angle_in_range, lemma_wrap_angle_sub,
    lemma_wrapping_add_is_wrap, lemma_wrapping_sub_is_wrap,
};
use vstd::prelude::*;
use vstd::wrapping::i32_specs;

verus! {

/// The state transition of one PLL update: from a (phase, frequency) estimate
/// and a measured phase, the error against the predicted phase drives both
/// estimates with smoothing weights `2^-shift_frequency` and `2^-shift_phase`.
/// The pair returned is (new phase estimate, new frequency estimate).
pub open spec fn spec_pll_update(y: i32, f: i32, x: i32, shift_frequency: u32, shift_phase: u32) -> (
    i32,
    i32,
) {
    let predicted = i32_specs::wrapping_add(y, f);
    let e = i32_specs::wrapping_sub(x, predicted);
    (
        i32_specs::wrapping_add(predicted, e >> shift_phase),
        i32_specs::wrapping_add(f, e >> shift_frequency),
    )
}

/// Type-2 phase-locked loop over turn-scaled angles. The state holds the
/// smoothed phase and frequency estimates; all angle arithmetic wraps modulo
/// one turn by design. Cold start leaves both estimates at zero.
pub struct PLL {
    /// Smoothed phase estimate, turn scaled.
    pub y: i32,
    /// Smoothed frequency estimate: the expected per-update phase increment.
    pub f: i32,
}

impl Default for PLL {
    /// Cold start: both estimates zero.
    fn default() -> (r: PLL)
        ensures
            r.y == 0,
            r.f == 0,
    {
        PLL { y: 0, f: 0 }
    }
}

impl PLL {
    /// Advance the loop by one sampling window given the measured phase `x`.
    ///
    /// The frequency error is the difference between the measured phase and
    /// the phase predicted from the previous estimates; it is applied to the
    /// frequency estimate with weight `2^-shift_frequency` and to the phase
    /// estimate with weight `2^-shift_phase`. Returns the updated
    /// (phase, frequency) pair. Never fails: all arithmetic wraps.
    ///
    /// Degenerate smoothing parameters (for example both shifts zero) are a
    /// caller misconfiguration; any shift below the width of the angle type is
    /// accepted.
    pub fn update(&mut self, x: i32, shift_frequency: u32, shift_phase: u32) -> (r: (i32, i32))
        requires
            shift_frequency < 32,
            shift_phase < 32,
        ensures
            r == spec_pll_update(old(self).y, old(self).f, x, shift_frequency, shift_phase),
            final(self).y == r.0,
            final(self).f == r.1,
    {
        let predicted: i32 = self.y.wrapping_add(self.f);
        let e: i32 = x.wrapping_sub(predicted);
        self.f = self.f.wrapping_add(e >> shift_frequency);
        self.y = predicted.wrapping_add(e >> shift_phase);
        (self.y, self.f)
    }
}

/// Law: a locked loop stays locked. If the phase estimate equals the reference
/// phase and the frequency estimate equals the reference's constant per-window
/// increment, then an update with the next reference phase reproduces that
/// phase exactly and leaves the frequency estimate unchanged, for every
/// starting phase, increment and pair of smoothing shifts.
pub proof fn lemma_pll_locked(y: i32, df: i32, shift_frequency: u32, shift_phase: u32)
    requires
        shift_frequency < 32,
        shift_phase < 32,
    ensures
        ({
            let x = i32_specs::wrapping_add(y, df);
            spec_pll_update(y, df, x, shift_frequency, shift_phase) == (x, df)
        }),
{
    let x = i32_specs::wrapping_add(y, df);
    let e = i32_specs::wrapping_sub(x, x);
    assert(e == 0);
    assert(0i32 >> shift_frequency == 0 && 0i32 >> shift_phase == 0) by (bit_vector);
}

/// Law: the phase estimate tracks with bounded, shrinking lag. If the
/// frequency estimate matches the reference increment and the measured phase
/// leads the prediction by an error `e` too small to disturb the frequency
/// loop, then one update keeps the frequency estimate and reduces the phase
/// error to `e - (e >> shift_phase)`: never negative, never larger than `e`,
/// and strictly smaller whenever `e` reaches `2^shift_phase`.
pub proof fn lemma_pll_phase_error_shrinks(
    y: i32,
    f: i32,
    e: i32,
    shift_frequency: u32,
    shift_phase: u32,
)
    requires
        shift_frequency < 32,
        shift_phase < 32,
        0 <= e < (1i32 << shift_frequency),
    ensures
        ({
            let x = i32_specs::wrapping_add(i32_specs::wrapping_add(y, f), e);
            let r = spec_pll_update(y, f, x, shift_frequency, shift_phase);
            &&& r.1 == f
            &&& i32_specs::wrapping_sub(x, r.0) == e - (e >> shift_phase)
            &&& 0 <= e - (e >> shift_phase) <= e
            &&& (shift_phase <= 30 && e >= (1i32 << shift_phase) ==> e - (e >> shift_phase) < e)
        }),
{
    let p = i32_specs::wrapping_add(y, f);
    let x = i32_specs::wrapping_add(p, e);
    // The measured error recovered inside the update is exactly e.
    lemma_wrapping_add_is_wrap(p, e);
    lemma_wrapping_sub_is_wrap(x, p);
    lemma_wrap_angle_add(p + e, -(p as int));
    lemma_wrap_angle_in_range(e as int);
    let em = i32_specs::wrapping_sub(x, p);
    assert(em == e);
    // The error is too small to move the frequency estimate.
    assert(e >> shift_frequency == 0) by (bit_vector)
        requires
            0 <= e < (1i32 << shift_frequency),
            shift_frequency < 32u32,
    ;
    lemma_wrapping_add_is_wrap(f, 0);
    lemma_wrap_angle_in_range(f as int);
    // The scaled correction lies between zero and the error.
    assert(0 <= (e >> shift_phase) <= e) by (bit_vector)
        requires
            0 <= e,
            shift_phase < 32u32,
    ;
    assert(shift_phase <= 30 && e >= (1i32 << shift_phase) ==> (e >> shift_phase) >= 1)
        by (bit_vector)
        requires
            0 <= e,
            shift_phase < 32u32,
    ;
    // The remaining lag after the phase correction.
    let s = e >> shift_phase;
    let y2 = i32_specs::wrapping_add(p, s);
    lemma_wrapping_sub_is_wrap(x, y2);
    lemma_wrap_angle_add(p + e, -(y2 as int));
    lemma_wrapping_add_is_wrap(p, s);
    lemma_wrap_angle_sub(p + s, p + e);
    lemma_wrap_angle_in_range(e - s);
}

} // verus!
