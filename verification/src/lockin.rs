//! Lock-in demodulator: mixes a raw sample with a local oscillator derived
//! from the trigonometric kernels and lowpass-filters the in-phase and
//! quadrature products.

use crate::iir_int::{spec_iir_update, Vec5, IIR};
use crate::trig::{atan2, cossin, spec_atan2, spec_cossin};
use vstd::prelude::*;
use vstd::wrapping::i32_specs;

verus! {

/// A demodulated baseband sample: in-phase and quadrature components.
#[derive(Clone, Copy, Debug, PartialEq, Eq)]
pub struct Complex(pub i32, pub i32);

/// The squared magnitude of an I/Q pair scaled down by `2^32`, saturated to
/// the `i32` range.
pub open spec fn spec_power(c: Complex) -> i32 {
    let p = (c.0 * c.0 + c.1 * c.1) / 0x1_0000_0000;
    if p > i32::MAX {
        i32::MAX
    } else {
        p as i32
    }
}

/// The position of the highest set bit of `v`: the floor of its base-two
/// logarithm, with zero mapped to zero.
pub open spec fn spec_floor_log2(v: nat) -> nat
    decreases v,
{
    if v <= 1 {
        0
    } else {
        1 + spec_floor_log2(v / 2)
    }
}

impl Complex {
    /// The power view: squared magnitude of the I/Q pair, scaled down by
    /// `2^32` and saturated to the `i32` range.
    pub fn power(&self) -> (r: i32)
        ensures
            r == spec_power(*self),
            r >= 0,
    {
        let re: i64 = self.0 as i64;
        let im: i64 = self.1 as i64;
        proof {
            crate::iir_int::lemma_i32_prod_bounds(self.0, self.0);
            crate::iir_int::lemma_i32_prod_bounds(self.1, self.1);
            assert(re * re >= 0 && im * im >= 0) by (nonlinear_arith);
        }
        let p: u64 = ((re * re) as u64) + ((im * im) as u64);
        let s: u64 = p / 0x1_0000_0000;
        if s > 0x7FFF_FFFF {
            i32::MAX
        } else {
            s as i32
        }
    }

    /// The log-magnitude view: the floor of the base-two logarithm of the
    /// squared magnitude `re^2 + im^2`, with the zero vector mapped to zero.
    pub fn log2(&self) -> (r: u32)
        ensures
            r == spec_floor_log2(((self.0 * self.0 + self.1 * self.1) as nat)),
            r <= 63,
    {
        let re: i64 = self.0 as i64;
        let im: i64 = self.1 as i64;
        proof {
            crate::iir_int::lemma_i32_prod_bounds(self.0, self.0);
            crate::iir_int::lemma_i32_prod_bounds(self.1, self.1);
            assert(re * re >= 0 && im * im >= 0) by (nonlinear_arith);
        }
        let p: u64 = ((re * re) as u64) + ((im * im) as u64);
        let mut v: u64 = p;
        let mut r: u32 = 0;
        while v >= 2
            invariant
                spec_floor_log2(p as nat) == r + spec_floor_log2(v as nat),
                v <= p,
                r <= 63,
            decreases v,
        {
            proof {
                assert(v / 2 >= 1);
                if r >= 63 {
                    // Each loop round halves v, so v < 2^64 admits at most 63 rounds.
                    assert(spec_floor_log2(p as nat) <= 63) by {
                        lemma_floor_log2_bound(p as nat);
                    }
                    assert(spec_floor_log2(v as nat) >= 1);
                    assert(false);
                }
            }
            v = v / 2;
            r = r + 1;
        }
        r
    }

    /// The phase view: the turn-scaled angle of the I/Q pair.
    pub fn arg(&self) -> (r: i32)
        ensures
            r == spec_atan2(self.1, self.0),
    {
        atan2(self.1, self.0)
    }
}

/// The floor logarithm never exceeds the bit width of the value.
proof fn lemma_floor_log2_bound(v: nat)
    requires
        v < 0x1_0000_0000_0000_0000,
    ensures
        spec_floor_log2(v) <= 63,
{
    vstd::arithmetic::power2::lemma2_to64_rest();
    lemma_floor_log2_pow_bound(v, 63);
}

/// A value below `2^(n + 1)` has floor logarithm at most `n`.
proof fn lemma_floor_log2_pow_bound(v: nat, n: nat)
    requires
        v < vstd::arithmetic::power2::pow2(n + 1),
    ensures
        spec_floor_log2(v) <= n,
    decreases n,
{
    if v > 1 {
        vstd::arithmetic::power2::lemma_pow2_unfold(n + 1);
        if n == 0 {
            vstd::arithmetic::power2::lemma2_to64();
        } else {
            lemma_floor_log2_pow_bound(v / 2, (n - 1) as nat);
        }
    }
}

/// The mixing product of a sample with one local-oscillator component:
/// the full-width product scaled down by `2^32` with flooring, a value that
/// always fits the baseband range.
pub open spec fn spec_mix(a: i32, b: i32) -> int {
    (((a * b) as i64) >> 32u32) as int
}

fn mix(a: i32, b: i32) -> (r: i32)
    ensures
        r == spec_mix(a, b),
        -0x4000_0000 <= r <= 0x4000_0000,
{
    proof {
        crate::iir_int::lemma_i32_prod_bounds(a, b);
    }
    let p: i64 = (a as i64) * (b as i64);
    proof {
        assert(-0x4000_0000 <= (p >> 32u32) <= 0x4000_0000) by (bit_vector)
            requires
                -0x4000_0000_0000_0000 <= p <= 0x4000_0000_0000_0000,
        ;
    }
    let s: i64 = p >> 32u32;
    s as i32
}

/// The local-oscillator parameters for one sample block: the starting phase
/// is the configured demodulation offset plus the harmonic multiple of the
/// tracked phase estimate, and the per-sample frequency is the per-window
/// frequency estimate scaled down to one sample and multiplied by the
/// harmonic index. A harmonic of minus one demodulates the fundamental
/// against the complex conjugate of the oscillator. All angle arithmetic
/// wraps by design.
pub fn lo_parameters(
    pll_phase: i32,
    pll_frequency: i32,
    harmonic: i32,
    phase_offset: i32,
    buffer_size_log2: u32,
) -> (r: (i32, i32))
    requires
        buffer_size_log2 < 32,
    ensures
        r.0 == i32_specs::wrapping_add(
            phase_offset,
            i32_specs::wrapping_mul(pll_phase, harmonic),
        ),
        r.1 == i32_specs::wrapping_mul(pll_frequency >> buffer_size_log2, harmonic),
{
    let sample_phase: i32 = phase_offset.wrapping_add(pll_phase.wrapping_mul(harmonic));
    let sample_frequency: i32 = (pll_frequency >> buffer_size_log2).wrapping_mul(harmonic);
    (sample_phase, sample_frequency)
}

/// Lock-in demodulator with a biquad lowpass whose coefficients are fixed at
/// construction. The two channel states persist across calls; replacing the
/// coefficients mid-stream is a caller decision and does not reset them.
pub struct Lockin {
    /// The shared lowpass shape applied to both channels.
    pub iir: IIR,
    /// Filter state of the in-phase channel.
    pub state_i: Vec5,
    /// Filter state of the quadrature channel.
    pub state_q: Vec5,
}

impl Lockin {
    /// A demodulator with the given Q30 lowpass coefficients and quiescent
    /// filter state.
    pub fn new(ba: &Vec5) -> (r: Lockin)
        ensures
            r.iir == (IIR { ba: *ba, y_offset: 0, y_min: i32::MIN, y_max: i32::MAX }),
            r.state_i.0@ =~= seq![0i32, 0i32, 0i32, 0i32, 0i32],
            r.state_q.0@ =~= seq![0i32, 0i32, 0i32, 0i32, 0i32],
    {
        Lockin {
            iir: IIR { ba: *ba, y_offset: 0, y_min: i32::MIN, y_max: i32::MAX },
            state_i: Vec5([0i32; 5]),
            state_q: Vec5([0i32; 5]),
        }
    }

    /// Demodulate one sample at the given local-oscillator phase: generate the
    /// oscillator pair with `cossin`, mix the sample with both components, and
    /// lowpass-filter each product independently. Returns the filtered I/Q
    /// pair.
    pub fn update(&mut self, sample: i32, phase: i32) -> (r: Complex)
        requires
            old(self).iir.y_min <= old(self).iir.y_max,
        ensures
            ({
                let lo = spec_cossin(phase);
                let xi = spec_mix(sample, lo.0) as i32;
                let xq = spec_mix(sample, lo.1) as i32;
                let si = old(self).state_i.0@;
                let sq = old(self).state_q.0@;
                let yi = spec_iir_update(old(self).iir, xi, si[0], si[1], si[2], si[3]);
                let yq = spec_iir_update(old(self).iir, xq, sq[0], sq[1], sq[2], sq[3]);
                &&& r == Complex(yi, yq)
                &&& final(self).iir == old(self).iir
                &&& final(self).state_i.0@ =~= seq![xi, si[0], yi, si[2], si[3]]
                &&& final(self).state_q.0@ =~= seq![xq, sq[0], yq, sq[2], sq[3]]
            }),
    {
        let lo: (i32, i32) = cossin(phase);
        let xi: i32 = mix(sample, lo.0);
        let xq: i32 = mix(sample, lo.1);
        let yi: i32 = self.iir.update(&mut self.state_i, xi);
        let yq: i32 = self.iir.update(&mut self.state_q, xq);
        Complex(yi, yq)
    }
}

/// One-pole lowpass stage with a per-call log2 time constant: each update
/// moves the held value toward the input by the input difference scaled by
/// `2^-k`.
pub struct Lowpass {
    /// The held filtered value, kept within the `i32` sample range.
    pub y: i64,
}

/// The lowpass state stays within the sample range.
pub open spec fn lowpass_wf(lp: Lowpass) -> bool {
    i32::MIN <= lp.y <= i32::MAX
}

/// The new held value of a lowpass step: the old value plus the scaled
/// difference toward the input, with flooring.
pub open spec fn spec_lowpass_update(y: i64, x: i32, k: u32) -> int {
    y + (((x - y) as i64) >> k)
}

impl Default for Lowpass {
    /// Quiescent state.
    fn default() -> (r: Lowpass)
        ensures
            r.y == 0,
    {
        Lowpass { y: 0 }
    }
}

impl Lowpass {
    /// Feed one sample through the stage with smoothing weight `2^-k`,
    /// returning the new filtered value. The result always lies between the
    /// old held value and the input.
    pub fn update(&mut self, x: i32, k: u32) -> (r: i32)
        requires
            k < 32,
            lowpass_wf(*old(self)),
        ensures
            final(self).y == spec_lowpass_update(old(self).y, x, k),
            lowpass_wf(*final(self)),
            r == final(self).y,
    {
        let d: i64 = (x as i64) - self.y;
        proof {
            assert((d >= 0 ==> 0 <= (d >> k) <= d) && (d < 0 ==> d <= (d >> k) <= 0))
                by (bit_vector)
                requires
                    k < 32u32,
                    -0x1_0000_0000 <= d <= 0x1_0000_0000,
            ;
        }
        let step: i64 = d >> k;
        self.y = self.y + step;
        self.y as i32
    }
}

/// Lock-in demodulator whose lowpass bandwidth is supplied per call as a log2
/// time constant, for callers that adjust the bandwidth without
/// reconstructing the instance. Changing the time constant mid-stream keeps
/// the filter history.
pub struct AdjustableLockin {
    /// Lowpass stage of the in-phase channel.
    pub lp_i: Lowpass,
    /// Lowpass stage of the quadrature channel.
    pub lp_q: Lowpass,
}

impl Default for AdjustableLockin {
    /// Quiescent filter state.
    fn default() -> (r: AdjustableLockin)
        ensures
            r.lp_i.y == 0,
            r.lp_q.y == 0,
    {
        AdjustableLockin { lp_i: Lowpass { y: 0 }, lp_q: Lowpass { y: 0 } }
    }
}

impl AdjustableLockin {
    /// Demodulate one 16-bit sample at the given local-oscillator phase with
    /// smoothing weight `2^-k`: the sample is aligned to the full 32-bit
    /// range, mixed with both oscillator components, and each product is
    /// lowpass-filtered by the one-pole stages.
    pub fn update(&mut self, sample: i16, phase: i32, k: u32) -> (r: Complex)
        requires
            k < 32,
            lowpass_wf(old(self).lp_i),
            lowpass_wf(old(self).lp_q),
        ensures
            ({
                let lo = spec_cossin(phase);
                let s32 = sample * 0x1_0000;
                let xi = spec_mix(s32 as i32, lo.0) as i32;
                let xq = spec_mix(s32 as i32, lo.1) as i32;
                &&& final(self).lp_i.y == spec_lowpass_update(old(self).lp_i.y, xi, k)
                &&& final(self).lp_q.y == spec_lowpass_update(old(self).lp_q.y, xq, k)
                &&& r == Complex(final(self).lp_i.y as i32, final(self).lp_q.y as i32)
                &&& lowpass_wf(final(self).lp_i)
                &&& lowpass_wf(final(self).lp_q)
            }),
    {
        let s32: i32 = (sample as i32) * 0x1_0000;
        let lo: (i32, i32) = cossin(phase);
        let xi: i32 = mix(s32, lo.0);
        let xq: i32 = mix(s32, lo.1);
        let yi: i32 = self.lp_i.update(xi, k);
        let yq: i32 = self.lp_q.update(xq, k);
        Complex(yi, yq)
    }
}

} // verus!
