//! Phase accumulator: expands one block-level (phase, frequency) estimate into
//! a wrapping sequence of per-sample phase values.

use vstd::arithmetic::div_mod::{
    lemma_fundamental_div_mod, lemma_mod_multiples_vanish, lemma_small_mod,
};
use vstd::prelude::*;
use vstd::wrapping::i32_specs;

verus! {

/// Reduction of an exact integer to the turn-scaled angle range: the unique
/// value congruent to `v` modulo one full turn that fits in an `i32`.
pub open spec fn wrap_angle(v: int) -> i32 {
    i32_specs::signed_crop(v)
}

/// The turn-scaled angle produced by the read number `k` (counting from zero)
/// of an accumulator started at offset `p0` with frequency increment `f`.
pub open spec fn nth_phase(p0: i32, f: i32, k: nat) -> i32
    decreases k,
{
    if k == 0 {
        p0
    } else {
        i32_specs::wrapping_add(nth_phase(p0, f, (k - 1) as nat), f)
    }
}

/// Phase accumulator: a stateful generator of turn-scaled angles. Each read
/// returns the current phase and advances it by the frequency increment with
/// wrapping arithmetic; the sequence is infinite and not restartable.
pub struct Accu {
    /// The phase value that the next read returns.
    pub state: i32,
    /// The wrapping per-read phase increment.
    pub step: i32,
}

impl Accu {
    /// Start an accumulator at phase offset `state`, advancing by `step` per read.
    pub fn new(state: i32, step: i32) -> (r: Accu)
        ensures
            r.state == state,
            r.step == step,
    {
        Accu { state, step }
    }

    /// Read the next phase value: returns the current phase, then advances it by
    /// the frequency increment. Overflow wraps silently by design.
    pub fn next(&mut self) -> (r: i32)
        ensures
            r == old(self).state,
            final(self).state == i32_specs::wrapping_add(old(self).state, old(self).step),
            final(self).step == old(self).step,
    {
        let r: i32 = self.state;
        self.state = self.state.wrapping_add(self.step);
        r
    }
}

/// A value already within the angle range reduces to itself.
pub proof fn lemma_wrap_angle_in_range(v: int)
    requires
        i32::MIN <= v <= i32::MAX,
    ensures
        wrap_angle(v) == v,
{
    if v >= 0 {
        lemma_small_mod(v as nat, 0x1_0000_0000);
    } else {
        lemma_small_mod((v + 0x1_0000_0000) as nat, 0x1_0000_0000);
        lemma_mod_multiples_vanish(1, v, 0x1_0000_0000);
    }
}

/// Wrapping addition of two angles is reduction of their exact sum.
pub proof fn lemma_wrapping_add_is_wrap(a: i32, b: i32)
    ensures
        i32_specs::wrapping_add(a, b) == wrap_angle(a + b),
{
    let v = a + b;
    if v > i32::MAX {
        lemma_small_mod(v as nat, 0x1_0000_0000);
    } else if v < i32::MIN {
        lemma_small_mod((v + 0x1_0000_0000) as nat, 0x1_0000_0000);
        lemma_mod_multiples_vanish(1, v, 0x1_0000_0000);
    } else {
        lemma_wrap_angle_in_range(v);
    }
}

/// Wrapping subtraction of two angles is reduction of their exact difference.
pub proof fn lemma_wrapping_sub_is_wrap(a: i32, b: i32)
    ensures
        i32_specs::wrapping_sub(a, b) == wrap_angle(a - b),
{
    let v = a - b;
    if v > i32::MAX {
        lemma_small_mod(v as nat, 0x1_0000_0000);
    } else if v < i32::MIN {
        lemma_small_mod((v + 0x1_0000_0000) as nat, 0x1_0000_0000);
        lemma_mod_multiples_vanish(1, v, 0x1_0000_0000);
    } else {
        lemma_wrap_angle_in_range(v);
    }
}

/// Reduction is invariant under adding whole turns to the exact value.
pub proof fn lemma_wrap_angle_periodic(v: int, q: int)
    ensures
        wrap_angle(v + q * 0x1_0000_0000) == wrap_angle(v),
{
    lemma_mod_multiples_vanish(q, v, 0x1_0000_0000);
}

/// Reducing an already-reduced value and an offset together agrees with
/// reducing the exact sum.
pub proof fn lemma_wrap_angle_add(v: int, f: int)
    ensures
        wrap_angle(wrap_angle(v) + f) == wrap_angle(v + f),
{
    lemma_fundamental_div_mod(v, 0x1_0000_0000);
    let q = v / 0x1_0000_0000;
    if v % 0x1_0000_0000 > i32::MAX {
        // wrap_angle(v) == v - q * 2^32 - 2^32
        lemma_wrap_angle_periodic(wrap_angle(v) + f, q + 1);
    } else {
        lemma_wrap_angle_periodic(wrap_angle(v) + f, q);
    }
}

/// Subtracting an already-reduced value from an offset agrees with reducing
/// the exact difference.
pub proof fn lemma_wrap_angle_sub(v: int, c: int)
    ensures
        wrap_angle(c - wrap_angle(v)) == wrap_angle(c - v),
{
    lemma_fundamental_div_mod(v, 0x1_0000_0000);
    let q = v / 0x1_0000_0000;
    if v % 0x1_0000_0000 > i32::MAX {
        // wrap_angle(v) == v - (q + 1) * 2^32
        lemma_wrap_angle_periodic(c - v, q + 1);
    } else {
        lemma_wrap_angle_periodic(c - v, q);
    }
}

/// Law: the value produced by read number `k` of an accumulator started at
/// offset `p0` with increment `f` is `p0 + k * f` reduced modulo one turn,
/// independent of where in the angle range `p0` lies.
pub proof fn lemma_nth_phase_closed_form(p0: i32, f: i32, k: nat)
    ensures
        nth_phase(p0, f, k) == wrap_angle(p0 + k * f),
    decreases k,
{
    if k == 0 {
        lemma_wrap_angle_in_range(p0 as int);
    } else {
        lemma_nth_phase_closed_form(p0, f, (k - 1) as nat);
        lemma_wrapping_add_is_wrap(nth_phase(p0, f, (k - 1) as nat), f);
        lemma_wrap_angle_add(p0 + (k - 1) * f, f as int);
        assert(p0 + (k - 1) * f + f == p0 + k * f) by (nonlinear_arith);
    }
}

} // verus!
