//! Per-voice low-pass filters: a one-pole smoother and a resonant two-pole
//! (biquad) stage, selectable behind one capability.
//!
//! Cutoff frequencies are carried in millihertz and clamped to at most
//! `0.49 * sample_rate` so the discretized filters stay stable; resonance is
//! Q16. Filter state is clamped into `[-STATE_MAX, STATE_MAX]` each sample,
//! which keeps every intermediate product inside `i64`.

use vstd::prelude::*;
use crate::fixed::{ONE, SR_MAX, tdiv, sclamp, clamp64, lemma_tdiv_mul_le, lemma_mul_div_lt};
use crate::osc::{sine_q, cos_q, spec_sine_q, spec_cos_q, SAMPLE_MAX};

verus! {

/// Smallest sample rate the filters accept, in Hz.
pub const SR_MIN: i64 = 100;

/// Magnitude bound kept on stored filter history samples.
pub const STATE_MAX: i64 = 0x100_0000_0000;

/// Magnitude bound on anything a filter can emit.
pub const OUT_MAX: i64 = 0x100_0004_0000;

/// Which filter a voice should run, with its parameters:
/// cutoff in millihertz, and for the two-pole variant the Q16 resonance.
#[derive(Clone, Copy, Debug, PartialEq, Eq, Structural)]
pub enum FilterType {
    OnePoleLpf(i64),
    TwoPoleLpf(i64, i64),
}

/// The common capability of the two filter stages.
pub trait FilterTrait: Sized {
    /// Well-formedness of coefficients and history.
    spec fn f_wf(&self) -> bool;

    /// The filter state after processing `x`.
    spec fn f_next(&self, x: int) -> Self;

    /// The sample emitted while processing `x`.
    spec fn f_out(&self, x: int) -> int;

    /// The filter with its history zeroed.
    spec fn f_cleared(&self) -> Self;

    /// Run one input sample through the filter.
    fn process(&mut self, input: i64) -> (out: i64)
        requires
            old(self).f_wf(),
            -SAMPLE_MAX <= input <= SAMPLE_MAX,
        ensures
            final(self).f_wf(),
            *final(self) == old(self).f_next(input as int),
            out == old(self).f_out(input as int),
            -OUT_MAX <= out <= OUT_MAX,
    ;

    /// Zero the history (coefficients are kept).
    fn reset(&mut self)
        requires
            old(self).f_wf(),
        ensures
            final(self).f_wf(),
            *final(self) == old(self).f_cleared(),
    ;
}

/// One-pole low-pass: `y[n] = y[n-1] + a * (x[n] - y[n-1])`.
#[derive(Clone, Copy, Debug)]
pub struct OnePoleLpf {
    /// Cutoff in millihertz, already clamped to `[0, 490 * sr]`.
    pub cutoff: i64,
    /// Per-sample smoothing coefficient, Q16 in `[0, ONE]`.
    pub a: i64,
    /// Previous output.
    pub y1: i64,
}

/// The one-pole coefficient `a = dt / (rc + dt)` where `rc = 1 / (2 pi fc)`,
/// which reduces to `2 pi fc / (2 pi fc + sr)`; `2 pi` is taken as 710/113.
pub open spec fn spec_one_pole_a(fc_millihz: int, sr: int) -> int {
    (710 * fc_millihz * 65536) / (710 * fc_millihz + 113000 * sr)
}

/// A one-pole filter with its cutoff clamped and coefficient derived.
pub open spec fn spec_one_pole_with_cutoff(f: OnePoleLpf, sr: int, cutoff: int) -> OnePoleLpf {
    let fc = sclamp(cutoff, 0, 490 * sr);
    OnePoleLpf { cutoff: fc as i64, a: spec_one_pole_a(fc, sr) as i64, ..f }
}

impl OnePoleLpf {
    /// Build a one-pole low-pass for `cutoff` millihertz at `sr` Hz.
    pub fn new(sr: i64, cutoff: i64) -> (f: OnePoleLpf)
        requires
            SR_MIN <= sr <= SR_MAX,
        ensures
            f == spec_one_pole_with_cutoff(
                OnePoleLpf { cutoff: 0, a: 0, y1: 0 },
                sr as int,
                cutoff as int,
            ),
            f.f_wf(),
            f.y1 == 0,
    {
        let mut f = OnePoleLpf { cutoff: 0, a: 0, y1: 0 };
        f.set_cutoff(sr, cutoff);
        f
    }

    /// Re-derive the coefficient for a new cutoff; history is kept, so a
    /// live cutoff change does not click.
    pub fn set_cutoff(&mut self, sr: i64, cutoff: i64)
        requires
            SR_MIN <= sr <= SR_MAX,
            old(self).f_wf(),
        ensures
            *final(self) == spec_one_pole_with_cutoff(*old(self), sr as int, cutoff as int),
            final(self).f_wf(),
            final(self).y1 == old(self).y1,
    {
        proof {
            assert(490 * sr <= 490 * SR_MAX as int) by (nonlinear_arith)
                requires sr <= SR_MAX,
            ;
        }
        let fc: i64 = clamp64(cutoff, 0, 490 * sr);
        let num: i64 = 710 * fc;
        let den: i64 = num + 113000 * sr;
        proof {
            assert(num * 65536 <= den * 65536 && 0 <= num * 65536) by (nonlinear_arith)
                requires 0 <= num <= den,
            ;
            vstd::arithmetic::div_mod::lemma_div_pos_is_pos(num as int * 65536, den as int);
            vstd::arithmetic::div_mod::lemma_div_is_ordered(
                num as int * 65536,
                den as int * 65536,
                den as int,
            );
            assert((den as int * 65536) / den as int == 65536) by (nonlinear_arith)
                requires den > 0,
            ;
        }
        self.cutoff = fc;
        self.a = (num * 65536) / den;
    }
}

impl FilterTrait for OnePoleLpf {
    open spec fn f_wf(&self) -> bool {
        &&& 0 <= self.a <= ONE
        &&& 0 <= self.cutoff <= 490 * SR_MAX as int
        &&& -STATE_MAX <= self.y1 <= STATE_MAX
    }

    open spec fn f_next(&self, x: int) -> OnePoleLpf {
        OnePoleLpf { y1: (self.y1 + tdiv(self.a as int * (x - self.y1), 65536)) as i64, ..*self }
    }

    open spec fn f_out(&self, x: int) -> int {
        self.f_next(x).y1 as int
    }

    open spec fn f_cleared(&self) -> OnePoleLpf {
        OnePoleLpf { y1: 0, ..*self }
    }

    fn process(&mut self, input: i64) -> (out: i64) {
        let d: i64 = input - self.y1;
        proof {
            lemma_tdiv_mul_le(d as int, self.a as int, 65536);
            assert(d as int * self.a as int == self.a as int * d as int) by (nonlinear_arith);
        }
        let step: i64 = (self.a * d) / ONE;
        self.y1 = self.y1 + step;
        self.y1
    }

    fn reset(&mut self) {
        self.y1 = 0;
    }
}

/// A full-scale impulse into a freshly-reset one-pole puts exactly the
/// coefficient `a` on the output; everything after is geometric decay.
pub proof fn lemma_one_pole_impulse(f: OnePoleLpf)
    requires
        f.f_wf(),
        f.y1 == 0,
    ensures
        f.f_out(65536) == f.a,
{
    assert((f.a as int * 65536) / 65536 == f.a as int) by (nonlinear_arith);
}

/// With silent input the one-pole output decays toward zero: each sample
/// subtracts the `a`-fraction of the history, which keeps the sign and
/// never grows the magnitude.
pub proof fn lemma_one_pole_decay(f: OnePoleLpf)
    requires
        f.f_wf(),
    ensures
        f.f_next(0).y1 as int == f.y1 + tdiv(f.a as int * (0 - f.y1 as int), 65536),
        0 <= f.y1 ==> 0 <= f.f_next(0).y1 <= f.y1,
        f.y1 <= 0 ==> f.y1 <= f.f_next(0).y1 <= 0,
{
    lemma_tdiv_mul_le(0 - f.y1 as int, f.a as int, 65536);
    assert((0 - f.y1 as int) * f.a as int == f.a as int * (0 - f.y1 as int))
        by (nonlinear_arith);
}

/// Resonant two-pole low-pass in transposed direct form II, with normalized
/// Q16 coefficients and two history samples.
#[derive(Clone, Copy, Debug)]
pub struct TwoPoleLpf {
    /// Requested cutoff, millihertz (clamped only when coefficients are derived).
    pub cutoff: i64,
    /// Requested resonance, Q16 (floored at one Q16 step when used).
    pub q: i64,
    pub b0: i64,
    pub b1: i64,
    pub b2: i64,
    pub a1: i64,
    pub a2: i64,
    /// First history sample.
    pub y1: i64,
    /// Second history sample.
    pub y2: i64,
}

/// The normalized biquad low-pass coefficients for the filter's stored
/// cutoff and resonance at sample rate `sr`, leaving history untouched.
pub open spec fn spec_two_pole_coeffs(f: TwoPoleLpf, sr: int) -> TwoPoleLpf {
    let f0 = sclamp(f.cutoff as int, 1000, 490 * sr);
    let w = (f0 * 0x1_0000_0000) / (sr * 1000);
    let sw = spec_sine_q(w);
    let cw = spec_cos_q(w);
    let qq = sclamp(f.q as int, 1, 65536000);
    let alpha = (sw * 65536) / (2 * qq);
    let b0 = (65536 - cw) / 2;
    let b1 = 65536 - cw;
    let a0 = 65536 + alpha;
    let a1 = -2 * cw;
    let a2 = 65536 - alpha;
    TwoPoleLpf {
        b0: ((b0 * 65536) / a0) as i64,
        b1: ((b1 * 65536) / a0) as i64,
        b2: ((b0 * 65536) / a0) as i64,
        a1: tdiv(a1 * 65536, a0) as i64,
        a2: tdiv(a2 * 65536, a0) as i64,
        ..f
    }
}

impl TwoPoleLpf {
    /// Build a resonant low-pass for `cutoff` millihertz and Q16 resonance
    /// `q` at `sr` Hz.
    pub fn new(sr: i64, cutoff: i64, q: i64) -> (f: TwoPoleLpf)
        requires
            SR_MIN <= sr <= SR_MAX,
        ensures
            f == spec_two_pole_coeffs(
                TwoPoleLpf {
                    cutoff,
                    q,
                    b0: 0,
                    b1: 0,
                    b2: 0,
                    a1: 0,
                    a2: 0,
                    y1: 0,
                    y2: 0,
                },
                sr as int,
            ),
            f.f_wf(),
            f.y1 == 0 && f.y2 == 0,
    {
        let mut f = TwoPoleLpf { cutoff, q, b0: 0, b1: 0, b2: 0, a1: 0, a2: 0, y1: 0, y2: 0 };
        f.update_coefficients(sr);
        f
    }

    /// Store a new cutoff and resonance and re-derive the coefficients;
    /// history is kept, so a live parameter change does not click.
    pub fn set_params(&mut self, sr: i64, cutoff: i64, q: i64)
        requires
            SR_MIN <= sr <= SR_MAX,
            old(self).f_wf(),
        ensures
            *final(self) == spec_two_pole_coeffs(
                TwoPoleLpf { cutoff, q, ..*old(self) },
                sr as int,
            ),
            final(self).f_wf(),
            final(self).y1 == old(self).y1 && final(self).y2 == old(self).y2,
    {
        self.cutoff = cutoff;
        self.q = q;
        self.update_coefficients(sr);
    }

    /// Derive the normalized biquad coefficients from the stored cutoff and
    /// resonance; see `spec_two_pole_coeffs`.
    pub fn update_coefficients(&mut self, sr: i64)
        requires
            SR_MIN <= sr <= SR_MAX,
            -STATE_MAX <= old(self).y1 <= STATE_MAX,
            -STATE_MAX <= old(self).y2 <= STATE_MAX,
        ensures
            *final(self) == spec_two_pole_coeffs(*old(self), sr as int),
            final(self).f_wf(),
            final(self).y1 == old(self).y1 && final(self).y2 == old(self).y2,
    {
        proof {
            assert(490 * sr >= 49000 && 490 * sr <= 490 * SR_MAX as int) by (nonlinear_arith)
                requires SR_MIN <= sr <= SR_MAX,
            ;
        }
        let f0: i64 = clamp64(self.cutoff, 1000, 490 * sr);
        proof {
            assert(2 * f0 < sr * 1000 && sr * 1000 > 0) by (nonlinear_arith)
                requires 0 < f0 <= 490 * sr, sr >= SR_MIN,
            ;
            lemma_mul_div_lt(2 * f0 as int, sr as int * 1000, 0x8000_0000);
            assert((2 * f0 as int) * 0x8000_0000 == f0 as int * 0x1_0000_0000)
                by (nonlinear_arith);
        }
        let w: i64 = (f0 * PHASE_ONE_LOCAL) / (sr * 1000);
        proof {
            // the phase sits in the first half cycle, where the parabola
            // sine is non-negative
            assert(w < 0x8000_0000);
            vstd::arithmetic::div_mod::lemma_div_is_ordered(w as int, 0x8000_0000 - 1, 65536);
            vstd::arithmetic::div_mod::lemma_div_pos_is_pos(w as int, 65536);
            let tq = w as int / 65536;
            assert(0 <= tq < 32768);
            assert(tq * (32768 - tq) >= 0) by (nonlinear_arith)
                requires 0 <= tq < 32768,
            ;
            vstd::arithmetic::div_mod::lemma_div_pos_is_pos(tq * (32768 - tq), 4096);
            assert(spec_sine_q(w as int) >= 0);
        }
        let sw: i64 = sine_q(w);
        let cw: i64 = cos_q(w);
        // resonance floored at one Q16 step and capped at 1000.0, so the
        // divisor below stays positive and bounded
        let qq: i64 = clamp64(self.q, 1, 65536000);
        let alpha: i64 = (sw * ONE) / (2 * qq);
        let b0: i64 = (ONE - cw) / 2;
        let b1: i64 = ONE - cw;
        let a0: i64 = ONE + alpha;
        let a1: i64 = -(cw + cw);
        let a2: i64 = ONE - alpha;
        proof {
            // the raw low-pass numerator sits in [0, 65536]
            vstd::arithmetic::div_mod::lemma_div_pos_is_pos(65536 - cw as int, 2);
            vstd::arithmetic::div_mod::lemma_div_is_ordered(65536 - cw as int, 131072, 2);
            // alpha is non-negative and at most half of 2^32
            vstd::arithmetic::div_mod::lemma_div_pos_is_pos(sw as int * 65536, 2 * qq as int);
            vstd::arithmetic::div_mod::lemma_div_is_ordered_by_denominator(
                sw as int * 65536,
                2,
                2 * qq as int,
            );
            vstd::arithmetic::div_mod::lemma_div_is_ordered(
                sw as int * 65536,
                65536int * 65536,
                2,
            );
            assert(0 <= alpha <= 0x8000_0000);
            // each normalized coefficient is the raw one scaled by 65536/a0,
            // a factor of at most one
            lemma_tdiv_mul_le(b0 as int, 65536, a0 as int);
            lemma_tdiv_mul_le(b1 as int, 65536, a0 as int);
            lemma_tdiv_mul_le(a1 as int, 65536, a0 as int);
            // |a2| <= a0, so the normalized a2 has magnitude at most 65536
            assert(-(a0 as int * 65536) <= a2 as int * 65536 <= a0 as int * 65536)
                by (nonlinear_arith)
                requires -a0 <= a2 <= a0,
            ;
            crate::fixed::lemma_tdiv_bound(a2 as int * 65536, a0 as int, a0 as int * 65536);
            assert((a0 as int * 65536) / a0 as int == 65536) by (nonlinear_arith)
                requires a0 > 0,
            ;
        }
        self.b0 = (b0 * ONE) / a0;
        self.b1 = (b1 * ONE) / a0;
        self.b2 = (b0 * ONE) / a0;
        self.a1 = (a1 * ONE) / a0;
        self.a2 = (a2 * ONE) / a0;
    }
}

/// Local copy of the Q32 full turn, to keep the coefficient path readable.
const PHASE_ONE_LOCAL: i64 = 0x1_0000_0000;

impl FilterTrait for TwoPoleLpf {
    open spec fn f_wf(&self) -> bool {
        &&& 0 <= self.b0 <= ONE
        &&& 0 <= self.b1 <= 2 * ONE as int
        &&& 0 <= self.b2 <= ONE
        &&& -2 * ONE as int <= self.a1 <= 2 * ONE as int
        &&& -ONE <= self.a2 <= ONE
        &&& -STATE_MAX <= self.y1 <= STATE_MAX
        &&& -STATE_MAX <= self.y2 <= STATE_MAX
    }

    open spec fn f_out(&self, x: int) -> int {
        tdiv(self.b0 as int * x, 65536) + self.y1
    }

    open spec fn f_next(&self, x: int) -> TwoPoleLpf {
        let y = self.f_out(x);
        let ny1 = tdiv(self.b1 as int * x, 65536) - tdiv(self.a1 as int * y, 65536) + self.y2;
        let ny2 = tdiv(self.b2 as int * x, 65536) - tdiv(self.a2 as int * y, 65536);
        TwoPoleLpf {
            y1: sclamp(ny1, -STATE_MAX as int, STATE_MAX as int) as i64,
            y2: sclamp(ny2, -STATE_MAX as int, STATE_MAX as int) as i64,
            ..*self
        }
    }

    open spec fn f_cleared(&self) -> TwoPoleLpf {
        TwoPoleLpf { y1: 0, y2: 0, ..*self }
    }

    fn process(&mut self, input: i64) -> (out: i64) {
        proof {
            assert(-(65536 * SAMPLE_MAX as int) <= self.b0 as int * input as int <= 65536
                * SAMPLE_MAX as int) by (nonlinear_arith)
                requires 0 <= self.b0 <= 65536, -SAMPLE_MAX <= input <= SAMPLE_MAX,
            ;
            lemma_tdiv_mul_le(input as int, self.b0 as int, 65536);
            assert(input as int * self.b0 as int == self.b0 as int * input as int)
                by (nonlinear_arith);
        }
        let y: i64 = (self.b0 * input) / ONE + self.y1;
        proof {
            assert(self.b1 as int * input as int <= 2 * 65536 * SAMPLE_MAX as int && self.b1
                as int * input as int >= -2 * 65536 * SAMPLE_MAX as int) by (nonlinear_arith)
                requires 0 <= self.b1 <= 2 * 65536, -SAMPLE_MAX <= input <= SAMPLE_MAX,
            ;
            crate::fixed::lemma_tdiv_bound(
                self.b1 as int * input as int,
                65536,
                2 * 65536 * SAMPLE_MAX as int,
            );
            assert(-(65536 * SAMPLE_MAX as int) <= self.b2 as int * input as int <= 65536
                * SAMPLE_MAX as int) by (nonlinear_arith)
                requires 0 <= self.b2 <= 65536, -SAMPLE_MAX <= input <= SAMPLE_MAX,
            ;
            lemma_tdiv_mul_le(input as int, self.b2 as int, 65536);
            assert(input as int * self.b2 as int == self.b2 as int * input as int)
                by (nonlinear_arith);
            assert(-2 * 65536 * (STATE_MAX as int + SAMPLE_MAX as int) <= self.a1 as int
                * y as int <= 2 * 65536 * (STATE_MAX as int + SAMPLE_MAX as int))
                by (nonlinear_arith)
                requires
                    -2 * 65536 <= self.a1 <= 2 * 65536,
                    -(STATE_MAX as int + SAMPLE_MAX as int) <= y as int <= STATE_MAX as int
                        + SAMPLE_MAX as int,
            ;
            crate::fixed::lemma_tdiv_bound(
                self.a1 as int * y as int,
                65536,
                2 * 65536 * (STATE_MAX as int + SAMPLE_MAX as int),
            );
            assert(-(65536 * (STATE_MAX as int + SAMPLE_MAX as int)) <= self.a2 as int
                * y as int <= 65536 * (STATE_MAX as int + SAMPLE_MAX as int))
                by (nonlinear_arith)
                requires
                    -65536 <= self.a2 <= 65536,
                    -(STATE_MAX as int + SAMPLE_MAX as int) <= y as int <= STATE_MAX as int
                        + SAMPLE_MAX as int,
            ;
            if self.a2 >= 0 {
                lemma_tdiv_mul_le(y as int, self.a2 as int, 65536);
                assert(y as int * self.a2 as int == self.a2 as int * y as int)
                    by (nonlinear_arith);
            } else {
                lemma_tdiv_mul_le(-(y as int), -(self.a2 as int), 65536);
                assert((-(y as int)) * (-(self.a2 as int)) == self.a2 as int * y as int)
                    by (nonlinear_arith);
            }
        }
        let t1: i64 = (self.b1 * input) / ONE;
        let t2: i64 = (self.a1 * y) / ONE;
        let ny1: i64 = t1 - t2 + self.y2;
        let t3: i64 = (self.b2 * input) / ONE;
        let t4: i64 = (self.a2 * y) / ONE;
        let ny2: i64 = t3 - t4;
        self.y1 = clamp64(ny1, -STATE_MAX, STATE_MAX);
        self.y2 = clamp64(ny2, -STATE_MAX, STATE_MAX);
        y
    }

    fn reset(&mut self) {
        self.y1 = 0;
        self.y2 = 0;
    }
}

/// A filter stage of either topology.
#[derive(Clone, Copy, Debug)]
pub enum Filter {
    OnePoleLpf(OnePoleLpf),
    TwoPoleLpf(TwoPoleLpf),
}

impl Filter {
    /// Build the filter a `FilterType` asks for.
    pub fn new(filter_type: FilterType, sr: i64) -> (f: Filter)
        requires
            SR_MIN <= sr <= SR_MAX,
        ensures
            f.f_wf(),
            f == spec_filter_new(filter_type, sr as int),
            f.f_cleared() == f,
    {
        match filter_type {
            FilterType::OnePoleLpf(cutoff) => Filter::OnePoleLpf(OnePoleLpf::new(sr, cutoff)),
            FilterType::TwoPoleLpf(cutoff, q) => Filter::TwoPoleLpf(TwoPoleLpf::new(sr, cutoff, q)),
        }
    }
}

/// The filter `Filter::new` builds.
pub open spec fn spec_filter_new(filter_type: FilterType, sr: int) -> Filter {
    match filter_type {
        FilterType::OnePoleLpf(cutoff) => Filter::OnePoleLpf(
            spec_one_pole_with_cutoff(OnePoleLpf { cutoff: 0, a: 0, y1: 0 }, sr, cutoff as int),
        ),
        FilterType::TwoPoleLpf(cutoff, q) => Filter::TwoPoleLpf(
            spec_two_pole_coeffs(
                TwoPoleLpf { cutoff, q, b0: 0, b1: 0, b2: 0, a1: 0, a2: 0, y1: 0, y2: 0 },
                sr,
            ),
        ),
    }
}

impl FilterTrait for Filter {
    open spec fn f_wf(&self) -> bool {
        match *self {
            Filter::OnePoleLpf(f) => f.f_wf(),
            Filter::TwoPoleLpf(f) => f.f_wf(),
        }
    }

    open spec fn f_next(&self, x: int) -> Filter {
        match *self {
            Filter::OnePoleLpf(f) => Filter::OnePoleLpf(f.f_next(x)),
            Filter::TwoPoleLpf(f) => Filter::TwoPoleLpf(f.f_next(x)),
        }
    }

    open spec fn f_out(&self, x: int) -> int {
        match *self {
            Filter::OnePoleLpf(f) => f.f_out(x),
            Filter::TwoPoleLpf(f) => f.f_out(x),
        }
    }

    open spec fn f_cleared(&self) -> Filter {
        match *self {
            Filter::OnePoleLpf(f) => Filter::OnePoleLpf(f.f_cleared()),
            Filter::TwoPoleLpf(f) => Filter::TwoPoleLpf(f.f_cleared()),
        }
    }

    fn process(&mut self, input: i64) -> (out: i64) {
        match self {
            Filter::OnePoleLpf(f) => f.process(input),
            Filter::TwoPoleLpf(f) => f.process(input),
        }
    }

    fn reset(&mut self) {
        match self {
            Filter::OnePoleLpf(f) => f.reset(),
            Filter::TwoPoleLpf(f) => f.reset(),
        }
    }
}

} // verus!
