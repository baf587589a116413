//! Band-limited oscillator.
//!
//! Phase is a Q32 fraction of one cycle: `0` is the start of the cycle and
//! `PHASE_ONE` a full turn. Samples are Q16. The sine is the standard
//! half-cycle parabola approximation; square and sawtooth edges carry a
//! polynomial band-limited step (polyBLEP) correction.

use vstd::prelude::*;
use crate::fixed::{ONE, PHASE_ONE, SR_MAX, tdiv, sclamp, lemma_mul_div_lt};

verus! {

/// Largest magnitude a raw waveform sample can reach (square plus both
/// polyBLEP corrections): three units.
pub const SAMPLE_MAX: i64 = 196608;

/// Largest oscillator frequency accepted, in millihertz.
pub const FREQ_MAX: i64 = 30000000;

/// Lower clamp of the square pulse width (0.05 in Q16).
pub const PW_MIN: i64 = 3277;

/// Upper clamp of the square pulse width (0.95 in Q16).
pub const PW_MAX: i64 = 62259;

/// Largest triangle sharpness exponent step accepted.
pub const CURVE_MAX: u32 = 8;

/// The waveform a voice plays.
#[derive(Clone, Copy, Debug, PartialEq, Eq, Structural)]
pub enum Waveform {
    Sine,
    /// Two-level square; `pulse_width` is the Q16 duty cycle, clamped to
    /// `[PW_MIN, PW_MAX]` when sampled.
    Square { pulse_width: i64 },
    Sawtooth,
    /// Triangle raised to the odd power `1 + 2 * curve`; `curve == 0` is the
    /// plain linear triangle, larger values sharpen the peak.
    Triangle { curve: u32 },
}

/// Parabola through (0,0), (16384, ONE), (32768, 0): one half of the
/// approximated sine.
pub open spec fn spec_half_sine(x: int) -> int {
    (x * (32768 - x)) / 4096
}

/// Approximated `sin` of a Q32 cycle fraction, in Q16.
pub open spec fn spec_sine_q(t: int) -> int {
    let tq = t / 65536;
    if tq < 32768 {
        spec_half_sine(tq)
    } else {
        -spec_half_sine(tq - 32768)
    }
}

/// Approximated `cos` of a Q32 cycle fraction, in Q16.
pub open spec fn spec_cos_q(t: int) -> int {
    spec_sine_q((t + 0x4000_0000) % 0x1_0000_0000)
}

/// Polynomial band-limited step correction near the cycle boundary:
/// `t` and `dt` are Q32; the result is Q16 in `[-ONE, ONE]`.
pub open spec fn spec_poly_blep(t: int, dt: int) -> int {
    if dt <= 0 {
        0
    } else if t < dt {
        let u = (t * 65536) / dt;
        2 * u - (u * u) / 65536 - 65536
    } else if t > 0x1_0000_0000 - dt {
        let u = tdiv((t - 0x1_0000_0000) * 65536, dt);
        (u * u) / 65536 + 2 * u + 65536
    } else {
        0
    }
}

/// `x^n / ONE^(n-1)` for a Q16 base: the fixed-point power.
pub open spec fn spec_pow_q(x: int, n: nat) -> int
    decreases n,
{
    if n == 0 {
        65536
    } else {
        (x * spec_pow_q(x, (n - 1) as nat)) / 65536
    }
}

/// The raw waveform value at phase `t` with per-sample increment `dt`.
pub open spec fn spec_wave_sample(w: Waveform, t: int, dt: int) -> int {
    match w {
        Waveform::Sine => spec_sine_q(t),
        Waveform::Square { pulse_width } => {
            let p = sclamp(pulse_width as int, PW_MIN as int, PW_MAX as int);
            let pq = p * 65536;
            let base: int = if t < pq {
                65536
            } else {
                -65536
            };
            let t2 = if t >= pq {
                t - pq
            } else {
                t - pq + 0x1_0000_0000
            };
            base + spec_poly_blep(t, dt) - spec_poly_blep(t2, dt)
        },
        Waveform::Sawtooth => t / 32768 - 65536 - spec_poly_blep(t, dt),
        Waveform::Triangle { curve } => {
            let tq = t / 65536;
            let dev = if tq >= 32768 {
                tq - 32768
            } else {
                32768 - tq
            };
            let tri = 65536 - 4 * dev;
            let k: nat = if curve > CURVE_MAX {
                CURVE_MAX as nat
            } else {
                curve as nat
            };
            if tri >= 0 {
                spec_pow_q(tri, 1 + 2 * k)
            } else {
                -spec_pow_q(-tri, 1 + 2 * k)
            }
        },
    }
}

/// One half-cycle of the parabola sine.
fn half_sine(x: i64) -> (r: i64)
    requires
        0 <= x < 32768,
    ensures
        r == spec_half_sine(x as int),
        0 <= r <= ONE,
{
    proof {
        assert(0 <= x * (32768 - x) && x * (32768 - x) <= 16384 * 16384) by (nonlinear_arith)
            requires 0 <= x < 32768,
        ;
    }
    (x * (32768 - x)) / 4096
}

/// Approximated sine of a Q32 cycle fraction, Q16 result.
pub fn sine_q(t: i64) -> (r: i64)
    requires
        0 <= t < PHASE_ONE,
    ensures
        r == spec_sine_q(t as int),
        -ONE <= r <= ONE,
{
    let tq: i64 = t / 65536;
    if tq < 32768 {
        half_sine(tq)
    } else {
        -half_sine(tq - 32768)
    }
}

/// Approximated cosine of a Q32 cycle fraction, Q16 result.
pub fn cos_q(t: i64) -> (r: i64)
    requires
        0 <= t < PHASE_ONE,
    ensures
        r == spec_cos_q(t as int),
        -ONE <= r <= ONE,
{
    sine_q((t + 0x4000_0000) % PHASE_ONE)
}

/// polyBLEP correction; see `spec_poly_blep`.
fn poly_blep(t: i64, dt: i64) -> (r: i64)
    requires
        0 <= t < PHASE_ONE,
        0 <= dt < PHASE_ONE,
    ensures
        r == spec_poly_blep(t as int, dt as int),
        -ONE <= r <= ONE,
{
    if dt <= 0 {
        0
    } else if t < dt {
        proof {
            lemma_mul_div_lt(t as int, dt as int, 65536);
        }
        let u: i64 = (t * 65536) / dt;
        proof {
            assert(0 <= u * u <= u * 65536) by (nonlinear_arith)
                requires 0 <= u < 65536,
            ;
            vstd::arithmetic::div_mod::lemma_div_is_ordered(u * u, u * 65536, 65536);
            assert((u * 65536) / 65536 == u) by (nonlinear_arith);
            vstd::arithmetic::div_mod::lemma_div_pos_is_pos(u * u, 65536);
        }
        2 * u - (u * u) / 65536 - 65536
    } else if t > PHASE_ONE - dt {
        proof {
            lemma_mul_div_lt((0x1_0000_0000 - t) as int, dt as int, 65536);
        }
        let neg: i64 = ((PHASE_ONE - t) * 65536) / dt;
        let u: i64 = -neg;
        proof {
            assert(u as int == tdiv((t - 0x1_0000_0000) * 65536, dt as int));
            assert(0 <= u * u <= u * -65536 || 0 <= u * u <= (-u) * 65536) by (nonlinear_arith)
                requires -65536 < u <= 0,
            ;
            vstd::arithmetic::div_mod::lemma_div_is_ordered(u * u, (-u) * 65536, 65536);
            assert(((-u) * 65536) / 65536 == -u) by (nonlinear_arith);
            vstd::arithmetic::div_mod::lemma_div_pos_is_pos(u * u, 65536);
        }
        (u * u) / 65536 + 2 * u + 65536
    } else {
        0
    }
}

/// Fixed-point odd power: `x^(1 + 2k) / ONE^(2k)`.
fn pow_odd(x: i64, k: u32) -> (r: i64)
    requires
        0 <= x <= ONE,
    ensures
        r == spec_pow_q(x as int, (1 + 2 * k) as nat),
        0 <= r <= ONE,
{
    proof {
        assert(spec_pow_q(x as int, 0) == 65536);
        assert((x as int * 65536) / 65536 == x as int) by (nonlinear_arith);
    }
    let mut r: i64 = x;
    let mut i: u32 = 0;
    while i < k
        invariant
            0 <= x <= ONE,
            0 <= i <= k,
            0 <= r <= ONE,
            r == spec_pow_q(x as int, (1 + 2 * i) as nat),
        decreases k - i,
    {
        proof {
            assert(0 <= r * x && r * x <= ONE as int * ONE as int) by (nonlinear_arith)
                requires 0 <= r <= ONE, 0 <= x <= ONE,
            ;
        }
        let r1: i64 = (r * x) / ONE;
        proof {
            assert(r1 * 65536 <= r * x) by {
                vstd::arithmetic::div_mod::lemma_fundamental_div_mod(r as int * x as int, 65536);
            };
            assert(r1 <= ONE) by (nonlinear_arith)
                requires r1 * 65536 <= r * x, r * x <= ONE as int * ONE as int,
            ;
            vstd::arithmetic::div_mod::lemma_div_pos_is_pos(r as int * x as int, 65536);
            assert(0 <= r1 * x && r1 * x <= ONE as int * ONE as int) by (nonlinear_arith)
                requires 0 <= r1 <= ONE, 0 <= x <= ONE,
            ;
            assert(r1 as int == (x as int * r as int) / 65536) by (nonlinear_arith)
                requires r1 as int == (r as int * x as int) / 65536,
            ;
        }
        let r2: i64 = (r1 * x) / ONE;
        proof {
            assert(r2 * 65536 <= r1 * x) by {
                vstd::arithmetic::div_mod::lemma_fundamental_div_mod(r1 as int * x as int, 65536);
            };
            assert(r2 <= ONE) by (nonlinear_arith)
                requires r2 * 65536 <= r1 * x, r1 * x <= ONE as int * ONE as int,
            ;
            vstd::arithmetic::div_mod::lemma_div_pos_is_pos(r1 as int * x as int, 65536);
            assert(r2 as int == (x as int * r1 as int) / 65536) by (nonlinear_arith)
                requires r2 as int == (r1 as int * x as int) / 65536,
            ;
            assert(spec_pow_q(x as int, (1 + 2 * (i + 1)) as nat) == (x as int * spec_pow_q(
                x as int,
                (2 + 2 * i) as nat,
            )) / 65536);
            assert(spec_pow_q(x as int, (2 + 2 * i) as nat) == (x as int * spec_pow_q(
                x as int,
                (1 + 2 * i) as nat,
            )) / 65536);
        }
        r = r2;
        i = i + 1;
    }
    r
}

impl Waveform {
    /// The raw sample of this waveform at the given Q32 phase and increment.
    pub fn sample(&self, phase: i64, phase_inc: i64) -> (s: i64)
        requires
            0 <= phase < PHASE_ONE,
            0 <= phase_inc < PHASE_ONE,
        ensures
            s == spec_wave_sample(*self, phase as int, phase_inc as int),
            -SAMPLE_MAX <= s <= SAMPLE_MAX,
    {
        match self {
            Waveform::Sine => sine_q(phase),
            Waveform::Square { pulse_width } => {
                let p: i64 = crate::fixed::clamp64(*pulse_width, PW_MIN, PW_MAX);
                let pq: i64 = p * 65536;
                let base: i64 = if phase < pq {
                    ONE
                } else {
                    -ONE
                };
                let t2: i64 = if phase >= pq {
                    phase - pq
                } else {
                    phase - pq + PHASE_ONE
                };
                let b1: i64 = poly_blep(phase, phase_inc);
                let b2: i64 = poly_blep(t2, phase_inc);
                base + b1 - b2
            },
            Waveform::Sawtooth => {
                let ramp: i64 = phase / 32768 - 65536;
                let b1: i64 = poly_blep(phase, phase_inc);
                ramp - b1
            },
            Waveform::Triangle { curve } => {
                let tq: i64 = phase / 65536;
                let dev: i64 = if tq >= 32768 {
                    tq - 32768
                } else {
                    32768 - tq
                };
                let tri: i64 = 65536 - 4 * dev;
                let k: u32 = if *curve > CURVE_MAX {
                    CURVE_MAX
                } else {
                    *curve
                };
                if tri >= 0 {
                    pow_odd(tri, k)
                } else {
                    -pow_odd(-tri, k)
                }
            },
        }
    }
}

/// Phase-accumulator oscillator.
#[derive(Clone, Copy, Debug)]
pub struct Osc {
    /// Current phase, Q32 in `[0, PHASE_ONE)`.
    pub phase: i64,
    /// Output amplitude, Q16 (always full scale).
    pub amp: i64,
    /// The waveform being played.
    pub waveform: Waveform,
    /// Phase advance per sample, Q32 in `[0, PHASE_ONE)`.
    pub phase_inc: i64,
}

/// The phase increment for `freq` millihertz at `sr` Hz.
pub open spec fn spec_phase_inc(freq: int, sr: int) -> int {
    ((freq * 0x1_0000_0000) / (sr * 1000)) % 0x1_0000_0000
}

/// A fresh oscillator at phase zero.
pub open spec fn spec_osc_new(freq: int, sr: int, w: Waveform) -> Osc {
    Osc { phase: 0, amp: ONE, waveform: w, phase_inc: spec_phase_inc(freq, sr) as i64 }
}

/// The oscillator after one sample.
pub open spec fn spec_osc_tick(o: Osc) -> Osc {
    Osc { phase: ((o.phase + o.phase_inc) % 0x1_0000_0000) as i64, ..o }
}

/// The sample an oscillator emits before advancing.
pub open spec fn spec_osc_out(o: Osc) -> int {
    tdiv(spec_wave_sample(o.waveform, o.phase as int, o.phase_inc as int) * o.amp as int, 65536)
}

impl Osc {
    pub open spec fn wf(self) -> bool {
        &&& 0 <= self.phase < PHASE_ONE
        &&& 0 <= self.phase_inc < PHASE_ONE
        &&& self.amp == ONE
    }

    /// Build an oscillator for `freq_millihz` at sample rate `sr`.
    pub fn new(freq_millihz: i64, sr: i64, waveform: Waveform) -> (o: Osc)
        requires
            0 <= freq_millihz <= FREQ_MAX,
            1 <= sr <= SR_MAX,
        ensures
            o == spec_osc_new(freq_millihz as int, sr as int, waveform),
            o.wf(),
    {
        proof {
            assert(freq_millihz * 0x1_0000_0000 <= FREQ_MAX as int * 0x1_0000_0000
                && freq_millihz * 0x1_0000_0000 >= 0) by (nonlinear_arith)
                requires 0 <= freq_millihz <= FREQ_MAX,
            ;
            assert(1000 <= sr * 1000 <= SR_MAX as int * 1000) by (nonlinear_arith)
                requires 1 <= sr <= SR_MAX,
            ;
            vstd::arithmetic::div_mod::lemma_div_pos_is_pos(
                freq_millihz as int * 0x1_0000_0000,
                sr as int * 1000,
            );
        }
        let inc: i64 = ((freq_millihz * PHASE_ONE) / (sr * 1000)) % PHASE_ONE;
        Osc { phase: 0, amp: ONE, waveform, phase_inc: inc }
    }

    /// Emit the sample at the current phase, then advance and wrap the phase.
    pub fn next_sample(&mut self) -> (s: i64)
        requires
            old(self).wf(),
        ensures
            *final(self) == spec_osc_tick(*old(self)),
            final(self).wf(),
            s == spec_osc_out(*old(self)),
            -SAMPLE_MAX <= s <= SAMPLE_MAX,
    {
        let raw: i64 = self.waveform.sample(self.phase, self.phase_inc);
        proof {
            assert(raw * 65536int / 65536int == raw) by (nonlinear_arith);
            assert(raw as int * self.amp as int == raw as int * 65536) by (nonlinear_arith)
                requires self.amp == 65536int,
            ;
        }
        let out: i64 = (raw * self.amp) / ONE;
        self.phase = (self.phase + self.phase_inc) % PHASE_ONE;
        out
    }

    /// Swap the waveform in place; phase and tuning are preserved.
    pub fn set_waveform(&mut self, waveform: Waveform)
        requires
            old(self).wf(),
        ensures
            *final(self) == (Osc { waveform, ..*old(self) }),
            final(self).wf(),
    {
        self.waveform = waveform;
    }
}

} // verus!
