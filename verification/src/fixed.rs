//! Q16 fixed-point scalars and the arithmetic facts the synthesizer needs.
//!
//! An `i64` value `v` stands for the real number `v / 65536`. Executable
//! signed division in Rust truncates toward zero; `tdiv` is its spec-level
//! mirror, written with Verus's Euclidean `/`.

use vstd::prelude::*;
use vstd::arithmetic::div_mod::lemma_div_is_ordered;
use vstd::arithmetic::div_mod::lemma_div_pos_is_pos;

verus! {

/// The fixed-point unit: 1.0 in Q16.
pub const ONE: i64 = 65536;

/// One full oscillator cycle: phase values live in `[0, PHASE_ONE)` (Q32).
pub const PHASE_ONE: i64 = 0x1_0000_0000;

/// Upper clamp for envelope stage times, in Q16 seconds (one hour).
pub const TIME_MAX: i64 = 235929600;

/// Largest supported sample rate, in Hz.
pub const SR_MAX: i64 = 1000000;

/// Truncating division (the value Rust's `/` computes on `i64`), for b > 0.
pub open spec fn tdiv(a: int, b: int) -> int {
    if a >= 0 {
        a / b
    } else {
        -((-a) / b)
    }
}

/// Clamp `x` into `[lo, hi]`.
pub open spec fn sclamp(x: int, lo: int, hi: int) -> int {
    if x < lo {
        lo
    } else if x > hi {
        hi
    } else {
        x
    }
}

/// The level of a linear ramp from `start` toward `target` that lasts
/// `total` samples, after `done` of them have elapsed.
pub open spec fn ramp_level(start: int, target: int, total: int, done: int) -> int {
    start + tdiv((target - start) * done, total)
}

/// Truncating division is monotone in the dividend.
pub proof fn lemma_tdiv_ordered(a1: int, a2: int, b: int)
    requires
        a1 <= a2,
        b > 0,
    ensures
        tdiv(a1, b) <= tdiv(a2, b),
{
    if a1 >= 0 {
        lemma_div_is_ordered(a1, a2, b);
    } else if a2 < 0 {
        lemma_div_is_ordered(-a2, -a1, b);
    } else {
        lemma_div_pos_is_pos(a2, b);
        lemma_div_pos_is_pos(-a1, b);
    }
}

/// Truncating division never grows the magnitude past the exact quotient.
pub proof fn lemma_tdiv_mul_bound(c: int, d: int, b: int)
    requires
        b > 0,
    ensures
        c >= 0 && d >= 0 ==> 0 <= tdiv(c * d, b),
        0 <= c * d <= c * b ==> tdiv(c * d, b) <= c,
{
    if c >= 0 && d >= 0 {
        assert(c * d >= 0) by (nonlinear_arith)
            requires c >= 0, d >= 0,
        ;
        lemma_div_pos_is_pos(c * d, b);
    }
    if 0 <= c * d <= c * b {
        lemma_div_is_ordered(c * d, c * b, b);
        assert((c * b) / b == c) by (nonlinear_arith)
            requires b > 0,
        ;
    }
}

/// A ramp stays between its endpoints and lands exactly on `target`.
pub proof fn lemma_ramp_bounds(start: int, target: int, total: int, done: int)
    requires
        0 < total,
        0 <= done <= total,
    ensures
        start <= target ==> start <= ramp_level(start, target, total, done) <= target,
        start >= target ==> target <= ramp_level(start, target, total, done) <= start,
        done == total ==> ramp_level(start, target, total, done) == target,
        done == 0 ==> ramp_level(start, target, total, done) == start,
{
    let d = target - start;
    if d >= 0 {
        assert(0 <= d * done <= d * total) by (nonlinear_arith)
            requires d >= 0, 0 <= done <= total,
        ;
        lemma_tdiv_mul_bound(d, done, total);
        lemma_div_pos_is_pos(d * done, total);
        assert(tdiv(d * done, total) <= d);
    } else {
        assert(0 <= (-d) * done <= (-d) * total) by (nonlinear_arith)
            requires d < 0, 0 <= done <= total,
        ;
        lemma_tdiv_mul_bound(-d, done, total);
        lemma_div_pos_is_pos((-d) * done, total);
        assert(d * done == -((-d) * done)) by (nonlinear_arith);
        assert(-d <= -tdiv(d * done, total) <= 0 || 0 <= -tdiv(d * done, total) <= -d);
        assert(tdiv((-d) * done, total) <= -d);
    }
    if done == total {
        assert((d * total) / total == d) by (nonlinear_arith)
            requires total > 0,
        ;
        assert(((-d) * total) / total == -d) by (nonlinear_arith)
            requires total > 0,
        ;
    }
    if done == 0 {
        assert(d * 0 == 0) by (nonlinear_arith);
        assert(0int / total == 0);
    }
}

/// Along a ramp, each sample moves the level toward the target, never past it.
pub proof fn lemma_ramp_monotone(start: int, target: int, total: int, d1: int, d2: int)
    requires
        0 < total,
        0 <= d1 <= d2 <= total,
    ensures
        start <= target ==> ramp_level(start, target, total, d1) <= ramp_level(
            start,
            target,
            total,
            d2,
        ),
        start >= target ==> ramp_level(start, target, total, d1) >= ramp_level(
            start,
            target,
            total,
            d2,
        ),
{
    let d = target - start;
    if d >= 0 {
        assert(d * d1 <= d * d2) by (nonlinear_arith)
            requires d >= 0, d1 <= d2,
        ;
        lemma_tdiv_ordered(d * d1, d * d2, total);
        if d == 0 {
            assert(d * d1 == 0 && d * d2 == 0) by (nonlinear_arith)
                requires d == 0,
            ;
        }
    } else {
        assert(d * d2 <= d * d1) by (nonlinear_arith)
            requires d < 0, d1 <= d2,
        ;
        lemma_tdiv_ordered(d * d2, d * d1, total);
    }
}

/// Scaling by a factor `num / den` that is at most one never grows a value's
/// magnitude or flips its sign.
pub proof fn lemma_tdiv_mul_le(v: int, num: int, den: int)
    requires
        0 <= num <= den,
        den > 0,
    ensures
        v >= 0 ==> 0 <= tdiv(v * num, den) <= v,
        v <= 0 ==> v <= tdiv(v * num, den) <= 0,
{
    if v >= 0 {
        assert(0 <= v * num && v * num <= v * den) by (nonlinear_arith)
            requires 0 <= num <= den, v >= 0,
        ;
        lemma_div_pos_is_pos(v * num, den);
        lemma_div_is_ordered(v * num, v * den, den);
        assert((v * den) / den == v) by (nonlinear_arith)
            requires den > 0,
        ;
    } else {
        let w = -v;
        assert(0 <= w * num && w * num <= w * den) by (nonlinear_arith)
            requires 0 <= num <= den, w >= 0,
        ;
        assert(v * num <= 0) by (nonlinear_arith)
            requires v <= 0, num >= 0,
        ;
        assert(-(v * num) == w * num) by (nonlinear_arith)
            requires w == -v,
        ;
        lemma_div_pos_is_pos(w * num, den);
        lemma_div_is_ordered(w * num, w * den, den);
        assert((w * den) / den == w) by (nonlinear_arith)
            requires den > 0,
        ;
        if v * num == 0 {
            assert(tdiv(v * num, den) == 0);
        }
    }
}

/// A quotient's magnitude is bounded by the quotient of the magnitudes.
pub proof fn lemma_tdiv_bound(p: int, b: int, m: int)
    requires
        b > 0,
        0 <= m,
        -m <= p <= m,
    ensures
        -(m / b) <= tdiv(p, b) <= m / b,
{
    lemma_div_pos_is_pos(m, b);
    if p >= 0 {
        lemma_div_pos_is_pos(p, b);
        lemma_div_is_ordered(p, m, b);
    } else {
        lemma_div_pos_is_pos(-p, b);
        lemma_div_is_ordered(-p, m, b);
    }
}

/// Scaling a proper fraction `a / b` by `c` stays below `c`.
pub proof fn lemma_mul_div_lt(a: int, b: int, c: int)
    requires
        0 <= a < b,
        c > 0,
    ensures
        0 <= (a * c) / b < c,
{
    assert(a * c >= 0) by (nonlinear_arith)
        requires a >= 0, c > 0,
    ;
    lemma_div_pos_is_pos(a * c, b);
    vstd::arithmetic::div_mod::lemma_fundamental_div_mod(a * c, b);
    let q = (a * c) / b;
    let r = (a * c) % b;
    assert(q < c) by (nonlinear_arith)
        requires
            a * c == b * q + r,
            0 <= r,
            0 <= a < b,
            c > 0,
            b > 0,
    ;
}

/// Clamp a value into `[lo, hi]`.
pub fn clamp64(x: i64, lo: i64, hi: i64) -> (r: i64)
    requires
        lo <= hi,
    ensures
        r == sclamp(x as int, lo as int, hi as int),
        lo <= r <= hi,
{
    if x < lo {
        lo
    } else if x > hi {
        hi
    } else {
        x
    }
}

} // verus!
