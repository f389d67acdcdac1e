//! Smooth shaping of oscillator values.
//!
//! `smoothstep` is the classic cubic ease between two edges, and
//! `multismoothstep` chains `num_steps - 1` such eases across the
//! unit interval, giving a staircase with smoothed treads that the
//! sketches feed a slow oscillator through before using it as a hue.
//! Both work on milli-unit values, mirroring the real-valued
//! formulas with exact integer arithmetic.
use vstd::prelude::*;
use crate::{SPAN_MAX, UNIT};

verus! {

/// `v` pushed into the interval `[lo, hi]`.
pub open spec fn clamp_spec(v: int, lo: int, hi: int) -> int {
    if v < lo {
        lo
    } else if v > hi {
        hi
    } else {
        v
    }
}

/// The ramp position for `smoothstep`: the offset of `x` into the
/// edge interval, scaled to `0 ..= UNIT` and clamped.
pub open spec fn smooth_t_spec(edge0: int, edge1: int, x: int) -> int {
    clamp_spec(((x - edge0) * UNIT) / (edge1 - edge0), 0, UNIT as int)
}

/// The cubic ease `t * t * (3 - 2 * t)` over the clamped ramp
/// position, in milli-units.
pub open spec fn smoothstep_spec(edge0: int, edge1: int, x: int) -> int {
    let t = smooth_t_spec(edge0, edge1, x);
    (t * t * (3 * UNIT - 2 * t)) / ((UNIT as int) * (UNIT as int))
}

/// Eases from `0` at `edge0` up to `UNIT` at `edge1`.
pub fn smoothstep(edge0: i64, edge1: i64, x: i64) -> (r: i64)
    requires
        edge0 < edge1,
        -SPAN_MAX <= edge0,
        edge1 <= SPAN_MAX,
        -SPAN_MAX <= x <= SPAN_MAX,
    ensures
        r == smoothstep_spec(edge0 as int, edge1 as int, x as int),
        0 <= r <= UNIT,
        x <= edge0 ==> r == 0,
        x >= edge1 ==> r == UNIT,
{
    let den: u64 = (edge1 - edge0) as u64;
    let t: i64 = if x <= edge0 {
        proof {
            vstd::arithmetic::mul::lemma_mul_inequality(x - edge0, 0, UNIT as int);
            vstd::arithmetic::mul::lemma_mul_basics(UNIT as int);
            vstd::arithmetic::div_mod::lemma_div_is_ordered(
                (x - edge0) * (UNIT as int), 0, den as int);
            vstd::arithmetic::div_mod::lemma_div_of0(den as int);
        }
        0
    } else {
        let num: u64 = ((x - edge0) as u64) * (UNIT as u64);
        proof {
            vstd::arithmetic::div_mod::lemma_div_pos_is_pos(num as int, den as int);
        }
        let q: u64 = num / den;
        if q >= (UNIT as u64) {
            UNIT
        } else {
            q as i64
        }
    };
    assert(t == smooth_t_spec(edge0 as int, edge1 as int, x as int));
    if x >= edge1 {
        proof {
            vstd::arithmetic::mul::lemma_mul_inequality(
                edge1 - edge0, x - edge0, UNIT as int);
            vstd::arithmetic::div_mod::lemma_div_is_ordered(
                den as int * UNIT as int, (x - edge0) * (UNIT as int), den as int);
            vstd::arithmetic::mul::lemma_mul_is_commutative(den as int, UNIT as int);
            vstd::arithmetic::div_mod::lemma_div_by_multiple(UNIT as int, den as int);
        }
        assert(t == UNIT);
    }
    proof {
        assert(0 <= t * t <= 1_000_000 && t * t * (3 * UNIT - 2 * t) <= 1_000_000_000
            && 0 <= t * t * (3 * UNIT - 2 * t))
            by (nonlinear_arith)
            requires 0 <= t <= 1000;
    }
    let tu: u64 = t as u64;
    let cube: u64 = tu * tu * ((3 * UNIT - 2 * t) as u64);
    assert((UNIT as int) * (UNIT as int) == 1_000_000);
    let r: u64 = cube / 1_000_000;
    proof {
        vstd::arithmetic::div_mod::lemma_div_is_ordered(
            cube as int, 1_000_000_000, 1_000_000);
        vstd::arithmetic::div_mod::lemma_div_pos_is_pos(cube as int, 1_000_000);
    }
    r as i64
}

/// The staircase ease: `num_steps - 1` smoothed treads across the
/// unit interval.  `x` and the result are in milli-units; a clamped
/// half of `steepness` sets how much of each tread is flat.
pub open spec fn multismoothstep_spec(num_steps: int, x: int, steepness: int) -> int {
    let n = num_steps - 1;
    let xn = x * n;
    let idx = xn / (UNIT as int);
    let rem = xn % (UNIT as int);
    let st = clamp_spec(steepness, 0, UNIT as int) / 2;
    (idx * (UNIT as int) + smoothstep_spec(st, UNIT - st, rem)) / n
}

/// Applies the staircase ease to a milli-unit value.
pub fn multismoothstep(num_steps: u32, x: i64, steepness: i64) -> (r: i64)
    requires
        num_steps >= 2,
        0 <= x <= UNIT,
        steepness < UNIT,
    ensures
        r == multismoothstep_spec(num_steps as int, x as int, steepness as int),
        0 <= r <= UNIT,
{
    let n: u32 = num_steps - 1;
    proof {
        vstd::arithmetic::mul::lemma_mul_upper_bound(
            x as int, UNIT as int, n as int, u32::MAX as int);
        vstd::arithmetic::mul::lemma_mul_nonnegative(x as int, n as int);
    }
    let xn: u64 = (x as u64) * (n as u64);
    let idx: u64 = xn / (UNIT as u64);
    let rem: u64 = xn % (UNIT as u64);
    proof {
        vstd::arithmetic::mul::lemma_mul_inequality(x as int, UNIT as int, n as int);
        vstd::arithmetic::mul::lemma_mul_is_commutative(UNIT as int, n as int);
        vstd::arithmetic::div_mod::lemma_multiply_divide_le(
            xn as int, UNIT as int, n as int);
        vstd::arithmetic::div_mod::lemma_fundamental_div_mod(xn as int, UNIT as int);
    }
    let st: i64 = if steepness <= 0 {
        0
    } else {
        ((steepness as u64) / 2) as i64
    };
    assert(st == clamp_spec(steepness as int, 0, UNIT as int) / 2);
    assert(st < 500) by {
        vstd::arithmetic::div_mod::lemma_div_is_ordered(steepness as int, 999, 2);
    }
    let ss: i64 = smoothstep(st, UNIT - st, rem as i64);
    proof {
        if idx == n {
            assert(xn == n * (UNIT as int) + rem);
            assert(rem == 0);
        }
        vstd::arithmetic::mul::lemma_mul_inequality(idx as int, n as int, UNIT as int);
    }
    let sum: u64 = idx * (UNIT as u64) + (ss as u64);
    assert(sum <= n * (UNIT as int));
    let r: u64 = sum / (n as u64);
    proof {
        vstd::arithmetic::div_mod::lemma_div_is_ordered(
            sum as int, n as int * UNIT as int, n as int);
        vstd::arithmetic::mul::lemma_mul_is_commutative(n as int, UNIT as int);
        vstd::arithmetic::div_mod::lemma_div_by_multiple(UNIT as int, n as int);
        vstd::arithmetic::div_mod::lemma_div_pos_is_pos(sum as int, n as int);
    }
    r as i64
}

} // verus!
