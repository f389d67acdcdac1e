//! Linear range mapping.
//!
//! Bounded oscillation is obtained by mapping an oscillator value
//! from its own range onto a target interval, for instance mapping a
//! sine value from `[-UNIT, UNIT]` onto the part of the window a
//! circle may occupy.  The mapping is an exact integer version of
//! the affine map between the two intervals, rounding the scaled
//! offset down.
use vstd::prelude::*;
use crate::SPAN_MAX;

verus! {

/// The affine image of `x`, taken from the interval
/// `[in_lo, in_hi]`, in the interval from `out_lo` to `out_hi`.
/// The output interval may run downward.
pub open spec fn map_range_spec(x: int, in_lo: int, in_hi: int, out_lo: int, out_hi: int) -> int {
    if out_lo <= out_hi {
        out_lo + ((x - in_lo) * (out_hi - out_lo)) / (in_hi - in_lo)
    } else {
        out_lo - ((x - in_lo) * (out_lo - out_hi)) / (in_hi - in_lo)
    }
}

/// `r` lies between `lo` and `hi`, whichever way they are ordered.
pub open spec fn within(lo: int, hi: int, r: int) -> bool {
    if lo <= hi {
        lo <= r <= hi
    } else {
        hi <= r <= lo
    }
}

/// Maps `x` from the interval `[in_lo, in_hi]` onto the interval
/// from `out_lo` to `out_hi`: the result stays between the output
/// ends and hits them exactly at the input ends.
pub fn map_range(x: i64, in_lo: i64, in_hi: i64, out_lo: i64, out_hi: i64) -> (r: i64)
    requires
        in_lo < in_hi,
        in_lo <= x <= in_hi,
        in_hi - in_lo <= SPAN_MAX,
        -SPAN_MAX <= out_hi - out_lo <= SPAN_MAX,
    ensures
        r == map_range_spec(x as int, in_lo as int, in_hi as int, out_lo as int, out_hi as int),
        within(out_lo as int, out_hi as int, r as int),
        x == in_lo ==> r == out_lo,
        x == in_hi ==> r == out_hi,
{
    let dx: u64 = (x - in_lo) as u64;
    let din: u64 = (in_hi - in_lo) as u64;
    if out_lo <= out_hi {
        let dout: u64 = (out_hi - out_lo) as u64;
        proof {
            vstd::arithmetic::mul::lemma_mul_upper_bound(
                dx as int, SPAN_MAX as int, dout as int, SPAN_MAX as int);
            vstd::arithmetic::mul::lemma_mul_inequality(dx as int, din as int, dout as int);
            vstd::arithmetic::div_mod::lemma_div_is_ordered(
                dx as int * dout as int, din as int * dout as int, din as int);
            vstd::arithmetic::mul::lemma_mul_is_commutative(din as int, dout as int);
            vstd::arithmetic::div_mod::lemma_div_by_multiple(dout as int, din as int);
            vstd::arithmetic::div_mod::lemma_div_pos_is_pos(
                dx as int * dout as int, din as int);
        }
        let q: u64 = (dx * dout) / din;
        out_lo + (q as i64)
    } else {
        let dout: u64 = (out_lo - out_hi) as u64;
        proof {
            vstd::arithmetic::mul::lemma_mul_upper_bound(
                dx as int, SPAN_MAX as int, dout as int, SPAN_MAX as int);
            vstd::arithmetic::mul::lemma_mul_inequality(dx as int, din as int, dout as int);
            vstd::arithmetic::div_mod::lemma_div_is_ordered(
                dx as int * dout as int, din as int * dout as int, din as int);
            vstd::arithmetic::mul::lemma_mul_is_commutative(din as int, dout as int);
            vstd::arithmetic::div_mod::lemma_div_by_multiple(dout as int, din as int);
            vstd::arithmetic::div_mod::lemma_div_pos_is_pos(
                dx as int * dout as int, din as int);
        }
        let q: u64 = (dx * dout) / din;
        out_lo - (q as i64)
    }
}

/// Law: on an ascending output interval, the range mapping is
/// monotonic in its input.
pub proof fn lemma_map_range_monotonic(
    x1: int, x2: int, in_lo: int, in_hi: int, out_lo: int, out_hi: int,
)
    requires
        in_lo < in_hi,
        out_lo <= out_hi,
        in_lo <= x1 <= x2 <= in_hi,
    ensures
        map_range_spec(x1, in_lo, in_hi, out_lo, out_hi)
            <= map_range_spec(x2, in_lo, in_hi, out_lo, out_hi),
{
    vstd::arithmetic::mul::lemma_mul_inequality(x1 - in_lo, x2 - in_lo, out_hi - out_lo);
    vstd::arithmetic::div_mod::lemma_div_is_ordered(
        (x1 - in_lo) * (out_hi - out_lo),
        (x2 - in_lo) * (out_hi - out_lo),
        in_hi - in_lo,
    );
}

/// Law: the range mapping sends the input ends to the output ends
/// exactly, whichever way the output interval runs.
pub proof fn lemma_map_range_endpoints(in_lo: int, in_hi: int, out_lo: int, out_hi: int)
    requires
        in_lo < in_hi,
    ensures
        map_range_spec(in_lo, in_lo, in_hi, out_lo, out_hi) == out_lo,
        map_range_spec(in_hi, in_lo, in_hi, out_lo, out_hi) == out_hi,
{
    let din = in_hi - in_lo;
    vstd::arithmetic::mul::lemma_mul_basics(out_hi - out_lo);
    vstd::arithmetic::mul::lemma_mul_basics(out_lo - out_hi);
    vstd::arithmetic::div_mod::lemma_div_of0(din);
    if out_lo <= out_hi {
        vstd::arithmetic::mul::lemma_mul_is_commutative(din, out_hi - out_lo);
        vstd::arithmetic::div_mod::lemma_div_by_multiple(out_hi - out_lo, din);
    } else {
        vstd::arithmetic::mul::lemma_mul_is_commutative(din, out_lo - out_hi);
        vstd::arithmetic::div_mod::lemma_div_by_multiple(out_lo - out_hi, din);
    }
}

} // verus!
