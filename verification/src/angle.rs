//! Phase angles derived from elapsed time.
//!
//! A motion function turns elapsed time into a phase angle by
//! multiplying time by a rate and wrapping into one full turn.
//! Angles are measured in microturns (`TURN` per revolution), time
//! in milliseconds, and rates in microturns per millisecond.
use vstd::prelude::*;
use crate::TURN;

verus! {

/// The phase angle, in microturns, reached after `t` time units at
/// rate `omega` starting from `phase`: everything wraps modulo one
/// full turn, so the result always lies in `0 .. TURN`.
pub open spec fn angle_spec(phase: int, omega: int, t: int) -> int {
    (phase + omega * t) % (TURN as int)
}

/// Computes `angle_spec` exactly, for any time and any signed rate,
/// by reducing each factor modulo the turn before multiplying.
pub fn angle_at(phase: u64, omega: i64, t: u64) -> (a: u64)
    requires
        phase < TURN,
        omega > i64::MIN,
    ensures
        a == angle_spec(phase as int, omega as int, t as int),
        a < TURN,
{
    let mag: u64 = if omega >= 0 { omega as u64 } else { (-omega) as u64 };
    let tr: u64 = t % TURN;
    let wr: u64 = mag % TURN;
    proof {
        vstd::arithmetic::mul::lemma_mul_upper_bound(tr as int, TURN as int, wr as int, TURN as int);
    }
    let p: u64 = (tr * wr) % TURN;
    proof {
        vstd::arithmetic::div_mod::lemma_mul_mod_noop_general(mag as int, t as int, TURN as int);
        assert(p == (mag * t) % (TURN as int));
    }
    if omega >= 0 {
        proof {
            vstd::arithmetic::div_mod::lemma_add_mod_noop_right(
                phase as int, mag as int * t as int, TURN as int);
        }
        (phase + p) % TURN
    } else {
        proof {
            assert(omega as int * t as int == -(mag as int * t as int)) by (nonlinear_arith)
                requires omega as int == -(mag as int);
            vstd::arithmetic::div_mod::lemma_mod_add_multiples_vanish(
                phase - p, TURN as int);
            vstd::arithmetic::div_mod::lemma_sub_mod_noop_right(
                phase as int, mag as int * t as int, TURN as int);
        }
        (phase + (TURN - p)) % TURN
    }
}

/// Phase angles repeat: advancing time by any period whose angular
/// sweep is a whole number of turns leaves the angle unchanged.
pub proof fn lemma_angle_periodic(phase: int, omega: int, t: int, period: int)
    requires
        (omega * period) % (TURN as int) == 0,
    ensures
        angle_spec(phase, omega, t + period) == angle_spec(phase, omega, t),
{
    vstd::arithmetic::mul::lemma_mul_is_distributive_add(omega, t, period);
    vstd::arithmetic::div_mod::lemma_add_mod_noop_right(
        phase + omega * t, omega * period, TURN as int);
}

} // verus!
