//! A verified model of time-driven motion and color for simple
//! frame-based animations: phase angles derived from elapsed time,
//! exact points on a circle for orbiting shapes, linear range
//! mapping for bounded oscillation, hue cycling, and the per-frame
//! entity update and draw-command emission that a rendering
//! front end consumes.
//!
//! All quantities are integers. Lengths and coordinates are carried
//! in milli-units (one thousandth of a pixel), angles in microturns
//! (one millionth of a full turn), and dimensionless oscillator
//! values in milli-units scaled by `UNIT`.
use vstd::prelude::*;

pub mod angle;
pub mod color;
pub mod entity;
pub mod mapping;
pub mod orbit;
pub mod render;
pub mod shaping;

verus! {

/// Microturns in one full turn.
pub const TURN: u64 = 1_000_000;

/// Microturns in half a turn.
pub const HALF_TURN: u64 = 500_000;

/// Microturns in a quarter turn.
pub const QUARTER_TURN: u64 = 250_000;

/// Scale of dimensionless oscillator values: an oscillator ranges
/// over `-UNIT ..= UNIT`, standing for the real interval [-1, 1].
pub const UNIT: i64 = 1000;

/// Largest magnitude accepted for an orbit center coordinate or an
/// orbit amplitude, in milli-units: keeps every intermediate product
/// of the exact circle arithmetic inside `i64`.
pub const AMP_MAX: i64 = 10_000_000;

/// Largest span accepted between the two ends of a range handed to
/// the range mapping: keeps the cross product of the two spans
/// inside `u64`.
pub const SPAN_MAX: i64 = 2_000_000_000;

/// Largest magnitude accepted for a window coordinate, in
/// milli-units.
pub const COORD_MAX: i64 = 200_000_000;

/// Largest circle radius the update step accepts, in milli-units:
/// together with `COORD_MAX` it keeps the oscillation bounds inside
/// the span the range mapping accepts.
pub const RADIUS_MAX: i64 = 100_000_000;

/// `n / d` rounded toward zero, for positive `d`: how a scaled
/// integer quantity is reduced to its output unit.
pub open spec fn div_trunc(n: int, d: int) -> int {
    if n >= 0 {
        n / d
    } else {
        -((-n) / d)
    }
}

} // verus!
