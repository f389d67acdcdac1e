//! Exact points on a circle, for orbiting shapes.
//!
//! A phase angle `a` in microturns is mapped to a point of the unit
//! circle through the rational parametrization
//! `((v*v - u*u) / (v*v + u*u), 2*u*v / (v*v + u*u))`, where `u` is
//! the distance travelled into the current half turn and
//! `v = HALF_TURN - u` the distance remaining.  Every such point
//! lies on the circle exactly, so an orbit position is carried as a
//! pair of numerators over a common positive denominator and the
//! circle property is an identity of integers, not an approximation.
//!
//! The same parametrization yields the bounded oscillators
//! [`osc_sin`] and [`osc_cos`], which stand in for the sine and
//! cosine of the angle, scaled to `-UNIT ..= UNIT`.
use vstd::prelude::*;
use crate::{AMP_MAX, HALF_TURN, TURN, UNIT};

verus! {

/// Distance travelled into the current half turn, for an angle in
/// `0 .. TURN`.
pub open spec fn arc_u(a: int) -> int {
    if a <= HALF_TURN { a } else { TURN - a }
}

/// Distance remaining in the current half turn.
pub open spec fn arc_v(a: int) -> int {
    HALF_TURN - arc_u(a)
}

/// Common denominator of the unit-circle point for angle `a`.
pub open spec fn circle_den(a: int) -> int {
    arc_u(a) * arc_u(a) + arc_v(a) * arc_v(a)
}

/// Numerator of the unit-circle abscissa for angle `a`.
pub open spec fn circle_x_num(a: int) -> int {
    arc_v(a) * arc_v(a) - arc_u(a) * arc_u(a)
}

/// Numerator of the unit-circle ordinate for angle `a`: positive on
/// the first half turn, negative on the second.
pub open spec fn circle_y_num(a: int) -> int {
    if a <= HALF_TURN {
        2 * arc_u(a) * arc_v(a)
    } else {
        -(2 * arc_u(a) * arc_v(a))
    }
}

/// Abscissa numerator of the point reached when orbiting at
/// amplitude `r` around abscissa `cx`.
pub open spec fn orbit_x_spec(cx: int, r: int, a: int) -> int {
    cx * circle_den(a) + r * circle_x_num(a)
}

/// Ordinate numerator of the point reached when orbiting at
/// amplitude `r` around ordinate `cy`.
pub open spec fn orbit_y_spec(cy: int, r: int, a: int) -> int {
    cy * circle_den(a) + r * circle_y_num(a)
}

/// The point `(x / den, y / den)` lies exactly on the circle of
/// radius `r` centered at `(cx, cy)`.
pub open spec fn on_circle(x: int, y: int, den: int, cx: int, cy: int, r: int) -> bool {
    &&& den > 0
    &&& (x - cx * den) * (x - cx * den) + (y - cy * den) * (y - cy * den)
        == (r * den) * (r * den)
}

/// A position produced by an orbit: the exact rational point
/// `(x_num / den, y_num / den)`.
#[derive(Clone, Copy, Debug, PartialEq, Eq, Structural)]
pub struct OrbitPoint {
    pub x_num: i64,
    pub y_num: i64,
    pub den: i64,
}

/// The unit-circle numerators and denominator for any angle satisfy
/// the circle identity exactly, the denominator is positive and at
/// most `HALF_TURN * HALF_TURN`, and both numerators are bounded by
/// the denominator in magnitude.
pub proof fn lemma_unit_circle(a: int)
    requires
        0 <= a < TURN,
    ensures
        circle_x_num(a) * circle_x_num(a) + circle_y_num(a) * circle_y_num(a)
            == circle_den(a) * circle_den(a),
        0 < circle_den(a) <= (HALF_TURN as int) * (HALF_TURN as int),
        -circle_den(a) <= circle_x_num(a) <= circle_den(a),
        -circle_den(a) <= circle_y_num(a) <= circle_den(a),
{
    let u = arc_u(a);
    let v = arc_v(a);
    assert(0 <= u <= HALF_TURN);
    assert(u + v == HALF_TURN);
    assert(u > 0 || v > 0);
    let xc = circle_x_num(a);
    let yc = circle_y_num(a);
    let den = circle_den(a);
    assert(xc == v * v - u * u && den == u * u + v * v);
    assert(yc == 2 * u * v || yc == -(2 * u * v));
    assert(xc * xc + yc * yc == den * den) by (nonlinear_arith)
        requires
            xc == v * v - u * u,
            den == u * u + v * v,
            yc == 2 * u * v || yc == -(2 * u * v);
    assert(0 < den <= (HALF_TURN as int) * (HALF_TURN as int)) by (nonlinear_arith)
        requires
            den == u * u + v * v,
            u >= 0 && v >= 0 && (u > 0 || v > 0),
            u + v == HALF_TURN;
    assert(-den <= xc <= den && -den <= yc <= den) by (nonlinear_arith)
        requires
            xc == v * v - u * u,
            den == u * u + v * v,
            yc == 2 * u * v || yc == -(2 * u * v),
            u >= 0 && v >= 0;
}

/// Law: for every angle, the orbit position lies exactly on the
/// circle of the configured amplitude centered at the configured
/// origin.
#[verifier::rlimit(50)]
pub proof fn lemma_orbit_on_circle(cx: int, cy: int, r: int, a: int)
    requires
        0 <= a < TURN,
    ensures
        on_circle(
            orbit_x_spec(cx, r, a),
            orbit_y_spec(cy, r, a),
            circle_den(a),
            cx,
            cy,
            r,
        ),
{
    let xc = circle_x_num(a);
    let yc = circle_y_num(a);
    let den = circle_den(a);
    lemma_unit_circle(a);
    assert(orbit_x_spec(cx, r, a) - cx * den == r * xc);
    assert(orbit_y_spec(cy, r, a) - cy * den == r * yc);
    assert((r * xc) * (r * xc) + (r * yc) * (r * yc) == (r * den) * (r * den))
        by (nonlinear_arith)
        requires xc * xc + yc * yc == den * den;
}

impl OrbitPoint {
    /// The point lies on the given circle.
    pub open spec fn lies_on(self, cx: int, cy: int, r: int) -> bool {
        on_circle(self.x_num as int, self.y_num as int, self.den as int, cx, cy, r)
    }
}

/// The position reached at phase angle `a` when orbiting at
/// amplitude `amplitude` around the center `(cx, cy)`: an exact
/// rational point on that circle.
pub fn orbit_position(cx: i64, cy: i64, amplitude: i64, a: u64) -> (p: OrbitPoint)
    requires
        a < TURN,
        -AMP_MAX <= cx <= AMP_MAX,
        -AMP_MAX <= cy <= AMP_MAX,
        -AMP_MAX <= amplitude <= AMP_MAX,
    ensures
        p.den == circle_den(a as int),
        p.x_num == orbit_x_spec(cx as int, amplitude as int, a as int),
        p.y_num == orbit_y_spec(cy as int, amplitude as int, a as int),
        p.lies_on(cx as int, cy as int, amplitude as int),
        -5_000_000_000_000_000_000 <= p.x_num <= 5_000_000_000_000_000_000,
        -5_000_000_000_000_000_000 <= p.y_num <= 5_000_000_000_000_000_000,
{
    proof {
        lemma_unit_circle(a as int);
    }
    let u: i64 = if a <= HALF_TURN { a as i64 } else { (TURN - a) as i64 };
    let v: i64 = (HALF_TURN as i64) - u;
    assert(u == arc_u(a as int) && v == arc_v(a as int));
    assert(u * u <= 250_000_000_000 && v * v <= 250_000_000_000
        && 0 <= 2 * u && 0 <= (2 * u) * v <= 500_000_000_000)
        by (nonlinear_arith)
        requires 0 <= u <= 500_000 && 0 <= v <= 500_000;
    let uu: i64 = u * u;
    let vv: i64 = v * v;
    let den: i64 = uu + vv;
    let xc: i64 = vv - uu;
    let yc: i64 = if a <= HALF_TURN { 2 * u * v } else { -(2 * u * v) };
    assert(xc == circle_x_num(a as int) && yc == circle_y_num(a as int));
    assert({
        &&& -2_500_000_000_000_000_000 <= cx * den <= 2_500_000_000_000_000_000
        &&& -2_500_000_000_000_000_000 <= cy * den <= 2_500_000_000_000_000_000
        &&& -2_500_000_000_000_000_000 <= amplitude * xc <= 2_500_000_000_000_000_000
        &&& -2_500_000_000_000_000_000 <= amplitude * yc <= 2_500_000_000_000_000_000
    }) by (nonlinear_arith)
        requires
            -AMP_MAX <= cx <= AMP_MAX,
            -AMP_MAX <= cy <= AMP_MAX,
            -AMP_MAX <= amplitude <= AMP_MAX,
            0 <= den <= 250_000_000_000,
            -den <= xc <= den,
            -den <= yc <= den;
    let x_num: i64 = cx * den + amplitude * xc;
    let y_num: i64 = cy * den + amplitude * yc;
    proof {
        lemma_orbit_on_circle(cx as int, cy as int, amplitude as int, a as int);
    }
    OrbitPoint { x_num, y_num, den }
}

/// Magnitude of the sine oscillator at angle `a`, in `0 ..= UNIT`.
pub open spec fn osc_sin_mag(a: int) -> int {
    (2 * arc_u(a) * arc_v(a) * UNIT) / circle_den(a)
}

/// The sine oscillator: the ordinate of the unit-circle point for
/// angle `a`, scaled to `-UNIT ..= UNIT` and rounded toward zero.
pub open spec fn osc_sin_spec(a: int) -> int {
    if a <= HALF_TURN {
        osc_sin_mag(a)
    } else {
        -osc_sin_mag(a)
    }
}

/// The cosine oscillator: the abscissa of the unit-circle point for
/// angle `a`, scaled to `-UNIT ..= UNIT` and rounded toward zero.
pub open spec fn osc_cos_spec(a: int) -> int {
    if arc_u(a) <= arc_v(a) {
        ((arc_v(a) * arc_v(a) - arc_u(a) * arc_u(a)) * UNIT) / circle_den(a)
    } else {
        -(((arc_u(a) * arc_u(a) - arc_v(a) * arc_v(a)) * UNIT) / circle_den(a))
    }
}

/// A nonnegative fraction of the denominator, scaled by `UNIT`,
/// divides to a value in `0 ..= UNIT`.
proof fn lemma_unit_frac_div(num: int, den: int)
    requires
        0 < den,
        0 <= num <= den * UNIT,
    ensures
        0 <= num / den <= UNIT,
{
    vstd::arithmetic::div_mod::lemma_div_pos_is_pos(num, den);
    vstd::arithmetic::div_mod::lemma_div_is_ordered(num, den * (UNIT as int), den);
    vstd::arithmetic::mul::lemma_mul_is_commutative(den, UNIT as int);
    vstd::arithmetic::div_mod::lemma_div_by_multiple(UNIT as int, den);
}

/// The sine oscillator value for phase angle `a`.
pub fn osc_sin(a: u64) -> (s: i64)
    requires
        a < TURN,
    ensures
        s == osc_sin_spec(a as int),
        -UNIT <= s <= UNIT,
{
    proof {
        lemma_unit_circle(a as int);
    }
    let u: u64 = if a <= HALF_TURN { a } else { TURN - a };
    let v: u64 = HALF_TURN - u;
    assert(u == arc_u(a as int) && v == arc_v(a as int));
    assert(u * u <= 250_000_000_000 && v * v <= 250_000_000_000
        && 0 <= (2 * u) * v <= 500_000_000_000)
        by (nonlinear_arith)
        requires u <= 500_000 && v <= 500_000;
    let den: u64 = u * u + v * v;
    proof {
        assert((2 * u) * v <= den) by (nonlinear_arith)
            requires den == u * u + v * v;
        vstd::arithmetic::mul::lemma_mul_inequality(
            (2 * u) * v, den as int, UNIT as int);
        lemma_unit_frac_div(2 * u * v * (UNIT as int), den as int);
    }
    let num: u64 = 2 * u * v * (UNIT as u64);
    let q: u64 = num / den;
    if a <= HALF_TURN {
        q as i64
    } else {
        -(q as i64)
    }
}

/// The cosine oscillator value for phase angle `a`.
pub fn osc_cos(a: u64) -> (c: i64)
    requires
        a < TURN,
    ensures
        c == osc_cos_spec(a as int),
        -UNIT <= c <= UNIT,
{
    proof {
        lemma_unit_circle(a as int);
    }
    let u: u64 = if a <= HALF_TURN { a } else { TURN - a };
    let v: u64 = HALF_TURN - u;
    assert(u == arc_u(a as int) && v == arc_v(a as int));
    assert(u * u <= 250_000_000_000 && v * v <= 250_000_000_000)
        by (nonlinear_arith)
        requires u <= 500_000 && v <= 500_000;
    let uu: u64 = u * u;
    let vv: u64 = v * v;
    let den: u64 = uu + vv;
    if u <= v {
        proof {
            assert(u * u <= v * v) by (nonlinear_arith)
                requires 0 <= u <= v;
            assert(vv - uu <= den);
            vstd::arithmetic::mul::lemma_mul_inequality(
                vv - uu, den as int, UNIT as int);
            lemma_unit_frac_div((vv - uu) * (UNIT as int), den as int);
        }
        let num: u64 = (vv - uu) * (UNIT as u64);
        (num / den) as i64
    } else {
        proof {
            assert(v * v <= u * u) by (nonlinear_arith)
                requires 0 <= v <= u;
            assert(uu - vv <= den);
            vstd::arithmetic::mul::lemma_mul_inequality(
                uu - vv, den as int, UNIT as int);
            lemma_unit_frac_div((uu - vv) * (UNIT as int), den as int);
        }
        let num: u64 = (uu - vv) * (UNIT as u64);
        -((num / den) as i64)
    }
}

/// Scales `v` by an oscillator value: `osc` thousandths of `v`,
/// rounded toward zero.
pub fn osc_scale(osc: i64, v: i64) -> (r: i64)
    requires
        -UNIT <= osc <= UNIT,
        -1_000_000_000 <= v <= 1_000_000_000,
    ensures
        r == crate::div_trunc(osc * v, UNIT as int),
        -1_000_000_000 <= r <= 1_000_000_000,
{
    assert(UNIT as int == 1000);
    let om: u64 = if osc >= 0 { osc as u64 } else { (-osc) as u64 };
    let vm: u64 = if v >= 0 { v as u64 } else { (-v) as u64 };
    proof {
        assert(om * vm <= 1_000_000_000_000) by (nonlinear_arith)
            requires om <= 1000 && vm <= 1_000_000_000;
        assert(osc * v == om * vm || osc * v == -(om as int * vm as int)) by (nonlinear_arith)
            requires
                om == (if osc >= 0 { osc as int } else { -(osc as int) }),
                vm == (if v >= 0 { v as int } else { -(v as int) });
    }
    let mag: u64 = om * vm;
    proof {
        vstd::arithmetic::div_mod::lemma_div_is_ordered(
            mag as int, 1_000_000_000_000, 1000);
        vstd::arithmetic::div_mod::lemma_div_pos_is_pos(mag as int, 1000);
    }
    let q: u64 = mag / 1000;
    if (osc >= 0) == (v >= 0) {
        proof {
            assert(osc * v >= 0) by (nonlinear_arith)
                requires (osc >= 0 && v >= 0) || (osc <= 0 && v <= 0);
            assert(osc * v == mag);
        }
        q as i64
    } else {
        proof {
            assert(osc * v <= 0) by (nonlinear_arith)
                requires (osc >= 0 && v <= 0) || (osc <= 0 && v >= 0);
            assert(osc * v == -(mag as int) || osc * v == 0);
        }
        -(q as i64)
    }
}

} // verus!
