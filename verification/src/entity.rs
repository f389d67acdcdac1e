//! Entities and the per-frame update step.
//!
//! An entity is a circle with a position, a phase-rate `speed`, a
//! radius and a color.  Once per frame the update step grows or
//! shrinks the radius by a fixed step — deliberately unclamped, as
//! the update rule accumulates without bounds — and recomputes the
//! position by mapping the oscillators of the entity's phase angle
//! onto the part of the window the circle may occupy.
use vstd::prelude::*;
use crate::angle::{angle_at, angle_spec};
use crate::color::Color;
use crate::mapping::{map_range, map_range_spec};
use crate::orbit::{osc_cos, osc_cos_spec, osc_sin, osc_sin_spec};
use crate::{COORD_MAX, RADIUS_MAX, UNIT};

verus! {

/// Starting radius of the first circle, in milli-units.
pub const RADIUS_A: i64 = 50_000;

/// Growth applied to the first circle each frame, in milli-units.
pub const GROW_STEP: i64 = 20;

/// Shrink applied to the second circle each frame, in milli-units.
pub const SHRINK_STEP: i64 = 10;

/// The window, as the coordinates of its edges in milli-units, the
/// origin at its center.
#[derive(Clone, Copy, Debug, PartialEq, Eq, Structural)]
pub struct WindowRect {
    pub left: i64,
    pub right: i64,
    pub bottom: i64,
    pub top: i64,
}

impl WindowRect {
    /// The rectangle is properly oriented and its edges are within
    /// the coordinate bound.
    pub open spec fn wf(self) -> bool {
        &&& -COORD_MAX <= self.left < self.right <= COORD_MAX
        &&& -COORD_MAX <= self.bottom < self.top <= COORD_MAX
    }

    /// The window of the given size centered on the origin.
    pub fn centered(w: i64, h: i64) -> (r: WindowRect)
        requires
            2 <= w <= COORD_MAX,
            2 <= h <= COORD_MAX,
        ensures
            r.left == -((w as int) / 2),
            r.right == (w as int) / 2,
            r.bottom == -((h as int) / 2),
            r.top == (h as int) / 2,
            r.wf(),
    {
        proof {
            vstd::arithmetic::div_mod::lemma_div_is_ordered(2, w as int, 2);
            vstd::arithmetic::div_mod::lemma_div_is_ordered(2, h as int, 2);
            vstd::arithmetic::div_mod::lemma_div_is_ordered(w as int, COORD_MAX as int, 2);
            vstd::arithmetic::div_mod::lemma_div_is_ordered(h as int, COORD_MAX as int, 2);
        }
        let half_w: i64 = ((w as u64) / 2) as i64;
        let half_h: i64 = ((h as u64) / 2) as i64;
        WindowRect { left: -half_w, right: half_w, bottom: -half_h, top: half_h }
    }
}

/// A drawable circle's persistent per-frame state.
#[derive(Clone, Copy, Debug, PartialEq, Eq, Structural)]
pub struct Circle {
    pub x: i64,
    pub y: i64,
    pub speed: i64,
    pub radius: i64,
    pub color: Color,
}

impl Circle {
    /// Grows the radius by `by`.  Nothing clamps the result: the
    /// radius may leave any range callers care about, and with a
    /// negative `by` it may go below zero.
    pub fn grow(&mut self, by: i64)
        requires
            i64::MIN <= old(self).radius + by <= i64::MAX,
        ensures
            final(self).radius == old(self).radius + by,
            final(self).x == old(self).x,
            final(self).y == old(self).y,
            final(self).speed == old(self).speed,
            final(self).color == old(self).color,
    {
        self.radius = self.radius + by;
    }

    /// Shrinks the radius by `by`: growth with the step negated.
    pub fn shrink(&mut self, by: i64)
        requires
            by > i64::MIN,
            i64::MIN <= old(self).radius - by <= i64::MAX,
        ensures
            final(self).radius == old(self).radius - by,
            final(self).x == old(self).x,
            final(self).y == old(self).y,
            final(self).speed == old(self).speed,
            final(self).color == old(self).color,
    {
        self.grow(-by);
    }

    /// Applies `n` growth updates of step `by` in a row.
    pub fn grow_repeated(&mut self, n: u64, by: i64)
        requires
            i64::MIN <= old(self).radius + n * by <= i64::MAX,
        ensures
            final(self).radius == old(self).radius + n * by,
            final(self).x == old(self).x,
            final(self).y == old(self).y,
            final(self).speed == old(self).speed,
            final(self).color == old(self).color,
    {
        let ghost r0 = old(self).radius as int;
        let mut i: u64 = 0;
        proof {
            vstd::arithmetic::mul::lemma_mul_basics(by as int);
        }
        while i < n
            invariant
                i <= n,
                self.radius == r0 + i * by,
                i64::MIN <= r0 + n * by <= i64::MAX,
                i64::MIN <= r0 <= i64::MAX,
                self.x == old(self).x,
                self.y == old(self).y,
                self.speed == old(self).speed,
                self.color == old(self).color,
            decreases n - i,
        {
            proof {
                assert(i * by + by == (i + 1) * by) by (nonlinear_arith);
                assert(i64::MIN <= r0 + (i + 1) * by <= i64::MAX) by (nonlinear_arith)
                    requires
                        0 <= i + 1 <= n,
                        i64::MIN <= r0 <= i64::MAX,
                        i64::MIN <= r0 + n * by <= i64::MAX;
            }
            self.grow(by);
            i = i + 1;
        }
    }
}

/// The radius reached after `n` growth updates of step `by`,
/// starting from `r0`.
pub open spec fn radius_after(r0: int, n: nat, by: int) -> int
    decreases n,
{
    if n == 0 {
        r0
    } else {
        radius_after(r0, (n - 1) as nat, by) + by
    }
}

/// Law: `n` growth updates of step `by` add exactly `n * by` to the
/// radius; nothing along the way clamps the accumulation.
pub proof fn lemma_radius_accumulates(r0: int, n: nat, by: int)
    ensures
        radius_after(r0, n, by) == r0 + n * by,
    decreases n,
{
    if n == 0 {
        vstd::arithmetic::mul::lemma_mul_basics(by);
    } else {
        lemma_radius_accumulates(r0, (n - 1) as nat, by);
        assert((n - 1) * by + by == n * by) by (nonlinear_arith);
    }
}

/// Twice the given value.
pub fn double_it(x: i64) -> (r: i64)
    requires
        i64::MIN <= 2 * x <= i64::MAX,
    ensures
        r == 2 * x,
{
    2 * x
}

/// The animation state: two circles chasing each other around the
/// window.
#[derive(Clone, Copy, Debug, PartialEq, Eq, Structural)]
pub struct Model {
    pub circle_a: Circle,
    pub circle_b: Circle,
}

/// The starting state: the first circle at the right edge with the
/// base phase rate, the second at half the radius with the rate
/// doubled.
pub fn init_model(rect: &WindowRect, rate: i64) -> (m: Model)
    requires
        rect.wf(),
        -1_000_000_000 <= rate <= 1_000_000_000,
    ensures
        m.circle_a.x == rect.right - RADIUS_A,
        m.circle_a.y == 0,
        m.circle_a.speed == rate,
        m.circle_a.radius == RADIUS_A,
        m.circle_a.color == (Color { red: 255, green: 0, blue: 255 }),
        m.circle_b.x == rect.right - RADIUS_A / 2,
        m.circle_b.y == 0,
        m.circle_b.speed == 2 * rate,
        m.circle_b.radius == RADIUS_A / 2,
        m.circle_b.color == (Color { red: 255, green: 165, blue: 0 }),
{
    let radius_a: i64 = RADIUS_A;
    let a = Circle {
        x: rect.right - radius_a,
        y: 0,
        speed: rate,
        radius: radius_a,
        color: Color::new(255, 0, 255),
    };
    let b = Circle {
        x: rect.right - radius_a / 2,
        y: 0,
        speed: double_it(rate),
        radius: radius_a / 2,
        color: Color::new(255, 165, 0),
    };
    Model { circle_a: a, circle_b: b }
}

/// Where a circle of radius `radius` and phase angle `a` sits in the
/// window: the oscillators mapped onto the span the circle may
/// occupy, sine across, cosine up.
pub open spec fn osc_x_spec(rect: WindowRect, radius: int, a: int) -> int {
    map_range_spec(osc_sin_spec(a), -UNIT, UNIT as int, rect.left + radius, rect.right - radius)
}

/// The vertical counterpart of [`osc_x_spec`].
pub open spec fn osc_y_spec(rect: WindowRect, radius: int, a: int) -> int {
    map_range_spec(osc_cos_spec(a), -UNIT, UNIT as int, rect.bottom + radius, rect.top - radius)
}

/// One frame of a single circle: grow the radius by `step`, then
/// place the circle on its oscillation path at time `t`.
fn update_circle(c: &mut Circle, rect: &WindowRect, t: u64, step: i64)
    requires
        rect.wf(),
        -RADIUS_MAX <= old(c).radius + step <= RADIUS_MAX,
        old(c).speed > i64::MIN,
    ensures
        final(c).radius == old(c).radius + step,
        final(c).speed == old(c).speed,
        final(c).color == old(c).color,
        final(c).x == osc_x_spec(*rect, old(c).radius + step,
            angle_spec(0, old(c).speed as int, t as int)),
        final(c).y == osc_y_spec(*rect, old(c).radius + step,
            angle_spec(0, old(c).speed as int, t as int)),
{
    let a = angle_at(0, c.speed, t);
    c.grow(step);
    let radius = c.radius;
    let sx = osc_sin(a);
    let cy = osc_cos(a);
    c.x = map_range(sx, -UNIT, UNIT, rect.left + radius, rect.right - radius);
    c.y = map_range(cy, -UNIT, UNIT, rect.bottom + radius, rect.top - radius);
}

/// One frame of the whole model: the first circle grows by
/// `GROW_STEP` and the second shrinks by `SHRINK_STEP`, and both are
/// placed on their oscillation paths at time `t`.
pub fn update_model(m: &mut Model, rect: &WindowRect, t: u64)
    requires
        rect.wf(),
        -RADIUS_MAX <= old(m).circle_a.radius + GROW_STEP <= RADIUS_MAX,
        -RADIUS_MAX <= old(m).circle_b.radius - SHRINK_STEP <= RADIUS_MAX,
        old(m).circle_a.speed > i64::MIN,
        old(m).circle_b.speed > i64::MIN,
    ensures
        final(m).circle_a.radius == old(m).circle_a.radius + GROW_STEP,
        final(m).circle_a.speed == old(m).circle_a.speed,
        final(m).circle_a.color == old(m).circle_a.color,
        final(m).circle_a.x == osc_x_spec(*rect, old(m).circle_a.radius + GROW_STEP,
            angle_spec(0, old(m).circle_a.speed as int, t as int)),
        final(m).circle_a.y == osc_y_spec(*rect, old(m).circle_a.radius + GROW_STEP,
            angle_spec(0, old(m).circle_a.speed as int, t as int)),
        final(m).circle_b.radius == old(m).circle_b.radius - SHRINK_STEP,
        final(m).circle_b.speed == old(m).circle_b.speed,
        final(m).circle_b.color == old(m).circle_b.color,
        final(m).circle_b.x == osc_x_spec(*rect, old(m).circle_b.radius - SHRINK_STEP,
            angle_spec(0, old(m).circle_b.speed as int, t as int)),
        final(m).circle_b.y == osc_y_spec(*rect, old(m).circle_b.radius - SHRINK_STEP,
            angle_spec(0, old(m).circle_b.speed as int, t as int)),
{
    update_circle(&mut m.circle_a, rect, t, GROW_STEP);
    update_circle(&mut m.circle_b, rect, t, -SHRINK_STEP);
}

} // verus!
