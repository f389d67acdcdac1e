//! The renderer adapter: from animation state to draw commands.
//!
//! Once per frame the animation state is read — never changed — and
//! turned into an ordered sequence of draw commands: shape, place,
//! size, paint, and for stroked paths an explicit affine context.
//! A rendering front end walks the sequence in order and submits
//! the frame; everything up to that submission is specified here
//! exactly, command by command.
use vstd::prelude::*;
use crate::angle::{angle_at, angle_spec};
use crate::color::{complementary_spec, hue_spec, hue_at, complementary_hue, Color, Paint};
use crate::entity::{osc_x_spec, osc_y_spec, Model, WindowRect};
use crate::mapping::map_range;
use crate::orbit::{
    circle_den, orbit_position, orbit_x_spec, orbit_y_spec, osc_cos, osc_cos_spec, osc_scale,
    osc_sin, osc_sin_spec, OrbitPoint,
};
use crate::shaping::{multismoothstep, multismoothstep_spec};
use crate::{div_trunc, AMP_MAX, COORD_MAX, TURN, UNIT};

verus! {

/// A plain point, both coordinates in milli-units.
#[derive(Clone, Copy, Debug, PartialEq, Eq, Structural)]
pub struct Point2 {
    pub x: i64,
    pub y: i64,
}

/// The control points of one cubic bezier segment, regenerated in
/// full every frame.
#[derive(Clone, Copy, Debug, PartialEq, Eq, Structural)]
pub struct BezierPath {
    pub start: Point2,
    pub ctrl_a: Point2,
    pub ctrl_b: Point2,
    pub end: Point2,
}

/// One drawing instruction for the rendering front end.  Radii,
/// sizes and stroke weights are in milli-units; a stroke's affine
/// context scales by `scale` thousandths, rotates by `rotation`
/// microturns, translates by `translate`, and mirrors across the
/// vertical axis last if `mirror_x` is set.
#[derive(Clone, Copy, Debug, PartialEq, Eq, Structural)]
pub enum DrawCommand {
    Background { paint: Paint },
    Ellipse { center: Point2, radius: i64, paint: Paint },
    RectFill { center: Point2, width: i64, height: i64, paint: Paint },
    Triangle { center: Point2, paint: Paint },
    Stroke {
        path: BezierPath,
        scale: i64,
        rotation: u64,
        translate: Point2,
        mirror_x: bool,
        weight: i64,
        paint: Paint,
    },
}

/// `n / d` rounded toward zero, carried out on the magnitude.
fn div_toward_zero(n: i64, d: i64) -> (q: i64)
    requires
        d >= 1,
        -5_000_000_000_000_000_000 <= n <= 5_000_000_000_000_000_000,
    ensures
        q == div_trunc(n as int, d as int),
{
    if n >= 0 {
        proof {
            vstd::arithmetic::div_mod::lemma_div_nonincreasing(n as int, d as int);
            vstd::arithmetic::div_mod::lemma_div_pos_is_pos(n as int, d as int);
        }
        ((n as u64) / (d as u64)) as i64
    } else {
        proof {
            vstd::arithmetic::div_mod::lemma_div_nonincreasing(-(n as int), d as int);
            vstd::arithmetic::div_mod::lemma_div_pos_is_pos(-(n as int), d as int);
        }
        -((((-n) as u64) / (d as u64)) as i64)
    }
}

/// Reduces an exact orbit position to a plain point, rounding both
/// coordinates toward zero.
pub fn round_point(p: &OrbitPoint) -> (q: Point2)
    requires
        p.den >= 1,
        -5_000_000_000_000_000_000 <= p.x_num <= 5_000_000_000_000_000_000,
        -5_000_000_000_000_000_000 <= p.y_num <= 5_000_000_000_000_000_000,
    ensures
        q.x == div_trunc(p.x_num as int, p.den as int),
        q.y == div_trunc(p.y_num as int, p.den as int),
{
    Point2 { x: div_toward_zero(p.x_num, p.den), y: div_toward_zero(p.y_num, p.den) }
}

/// The one command of the plainest sketch: clear the frame.
pub fn render_clear(paint: Paint) -> (cmds: Vec<DrawCommand>)
    ensures
        cmds@ =~= seq![DrawCommand::Background { paint }],
{
    let mut cmds: Vec<DrawCommand> = Vec::new();
    cmds.push(DrawCommand::Background { paint });
    cmds
}

/// The frame of the concentric sketch: an outer disc colored by the
/// cycling hue, an inner disc of half the radius in the
/// complementary hue, and the black backdrop, in source order.
pub open spec fn concentric_spec(t: int, w: int, h: int) -> Seq<DrawCommand> {
    let m = if w <= h { w } else { h };
    let outer = m / 2;
    let hue = hue_spec(t, 5000);
    seq![
        DrawCommand::Ellipse {
            center: Point2 { x: 0, y: 0 },
            radius: outer as i64,
            paint: Paint::Hsv { hue: hue as u64, sat: 1000, val: 500 },
        },
        DrawCommand::Ellipse {
            center: Point2 { x: 0, y: 0 },
            radius: (outer / 2) as i64,
            paint: Paint::Hsv { hue: complementary_spec(hue) as u64, sat: 1000, val: 500 },
        },
        DrawCommand::Background {
            paint: Paint::Rgb { color: Color { red: 0, green: 0, blue: 0 } },
        },
    ]
}

/// Renders the concentric sketch at time `t` in a window of size
/// `w` by `h`.  The hue makes one revolution every five seconds.
pub fn render_concentric(t: u64, w: i64, h: i64) -> (cmds: Vec<DrawCommand>)
    requires
        2 <= w <= COORD_MAX,
        2 <= h <= COORD_MAX,
    ensures
        cmds@ =~= concentric_spec(t as int, w as int, h as int),
{
    let m: i64 = if w <= h { w } else { h };
    let outer: i64 = ((m as u64) / 2) as i64;
    let inner: i64 = ((outer as u64) / 2) as i64;
    proof {
        vstd::arithmetic::div_mod::lemma_div_nonincreasing(m as int, 2);
        vstd::arithmetic::div_mod::lemma_div_pos_is_pos(m as int, 2);
        vstd::arithmetic::div_mod::lemma_div_pos_is_pos(outer as int, 2);
    }
    let hue: u64 = hue_at(t, 5000);
    let comp: u64 = complementary_hue(hue);
    let mut cmds: Vec<DrawCommand> = Vec::new();
    cmds.push(DrawCommand::Ellipse {
        center: Point2 { x: 0, y: 0 },
        radius: outer,
        paint: Paint::Hsv { hue, sat: 1000, val: 500 },
    });
    cmds.push(DrawCommand::Ellipse {
        center: Point2 { x: 0, y: 0 },
        radius: inner,
        paint: Paint::Hsv { hue: comp, sat: 1000, val: 500 },
    });
    cmds.push(DrawCommand::Background {
        paint: Paint::Rgb { color: Color { red: 0, green: 0, blue: 0 } },
    });
    cmds
}

/// The frame of the two-circle model: the cyan backdrop, then each
/// circle where the update step left it.
pub open spec fn model_view_spec(m: Model) -> Seq<DrawCommand> {
    seq![
        DrawCommand::Background {
            paint: Paint::Rgb { color: Color { red: 0, green: 255, blue: 255 } },
        },
        DrawCommand::Ellipse {
            center: Point2 { x: m.circle_a.x, y: m.circle_a.y },
            radius: m.circle_a.radius,
            paint: Paint::Rgb { color: m.circle_a.color },
        },
        DrawCommand::Ellipse {
            center: Point2 { x: m.circle_b.x, y: m.circle_b.y },
            radius: m.circle_b.radius,
            paint: Paint::Rgb { color: m.circle_b.color },
        },
    ]
}

/// Renders the two-circle model.  The state is only read here: all
/// mutation happens in the update step.
pub fn render_model(m: &Model) -> (cmds: Vec<DrawCommand>)
    ensures
        cmds@ =~= model_view_spec(*m),
{
    let mut cmds: Vec<DrawCommand> = Vec::new();
    cmds.push(DrawCommand::Background {
        paint: Paint::Rgb { color: Color { red: 0, green: 255, blue: 255 } },
    });
    cmds.push(DrawCommand::Ellipse {
        center: Point2 { x: m.circle_a.x, y: m.circle_a.y },
        radius: m.circle_a.radius,
        paint: Paint::Rgb { color: m.circle_a.color },
    });
    cmds.push(DrawCommand::Ellipse {
        center: Point2 { x: m.circle_b.x, y: m.circle_b.y },
        radius: m.circle_b.radius,
        paint: Paint::Rgb { color: m.circle_b.color },
    });
    cmds
}

/// The phase of ring member `i` of `count`: members are spread
/// evenly around the turn.
pub open spec fn ring_phase(i: int, count: int) -> int {
    (i * (TURN as int)) / count
}

/// Ring member `i` as a draw command: a green dot on its orbit.
pub open spec fn ring_dot_spec(
    i: int, count: int, amp: int, dot_radius: int, omega: int, t: int,
) -> DrawCommand {
    let a = angle_spec(ring_phase(i, count), omega, t);
    DrawCommand::Ellipse {
        center: Point2 {
            x: div_trunc(orbit_x_spec(0, amp, a), circle_den(a)) as i64,
            y: div_trunc(orbit_y_spec(0, amp, a), circle_den(a)) as i64,
        },
        radius: dot_radius as i64,
        paint: Paint::Rgb { color: Color { red: 0, green: 128, blue: 0 } },
    }
}

/// Renders the orbit-ring sketch: the cyan backdrop, then `count`
/// dots of radius `dot_radius` spread evenly on a circle of radius
/// `amp` around the origin, all revolving at rate `omega`.
pub fn render_orbit_ring(count: u64, amp: i64, dot_radius: i64, omega: i64, t: u64) -> (cmds: Vec<
    DrawCommand,
>)
    requires
        1 <= count <= 1_000_000,
        0 <= amp <= AMP_MAX,
        0 <= dot_radius,
        omega > i64::MIN,
    ensures
        cmds@.len() == count + 1,
        cmds@[0] == (DrawCommand::Background {
            paint: Paint::Rgb { color: Color { red: 0, green: 255, blue: 255 } },
        }),
        forall|i: int|
            0 <= i < count ==> cmds@[i + 1] == ring_dot_spec(
                i, count as int, amp as int, dot_radius as int, omega as int, t as int,
            ),
{
    let mut cmds: Vec<DrawCommand> = Vec::new();
    cmds.push(DrawCommand::Background {
        paint: Paint::Rgb { color: Color { red: 0, green: 255, blue: 255 } },
    });
    let mut i: u64 = 0;
    while i < count
        invariant
            i <= count,
            1 <= count <= 1_000_000,
            0 <= amp <= AMP_MAX,
            0 <= dot_radius,
            omega > i64::MIN,
            cmds@.len() == i + 1,
            cmds@[0] == (DrawCommand::Background {
                paint: Paint::Rgb { color: Color { red: 0, green: 255, blue: 255 } },
            }),
            forall|j: int|
                0 <= j < i ==> cmds@[j + 1] == ring_dot_spec(
                    j, count as int, amp as int, dot_radius as int, omega as int, t as int,
                ),
        decreases count - i,
    {
        proof {
            vstd::arithmetic::mul::lemma_mul_upper_bound(
                i as int, 1_000_000, TURN as int, TURN as int);
            vstd::arithmetic::mul::lemma_mul_strict_inequality(
                i as int, count as int, TURN as int);
            vstd::arithmetic::div_mod::lemma_multiply_divide_lt(
                i as int * TURN as int, count as int, TURN as int);
            vstd::arithmetic::div_mod::lemma_div_pos_is_pos(
                i as int * TURN as int, count as int);
        }
        let phase: u64 = (i * TURN) / count;
        let a: u64 = angle_at(phase, omega, t);
        let p: OrbitPoint = orbit_position(0, 0, amp, a);
        let center: Point2 = round_point(&p);
        cmds.push(DrawCommand::Ellipse {
            center,
            radius: dot_radius,
            paint: Paint::Rgb { color: Color { red: 0, green: 128, blue: 0 } },
        });
        i = i + 1;
    }
    cmds
}

/// The frame of the paired-orbit sketch: circle `a` swings across
/// the window on a sine of rate `rate_a`, and circle `b`, half its
/// size, orbits `a` at radius 100 units and rate `rate_b`.
pub open spec fn orbit_pair_spec(t: int, win: WindowRect, rate_a: int, rate_b: int) -> Seq<
    DrawCommand,
> {
    let aw = angle_spec(0, rate_a, t);
    let ab = angle_spec(0, rate_b, t);
    let quarter_w = (win.right - win.left) / 4;
    let ax = div_trunc(osc_sin_spec(aw) * quarter_w, UNIT as int);
    let bx = ax + div_trunc(osc_sin_spec(ab) * 100_000, UNIT as int);
    let by = div_trunc(osc_cos_spec(ab) * 100_000, UNIT as int);
    seq![
        DrawCommand::Background {
            paint: Paint::Rgb { color: Color { red: 0, green: 255, blue: 255 } },
        },
        DrawCommand::Ellipse {
            center: Point2 { x: ax as i64, y: 0 },
            radius: 50_000,
            paint: Paint::Rgb { color: Color { red: 255, green: 0, blue: 255 } },
        },
        DrawCommand::Ellipse {
            center: Point2 { x: bx as i64, y: by as i64 },
            radius: 25_000,
            paint: Paint::Rgb { color: Color { red: 255, green: 165, blue: 0 } },
        },
    ]
}

/// Renders the paired-orbit sketch at time `t`.
pub fn render_orbit_pair(t: u64, win: &WindowRect, rate_a: i64, rate_b: i64) -> (cmds: Vec<
    DrawCommand,
>)
    requires
        win.wf(),
        rate_a > i64::MIN,
        rate_b > i64::MIN,
    ensures
        cmds@ =~= orbit_pair_spec(t as int, *win, rate_a as int, rate_b as int),
{
    let aw: u64 = angle_at(0, rate_a, t);
    let ab: u64 = angle_at(0, rate_b, t);
    proof {
        vstd::arithmetic::div_mod::lemma_div_is_ordered(
            win.right - win.left, 4 * (COORD_MAX as int), 4);
        vstd::arithmetic::div_mod::lemma_div_pos_is_pos(win.right - win.left, 4);
    }
    let quarter_w: i64 = (((win.right - win.left) as u64) / 4) as i64;
    let ax: i64 = osc_scale(osc_sin(aw), quarter_w);
    let bdx: i64 = osc_scale(osc_sin(ab), 100_000);
    let bdy: i64 = osc_scale(osc_cos(ab), 100_000);
    let mut cmds: Vec<DrawCommand> = Vec::new();
    cmds.push(DrawCommand::Background {
        paint: Paint::Rgb { color: Color { red: 0, green: 255, blue: 255 } },
    });
    cmds.push(DrawCommand::Ellipse {
        center: Point2 { x: ax, y: 0 },
        radius: 50_000,
        paint: Paint::Rgb { color: Color { red: 255, green: 0, blue: 255 } },
    });
    cmds.push(DrawCommand::Ellipse {
        center: Point2 { x: ax + bdx, y: bdy },
        radius: 25_000,
        paint: Paint::Rgb { color: Color { red: 255, green: 165, blue: 0 } },
    });
    cmds
}

/// The frame of the bounded-pair sketch: both circles ride the
/// oscillators directly, each kept fully inside the window, the
/// second at half the radius and twice the rate.
pub open spec fn bounded_pair_spec(t: int, win: WindowRect, rate: int) -> Seq<DrawCommand> {
    let aa = angle_spec(0, rate, t);
    let ab = angle_spec(0, 2 * rate, t);
    seq![
        DrawCommand::Background {
            paint: Paint::Rgb { color: Color { red: 0, green: 255, blue: 255 } },
        },
        DrawCommand::Ellipse {
            center: Point2 {
                x: osc_x_spec(win, 50_000, aa) as i64,
                y: osc_y_spec(win, 50_000, aa) as i64,
            },
            radius: 50_000,
            paint: Paint::Rgb { color: Color { red: 255, green: 0, blue: 255 } },
        },
        DrawCommand::Ellipse {
            center: Point2 {
                x: osc_x_spec(win, 25_000, ab) as i64,
                y: osc_y_spec(win, 25_000, ab) as i64,
            },
            radius: 25_000,
            paint: Paint::Rgb { color: Color { red: 255, green: 165, blue: 0 } },
        },
    ]
}

/// Renders the bounded-pair sketch at time `t` and base rate
/// `rate`.
pub fn render_bounded_pair(t: u64, win: &WindowRect, rate: i64) -> (cmds: Vec<DrawCommand>)
    requires
        win.wf(),
        -1_000_000_000 <= rate <= 1_000_000_000,
    ensures
        cmds@ =~= bounded_pair_spec(t as int, *win, rate as int),
{
    let aa: u64 = angle_at(0, rate, t);
    let ab: u64 = angle_at(0, 2 * rate, t);
    let ax: i64 = map_range(osc_sin(aa), -UNIT, UNIT, win.left + 50_000, win.right - 50_000);
    let ay: i64 = map_range(osc_cos(aa), -UNIT, UNIT, win.bottom + 50_000, win.top - 50_000);
    let bx: i64 = map_range(osc_sin(ab), -UNIT, UNIT, win.left + 25_000, win.right - 25_000);
    let by: i64 = map_range(osc_cos(ab), -UNIT, UNIT, win.bottom + 25_000, win.top - 25_000);
    let mut cmds: Vec<DrawCommand> = Vec::new();
    cmds.push(DrawCommand::Background {
        paint: Paint::Rgb { color: Color { red: 0, green: 255, blue: 255 } },
    });
    cmds.push(DrawCommand::Ellipse {
        center: Point2 { x: ax, y: ay },
        radius: 50_000,
        paint: Paint::Rgb { color: Color { red: 255, green: 0, blue: 255 } },
    });
    cmds.push(DrawCommand::Ellipse {
        center: Point2 { x: bx, y: by },
        radius: 25_000,
        paint: Paint::Rgb { color: Color { red: 255, green: 165, blue: 0 } },
    });
    cmds
}

/// The rates and phase offset that drive the oscillating bezier
/// path: how fast its swing width breathes, how fast the first
/// control coordinate of each pair moves, how fast the second does,
/// and the phase lead of the offset fast oscillator.
#[derive(Clone, Copy, Debug, PartialEq, Eq, Structural)]
pub struct PathParams {
    pub width_rate: i64,
    pub fast_rate: i64,
    pub slow_rate: i64,
    pub fast_phase: u64,
}

/// The swing width of the path at time `t`: a slow sine of
/// amplitude 400 units around 40 units.
pub open spec fn path_width_spec(t: int, width_rate: int) -> int {
    osc_sin_spec(angle_spec(0, width_rate, t)) * 400 + 40_000
}

/// The path regenerated for time `t`: a single cubic segment from
/// just above the window bottom to just below its top, both control
/// points riding the oscillators scaled by the swing width.
pub open spec fn bezier_path_spec(t: int, win: WindowRect, inset: int, p: PathParams) -> BezierPath {
    let w = path_width_spec(t, p.width_rate as int);
    let fast = angle_spec(0, p.fast_rate as int, t);
    let fast_off = angle_spec(p.fast_phase as int, p.fast_rate as int, t);
    let slow = angle_spec(0, p.slow_rate as int, t);
    BezierPath {
        start: Point2 { x: 0, y: (win.bottom + inset) as i64 },
        ctrl_a: Point2 {
            x: div_trunc(osc_cos_spec(fast) * w, UNIT as int) as i64,
            y: div_trunc(osc_sin_spec(slow) * w, UNIT as int) as i64,
        },
        ctrl_b: Point2 {
            x: div_trunc(osc_sin_spec(fast_off) * w, UNIT as int) as i64,
            y: div_trunc(osc_cos_spec(slow) * w, UNIT as int) as i64,
        },
        end: Point2 { x: 0, y: (win.top - inset) as i64 },
    }
}

/// Builds the oscillating path for time `t`, its ends inset by
/// `inset` from the window's bottom and top edges.
pub fn bezier_path(t: u64, win: &WindowRect, inset: i64, p: &PathParams) -> (b: BezierPath)
    requires
        win.wf(),
        0 <= inset <= 1_000_000,
        p.width_rate > i64::MIN,
        p.fast_rate > i64::MIN,
        p.slow_rate > i64::MIN,
        p.fast_phase < TURN,
    ensures
        b == bezier_path_spec(t as int, *win, inset as int, *p),
{
    let w: i64 = osc_sin(angle_at(0, p.width_rate, t)) * 400 + 40_000;
    let fast: u64 = angle_at(0, p.fast_rate, t);
    let fast_off: u64 = angle_at(p.fast_phase, p.fast_rate, t);
    let slow: u64 = angle_at(0, p.slow_rate, t);
    BezierPath {
        start: Point2 { x: 0, y: win.bottom + inset },
        ctrl_a: Point2 {
            x: osc_scale(osc_cos(fast), w),
            y: osc_scale(osc_sin(slow), w),
        },
        ctrl_b: Point2 {
            x: osc_scale(osc_sin(fast_off), w),
            y: osc_scale(osc_cos(slow), w),
        },
        end: Point2 { x: 0, y: win.top - inset },
    }
}

/// The frame of the mirrored-path sketch: the black backdrop, the
/// path stroked in white, and the same path mirrored across the
/// vertical axis.
pub open spec fn mirrored_path_spec(path: BezierPath) -> Seq<DrawCommand> {
    seq![
        DrawCommand::Background {
            paint: Paint::Rgb { color: Color { red: 0, green: 0, blue: 0 } },
        },
        DrawCommand::Stroke {
            path,
            scale: 1000,
            rotation: 0,
            translate: Point2 { x: 0, y: 0 },
            mirror_x: false,
            weight: 1000,
            paint: Paint::Rgb { color: Color { red: 255, green: 255, blue: 255 } },
        },
        DrawCommand::Stroke {
            path,
            scale: 1000,
            rotation: 0,
            translate: Point2 { x: 0, y: 0 },
            mirror_x: true,
            weight: 1000,
            paint: Paint::Rgb { color: Color { red: 255, green: 255, blue: 255 } },
        },
    ]
}

/// Renders the mirrored-path sketch around an already built path.
pub fn render_mirrored_path(path: &BezierPath) -> (cmds: Vec<DrawCommand>)
    ensures
        cmds@ =~= mirrored_path_spec(*path),
{
    let mut cmds: Vec<DrawCommand> = Vec::new();
    cmds.push(DrawCommand::Background {
        paint: Paint::Rgb { color: Color { red: 0, green: 0, blue: 0 } },
    });
    cmds.push(DrawCommand::Stroke {
        path: *path,
        scale: 1000,
        rotation: 0,
        translate: Point2 { x: 0, y: 0 },
        mirror_x: false,
        weight: 1000,
        paint: Paint::Rgb { color: Color { red: 255, green: 255, blue: 255 } },
    });
    cmds.push(DrawCommand::Stroke {
        path: *path,
        scale: 1000,
        rotation: 0,
        translate: Point2 { x: 0, y: 0 },
        mirror_x: true,
        weight: 1000,
        paint: Paint::Rgb { color: Color { red: 255, green: 255, blue: 255 } },
    });
    cmds
}

/// The kaleidoscope's hue base at time `t`: a slow cosine lifted
/// from `[-UNIT, UNIT]` to `[0, UNIT]`.
pub open spec fn cycle_base_spec(t: int, rate: int) -> int {
    (osc_cos_spec(angle_spec(0, rate, t)) + UNIT) / 2
}

/// A milli-unit hue fraction stretched onto the extended hue
/// circle, in millidegrees: ten revolutions across the fraction's
/// range, centered on zero.
pub open spec fn lch_hue_mdeg_spec(h: int) -> int {
    (h * 360 - 180_000) * 10
}

/// The position of arm `i`'s unmirrored stroke in the kaleidoscope
/// frame: the wash comes first, then the arms' strokes in pairs.
pub open spec fn arm_slot(i: int) -> int {
    1 + 2 * i
}

/// One kaleidoscope arm: the path stroked at half scale, rotated to
/// the arm's slot, lifted to the window's upper half, and mirrored
/// for every second copy.
pub open spec fn arm_stroke_spec(
    path: BezierPath, i: int, num_arms: int, hue_mdeg: int, half_h: int, mirrored: bool,
) -> DrawCommand {
    DrawCommand::Stroke {
        path,
        scale: 500,
        rotation: ring_phase(i, num_arms) as u64,
        translate: Point2 { x: 0, y: half_h as i64 },
        mirror_x: mirrored,
        weight: 1000,
        paint: Paint::Lch { luma: 90_000, chroma: 10_000, hue_mdeg: hue_mdeg as i64 },
    }
}

/// The nearly transparent black wash that lets previous frames
/// linger.
pub open spec fn wash_spec(win: WindowRect) -> DrawCommand {
    DrawCommand::RectFill {
        center: Point2 { x: 0, y: 0 },
        width: (win.right - win.left) as i64,
        height: (win.top - win.bottom) as i64,
        paint: Paint::Rgba { color: Color { red: 0, green: 0, blue: 0 }, alpha: 10 },
    }
}

/// Emits the kaleidoscope frame around a built path and a computed
/// hue: the wash, then a stroked and a mirrored copy of the path
/// for each arm.
fn kaleidoscope_commands(path: BezierPath, num_arms: u64, hue_mdeg: i64, win: &WindowRect) -> (
    cmds: Vec<DrawCommand>
)
    requires
        win.wf(),
        1 <= num_arms <= 1_000_000,
        -1_000_000_000 <= hue_mdeg <= 1_000_000_000,
    ensures
        cmds@.len() == 1 + 2 * num_arms,
        cmds@[0] == wash_spec(*win),
        forall|i: int|
            0 <= i < num_arms ==> {
                &&& cmds@[#[trigger] arm_slot(i)] == arm_stroke_spec(
                    path, i, num_arms as int, hue_mdeg as int,
                    (win.top - win.bottom) / 2, false,
                )
                &&& cmds@[arm_slot(i) + 1] == arm_stroke_spec(
                    path, i, num_arms as int, hue_mdeg as int,
                    (win.top - win.bottom) / 2, true,
                )
            },
{
    proof {
        vstd::arithmetic::div_mod::lemma_div_pos_is_pos(win.top - win.bottom, 2);
        vstd::arithmetic::div_mod::lemma_div_is_ordered(
            win.top - win.bottom, 4 * (COORD_MAX as int), 2);
    }
    let half_h: i64 = (((win.top - win.bottom) as u64) / 2) as i64;
    let mut cmds: Vec<DrawCommand> = Vec::new();
    cmds.push(DrawCommand::RectFill {
        center: Point2 { x: 0, y: 0 },
        width: win.right - win.left,
        height: win.top - win.bottom,
        paint: Paint::Rgba { color: Color { red: 0, green: 0, blue: 0 }, alpha: 10 },
    });
    let mut i: u64 = 0;
    while i < num_arms
        invariant
            i <= num_arms,
            1 <= num_arms <= 1_000_000,
            win.wf(),
            half_h == (win.top - win.bottom) / 2,
            cmds@.len() == 1 + 2 * i,
            cmds@[0] == wash_spec(*win),
            forall|j: int|
                0 <= j < i ==> {
                    &&& cmds@[#[trigger] arm_slot(j)] == arm_stroke_spec(
                        path, j, num_arms as int, hue_mdeg as int,
                        (win.top - win.bottom) / 2, false,
                    )
                    &&& cmds@[arm_slot(j) + 1] == arm_stroke_spec(
                        path, j, num_arms as int, hue_mdeg as int,
                        (win.top - win.bottom) / 2, true,
                    )
                },
        decreases num_arms - i,
    {
        proof {
            vstd::arithmetic::mul::lemma_mul_upper_bound(
                i as int, 1_000_000, TURN as int, TURN as int);
            vstd::arithmetic::mul::lemma_mul_strict_inequality(
                i as int, num_arms as int, TURN as int);
            vstd::arithmetic::div_mod::lemma_multiply_divide_lt(
                i as int * TURN as int, num_arms as int, TURN as int);
            vstd::arithmetic::div_mod::lemma_div_pos_is_pos(
                i as int * TURN as int, num_arms as int);
        }
        let rotation: u64 = (i * TURN) / num_arms;
        cmds.push(DrawCommand::Stroke {
            path,
            scale: 500,
            rotation,
            translate: Point2 { x: 0, y: half_h },
            mirror_x: false,
            weight: 1000,
            paint: Paint::Lch { luma: 90_000, chroma: 10_000, hue_mdeg },
        });
        cmds.push(DrawCommand::Stroke {
            path,
            scale: 500,
            rotation,
            translate: Point2 { x: 0, y: half_h },
            mirror_x: true,
            weight: 1000,
            paint: Paint::Lch { luma: 90_000, chroma: 10_000, hue_mdeg },
        });
        i = i + 1;
    }
    cmds
}

/// Renders the kaleidoscope sketch: the wash, then `num_arms`
/// mirrored pairs of the oscillating path, painted in a cylinder
/// color whose hue cycles with the base oscillator.
pub fn render_kaleidoscope(
    t: u64, win: &WindowRect, p: &PathParams, hue_rate: i64, num_arms: u64,
) -> (cmds: Vec<DrawCommand>)
    requires
        win.wf(),
        p.width_rate > i64::MIN,
        p.fast_rate > i64::MIN,
        p.slow_rate > i64::MIN,
        p.fast_phase < TURN,
        hue_rate > i64::MIN,
        1 <= num_arms <= 1_000_000,
    ensures
        cmds@.len() == 1 + 2 * num_arms,
        cmds@[0] == wash_spec(*win),
        forall|i: int|
            0 <= i < num_arms ==> {
                &&& cmds@[#[trigger] arm_slot(i)] == arm_stroke_spec(
                    bezier_path_spec(t as int, *win, 0, *p), i, num_arms as int,
                    lch_hue_mdeg_spec(cycle_base_spec(t as int, hue_rate as int)),
                    (win.top - win.bottom) / 2, false,
                )
                &&& cmds@[arm_slot(i) + 1] == arm_stroke_spec(
                    bezier_path_spec(t as int, *win, 0, *p), i, num_arms as int,
                    lch_hue_mdeg_spec(cycle_base_spec(t as int, hue_rate as int)),
                    (win.top - win.bottom) / 2, true,
                )
            },
{
    let path: BezierPath = bezier_path(t, win, 0, p);
    let base: i64 = (((osc_cos(angle_at(0, hue_rate, t)) + UNIT) as u64) / 2) as i64;
    proof {
        vstd::arithmetic::div_mod::lemma_div_pos_is_pos(
            osc_cos_spec(angle_spec(0, hue_rate as int, t as int)) + UNIT, 2);
        vstd::arithmetic::div_mod::lemma_div_is_ordered(
            osc_cos_spec(angle_spec(0, hue_rate as int, t as int)) + UNIT, 2000, 2);
    }
    let hue_mdeg: i64 = (base * 360 - 180_000) * 10;
    kaleidoscope_commands(path, num_arms, hue_mdeg, win)
}

/// Renders the stepped kaleidoscope sketch: as
/// [`render_kaleidoscope`], but the hue base first climbs the
/// staircase ease of `steps` treads with the given steepness.
pub fn render_kaleidoscope_stepped(
    t: u64, win: &WindowRect, p: &PathParams, hue_rate: i64, num_arms: u64, steps: u32,
    steepness: i64,
) -> (cmds: Vec<DrawCommand>)
    requires
        win.wf(),
        p.width_rate > i64::MIN,
        p.fast_rate > i64::MIN,
        p.slow_rate > i64::MIN,
        p.fast_phase < TURN,
        hue_rate > i64::MIN,
        1 <= num_arms <= 1_000_000,
        steps >= 2,
        steepness < UNIT,
    ensures
        cmds@.len() == 1 + 2 * num_arms,
        cmds@[0] == wash_spec(*win),
        forall|i: int|
            0 <= i < num_arms ==> {
                &&& cmds@[#[trigger] arm_slot(i)] == arm_stroke_spec(
                    bezier_path_spec(t as int, *win, 0, *p), i, num_arms as int,
                    lch_hue_mdeg_spec(multismoothstep_spec(
                        steps as int, cycle_base_spec(t as int, hue_rate as int),
                        steepness as int,
                    )),
                    (win.top - win.bottom) / 2, false,
                )
                &&& cmds@[arm_slot(i) + 1] == arm_stroke_spec(
                    bezier_path_spec(t as int, *win, 0, *p), i, num_arms as int,
                    lch_hue_mdeg_spec(multismoothstep_spec(
                        steps as int, cycle_base_spec(t as int, hue_rate as int),
                        steepness as int,
                    )),
                    (win.top - win.bottom) / 2, true,
                )
            },
{
    let path: BezierPath = bezier_path(t, win, 0, p);
    let base: i64 = (((osc_cos(angle_at(0, hue_rate, t)) + UNIT) as u64) / 2) as i64;
    proof {
        vstd::arithmetic::div_mod::lemma_div_pos_is_pos(
            osc_cos_spec(angle_spec(0, hue_rate as int, t as int)) + UNIT, 2);
        vstd::arithmetic::div_mod::lemma_div_is_ordered(
            osc_cos_spec(angle_spec(0, hue_rate as int, t as int)) + UNIT, 2000, 2);
    }
    let shaped: i64 = multismoothstep(steps, base, steepness);
    let hue_mdeg: i64 = (shaped * 360 - 180_000) * 10;
    kaleidoscope_commands(path, num_arms, hue_mdeg, win)
}

/// The frame of the building-blocks sketch: the swinging pair, the
/// framework's default triangle, a grey building resting on the
/// window bottom, and a small red dot riding the second circle.
pub open spec fn blocks_spec(
    t: int, win: WindowRect, rate_a: int, rate_b: int, unit_size: int, num_floors: int,
    windows_per_floor: int,
) -> Seq<DrawCommand> {
    let aw = angle_spec(0, rate_a, t);
    let ab = angle_spec(0, rate_b, t);
    let quarter_w = (win.right - win.left) / 4;
    let ax = div_trunc(osc_sin_spec(aw) * quarter_w, UNIT as int);
    let bx = ax + div_trunc(osc_sin_spec(ab) * 100_000, UNIT as int);
    let by = div_trunc(osc_cos_spec(ab) * 100_000, UNIT as int);
    let bw = unit_size * windows_per_floor;
    let bh = unit_size * num_floors;
    let mid_x = div_trunc(win.left + win.right, 2);
    seq![
        DrawCommand::Background {
            paint: Paint::Rgb { color: Color { red: 0, green: 255, blue: 255 } },
        },
        DrawCommand::Ellipse {
            center: Point2 { x: ax as i64, y: 0 },
            radius: 50_000,
            paint: Paint::Rgb { color: Color { red: 255, green: 0, blue: 255 } },
        },
        DrawCommand::Ellipse {
            center: Point2 { x: bx as i64, y: by as i64 },
            radius: 25_000,
            paint: Paint::Rgb { color: Color { red: 255, green: 165, blue: 0 } },
        },
        DrawCommand::Triangle {
            center: Point2 { x: 0, y: 0 },
            paint: Paint::Rgb { color: Color { red: 0, green: 0, blue: 255 } },
        },
        DrawCommand::RectFill {
            center: Point2 { x: mid_x as i64, y: (win.bottom + bh / 2) as i64 },
            width: bw as i64,
            height: bh as i64,
            paint: Paint::Rgb { color: Color { red: 128, green: 128, blue: 128 } },
        },
        DrawCommand::Ellipse {
            center: Point2 { x: bx as i64, y: by as i64 },
            radius: 10_000,
            paint: Paint::Rgb { color: Color { red: 255, green: 0, blue: 0 } },
        },
    ]
}

/// Renders the building-blocks sketch at time `t`.  The building is
/// `windows_per_floor` units wide and `num_floors` units tall,
/// resting centered on the window bottom.
pub fn render_blocks(
    t: u64, win: &WindowRect, rate_a: i64, rate_b: i64, unit_size: i64, num_floors: u32,
    windows_per_floor: u32,
) -> (cmds: Vec<DrawCommand>)
    requires
        win.wf(),
        rate_a > i64::MIN,
        rate_b > i64::MIN,
        0 <= unit_size <= 1_000_000,
        num_floors <= 1000,
        windows_per_floor <= 1000,
    ensures
        cmds@ =~= blocks_spec(
            t as int, *win, rate_a as int, rate_b as int, unit_size as int, num_floors as int,
            windows_per_floor as int,
        ),
{
    let aw: u64 = angle_at(0, rate_a, t);
    let ab: u64 = angle_at(0, rate_b, t);
    proof {
        vstd::arithmetic::div_mod::lemma_div_is_ordered(
            win.right - win.left, 4 * (COORD_MAX as int), 4);
        vstd::arithmetic::div_mod::lemma_div_pos_is_pos(win.right - win.left, 4);
        vstd::arithmetic::mul::lemma_mul_upper_bound(
            unit_size as int, 1_000_000, windows_per_floor as int, 1000);
        vstd::arithmetic::mul::lemma_mul_nonnegative(
            unit_size as int, windows_per_floor as int);
        vstd::arithmetic::mul::lemma_mul_upper_bound(
            unit_size as int, 1_000_000, num_floors as int, 1000);
        vstd::arithmetic::mul::lemma_mul_nonnegative(unit_size as int, num_floors as int);
    }
    let quarter_w: i64 = (((win.right - win.left) as u64) / 4) as i64;
    let ax: i64 = osc_scale(osc_sin(aw), quarter_w);
    let bdx: i64 = osc_scale(osc_sin(ab), 100_000);
    let bdy: i64 = osc_scale(osc_cos(ab), 100_000);
    let bw: i64 = unit_size * (windows_per_floor as i64);
    let bh: i64 = unit_size * (num_floors as i64);
    let mid_x: i64 = div_toward_zero(win.left + win.right, 2);
    let half_bh: i64 = ((bh as u64) / 2) as i64;
    proof {
        vstd::arithmetic::div_mod::lemma_div_pos_is_pos(bh as int, 2);
        vstd::arithmetic::div_mod::lemma_div_nonincreasing(bh as int, 2);
    }
    let mut cmds: Vec<DrawCommand> = Vec::new();
    cmds.push(DrawCommand::Background {
        paint: Paint::Rgb { color: Color { red: 0, green: 255, blue: 255 } },
    });
    cmds.push(DrawCommand::Ellipse {
        center: Point2 { x: ax, y: 0 },
        radius: 50_000,
        paint: Paint::Rgb { color: Color { red: 255, green: 0, blue: 255 } },
    });
    cmds.push(DrawCommand::Ellipse {
        center: Point2 { x: ax + bdx, y: bdy },
        radius: 25_000,
        paint: Paint::Rgb { color: Color { red: 255, green: 165, blue: 0 } },
    });
    cmds.push(DrawCommand::Triangle {
        center: Point2 { x: 0, y: 0 },
        paint: Paint::Rgb { color: Color { red: 0, green: 0, blue: 255 } },
    });
    cmds.push(DrawCommand::RectFill {
        center: Point2 { x: mid_x, y: win.bottom + half_bh },
        width: bw,
        height: bh,
        paint: Paint::Rgb { color: Color { red: 128, green: 128, blue: 128 } },
    });
    cmds.push(DrawCommand::Ellipse {
        center: Point2 { x: ax + bdx, y: bdy },
        radius: 10_000,
        paint: Paint::Rgb { color: Color { red: 255, green: 0, blue: 0 } },
    });
    cmds
}

} // verus!
