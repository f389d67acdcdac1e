//! Colors, hue cycling and complementary hues.
//!
//! A paint either names an RGB triple outright or carries the
//! parameters of a hue-based color space; turning those parameters
//! into pixels is the rendering framework's business.  The verified
//! part is the hue arithmetic: cycling a hue angle with time and
//! taking the hue half a turn away.
use vstd::prelude::*;
use crate::{HALF_TURN, TURN};

verus! {

/// An 8-bit RGB triple.
#[derive(Clone, Copy, Debug, PartialEq, Eq, Structural)]
pub struct Color {
    pub red: u8,
    pub green: u8,
    pub blue: u8,
}

impl Color {
    /// The color with the given channels.
    pub fn new(red: u8, green: u8, blue: u8) -> (c: Color)
        ensures
            c == (Color { red, green, blue }),
    {
        Color { red, green, blue }
    }
}

/// How a draw command is painted.  A hue under `Hsv` is a microturn
/// angle; saturation, value, luminance, chroma and alpha are
/// milli-units; a hue under `Lch` is in millidegrees and may run
/// outside one revolution, as the rendering framework wraps it.
#[derive(Clone, Copy, Debug, PartialEq, Eq, Structural)]
pub enum Paint {
    Rgb { color: Color },
    Rgba { color: Color, alpha: i64 },
    Hsv { hue: u64, sat: i64, val: i64 },
    Lch { luma: i64, chroma: i64, hue_mdeg: i64 },
}

/// Longest hue-cycling period accepted, in milliseconds: keeps the
/// scaled remainder inside `u64`.
pub const PERIOD_MAX: u64 = 1_000_000_000_000;

/// The hue reached at time `t` when cycling once per `period`: the
/// elapsed fraction of the current period, as a microturn angle.
pub open spec fn hue_spec(t: int, period: int) -> int {
    ((t % period) * (TURN as int)) / period
}

/// The cycling hue at time `t`, one revolution per `period`.
pub fn hue_at(t: u64, period: u64) -> (h: u64)
    requires
        0 < period <= PERIOD_MAX,
    ensures
        h == hue_spec(t as int, period as int),
        h < TURN,
{
    let r: u64 = t % period;
    proof {
        vstd::arithmetic::mul::lemma_mul_upper_bound(
            r as int, PERIOD_MAX as int, TURN as int, TURN as int);
        vstd::arithmetic::mul::lemma_mul_inequality(r as int, period as int, TURN as int);
        vstd::arithmetic::mul::lemma_mul_is_commutative(period as int, TURN as int);
        vstd::arithmetic::div_mod::lemma_multiply_divide_lt(
            r as int * TURN as int, period as int, TURN as int);
        vstd::arithmetic::div_mod::lemma_div_pos_is_pos(
            r as int * TURN as int, period as int);
    }
    (r * TURN) / period
}

/// Law: hue cycling is periodic, advancing time by one full period
/// leaves the hue unchanged.
pub proof fn lemma_hue_periodic(t: int, period: int)
    requires
        0 < period,
    ensures
        hue_spec(t + period, period) == hue_spec(t, period),
{
    vstd::arithmetic::div_mod::lemma_mod_add_multiples_vanish(t, period);
}

/// The complementary hue: the hue half a turn away.
pub open spec fn complementary_spec(h: int) -> int {
    (h + HALF_TURN) % (TURN as int)
}

/// The hue opposite `h` on the hue circle.  A complementary color
/// is found by rotating a color's hue halfway around a cylinder
/// color space; the rotation itself is this exact angle step.
pub fn complementary_hue(h: u64) -> (c: u64)
    requires
        h < TURN,
    ensures
        c == complementary_spec(h as int),
        c < TURN,
{
    (h + HALF_TURN) % TURN
}

/// Law: taking the complementary hue twice gives the hue back.
pub proof fn lemma_complementary_involution(h: int)
    requires
        0 <= h < TURN,
    ensures
        complementary_spec(complementary_spec(h)) == h,
{
    let t = TURN as int;
    if h < HALF_TURN {
        vstd::arithmetic::div_mod::lemma_small_mod((h + HALF_TURN) as nat, TURN as nat);
        vstd::arithmetic::div_mod::lemma_mod_add_multiples_vanish(h, t);
        vstd::arithmetic::div_mod::lemma_small_mod(h as nat, TURN as nat);
    } else {
        vstd::arithmetic::div_mod::lemma_mod_add_multiples_vanish(h - HALF_TURN, t);
        vstd::arithmetic::div_mod::lemma_small_mod((h - HALF_TURN) as nat, TURN as nat);
        vstd::arithmetic::div_mod::lemma_small_mod(h as nat, TURN as nat);
    }
}

} // verus!
