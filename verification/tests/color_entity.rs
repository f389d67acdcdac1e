use sketch_motion::color::{complementary_hue, hue_at, Color};
use sketch_motion::entity::{
    double_it, init_model, update_model, Circle, WindowRect, GROW_STEP, SHRINK_STEP,
};
use sketch_motion::{HALF_TURN, TURN};

#[test]
fn hue_cycles_once_per_period() {
    assert_eq!(hue_at(0, 5000), 0);
    assert_eq!(hue_at(2500, 5000), HALF_TURN);
    assert_eq!(hue_at(1250, 5000), 250_000);
    assert_eq!(hue_at(4999, 5000), 999_800);
}

#[test]
fn hue_is_periodic_in_the_period() {
    // Advancing time by one full period leaves the hue unchanged.
    for &t in &[0, 1, 1234, 4999, 5000, 987_654] {
        assert_eq!(hue_at(t + 5000, 5000), hue_at(t, 5000));
        assert_eq!(hue_at(t + 50_000, 5000), hue_at(t, 5000));
    }
}

#[test]
fn complementary_hue_sits_half_a_turn_away() {
    assert_eq!(complementary_hue(0), HALF_TURN);
    assert_eq!(complementary_hue(HALF_TURN), 0);
    assert_eq!(complementary_hue(TURN - 1), HALF_TURN - 1);
}

#[test]
fn complementary_hue_twice_is_the_hue() {
    for &h in &[0, 123, 250_000, 499_999, 500_000, 999_999] {
        assert_eq!(complementary_hue(complementary_hue(h)), h);
    }
}

#[test]
fn double_it_doubles() {
    assert_eq!(double_it(21), 42);
    assert_eq!(double_it(-5), -10);
    assert_eq!(double_it(0), 0);
}

fn test_circle(radius: i64) -> Circle {
    Circle { x: 0, y: 0, speed: 1, radius, color: Color { red: 1, green: 2, blue: 3 } }
}

#[test]
fn grow_adds_and_shrink_subtracts() {
    let mut c = test_circle(50_000);
    c.grow(20);
    assert_eq!(c.radius, 50_020);
    c.shrink(10);
    assert_eq!(c.radius, 50_010);
    assert_eq!(c.x, 0);
    assert_eq!(c.color, Color { red: 1, green: 2, blue: 3 });
}

#[test]
fn repeated_growth_accumulates_linearly() {
    // After n growth updates of step d the radius is exactly the
    // start plus n * d.
    let mut c = test_circle(50_000);
    c.grow_repeated(7, 20);
    assert_eq!(c.radius, 50_000 + 7 * 20);
    let mut d = test_circle(1_000);
    d.grow_repeated(250, -10);
    assert_eq!(d.radius, 1_000 - 2_500);
}

#[test]
fn growth_is_never_clamped() {
    // The radius happily leaves zero behind: the accumulation has
    // no lower bound.
    let mut c = test_circle(10);
    c.grow_repeated(3, -20);
    assert_eq!(c.radius, -50);
}

#[test]
fn centered_window_splits_the_size() {
    let r = WindowRect::centered(800_000, 600_000);
    assert_eq!(r.left, -400_000);
    assert_eq!(r.right, 400_000);
    assert_eq!(r.bottom, -300_000);
    assert_eq!(r.top, 300_000);
}

#[test]
fn init_model_places_the_two_circles() {
    let r = WindowRect::centered(800_000, 600_000);
    let m = init_model(&r, 100);
    assert_eq!(m.circle_a.x, 350_000);
    assert_eq!(m.circle_a.y, 0);
    assert_eq!(m.circle_a.radius, 50_000);
    assert_eq!(m.circle_a.speed, 100);
    assert_eq!(m.circle_a.color, Color { red: 255, green: 0, blue: 255 });
    assert_eq!(m.circle_b.x, 375_000);
    assert_eq!(m.circle_b.radius, 25_000);
    assert_eq!(m.circle_b.speed, 200);
    assert_eq!(m.circle_b.color, Color { red: 255, green: 165, blue: 0 });
}

#[test]
fn update_model_grows_shrinks_and_places() {
    let r = WindowRect::centered(800_000, 600_000);
    let mut m = init_model(&r, 100);
    update_model(&mut m, &r, 0);
    // At time zero the sine is 0 and the cosine is 1: each circle
    // sits at the horizontal middle and the vertical top of its
    // allowed band.
    assert_eq!(m.circle_a.radius, 50_000 + GROW_STEP);
    assert_eq!(m.circle_a.x, 0);
    assert_eq!(m.circle_a.y, 300_000 - (50_000 + GROW_STEP));
    assert_eq!(m.circle_b.radius, 25_000 - SHRINK_STEP);
    assert_eq!(m.circle_b.x, 0);
    assert_eq!(m.circle_b.y, 300_000 - (25_000 - SHRINK_STEP));
    // The speeds and colors are untouched.
    assert_eq!(m.circle_a.speed, 100);
    assert_eq!(m.circle_b.speed, 200);
}

#[test]
fn update_model_follows_an_inverted_band_when_oversized() {
    // Unclamped growth can push a radius past half the window; the
    // oscillation band then runs backward and the update keeps
    // going instead of failing.
    let r = WindowRect::centered(800_000, 600_000);
    let mut m = init_model(&r, 100);
    m.circle_a.radius = 400_000;
    update_model(&mut m, &r, 0);
    assert_eq!(m.circle_a.radius, 400_000 + GROW_STEP);
    assert_eq!(m.circle_a.x, 0);
    assert_eq!(m.circle_a.y, 300_000 - (400_000 + GROW_STEP));
}

#[test]
fn update_model_keeps_circles_inside_the_window() {
    let r = WindowRect::centered(800_000, 600_000);
    let mut m = init_model(&r, 137);
    for t in 0..200u64 {
        update_model(&mut m, &r, t * 16);
        let a = &m.circle_a;
        assert!(r.left + a.radius <= a.x && a.x <= r.right - a.radius);
        assert!(r.bottom + a.radius <= a.y && a.y <= r.top - a.radius);
    }
}
