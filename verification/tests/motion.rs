use sketch_motion::angle::angle_at;
use sketch_motion::orbit::{orbit_position, osc_cos, osc_sin};
use sketch_motion::{HALF_TURN, QUARTER_TURN, TURN};

#[test]
fn angle_scales_time_by_rate() {
    assert_eq!(angle_at(0, 3, 10), 30);
    assert_eq!(angle_at(7, 3, 10), 37);
}

#[test]
fn angle_wraps_at_a_full_turn() {
    assert_eq!(angle_at(0, 1, TURN + 5), 5);
    assert_eq!(angle_at(999_999, 1, 1), 0);
    assert_eq!(angle_at(0, 1_000_000, 3), 0);
}

#[test]
fn angle_runs_backward_for_negative_rates() {
    assert_eq!(angle_at(0, -1, 1), TURN - 1);
    assert_eq!(angle_at(0, -3, 10), TURN - 30);
    assert_eq!(angle_at(30, -3, 10), 0);
}

#[test]
fn orbit_starts_on_the_positive_axis() {
    // At phase zero with amplitude 100 the position is (100, 0).
    let p = orbit_position(0, 0, 100, 0);
    assert_eq!(p.x_num, 100 * p.den);
    assert_eq!(p.y_num, 0);
}

#[test]
fn orbit_flips_sign_after_half_a_turn() {
    // Half a turn later the same configuration sits at (-100, 0).
    let p = orbit_position(0, 0, 100, HALF_TURN);
    assert_eq!(p.x_num, -100 * p.den);
    assert_eq!(p.y_num, 0);
}

#[test]
fn orbit_tops_out_after_a_quarter_turn() {
    let p = orbit_position(0, 0, 100, QUARTER_TURN);
    assert_eq!(p.x_num, 0);
    assert_eq!(p.y_num, 100 * p.den);
}

#[test]
fn orbit_point_always_lies_on_the_circle() {
    // The squared distance from the center equals the squared
    // radius exactly, at any angle and center.
    for &a in &[0, 1, 12_345, 123_456, 499_999, 500_000, 500_001, 777_777, 999_999] {
        let p = orbit_position(30, -40, 100, a);
        let dx = (p.x_num - 30 * p.den) as i128;
        let dy = (p.y_num - (-40) * p.den) as i128;
        let r = (100 * p.den) as i128;
        assert_eq!(dx * dx + dy * dy, r * r);
    }
}

#[test]
fn oscillators_hit_the_cardinal_values() {
    assert_eq!(osc_sin(0), 0);
    assert_eq!(osc_sin(QUARTER_TURN), 1000);
    assert_eq!(osc_sin(HALF_TURN), 0);
    assert_eq!(osc_sin(HALF_TURN + QUARTER_TURN), -1000);
    assert_eq!(osc_cos(0), 1000);
    assert_eq!(osc_cos(QUARTER_TURN), 0);
    assert_eq!(osc_cos(HALF_TURN), -1000);
    assert_eq!(osc_cos(HALF_TURN + QUARTER_TURN), 0);
}

#[test]
fn oscillators_stay_bounded() {
    for a in (0..TURN).step_by(9_973) {
        let s = osc_sin(a);
        let c = osc_cos(a);
        assert!(-1000 <= s && s <= 1000);
        assert!(-1000 <= c && c <= 1000);
    }
}

#[test]
fn oscillators_mirror_between_the_half_turns() {
    for &a in &[1, 100_000, 249_999, 333_333, 499_999] {
        assert_eq!(osc_sin(TURN - a), -osc_sin(a));
        assert_eq!(osc_cos(TURN - a), osc_cos(a));
    }
}
