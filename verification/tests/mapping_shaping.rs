use sketch_motion::mapping::map_range;
use sketch_motion::shaping::{multismoothstep, smoothstep};

#[test]
fn map_range_hits_the_endpoints_exactly() {
    assert_eq!(map_range(-1000, -1000, 1000, -350, 350), -350);
    assert_eq!(map_range(1000, -1000, 1000, -350, 350), 350);
    assert_eq!(map_range(-1000, -1000, 1000, 40, 40), 40);
}

#[test]
fn map_range_is_monotonic_across_the_input() {
    let mut last = i64::MIN;
    let mut x = -1000;
    while x <= 1000 {
        let r = map_range(x, -1000, 1000, -77, 913);
        assert!(r >= last);
        assert!(-77 <= r && r <= 913);
        last = r;
        x += 7;
    }
}

#[test]
fn map_range_takes_the_midpoint_to_the_middle() {
    assert_eq!(map_range(0, -1000, 1000, 0, 100), 50);
    assert_eq!(map_range(0, -1000, 1000, -100, 100), 0);
}

#[test]
fn map_range_follows_a_downward_output_interval() {
    assert_eq!(map_range(-1000, -1000, 1000, 100, 0), 100);
    assert_eq!(map_range(1000, -1000, 1000, 100, 0), 0);
    assert_eq!(map_range(0, -1000, 1000, 100, 0), 50);
}

#[test]
fn smoothstep_clamps_outside_the_edges() {
    assert_eq!(smoothstep(200, 800, 100), 0);
    assert_eq!(smoothstep(200, 800, 200), 0);
    assert_eq!(smoothstep(200, 800, 800), 1000);
    assert_eq!(smoothstep(200, 800, 900), 1000);
}

#[test]
fn smoothstep_eases_through_known_values() {
    // Halfway up the ramp the cubic gives exactly one half.
    assert_eq!(smoothstep(0, 1000, 500), 500);
    // A quarter of the way: 0.25 * 0.25 * (3 - 0.5) = 0.15625.
    assert_eq!(smoothstep(0, 1000, 250), 156);
    // Three quarters: 0.75 * 0.75 * 1.5 = 0.84375.
    assert_eq!(smoothstep(0, 1000, 750), 843);
}

#[test]
fn smoothstep_is_monotonic() {
    let mut last = -1;
    let mut x = -100;
    while x <= 1100 {
        let r = smoothstep(0, 1000, x);
        assert!(r >= last);
        assert!(0 <= r && r <= 1000);
        last = r;
        x += 13;
    }
}

#[test]
fn multismoothstep_fixes_the_ends_of_the_unit_interval() {
    assert_eq!(multismoothstep(9, 0, 700), 0);
    assert_eq!(multismoothstep(9, 1000, 700), 1000);
    assert_eq!(multismoothstep(2, 0, 0), 0);
    assert_eq!(multismoothstep(2, 1000, 0), 1000);
}

#[test]
fn multismoothstep_keeps_the_tread_midpoints() {
    // Tread boundaries of the staircase stay in place.
    assert_eq!(multismoothstep(9, 500, 700), 500);
    assert_eq!(multismoothstep(2, 500, 0), 500);
    assert_eq!(multismoothstep(2, 500, 700), 500);
}

#[test]
fn multismoothstep_flattens_near_a_tread() {
    // With a steep setting, a value just into a tread stays at the
    // tread's level.
    let just_inside = multismoothstep(2, 100, 700);
    assert_eq!(just_inside, 0);
    let still_low = multismoothstep(2, 300, 700);
    assert!(still_low < 100);
}
