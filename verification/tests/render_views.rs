use sketch_motion::color::{Color, Paint};
use sketch_motion::entity::{init_model, WindowRect};
use sketch_motion::render::{
    bezier_path, render_blocks, render_bounded_pair, render_clear, render_concentric,
    render_kaleidoscope, render_kaleidoscope_stepped, render_mirrored_path, render_model,
    render_orbit_pair, render_orbit_ring, DrawCommand, PathParams, Point2,
};

fn cyan() -> Paint {
    Paint::Rgb { color: Color { red: 0, green: 255, blue: 255 } }
}

fn magenta() -> Paint {
    Paint::Rgb { color: Color { red: 255, green: 0, blue: 255 } }
}

fn orange() -> Paint {
    Paint::Rgb { color: Color { red: 255, green: 165, blue: 0 } }
}

#[test]
fn clear_emits_one_background() {
    let cmds = render_clear(cyan());
    assert_eq!(cmds.len(), 1);
    assert_eq!(cmds[0], DrawCommand::Background { paint: cyan() });
}

#[test]
fn concentric_pairs_a_hue_with_its_complement() {
    let cmds = render_concentric(0, 800_000, 600_000);
    assert_eq!(cmds.len(), 3);
    assert_eq!(
        cmds[0],
        DrawCommand::Ellipse {
            center: Point2 { x: 0, y: 0 },
            radius: 300_000,
            paint: Paint::Hsv { hue: 0, sat: 1000, val: 500 },
        }
    );
    assert_eq!(
        cmds[1],
        DrawCommand::Ellipse {
            center: Point2 { x: 0, y: 0 },
            radius: 150_000,
            paint: Paint::Hsv { hue: 500_000, sat: 1000, val: 500 },
        }
    );
    assert_eq!(
        cmds[2],
        DrawCommand::Background {
            paint: Paint::Rgb { color: Color { red: 0, green: 0, blue: 0 } },
        }
    );
}

#[test]
fn model_view_reads_the_state_verbatim() {
    let r = WindowRect::centered(800_000, 600_000);
    let m = init_model(&r, 100);
    let cmds = render_model(&m);
    assert_eq!(cmds.len(), 3);
    assert_eq!(cmds[0], DrawCommand::Background { paint: cyan() });
    assert_eq!(
        cmds[1],
        DrawCommand::Ellipse {
            center: Point2 { x: 350_000, y: 0 },
            radius: 50_000,
            paint: magenta(),
        }
    );
    assert_eq!(
        cmds[2],
        DrawCommand::Ellipse {
            center: Point2 { x: 375_000, y: 0 },
            radius: 25_000,
            paint: orange(),
        }
    );
}

#[test]
fn orbit_ring_spreads_dots_around_the_circle() {
    let cmds = render_orbit_ring(5, 120_000, 20_000, 0, 0);
    assert_eq!(cmds.len(), 6);
    assert_eq!(cmds[0], DrawCommand::Background { paint: cyan() });
    // The first dot sits on the positive horizontal axis.
    assert_eq!(
        cmds[1],
        DrawCommand::Ellipse {
            center: Point2 { x: 120_000, y: 0 },
            radius: 20_000,
            paint: Paint::Rgb { color: Color { red: 0, green: 128, blue: 0 } },
        }
    );
    // The following dots climb into the upper half plane first.
    match cmds[2] {
        DrawCommand::Ellipse { center, .. } => {
            assert!(center.y > 0);
            assert!(center.x < 120_000);
        }
        ref other => panic!("expected an ellipse, got {:?}", other),
    }
}

#[test]
fn orbit_pair_rides_the_oscillators() {
    let win = WindowRect::centered(800_000, 600_000);
    let cmds = render_orbit_pair(0, &win, 80, 480);
    assert_eq!(cmds.len(), 3);
    assert_eq!(cmds[0], DrawCommand::Background { paint: cyan() });
    // At time zero circle a is centered; b orbits 100 units above it.
    assert_eq!(
        cmds[1],
        DrawCommand::Ellipse {
            center: Point2 { x: 0, y: 0 },
            radius: 50_000,
            paint: magenta(),
        }
    );
    assert_eq!(
        cmds[2],
        DrawCommand::Ellipse {
            center: Point2 { x: 0, y: 100_000 },
            radius: 25_000,
            paint: orange(),
        }
    );
}

#[test]
fn bounded_pair_sits_at_the_top_of_its_band() {
    let win = WindowRect::centered(800_000, 600_000);
    let cmds = render_bounded_pair(0, &win, 100);
    assert_eq!(cmds.len(), 3);
    assert_eq!(
        cmds[1],
        DrawCommand::Ellipse {
            center: Point2 { x: 0, y: 250_000 },
            radius: 50_000,
            paint: magenta(),
        }
    );
    assert_eq!(
        cmds[2],
        DrawCommand::Ellipse {
            center: Point2 { x: 0, y: 275_000 },
            radius: 25_000,
            paint: orange(),
        }
    );
}

#[test]
fn blocks_scene_builds_in_source_order() {
    let win = WindowRect::centered(800_000, 600_000);
    let cmds = render_blocks(0, &win, 80, 480, 50_000, 4, 2);
    assert_eq!(cmds.len(), 6);
    assert_eq!(cmds[0], DrawCommand::Background { paint: cyan() });
    assert_eq!(
        cmds[3],
        DrawCommand::Triangle {
            center: Point2 { x: 0, y: 0 },
            paint: Paint::Rgb { color: Color { red: 0, green: 0, blue: 255 } },
        }
    );
    assert_eq!(
        cmds[4],
        DrawCommand::RectFill {
            center: Point2 { x: 0, y: -200_000 },
            width: 100_000,
            height: 200_000,
            paint: Paint::Rgb { color: Color { red: 128, green: 128, blue: 128 } },
        }
    );
    assert_eq!(
        cmds[5],
        DrawCommand::Ellipse {
            center: Point2 { x: 0, y: 100_000 },
            radius: 10_000,
            paint: Paint::Rgb { color: Color { red: 255, green: 0, blue: 0 } },
        }
    );
}

fn test_params() -> PathParams {
    PathParams { width_rate: 8, fast_rate: 48, slow_rate: 16, fast_phase: 16_000 }
}

#[test]
fn bezier_path_spans_the_window_at_time_zero() {
    let win = WindowRect::centered(800_000, 600_000);
    let p = PathParams { width_rate: 8, fast_rate: 48, slow_rate: 16, fast_phase: 0 };
    let b = bezier_path(0, &win, 20_000, &p);
    // Width is 40 units at time zero; the fast cosine is 1 and all
    // sines are 0.
    assert_eq!(b.start, Point2 { x: 0, y: -280_000 });
    assert_eq!(b.ctrl_a, Point2 { x: 40_000, y: 0 });
    assert_eq!(b.ctrl_b, Point2 { x: 0, y: 40_000 });
    assert_eq!(b.end, Point2 { x: 0, y: 280_000 });
}

#[test]
fn mirrored_path_strokes_both_sides() {
    let win = WindowRect::centered(800_000, 600_000);
    let b = bezier_path(0, &win, 20_000, &test_params());
    let cmds = render_mirrored_path(&b);
    assert_eq!(cmds.len(), 3);
    assert_eq!(
        cmds[0],
        DrawCommand::Background {
            paint: Paint::Rgb { color: Color { red: 0, green: 0, blue: 0 } },
        }
    );
    match (&cmds[1], &cmds[2]) {
        (
            DrawCommand::Stroke { path: p1, mirror_x: m1, scale: s1, rotation: r1, .. },
            DrawCommand::Stroke { path: p2, mirror_x: m2, .. },
        ) => {
            assert_eq!(p1, &b);
            assert_eq!(p2, &b);
            assert!(!*m1);
            assert!(*m2);
            assert_eq!(*s1, 1000);
            assert_eq!(*r1, 0);
        }
        other => panic!("expected two strokes, got {:?}", other),
    }
}

#[test]
fn kaleidoscope_emits_a_wash_and_mirrored_arm_pairs() {
    let win = WindowRect::centered(800_000, 600_000);
    let cmds = render_kaleidoscope(0, &win, &test_params(), 8, 12);
    assert_eq!(cmds.len(), 25);
    assert_eq!(
        cmds[0],
        DrawCommand::RectFill {
            center: Point2 { x: 0, y: 0 },
            width: 800_000,
            height: 600_000,
            paint: Paint::Rgba { color: Color { red: 0, green: 0, blue: 0 }, alpha: 10 },
        }
    );
    for i in 0..12u64 {
        let expect_rot = i * 1_000_000 / 12;
        match (&cmds[(1 + 2 * i) as usize], &cmds[(2 + 2 * i) as usize]) {
            (
                DrawCommand::Stroke {
                    rotation: r1, mirror_x: m1, scale, translate, paint, weight, ..
                },
                DrawCommand::Stroke { rotation: r2, mirror_x: m2, .. },
            ) => {
                assert_eq!(*r1, expect_rot);
                assert_eq!(*r2, expect_rot);
                assert!(!*m1);
                assert!(*m2);
                assert_eq!(*scale, 500);
                assert_eq!(*translate, Point2 { x: 0, y: 300_000 });
                assert_eq!(*weight, 1000);
                // At time zero the hue base is 1: ten turns minus the
                // half-turn offset, in millidegrees.
                assert_eq!(
                    *paint,
                    Paint::Lch { luma: 90_000, chroma: 10_000, hue_mdeg: 1_800_000 }
                );
            }
            other => panic!("expected an arm pair, got {:?}", other),
        }
    }
}

#[test]
fn stepped_kaleidoscope_shapes_the_hue() {
    let win = WindowRect::centered(800_000, 600_000);
    let cmds = render_kaleidoscope_stepped(0, &win, &test_params(), 8, 12, 9, 700);
    assert_eq!(cmds.len(), 25);
    match &cmds[1] {
        DrawCommand::Stroke { paint, .. } => {
            // A hue base of 1 climbs the whole staircase: the shaped
            // hue agrees with the unshaped one at the ends.
            assert_eq!(
                *paint,
                Paint::Lch { luma: 90_000, chroma: 10_000, hue_mdeg: 1_800_000 }
            );
        }
        other => panic!("expected a stroke, got {:?}", other),
    }
}
