//! The paint resolver: gradient lines, sweep wrapping, sizing contexts.

use velyst::geom::{Affine, RenderState, Vec2};
use velyst::num::ONE;
use velyst::paint::{
    linear_line, resolve_brush, unwrap_relative, wrap_neg, Brush, Color, ColorStop,
    ConicGradient, LinearGradient, Paint, RadialGradient, RelativeTo, TAU_FP,
};

fn plain_state(w: i64, h: i64) -> RenderState {
    RenderState::new(Vec2 { x: w, y: h }, Affine::identity())
}

fn stops() -> Vec<ColorStop> {
    vec![
        ColorStop { offset: 0, color: Color { r: 0, g: 0, b: 0, a: 255 } },
        ColorStop { offset: ONE, color: Color { r: 255, g: 255, b: 255, a: 255 } },
    ]
}

#[test]
fn angle_zero_on_square_spans_left_to_right() {
    let (start, end) = linear_line(ONE, 0, 10 * ONE, 10 * ONE);
    assert_eq!(start, Vec2 { x: 0, y: 0 });
    assert_eq!(end, Vec2 { x: ONE, y: 0 });
}

#[test]
fn angle_zero_is_aspect_independent() {
    let (start, end) = linear_line(ONE, 0, 30 * ONE, 7 * ONE);
    assert_eq!(start, Vec2 { x: 0, y: 0 });
    assert_eq!(end, Vec2 { x: ONE, y: 0 });
}

#[test]
fn quadrant_starts_move_around_the_box() {
    // 90 degrees: cos 0, sin 1 -> second quadrant, top-right corner start.
    let (start, end) = linear_line(0, ONE, 8 * ONE, 8 * ONE);
    assert_eq!(start, Vec2 { x: ONE, y: 0 });
    assert_eq!(end, Vec2 { x: ONE, y: ONE });
    // 180 degrees: cos -1, sin 0 -> third quadrant.
    let (start, end) = linear_line(-ONE, 0, 8 * ONE, 8 * ONE);
    assert_eq!(start, Vec2 { x: ONE, y: ONE });
    assert_eq!(end, Vec2 { x: 0, y: ONE });
    // 270 degrees: cos 0, sin -1 -> fourth quadrant.
    let (start, end) = linear_line(0, -ONE, 8 * ONE, 8 * ONE);
    assert_eq!(start, Vec2 { x: 0, y: ONE });
    assert_eq!(end, Vec2 { x: 0, y: 0 });
}

#[test]
fn degenerate_direction_degrades_to_horizontal_line() {
    let (start, end) = linear_line(0, 0, 8 * ONE, 8 * ONE);
    assert_eq!(start, Vec2 { x: 0, y: 0 });
    assert_eq!(end, Vec2 { x: ONE, y: 0 });
}

#[test]
fn solid_paint_resolves_to_color_brush_under_identity() {
    let paint = Paint::Solid(Color { r: 1, g: 2, b: 3, a: 4 });
    let (brush, transform) = resolve_brush(
        &paint,
        Vec2 { x: 5 * ONE, y: 5 * ONE },
        &plain_state(10 * ONE, 10 * ONE),
        false,
    );
    assert_eq!(brush, Brush::Solid(Color { r: 1, g: 2, b: 3, a: 4 }));
    assert_eq!(transform, Affine::identity());
}

#[test]
fn shape_relative_gradient_is_sized_by_the_shape_with_unit_floor() {
    let paint = Paint::Linear(LinearGradient {
        dir_cos: ONE,
        dir_sin: 0,
        stops: stops(),
        relative: Some(RelativeTo::Item),
    });
    // A degenerate zero-size shape still resolves: the context floor is one
    // unit per axis, so the placement scale is exactly one unit.
    let (brush, transform) = resolve_brush(
        &paint,
        Vec2 { x: 0, y: 0 },
        &plain_state(10 * ONE, 10 * ONE),
        false,
    );
    match brush {
        Brush::Linear { start, end, stops } => {
            assert_eq!(start, Vec2 { x: 0, y: 0 });
            assert_eq!(end, Vec2 { x: ONE, y: 0 });
            assert_eq!(stops.len(), 2);
        }
        _ => panic!("expected a linear brush"),
    }
    assert_eq!(transform, Affine::scale(ONE, ONE));
}

#[test]
fn parent_relative_gradient_is_anchored_to_the_hard_frame() {
    let paint = Paint::Linear(LinearGradient {
        dir_cos: ONE,
        dir_sin: 0,
        stops: stops(),
        relative: Some(RelativeTo::Parent),
    });
    // The running transform is a pure translation; the brush placement
    // undoes it before scaling to the reference size.
    let state = RenderState::new(
        Vec2 { x: 20 * ONE, y: 20 * ONE },
        Affine::translate(Vec2 { x: 3 * ONE, y: 0 }),
    );
    let (_, transform) = resolve_brush(&paint, Vec2 { x: ONE, y: ONE }, &state, false);
    let inverse = Affine::translate(Vec2 { x: -3 * ONE, y: 0 });
    assert_eq!(transform, inverse.pre_concat(&Affine::scale(20 * ONE, 20 * ONE)));
}

#[test]
fn parent_relative_gradient_degrades_when_state_is_singular() {
    let paint = Paint::Linear(LinearGradient {
        dir_cos: ONE,
        dir_sin: 0,
        stops: stops(),
        relative: Some(RelativeTo::Parent),
    });
    // A singular running transform cannot be inverted; the placement
    // degrades to the plain reference-size scale instead of failing.
    let state = RenderState::new(
        Vec2 { x: 20 * ONE, y: 20 * ONE },
        Affine::scale(0, 0),
    );
    let (_, transform) = resolve_brush(&paint, Vec2 { x: ONE, y: ONE }, &state, false);
    assert_eq!(transform, Affine::scale(20 * ONE, 20 * ONE));
}

#[test]
fn relative_defaults_depend_on_text() {
    assert_eq!(unwrap_relative(&None, false), RelativeTo::Item);
    assert_eq!(unwrap_relative(&None, true), RelativeTo::Parent);
    assert_eq!(unwrap_relative(&Some(RelativeTo::Item), true), RelativeTo::Item);
}

#[test]
fn radial_gradient_maps_directly() {
    let paint = Paint::Radial(RadialGradient {
        center: Vec2 { x: ONE / 2, y: ONE / 2 },
        radius: ONE / 2,
        focal_center: Vec2 { x: ONE / 4, y: ONE / 4 },
        focal_radius: 0,
        stops: stops(),
        relative: Some(RelativeTo::Item),
    });
    let (brush, transform) = resolve_brush(
        &paint,
        Vec2 { x: 6 * ONE, y: 8 * ONE },
        &plain_state(10 * ONE, 10 * ONE),
        false,
    );
    match brush {
        Brush::Radial { center, radius, focal_center, focal_radius, .. } => {
            assert_eq!(center, Vec2 { x: ONE / 2, y: ONE / 2 });
            assert_eq!(radius, ONE / 2);
            assert_eq!(focal_center, Vec2 { x: ONE / 4, y: ONE / 4 });
            assert_eq!(focal_radius, 0);
        }
        _ => panic!("expected a radial brush"),
    }
    assert_eq!(transform, Affine::scale(6 * ONE, 8 * ONE));
}

#[test]
fn conic_angle_is_negated_and_wrapped() {
    assert_eq!(wrap_neg(0), 0);
    assert_eq!(wrap_neg(TAU_FP), 0);
    assert_eq!(wrap_neg(100), TAU_FP - 100);
    assert_eq!(wrap_neg(-100), 100);
    assert_eq!(wrap_neg(TAU_FP + 1), TAU_FP - 1);

    let paint = Paint::Conic(ConicGradient {
        center: Vec2 { x: ONE / 2, y: ONE / 2 },
        angle: 100,
        stops: stops(),
        relative: Some(RelativeTo::Item),
    });
    let (brush, _) = resolve_brush(
        &paint,
        Vec2 { x: 4 * ONE, y: 4 * ONE },
        &plain_state(10 * ONE, 10 * ONE),
        false,
    );
    match brush {
        Brush::Sweep { start_angle, end_angle, .. } => {
            // The sweep extent is a full turn minus the wrapped angle.
            assert_eq!(start_angle, TAU_FP - 100);
            assert_eq!(end_angle, TAU_FP);
            assert_eq!(end_angle - start_angle, 100);
        }
        _ => panic!("expected a sweep brush"),
    }
}
