//! Abstract paints and their resolution into renderer-native brushes.
//!
//! A paint is a solid color or a linear / radial / conic gradient declared
//! over the unit box.  [`resolve_brush`] turns a paint plus a sizing context
//! into a normalized brush and the transform that places it: gradients are
//! kept in unit-box coordinates (`ONE` spans the box) and the returned
//! transform scales them to the sizing context, pre-multiplied by the
//! inverse of the ambient running transform when the paint is declared
//! relative to the enclosing hard frame.

use vstd::prelude::*;
use crate::geom::{affine_compose, affine_invert_spec, Affine, RenderState, Vec2};
use crate::num::{abs_int, clamp64, clamp_i128, fp_mul, fp_mul_spec, tdiv, tdiv_i128, ONE};

verus! {

/// An RGBA color with 8-bit channels.
#[derive(Clone, Copy, Debug, PartialEq, Eq, Structural)]
pub struct Color {
    pub r: u8,
    pub g: u8,
    pub b: u8,
    pub a: u8,
}

/// A gradient stop: a fixed-point offset in `[0, ONE]` and its color.
#[derive(Clone, Copy, Debug, PartialEq, Eq, Structural)]
pub struct ColorStop {
    pub offset: i64,
    pub color: Color,
}

/// Mixing mode of a compositing layer.
#[derive(Clone, Copy, Debug, PartialEq, Eq, Structural)]
pub enum Mix {
    Normal,
    Multiply,
    Screen,
    Overlay,
    Darken,
    Lighten,
    Clip,
}

/// Composition mode of a compositing layer.
#[derive(Clone, Copy, Debug, PartialEq, Eq, Structural)]
pub enum Compose {
    SrcOver,
    Clear,
    Copy,
    DestOver,
}

/// Blend mode of a compositing layer.
#[derive(Clone, Copy, Debug, PartialEq, Eq, Structural)]
pub struct BlendMode {
    pub mix: Mix,
    pub compose: Compose,
}

impl BlendMode {
    pub open spec fn normal_spec() -> BlendMode {
        BlendMode { mix: Mix::Normal, compose: Compose::SrcOver }
    }

    pub fn normal() -> (r: BlendMode)
        ensures
            r == BlendMode::normal_spec(),
    {
        BlendMode { mix: Mix::Normal, compose: Compose::SrcOver }
    }
}

/// What a relative paint is sized against.
#[derive(Clone, Copy, Debug, PartialEq, Eq, Structural)]
pub enum RelativeTo {
    /// The bounding box of the shape the paint is applied to.
    Item,
    /// The nearest enclosing hard frame.
    Parent,
}

/// A linear gradient, declared by the direction of its angle: `dir_cos` and
/// `dir_sin` are the fixed-point cosine and sine of the declared angle.
#[derive(Clone, Debug, PartialEq, Eq)]
pub struct LinearGradient {
    pub dir_cos: i64,
    pub dir_sin: i64,
    pub stops: Vec<ColorStop>,
    pub relative: Option<RelativeTo>,
}

/// A radial gradient over the unit box.
#[derive(Clone, Debug, PartialEq, Eq)]
pub struct RadialGradient {
    pub center: Vec2,
    pub radius: i64,
    pub focal_center: Vec2,
    pub focal_radius: i64,
    pub stops: Vec<ColorStop>,
    pub relative: Option<RelativeTo>,
}

/// A conic (sweep) gradient over the unit box; `angle` is in fixed-point
/// radians.
#[derive(Clone, Debug, PartialEq, Eq)]
pub struct ConicGradient {
    pub center: Vec2,
    pub angle: i64,
    pub stops: Vec<ColorStop>,
    pub relative: Option<RelativeTo>,
}

/// An abstract paint description.
#[derive(Clone, Debug, PartialEq, Eq)]
pub enum Paint {
    Solid(Color),
    Linear(LinearGradient),
    Radial(RadialGradient),
    Conic(ConicGradient),
}

/// A resolved, renderer-native brush.  Gradient coordinates are normalized:
/// `ONE` spans the sizing context on each axis.
#[derive(Debug, PartialEq, Eq)]
pub enum Brush {
    Solid(Color),
    Linear { start: Vec2, end: Vec2, stops: Vec<ColorStop> },
    Radial { center: Vec2, radius: i64, focal_center: Vec2, focal_radius: i64, stops: Vec<ColorStop> },
    Sweep { center: Vec2, start_angle: i64, end_angle: i64, stops: Vec<ColorStop> },
}

/// Mathematical content of a [`Brush`].
pub ghost enum BrushV {
    Solid(Color),
    Linear { start: Vec2, end: Vec2, stops: Seq<ColorStop> },
    Radial { center: Vec2, radius: i64, focal_center: Vec2, focal_radius: i64, stops: Seq<ColorStop> },
    Sweep { center: Vec2, start_angle: i64, end_angle: i64, stops: Seq<ColorStop> },
}

impl View for Brush {
    type V = BrushV;

    open spec fn view(&self) -> BrushV {
        match *self {
            Brush::Solid(c) => BrushV::Solid(c),
            Brush::Linear { start, end, stops } => BrushV::Linear { start, end, stops: stops@ },
            Brush::Radial { center, radius, focal_center, focal_radius, stops } => BrushV::Radial {
                center,
                radius,
                focal_center,
                focal_radius,
                stops: stops@,
            },
            Brush::Sweep { center, start_angle, end_angle, stops } => BrushV::Sweep {
                center,
                start_angle,
                end_angle,
                stops: stops@,
            },
        }
    }
}

impl Clone for Brush {
    /// Clones the brush, preserving its mathematical content.
    fn clone(&self) -> (r: Brush)
        ensures
            r@ == self@,
    {
        match self {
            Brush::Solid(c) => Brush::Solid(*c),
            Brush::Linear { start, end, stops } => {
                let r = Brush::Linear { start: *start, end: *end, stops: clone_stops(stops) };
                r
            },
            Brush::Radial { center, radius, focal_center, focal_radius, stops } => Brush::Radial {
                center: *center,
                radius: *radius,
                focal_center: *focal_center,
                focal_radius: *focal_radius,
                stops: clone_stops(stops),
            },
            Brush::Sweep { center, start_angle, end_angle, stops } => Brush::Sweep {
                center: *center,
                start_angle: *start_angle,
                end_angle: *end_angle,
                stops: clone_stops(stops),
            },
        }
    }
}

/// Copies a stop list, preserving its view.
pub fn clone_stops(stops: &Vec<ColorStop>) -> (r: Vec<ColorStop>)
    ensures
        r@ == stops@,
{
    let mut r: Vec<ColorStop> = Vec::new();
    let mut i: usize = 0;
    while i < stops.len()
        invariant
            i <= stops.len(),
            r@ == stops@.subrange(0, i as int),
        decreases stops.len() - i,
    {
        r.push(stops[i]);
        proof {
            assert(r@ =~= stops@.subrange(0, i + 1 as int));
        }
        i = i + 1;
    }
    proof {
        assert(r@ =~= stops@);
    }
    r
}

/// 2π in fixed-point radians, rounded to the nearest representable value.
pub const TAU_FP: i64 = 411775;

/// The angle of a conic gradient, negated and wrapped into `[0, TAU_FP)`,
/// matching the backend's sweep orientation convention.
pub open spec fn wrap_neg_spec(a: int) -> int {
    let m = abs_int(a) % (TAU_FP as int);
    if a > 0 {
        if m == 0 {
            0
        } else {
            TAU_FP - m
        }
    } else {
        m
    }
}

/// Negates and wraps a fixed-point angle into `[0, TAU_FP)`.
pub fn wrap_neg(a: i64) -> (r: i64)
    ensures
        r as int == wrap_neg_spec(a as int),
        0 <= r < TAU_FP,
{
    let na: i128 = a as i128;
    let mag: u128 = if na < 0 {
        (-na) as u128
    } else {
        na as u128
    };
    let m: i64 = (mag % (TAU_FP as u128)) as i64;
    if a > 0 {
        if m == 0 {
            0
        } else {
            TAU_FP - m
        }
    } else {
        m
    }
}

/// Saturation applied to the aspect-corrected gradient direction, keeping
/// the quadratic forms below representable.
pub open spec fn clamp_grad(v: int) -> int {
    if v > 0x80000000 {
        0x80000000
    } else if v < -0x80000000 {
        -0x80000000
    } else {
        v
    }
}

/// The gradient line of a linear gradient with direction (`dir_cos`,
/// `dir_sin`) over a box of extent `w` × `h`, in normalized box coordinates
/// (`ONE` spans the box).
///
/// The direction is first corrected for the box's aspect ratio (each
/// component is scaled by the opposite extent), then classified into one of
/// four half-open quadrants; the start is the quadrant's corner and the end
/// lies a length of `|sin| + |cos|` along the corrected direction, so the
/// gradient line always spans the full diagonal footprint of the box.  A
/// degenerate direction yields the horizontal line from the origin.
pub open spec fn linear_line_spec(dir_cos: i64, dir_sin: i64, w: i64, h: i64) -> (Vec2, Vec2) {
    let u = clamp_grad(fp_mul_spec(dir_cos as int, w as int));
    let v = clamp_grad(fp_mul_spec(dir_sin as int, h as int));
    let d = u * u + v * v;
    if d == 0 {
        (Vec2 { x: 0, y: 0 }, Vec2 { x: ONE, y: 0 })
    } else {
        let len1 = abs_int(u) + abs_int(v);
        let cl = clamp64(tdiv(u * len1 * (ONE as int), d));
        let sl = clamp64(tdiv(v * len1 * (ONE as int), d));
        let sx: int = if u > 0 && v >= 0 {
            0
        } else if u <= 0 && v > 0 {
            ONE as int
        } else if u < 0 && v <= 0 {
            ONE as int
        } else {
            0
        };
        let sy: int = if u > 0 && v >= 0 {
            0
        } else if u <= 0 && v > 0 {
            0
        } else if u < 0 && v <= 0 {
            ONE as int
        } else {
            ONE as int
        };
        (
            Vec2 { x: sx as i64, y: sy as i64 },
            Vec2 { x: clamp64(sx + cl) as i64, y: clamp64(sy + sl) as i64 },
        )
    }
}

fn clamp_grad_exec(v: i64) -> (r: i64)
    ensures
        r as int == clamp_grad(v as int),
        -0x80000000 <= r <= 0x80000000,
{
    if v > 0x80000000 {
        0x80000000
    } else if v < -0x80000000 {
        -0x80000000
    } else {
        v
    }
}

proof fn lemma_grad_product_bound(a: int, b: int)
    requires
        -0x80000000 <= a <= 0x80000000,
        -0x10000000000000000 <= b <= 0x10000000000000000,
    ensures
        -0x800000000000000000000000 <= a * b <= 0x800000000000000000000000,
{
    assert(-0x800000000000000000000000 <= a * b <= 0x800000000000000000000000)
        by (nonlinear_arith)
        requires
            -0x80000000 <= a <= 0x80000000,
            -0x10000000000000000 <= b <= 0x10000000000000000,
    ;
}

/// Computes the normalized gradient line (see [`linear_line_spec`]).
pub fn linear_line(dir_cos: i64, dir_sin: i64, w: i64, h: i64) -> (r: (Vec2, Vec2))
    ensures
        r == linear_line_spec(dir_cos, dir_sin, w, h),
{
    let u = clamp_grad_exec(fp_mul(dir_cos, w));
    let v = clamp_grad_exec(fp_mul(dir_sin, h));
    proof {
        lemma_grad_product_bound(u as int, u as int);
        lemma_grad_product_bound(v as int, v as int);
    }
    let d: i128 = (u as i128) * (u as i128) + (v as i128) * (v as i128);
    if d == 0 {
        (Vec2 { x: 0, y: 0 }, Vec2 { x: ONE, y: 0 })
    } else {
        let au: i128 = if u < 0 {
            -(u as i128)
        } else {
            u as i128
        };
        let av: i128 = if v < 0 {
            -(v as i128)
        } else {
            v as i128
        };
        let len1: i128 = au + av;
        proof {
            lemma_grad_product_bound(u as int, (len1 * (ONE as i128)) as int);
            lemma_grad_product_bound(v as int, (len1 * (ONE as i128)) as int);
            assert(u as int * (len1 as int * (ONE as int)) == (u as int) * (len1 as int) * (
            ONE as int)) by (nonlinear_arith);
            assert(v as int * (len1 as int * (ONE as int)) == (v as int) * (len1 as int) * (
            ONE as int)) by (nonlinear_arith);
        }
        let cl = clamp_i128(tdiv_i128((u as i128) * (len1 * (ONE as i128)), d));
        let sl = clamp_i128(tdiv_i128((v as i128) * (len1 * (ONE as i128)), d));
        let (sx, sy): (i64, i64) = if u > 0 && v >= 0 {
            (0, 0)
        } else if u <= 0 && v > 0 {
            (ONE, 0)
        } else if u < 0 && v <= 0 {
            (ONE, ONE)
        } else {
            (0, ONE)
        };
        (
            Vec2 { x: sx, y: sy },
            Vec2 {
                x: clamp_i128(sx as i128 + cl as i128),
                y: clamp_i128(sy as i128 + sl as i128),
            },
        )
    }
}

/// The sizing target a relative paint resolves against, defaulting to the
/// enclosing frame for text and to the shape itself otherwise.
pub open spec fn unwrap_relative_spec(relative: Option<RelativeTo>, on_text: bool) -> RelativeTo {
    match relative {
        Option::Some(r) => r,
        Option::None => if on_text {
            RelativeTo::Parent
        } else {
            RelativeTo::Item
        },
    }
}

pub fn unwrap_relative(relative: &Option<RelativeTo>, on_text: bool) -> (r: RelativeTo)
    ensures
        r == unwrap_relative_spec(*relative, on_text),
{
    match relative {
        Option::Some(r) => *r,
        Option::None => if on_text {
            RelativeTo::Parent
        } else {
            RelativeTo::Item
        },
    }
}

/// The sizing context of a shape-relative paint: the shape's bounding size
/// with a one-unit floor on each axis, so degenerate shapes still resolve.
pub open spec fn floor_unit_spec(v: Vec2) -> Vec2 {
    Vec2 {
        x: if v.x < ONE {
            ONE
        } else {
            v.x
        },
        y: if v.y < ONE {
            ONE
        } else {
            v.y
        },
    }
}

pub fn floor_unit(v: Vec2) -> (r: Vec2)
    ensures
        r == floor_unit_spec(v),
{
    Vec2 {
        x: if v.x < ONE {
            ONE
        } else {
            v.x
        },
        y: if v.y < ONE {
            ONE
        } else {
            v.y
        },
    }
}

/// The transform placing a normalized brush: scale to the sizing context,
/// pre-multiplied, for parent-relative paints, by the inverse of the
/// ambient running transform (identity when that transform has no inverse,
/// degrading gracefully rather than failing).
pub open spec fn brush_transform_spec(rel: RelativeTo, ctx: Vec2, state: RenderState) -> Affine {
    let scale = Affine::scale_spec(ctx.x, ctx.y);
    match rel {
        RelativeTo::Item => scale,
        RelativeTo::Parent => match affine_invert_spec(state.transform) {
            Option::Some(inv) => affine_compose(inv, scale),
            Option::None => scale,
        },
    }
}

/// The sizing context a paint resolves against.
pub open spec fn sizing_context_spec(rel: RelativeTo, bbox: Vec2, state: RenderState) -> Vec2 {
    match rel {
        RelativeTo::Item => floor_unit_spec(bbox),
        RelativeTo::Parent => state.size,
    }
}

/// Mathematical content of the resolved brush of `paint` (see
/// [`resolve_brush`]).
pub open spec fn resolve_brush_spec(
    paint: Paint,
    bbox: Vec2,
    state: RenderState,
    on_text: bool,
) -> (BrushV, Affine) {
    match paint {
        Paint::Solid(c) => (BrushV::Solid(c), Affine::identity_spec()),
        Paint::Linear(g) => {
            let rel = unwrap_relative_spec(g.relative, on_text);
            let ctx = sizing_context_spec(rel, bbox, state);
            let (start, end) = linear_line_spec(g.dir_cos, g.dir_sin, ctx.x, ctx.y);
            (
                BrushV::Linear { start, end, stops: g.stops@ },
                brush_transform_spec(rel, ctx, state),
            )
        },
        Paint::Radial(g) => {
            let rel = unwrap_relative_spec(g.relative, on_text);
            let ctx = sizing_context_spec(rel, bbox, state);
            (
                BrushV::Radial {
                    center: g.center,
                    radius: g.radius,
                    focal_center: g.focal_center,
                    focal_radius: g.focal_radius,
                    stops: g.stops@,
                },
                brush_transform_spec(rel, ctx, state),
            )
        },
        Paint::Conic(g) => {
            let rel = unwrap_relative_spec(g.relative, on_text);
            let ctx = sizing_context_spec(rel, bbox, state);
            (
                BrushV::Sweep {
                    center: g.center,
                    start_angle: wrap_neg_spec(g.angle as int) as i64,
                    end_angle: TAU_FP,
                    stops: g.stops@,
                },
                brush_transform_spec(rel, ctx, state),
            )
        },
    }
}

fn brush_transform(rel: RelativeTo, ctx: Vec2, state: &RenderState) -> (r: Affine)
    ensures
        r == brush_transform_spec(rel, ctx, *state),
{
    let scale = Affine::scale(ctx.x, ctx.y);
    match rel {
        RelativeTo::Item => scale,
        RelativeTo::Parent => match state.transform.invert() {
            Option::Some(inv) => inv.pre_concat(&scale),
            Option::None => scale,
        },
    }
}

/// Resolves a paint against a sizing context: returns a brush in normalized
/// unit-box coordinates and the transform that places it (see module
/// documentation).  `bbox` is the bounding size of the painted shape;
/// `on_text` selects the default sizing target of relative paints.
pub fn resolve_brush(paint: &Paint, bbox: Vec2, state: &RenderState, on_text: bool) -> (r: (
    Brush,
    Affine,
))
    ensures
        (r.0@, r.1) == resolve_brush_spec(*paint, bbox, *state, on_text),
{
    match paint {
        Paint::Solid(c) => (Brush::Solid(*c), Affine::identity()),
        Paint::Linear(g) => {
            let rel = unwrap_relative(&g.relative, on_text);
            let ctx = match rel {
                RelativeTo::Item => floor_unit(bbox),
                RelativeTo::Parent => state.size,
            };
            let (start, end) = linear_line(g.dir_cos, g.dir_sin, ctx.x, ctx.y);
            (
                Brush::Linear { start, end, stops: clone_stops(&g.stops) },
                brush_transform(rel, ctx, state),
            )
        },
        Paint::Radial(g) => {
            let rel = unwrap_relative(&g.relative, on_text);
            let ctx = match rel {
                RelativeTo::Item => floor_unit(bbox),
                RelativeTo::Parent => state.size,
            };
            (
                Brush::Radial {
                    center: g.center,
                    radius: g.radius,
                    focal_center: g.focal_center,
                    focal_radius: g.focal_radius,
                    stops: clone_stops(&g.stops),
                },
                brush_transform(rel, ctx, state),
            )
        },
        Paint::Conic(g) => {
            let rel = unwrap_relative(&g.relative, on_text);
            let ctx = match rel {
                RelativeTo::Item => floor_unit(bbox),
                RelativeTo::Parent => state.size,
            };
            (
                Brush::Sweep {
                    center: g.center,
                    start_angle: wrap_neg(g.angle),
                    end_angle: TAU_FP,
                    stops: clone_stops(&g.stops),
                },
                brush_transform(rel, ctx, state),
            )
        },
    }
}

} // verus!
