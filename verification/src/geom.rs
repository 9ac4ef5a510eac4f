//! Fixed-point plane geometry: vectors, affine transforms and Bézier paths.

use vstd::prelude::*;
use crate::num::{
    abs_int, clamp64, clamp_i128, fp_add_spec, tdiv, tdiv_i128, lemma_i64_product_bound, ONE,
};

verus! {

/// A point or extent in the plane, in fixed-point units.
#[derive(Clone, Copy, Debug, PartialEq, Eq, Structural)]
pub struct Vec2 {
    pub x: i64,
    pub y: i64,
}

impl Vec2 {
    pub open spec fn zero_spec() -> Vec2 {
        Vec2 { x: 0, y: 0 }
    }

    pub fn new(x: i64, y: i64) -> (r: Vec2)
        ensures
            r == (Vec2 { x, y }),
    {
        Vec2 { x, y }
    }

    pub fn zero() -> (r: Vec2)
        ensures
            r == Vec2::zero_spec(),
    {
        Vec2 { x: 0, y: 0 }
    }
}

/// An affine map of the plane.  A point `(x, y)` is sent to
/// `(xx*x + xy*y + tx, yx*x + yy*y + ty)` (with each product rescaled by
/// `ONE`, as in [`affine_compose`]).
#[derive(Clone, Copy, Debug, PartialEq, Eq, Structural)]
pub struct Affine {
    pub xx: i64,
    pub yx: i64,
    pub xy: i64,
    pub yy: i64,
    pub tx: i64,
    pub ty: i64,
}

/// Saturating fixed-point dot product of two coefficient pairs.
pub open spec fn fp_dot(a: int, b: int, c: int, d: int) -> int {
    clamp64(tdiv(a * b, ONE as int) + tdiv(c * d, ONE as int))
}

/// As [`fp_dot`], with a translation term added before saturating.
pub open spec fn fp_dot_tr(a: int, b: int, c: int, d: int, e: int) -> int {
    clamp64(tdiv(a * b, ONE as int) + tdiv(c * d, ONE as int) + e)
}

/// Composition `s ∘ o`: the transform that applies `o` first, then `s`.
pub open spec fn affine_compose(s: Affine, o: Affine) -> Affine {
    Affine {
        xx: fp_dot(s.xx as int, o.xx as int, s.xy as int, o.yx as int) as i64,
        yx: fp_dot(s.yx as int, o.xx as int, s.yy as int, o.yx as int) as i64,
        xy: fp_dot(s.xx as int, o.xy as int, s.xy as int, o.yy as int) as i64,
        yy: fp_dot(s.yx as int, o.xy as int, s.yy as int, o.yy as int) as i64,
        tx: fp_dot_tr(s.xx as int, o.tx as int, s.xy as int, o.ty as int, s.tx as int) as i64,
        ty: fp_dot_tr(s.yx as int, o.tx as int, s.yy as int, o.ty as int, s.ty as int) as i64,
    }
}

impl Affine {
    /// The identity transform.
    pub open spec fn identity_spec() -> Affine {
        Affine { xx: ONE, yx: 0, xy: 0, yy: ONE, tx: 0, ty: 0 }
    }

    /// Pure translation by `v`.
    pub open spec fn translate_spec(v: Vec2) -> Affine {
        Affine { xx: ONE, yx: 0, xy: 0, yy: ONE, tx: v.x, ty: v.y }
    }

    /// Axis-aligned scale by the fixed-point factors `sx`, `sy`.
    pub open spec fn scale_spec(sx: i64, sy: i64) -> Affine {
        Affine { xx: sx, yx: 0, xy: 0, yy: sy, tx: 0, ty: 0 }
    }

    pub fn identity() -> (r: Affine)
        ensures
            r == Affine::identity_spec(),
    {
        Affine { xx: ONE, yx: 0, xy: 0, yy: ONE, tx: 0, ty: 0 }
    }

    pub fn translate(v: Vec2) -> (r: Affine)
        ensures
            r == Affine::translate_spec(v),
    {
        Affine { xx: ONE, yx: 0, xy: 0, yy: ONE, tx: v.x, ty: v.y }
    }

    pub fn scale(sx: i64, sy: i64) -> (r: Affine)
        ensures
            r == Affine::scale_spec(sx, sy),
    {
        Affine { xx: sx, yx: 0, xy: 0, yy: sy, tx: 0, ty: 0 }
    }

    /// Composition with `o` applied first: returns `self ∘ o`.
    pub fn pre_concat(&self, o: &Affine) -> (r: Affine)
        ensures
            r == affine_compose(*self, *o),
    {
        Affine {
            xx: fp_dot_exec(self.xx, o.xx, self.xy, o.yx),
            yx: fp_dot_exec(self.yx, o.xx, self.yy, o.yx),
            xy: fp_dot_exec(self.xx, o.xy, self.xy, o.yy),
            yy: fp_dot_exec(self.yx, o.xy, self.yy, o.yy),
            tx: fp_dot_tr_exec(self.xx, o.tx, self.xy, o.ty, self.tx),
            ty: fp_dot_tr_exec(self.yx, o.tx, self.yy, o.ty, self.ty),
        }
    }

    /// Composition with `o` applied after: returns `o ∘ self`.
    pub fn post_concat(&self, o: &Affine) -> (r: Affine)
        ensures
            r == affine_compose(*o, *self),
    {
        o.pre_concat(self)
    }
}

fn fp_dot_exec(a: i64, b: i64, c: i64, d: i64) -> (r: i64)
    ensures
        r as int == fp_dot(a as int, b as int, c as int, d as int),
{
    proof {
        lemma_i64_product_bound(a as int, b as int);
        lemma_i64_product_bound(c as int, d as int);
    }
    let p1: i128 = tdiv_i128((a as i128) * (b as i128), ONE as i128);
    let p2: i128 = tdiv_i128((c as i128) * (d as i128), ONE as i128);
    clamp_i128(p1 + p2)
}

fn fp_dot_tr_exec(a: i64, b: i64, c: i64, d: i64, e: i64) -> (r: i64)
    ensures
        r as int == fp_dot_tr(a as int, b as int, c as int, d as int, e as int),
{
    proof {
        lemma_i64_product_bound(a as int, b as int);
        lemma_i64_product_bound(c as int, d as int);
    }
    let p1: i128 = tdiv_i128((a as i128) * (b as i128), ONE as i128);
    let p2: i128 = tdiv_i128((c as i128) * (d as i128), ONE as i128);
    clamp_i128(p1 + p2 + e as i128)
}

/// Coefficient saturation applied before inversion, so that the determinant
/// and the inverse's coefficients stay representable.
pub open spec fn clamp_inv(v: int) -> int {
    if v > 0x10000000000 {
        0x10000000000
    } else if v < -0x10000000000 {
        -0x10000000000
    } else {
        v
    }
}

/// Inverse of an affine transform, or `None` when the (saturated)
/// determinant is zero.
pub open spec fn affine_invert_spec(a: Affine) -> Option<Affine> {
    let xx = clamp_inv(a.xx as int);
    let yx = clamp_inv(a.yx as int);
    let xy = clamp_inv(a.xy as int);
    let yy = clamp_inv(a.yy as int);
    let tx = clamp_inv(a.tx as int);
    let ty = clamp_inv(a.ty as int);
    let det = xx * yy - xy * yx;
    if det == 0 {
        None
    } else {
        let ixx = clamp64(tdiv(yy * ONE * ONE, det));
        let ixy = clamp64(tdiv(-xy * ONE * ONE, det));
        let iyx = clamp64(tdiv(-yx * ONE * ONE, det));
        let iyy = clamp64(tdiv(xx * ONE * ONE, det));
        let itx = clamp64(-(tdiv(ixx * tx, ONE as int) + tdiv(ixy * ty, ONE as int)));
        let ity = clamp64(-(tdiv(iyx * tx, ONE as int) + tdiv(iyy * ty, ONE as int)));
        Some(
            Affine {
                xx: ixx as i64,
                yx: iyx as i64,
                xy: ixy as i64,
                yy: iyy as i64,
                tx: itx as i64,
                ty: ity as i64,
            },
        )
    }
}

proof fn lemma_clamped_product_bound(a: int, b: int)
    requires
        -0x10000000000 <= a <= 0x10000000000,
        -0x10000000000 <= b <= 0x10000000000,
    ensures
        -0x100000000000000000000 <= a * b <= 0x100000000000000000000,
{
    assert(-0x100000000000000000000 <= a * b <= 0x100000000000000000000)
        by (nonlinear_arith)
        requires
            -0x10000000000 <= a <= 0x10000000000,
            -0x10000000000 <= b <= 0x10000000000,
    ;
}

fn clamp_inv_exec(v: i64) -> (r: i64)
    ensures
        r as int == clamp_inv(v as int),
        -0x10000000000 <= r <= 0x10000000000,
{
    if v > 0x10000000000 {
        0x10000000000
    } else if v < -0x10000000000 {
        -0x10000000000
    } else {
        v
    }
}

impl Affine {
    /// Inverse transform; `None` exactly when the saturated determinant
    /// vanishes.
    pub fn invert(&self) -> (r: Option<Affine>)
        ensures
            r == affine_invert_spec(*self),
    {
        let xx = clamp_inv_exec(self.xx);
        let yx = clamp_inv_exec(self.yx);
        let xy = clamp_inv_exec(self.xy);
        let yy = clamp_inv_exec(self.yy);
        let tx = clamp_inv_exec(self.tx);
        let ty = clamp_inv_exec(self.ty);
        proof {
            lemma_clamped_product_bound(xx as int, yy as int);
            lemma_clamped_product_bound(xy as int, yx as int);
        }
        let det: i128 = (xx as i128) * (yy as i128) - (xy as i128) * (yx as i128);
        if det == 0 {
            None
        } else {
            let sq: i128 = 0x100000000;
            proof {
                assert(sq == (ONE as int) * (ONE as int));
                lemma_clamped_product_bound(yy as int, sq as int);
                lemma_clamped_product_bound(xy as int, sq as int);
                lemma_clamped_product_bound(yx as int, sq as int);
                lemma_clamped_product_bound(xx as int, sq as int);
            }
            let ixx = clamp_i128(tdiv_i128((yy as i128) * sq, det));
            let ixy = clamp_i128(tdiv_i128(-(xy as i128) * sq, det));
            let iyx = clamp_i128(tdiv_i128(-(yx as i128) * sq, det));
            let iyy = clamp_i128(tdiv_i128((xx as i128) * sq, det));
            proof {
                lemma_i64_product_bound(ixx as int, tx as int);
                lemma_i64_product_bound(ixy as int, ty as int);
                lemma_i64_product_bound(iyx as int, tx as int);
                lemma_i64_product_bound(iyy as int, ty as int);
            }
            let itx = clamp_i128(
                -(tdiv_i128((ixx as i128) * (tx as i128), ONE as i128) + tdiv_i128(
                    (ixy as i128) * (ty as i128),
                    ONE as i128,
                )),
            );
            let ity = clamp_i128(
                -(tdiv_i128((iyx as i128) * (tx as i128), ONE as i128) + tdiv_i128(
                    (iyy as i128) * (ty as i128),
                    ONE as i128,
                )),
            );
            Some(Affine { xx: ixx, yx: iyx, xy: ixy, yy: iyy, tx: itx, ty: ity })
        }
    }
}

/// Contextual information threaded through flattening and leaf rendering:
/// the running transform and the reference size of the first hard frame in
/// the hierarchy, against which parent-relative paints are resolved.
#[derive(Clone, Copy, Debug, PartialEq, Eq, Structural)]
pub struct RenderState {
    /// The running transform of the current item.
    pub transform: Affine,
    /// The size of the first hard frame in the hierarchy.
    pub size: Vec2,
}

impl RenderState {
    pub fn new(size: Vec2, transform: Affine) -> (r: RenderState)
        ensures
            r == (RenderState { size, transform }),
    {
        RenderState { size, transform }
    }

    /// Pre-translates the running transform by `pos`.
    pub fn pre_translate(self, pos: Vec2) -> (r: RenderState)
        ensures
            r.transform == affine_compose(self.transform, Affine::translate_spec(pos)),
            r.size == self.size,
    {
        RenderState {
            transform: self.transform.pre_concat(&Affine::translate(pos)),
            size: self.size,
        }
    }

    /// Pre-concatenates `t` onto the running transform.
    pub fn pre_concat(self, t: &Affine) -> (r: RenderState)
        ensures
            r.transform == affine_compose(self.transform, *t),
            r.size == self.size,
    {
        RenderState { transform: self.transform.pre_concat(t), size: self.size }
    }

    /// Replaces the reference size (entering a hard frame).
    pub fn with_size(self, size: Vec2) -> (r: RenderState)
        ensures
            r == (RenderState { size, transform: self.transform }),
    {
        RenderState { transform: self.transform, size }
    }

    /// Replaces the running transform (entering a hard frame).
    pub fn with_transform(self, transform: Affine) -> (r: RenderState)
        ensures
            r == (RenderState { transform, size: self.size }),
    {
        RenderState { transform, size: self.size }
    }
}

/// One element of a Bézier path, in fixed-point coordinates.
#[derive(Clone, Copy, Debug, PartialEq, Eq, Structural)]
pub enum PathEl {
    MoveTo(Vec2),
    LineTo(Vec2),
    QuadTo(Vec2, Vec2),
    CurveTo(Vec2, Vec2, Vec2),
    ClosePath,
}

/// A Bézier path: a sequence of path elements.
#[derive(Debug, PartialEq, Eq)]
pub struct BezPath {
    pub els: Vec<PathEl>,
}

impl View for BezPath {
    type V = Seq<PathEl>;

    open spec fn view(&self) -> Seq<PathEl> {
        self.els@
    }
}

impl Clone for BezPath {
    /// Clones the path, preserving its elements.
    fn clone(&self) -> (r: BezPath)
        ensures
            r@ == self@,
    {
        BezPath { els: crate::num::clone_copied(&self.els) }
    }
}

impl BezPath {
    pub fn new() -> (r: BezPath)
        ensures
            r@ == Seq::<PathEl>::empty(),
    {
        BezPath { els: Vec::new() }
    }
}

/// The axis-aligned rectangle from the origin to `size`, as a closed path.
pub open spec fn rect_path_spec(size: Vec2) -> Seq<PathEl> {
    seq![
        PathEl::MoveTo(Vec2 { x: 0, y: 0 }),
        PathEl::LineTo(Vec2 { x: size.x, y: 0 }),
        PathEl::LineTo(Vec2 { x: size.x, y: size.y }),
        PathEl::LineTo(Vec2 { x: 0, y: size.y }),
        PathEl::ClosePath,
    ]
}

/// Builds the clip-fallback rectangle path spanning `size`.
pub fn rect_path(size: Vec2) -> (r: BezPath)
    ensures
        r.els@ == rect_path_spec(size),
{
    let mut els: Vec<PathEl> = Vec::new();
    els.push(PathEl::MoveTo(Vec2 { x: 0, y: 0 }));
    els.push(PathEl::LineTo(Vec2 { x: size.x, y: 0 }));
    els.push(PathEl::LineTo(Vec2 { x: size.x, y: size.y }));
    els.push(PathEl::LineTo(Vec2 { x: 0, y: size.y }));
    els.push(PathEl::ClosePath);
    proof {
        assert(els@ =~= rect_path_spec(size));
    }
    BezPath { els }
}

} // verus!
