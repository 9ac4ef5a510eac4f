//! Fonts and glyph outlines.
//!
//! A font is modelled at the boundary described by the outline-extraction
//! capability: per glyph, an optional bounding box and an optional outline,
//! both in integer font units, plus the font's units-per-em.  The outliner
//! scales an outline into fixed-point canvas units.

use vstd::prelude::*;
use crate::geom::{BezPath, PathEl, Vec2};
use crate::num::{clamp64, clamp_i128, lemma_i64_product_bound};

verus! {

/// One glyph of a font: its bounding box extent and its outline, both in
/// integer font units.  A glyph without an outline draws nothing.
#[derive(Debug, PartialEq, Eq)]
pub struct GlyphDef {
    pub bbox: Option<Vec2>,
    pub outline: Option<BezPath>,
}

/// Mathematical content of a [`GlyphDef`].
pub ghost struct GlyphDefV {
    pub bbox: Option<Vec2>,
    pub outline: Option<Seq<PathEl>>,
}

impl View for GlyphDef {
    type V = GlyphDefV;

    open spec fn view(&self) -> GlyphDefV {
        GlyphDefV {
            bbox: self.bbox,
            outline: match self.outline {
                Option::Some(ref p) => Option::Some(p@),
                Option::None => Option::None,
            },
        }
    }
}

/// A font: its units-per-em and its glyphs, indexed by glyph id.
#[derive(Debug, PartialEq, Eq)]
pub struct Font {
    pub units_per_em: i64,
    pub glyphs: Vec<GlyphDef>,
}

/// Mathematical content of a [`Font`].
pub ghost struct FontV {
    pub units_per_em: i64,
    pub glyphs: Seq<GlyphDefV>,
}

impl View for Font {
    type V = FontV;

    open spec fn view(&self) -> FontV {
        FontV {
            units_per_em: self.units_per_em,
            glyphs: self.glyphs@.map_values(|g: GlyphDef| g@),
        }
    }
}

/// A font-unit coordinate scaled by the fixed-point factor `scale`.
pub open spec fn scale_coord(c: i64, scale: i64) -> i64 {
    clamp64(c * scale) as i64
}

/// A font-unit point scaled by `scale`.
pub open spec fn scale_point(p: Vec2, scale: i64) -> Vec2 {
    Vec2 { x: scale_coord(p.x, scale), y: scale_coord(p.y, scale) }
}

/// A path element scaled by `scale`.
pub open spec fn scale_el(el: PathEl, scale: i64) -> PathEl {
    match el {
        PathEl::MoveTo(p) => PathEl::MoveTo(scale_point(p, scale)),
        PathEl::LineTo(p) => PathEl::LineTo(scale_point(p, scale)),
        PathEl::QuadTo(p, q) => PathEl::QuadTo(scale_point(p, scale), scale_point(q, scale)),
        PathEl::CurveTo(p, q, r) => PathEl::CurveTo(
            scale_point(p, scale),
            scale_point(q, scale),
            scale_point(r, scale),
        ),
        PathEl::ClosePath => PathEl::ClosePath,
    }
}

/// An outline scaled by `scale`.
pub open spec fn scale_els(els: Seq<PathEl>, scale: i64) -> Seq<PathEl> {
    els.map_values(|el: PathEl| scale_el(el, scale))
}

/// The glyph's outline scaled by `scale`, or `None` when the font has no
/// outline for it (an unknown id counts as no outline).
pub open spec fn outline_glyph_spec(font: FontV, id: int, scale: i64) -> Option<Seq<PathEl>> {
    if 0 <= id < font.glyphs.len() {
        match font.glyphs[id].outline {
            Option::Some(els) => Option::Some(scale_els(els, scale)),
            Option::None => Option::None,
        }
    } else {
        Option::None
    }
}

/// The glyph's bounding box in font units, or `None` when the font reports
/// none (an unknown id counts as none).
pub open spec fn glyph_bbox_spec(font: FontV, id: int) -> Option<Vec2> {
    if 0 <= id < font.glyphs.len() {
        font.glyphs[id].bbox
    } else {
        Option::None
    }
}

fn scale_coord_exec(c: i64, scale: i64) -> (r: i64)
    ensures
        r == scale_coord(c, scale),
{
    proof {
        lemma_i64_product_bound(c as int, scale as int);
    }
    clamp_i128((c as i128) * (scale as i128))
}

fn scale_point_exec(p: Vec2, scale: i64) -> (r: Vec2)
    ensures
        r == scale_point(p, scale),
{
    Vec2 { x: scale_coord_exec(p.x, scale), y: scale_coord_exec(p.y, scale) }
}

fn scale_el_exec(el: PathEl, scale: i64) -> (r: PathEl)
    ensures
        r == scale_el(el, scale),
{
    match el {
        PathEl::MoveTo(p) => PathEl::MoveTo(scale_point_exec(p, scale)),
        PathEl::LineTo(p) => PathEl::LineTo(scale_point_exec(p, scale)),
        PathEl::QuadTo(p, q) => PathEl::QuadTo(scale_point_exec(p, scale), scale_point_exec(q, scale)),
        PathEl::CurveTo(p, q, r) => PathEl::CurveTo(
            scale_point_exec(p, scale),
            scale_point_exec(q, scale),
            scale_point_exec(r, scale),
        ),
        PathEl::ClosePath => PathEl::ClosePath,
    }
}

/// Extracts the outline of glyph `id`, scaling every coordinate by the
/// fixed-point factor `scale` during emission.  Returns `None` when the
/// font reports no outline for the glyph; callers draw nothing then.
pub fn outline_glyph(font: &Font, id: usize, scale: i64) -> (r: Option<BezPath>)
    ensures
        (match r {
            Option::Some(p) => Option::Some(p@),
            Option::None => Option::<Seq<PathEl>>::None,
        }) == outline_glyph_spec(font@, id as int, scale),
{
    if id >= font.glyphs.len() {
        return None;
    }
    match &font.glyphs[id].outline {
        Option::None => None,
        Option::Some(p) => {
            let mut els: Vec<PathEl> = Vec::new();
            let mut i: usize = 0;
            while i < p.els.len()
                invariant
                    i <= p.els.len(),
                    els@.len() == i,
                    forall|j: int| 0 <= j < i ==> els@[j] == scale_el(p.els@[j], scale),
                decreases p.els.len() - i,
            {
                els.push(scale_el_exec(p.els[i], scale));
                i = i + 1;
            }
            let r = BezPath { els };
            proof {
                assert(font@.glyphs[id as int].outline == Option::Some(p@));
                assert(r@ =~= scale_els(p@, scale));
            }
            Some(r)
        },
    }
}

/// Looks up the glyph's bounding box in font units.
pub fn glyph_bbox(font: &Font, id: usize) -> (r: Option<Vec2>)
    ensures
        r == glyph_bbox_spec(font@, id as int),
{
    if id >= font.glyphs.len() {
        return None;
    }
    font.glyphs[id].bbox
}

} // verus!
