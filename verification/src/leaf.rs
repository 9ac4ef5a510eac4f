//! The leaf renderer: converts one positioned draw primitive (shape, text
//! run, image) into renderer-native draw items.
//!
//! Soft failures degrade per item: a glyph without an outline is skipped,
//! an embedded page that cannot be located draws nothing.

use vstd::prelude::*;
use crate::font::{glyph_bbox, glyph_bbox_spec, outline_glyph, outline_glyph_spec, scale_point};
use crate::geom::{
    affine_compose, rect_path, rect_path_spec, Affine, BezPath, PathEl, RenderState, Vec2,
};
use crate::num::{
    clamp64, clamp_i128, clone_copied, fp_add, fp_add_spec, fp_div, fp_div_spec, fp_mul,
    fp_mul_spec, lemma_i64_product_bound, tdiv, tdiv_i128, ONE,
};
use crate::paint::{resolve_brush, resolve_brush_spec, Brush, BrushV};
use crate::scene::{
    premul_ops, FillStyle, OpV, Scene, StrokeStyle, StrokeStyleV,
};
use crate::tree::{FixedStroke, Geometry, ImageKind, ShapeItem, TextItem};

verus! {

/// A resolved fill: rule, brush and the transform placing the brush.
#[derive(Debug, PartialEq, Eq)]
pub struct Fill {
    pub style: FillStyle,
    pub brush: Brush,
    pub brush_transform: Affine,
}

/// Mathematical content of a [`Fill`].
pub ghost struct FillV {
    pub style: FillStyle,
    pub brush: BrushV,
    pub brush_transform: Affine,
}

impl View for Fill {
    type V = FillV;

    open spec fn view(&self) -> FillV {
        FillV { style: self.style, brush: self.brush@, brush_transform: self.brush_transform }
    }
}

/// A resolved stroke: style, brush and the transform placing the brush.
#[derive(Debug, PartialEq, Eq)]
pub struct StrokeScene {
    pub style: StrokeStyle,
    pub brush: Brush,
    pub brush_transform: Affine,
}

/// Mathematical content of a [`StrokeScene`].
pub ghost struct StrokeSceneV {
    pub style: StrokeStyleV,
    pub brush: BrushV,
    pub brush_transform: Affine,
}

impl View for StrokeScene {
    type V = StrokeSceneV;

    open spec fn view(&self) -> StrokeSceneV {
        StrokeSceneV {
            style: self.style@,
            brush: self.brush@,
            brush_transform: self.brush_transform,
        }
    }
}

/// One renderable shape: a path under a local transform, with optional
/// resolved fill and stroke.
#[derive(Debug, PartialEq, Eq)]
pub struct ShapeScene {
    pub transform: Affine,
    pub path: BezPath,
    pub fill: Option<Fill>,
    pub stroke: Option<StrokeScene>,
}

/// Mathematical content of a [`ShapeScene`].
pub ghost struct ShapeSceneV {
    pub transform: Affine,
    pub path: Seq<PathEl>,
    pub fill: Option<FillV>,
    pub stroke: Option<StrokeSceneV>,
}

impl View for ShapeScene {
    type V = ShapeSceneV;

    open spec fn view(&self) -> ShapeSceneV {
        ShapeSceneV {
            transform: self.transform,
            path: self.path@,
            fill: match self.fill {
                Option::Some(ref f) => Option::Some(f@),
                Option::None => Option::None,
            },
            stroke: match self.stroke {
                Option::Some(ref s) => Option::Some(s@),
                Option::None => Option::None,
            },
        }
    }
}

/// A rendered text run: one resolved shape per visible glyph, in run order.
#[derive(Debug, PartialEq, Eq)]
pub struct TextScene {
    pub glyphs: Vec<ShapeScene>,
}

/// Mathematical content of a [`TextScene`].
pub ghost struct TextSceneV {
    pub glyphs: Seq<ShapeSceneV>,
}

impl View for TextScene {
    type V = TextSceneV;

    open spec fn view(&self) -> TextSceneV {
        TextSceneV { glyphs: self.glyphs@.map_values(|s: ShapeScene| s@) }
    }
}

/// A rendered image: a sub-scene placed under a transform.
#[derive(Debug, PartialEq, Eq)]
pub struct ImageScene {
    pub transform: Affine,
    pub scene: Scene,
}

/// Mathematical content of an [`ImageScene`].
pub ghost struct ImageSceneV {
    pub transform: Affine,
    pub ops: Seq<OpV>,
}

impl View for ImageScene {
    type V = ImageSceneV;

    open spec fn view(&self) -> ImageSceneV {
        ImageSceneV { transform: self.transform, ops: self.scene@ }
    }
}

impl Default for ImageScene {
    /// An empty image draw: identity transform, empty sub-scene.
    fn default() -> (r: ImageScene)
        ensures
            r@ == (ImageSceneV { transform: Affine::identity_spec(), ops: Seq::<OpV>::empty() }),
    {
        ImageScene { transform: Affine::identity(), scene: Scene::new() }
    }
}

/// One draw item owned by a group.
#[derive(Debug, PartialEq, Eq)]
pub enum SceneKind {
    Shape(ShapeScene),
    Text(TextScene),
    Image(ImageScene),
}

/// Mathematical content of a [`SceneKind`].
pub ghost enum SceneKindV {
    Shape(ShapeSceneV),
    Text(TextSceneV),
    Image(ImageSceneV),
}

impl View for SceneKind {
    type V = SceneKindV;

    open spec fn view(&self) -> SceneKindV {
        match *self {
            SceneKind::Shape(ref s) => SceneKindV::Shape(s@),
            SceneKind::Text(ref t) => SceneKindV::Text(t@),
            SceneKind::Image(ref i) => SceneKindV::Image(i@),
        }
    }
}

/// The operations a shape contributes: its fill, then its stroke.
pub open spec fn shape_ops(s: ShapeSceneV) -> Seq<OpV> {
    let fill = match s.fill {
        Option::Some(f) => seq![
            OpV::Fill {
                transform: s.transform,
                style: f.style,
                brush: f.brush,
                brush_transform: f.brush_transform,
                path: s.path,
            },
        ],
        Option::None => Seq::<OpV>::empty(),
    };
    let stroke = match s.stroke {
        Option::Some(st) => seq![
            OpV::Stroke {
                transform: s.transform,
                style: st.style,
                brush: st.brush,
                brush_transform: st.brush_transform,
                path: s.path,
            },
        ],
        Option::None => Seq::<OpV>::empty(),
    };
    fill + stroke
}

/// The operations of the first `i` shapes of `ss`, concatenated in order.
pub open spec fn shapes_ops_to(ss: Seq<ShapeSceneV>, i: int) -> Seq<OpV>
    decreases i,
{
    if i <= 0 {
        Seq::<OpV>::empty()
    } else {
        shapes_ops_to(ss, i - 1) + shape_ops(ss[i - 1])
    }
}

/// The operations a text run contributes: its glyphs' shapes in run order.
pub open spec fn text_ops(t: TextSceneV) -> Seq<OpV> {
    shapes_ops_to(t.glyphs, t.glyphs.len() as int)
}

/// The operations an image contributes: its sub-scene nested under its
/// transform.
pub open spec fn image_ops(v: ImageSceneV) -> Seq<OpV> {
    premul_ops(v.ops, Option::Some(v.transform))
}

/// The operations one draw item contributes.
pub open spec fn kind_ops(k: SceneKindV) -> Seq<OpV> {
    match k {
        SceneKindV::Shape(s) => shape_ops(s),
        SceneKindV::Text(t) => text_ops(t),
        SceneKindV::Image(v) => image_ops(v),
    }
}

impl ShapeScene {
    /// Emits the shape's fill and stroke into `scene`.
    pub fn render(&self, scene: &mut Scene)
        ensures
            final(scene)@ == old(scene)@ + shape_ops(self@),
    {
        match &self.fill {
            Option::Some(f) => {
                scene.fill(
                    self.transform,
                    f.style,
                    f.brush.clone(),
                    f.brush_transform,
                    self.path.clone(),
                );
            },
            Option::None => {},
        }
        match &self.stroke {
            Option::Some(st) => {
                scene.stroke(
                    self.transform,
                    st.style.clone(),
                    st.brush.clone(),
                    st.brush_transform,
                    self.path.clone(),
                );
            },
            Option::None => {},
        }
        proof {
            assert(scene@ =~= old(scene)@ + shape_ops(self@));
        }
    }
}

impl TextScene {
    /// Emits every glyph's shape into `scene`, in run order.
    pub fn render(&self, scene: &mut Scene)
        ensures
            final(scene)@ == old(scene)@ + text_ops(self@),
    {
        let mut i: usize = 0;
        while i < self.glyphs.len()
            invariant
                i <= self.glyphs.len(),
                scene@ == old(scene)@ + shapes_ops_to(self@.glyphs, i as int),
            decreases self.glyphs.len() - i,
        {
            self.glyphs[i].render(scene);
            proof {
                assert(self@.glyphs[i as int] == self.glyphs@[i as int]@);
                assert(scene@ =~= old(scene)@ + shapes_ops_to(self@.glyphs, i + 1 as int));
            }
            i = i + 1;
        }
    }
}

impl ImageScene {
    /// Appends the image's sub-scene into `scene` under its transform.
    pub fn render(&self, scene: &mut Scene)
        ensures
            final(scene)@ == old(scene)@ + image_ops(self@),
    {
        scene.append(&self.scene, Some(&self.transform));
    }
}

impl SceneKind {
    /// Emits this draw item into `scene`.
    pub fn render(&self, scene: &mut Scene)
        ensures
            final(scene)@ == old(scene)@ + kind_ops(self@),
    {
        match self {
            SceneKind::Shape(s) => s.render(scene),
            SceneKind::Text(t) => t.render(scene),
            SceneKind::Image(v) => v.render(scene),
        }
    }
}

/// The larger of two points, componentwise.
pub open spec fn point_max(a: Vec2, b: Vec2) -> Vec2 {
    Vec2 {
        x: if a.x >= b.x {
            a.x
        } else {
            b.x
        },
        y: if a.y >= b.y {
            a.y
        } else {
            b.y
        },
    }
}

/// `acc` extended by the control points of `el`.
pub open spec fn el_max(acc: Vec2, el: PathEl) -> Vec2 {
    match el {
        PathEl::MoveTo(p) => point_max(acc, p),
        PathEl::LineTo(p) => point_max(acc, p),
        PathEl::QuadTo(p, q) => point_max(point_max(acc, p), q),
        PathEl::CurveTo(p, q, r) => point_max(point_max(point_max(acc, p), q), r),
        PathEl::ClosePath => acc,
    }
}

/// The extent of a path from the origin: the componentwise maximum of its
/// control points and the origin, folded from index `i` with accumulator
/// `acc`.
pub open spec fn els_extent(els: Seq<PathEl>, i: int, acc: Vec2) -> Vec2
    decreases els.len() - i,
{
    if i < 0 || i >= els.len() {
        acc
    } else {
        els_extent(els, i + 1, el_max(acc, els[i]))
    }
}

/// The bounding extent of a geometry from the origin, used to size
/// shape-relative paints.
pub open spec fn geometry_extent_spec(g: Geometry) -> Vec2 {
    match g {
        Geometry::Line(p) => point_max(Vec2 { x: 0, y: 0 }, p),
        Geometry::Rect(s) => s,
        Geometry::Path(p) => els_extent(p@, 0, Vec2 { x: 0, y: 0 }),
    }
}

/// The outline of a geometry as a path.
pub open spec fn geometry_path_spec(g: Geometry) -> Seq<PathEl> {
    match g {
        Geometry::Line(p) => seq![PathEl::MoveTo(Vec2 { x: 0, y: 0 }), PathEl::LineTo(p)],
        Geometry::Rect(s) => rect_path_spec(s),
        Geometry::Path(p) => p@,
    }
}

fn point_max_exec(a: Vec2, b: Vec2) -> (r: Vec2)
    ensures
        r == point_max(a, b),
{
    Vec2 {
        x: if a.x >= b.x {
            a.x
        } else {
            b.x
        },
        y: if a.y >= b.y {
            a.y
        } else {
            b.y
        },
    }
}

fn el_max_exec(acc: Vec2, el: &PathEl) -> (r: Vec2)
    ensures
        r == el_max(acc, *el),
{
    match el {
        PathEl::MoveTo(p) => point_max_exec(acc, *p),
        PathEl::LineTo(p) => point_max_exec(acc, *p),
        PathEl::QuadTo(p, q) => point_max_exec(point_max_exec(acc, *p), *q),
        PathEl::CurveTo(p, q, r) => point_max_exec(
            point_max_exec(point_max_exec(acc, *p), *q),
            *r,
        ),
        PathEl::ClosePath => acc,
    }
}

/// Computes the bounding extent of a geometry (see
/// [`geometry_extent_spec`]).
pub fn geometry_extent(g: &Geometry) -> (r: Vec2)
    ensures
        r == geometry_extent_spec(*g),
{
    match g {
        Geometry::Line(p) => point_max_exec(Vec2 { x: 0, y: 0 }, *p),
        Geometry::Rect(s) => *s,
        Geometry::Path(p) => {
            let mut acc = Vec2 { x: 0, y: 0 };
            let mut i: usize = 0;
            while i < p.els.len()
                invariant
                    i <= p.els.len(),
                    els_extent(p@, 0, Vec2 { x: 0, y: 0 }) == els_extent(p@, i as int, acc),
                decreases p.els.len() - i,
            {
                acc = el_max_exec(acc, &p.els[i]);
                i = i + 1;
            }
            acc
        },
    }
}

/// Converts a geometry into its outline path (see [`geometry_path_spec`]).
pub fn convert_geometry(g: &Geometry) -> (r: BezPath)
    ensures
        r@ == geometry_path_spec(*g),
{
    match g {
        Geometry::Line(p) => {
            let mut els: Vec<PathEl> = Vec::new();
            els.push(PathEl::MoveTo(Vec2 { x: 0, y: 0 }));
            els.push(PathEl::LineTo(*p));
            let r = BezPath { els };
            proof {
                assert(r@ =~= geometry_path_spec(*g));
            }
            r
        },
        Geometry::Rect(s) => rect_path(*s),
        Geometry::Path(p) => p.clone(),
    }
}

/// The renderer-native stroke parameters of a stroke specification, copied
/// verbatim; an absent dash pattern becomes an empty one.
pub open spec fn convert_stroke_spec(s: FixedStroke) -> StrokeStyleV {
    StrokeStyleV {
        width: s.thickness,
        join: s.join,
        miter_limit: s.miter_limit,
        start_cap: s.cap,
        end_cap: s.cap,
        dash_pattern: match s.dash {
            Option::Some(d) => d.array@,
            Option::None => Seq::<i64>::empty(),
        },
        dash_offset: match s.dash {
            Option::Some(d) => d.phase,
            Option::None => 0,
        },
    }
}

/// Converts a stroke specification (see [`convert_stroke_spec`]).
pub fn convert_fixed_stroke(s: &FixedStroke) -> (r: StrokeStyle)
    ensures
        r@ == convert_stroke_spec(*s),
{
    let r = StrokeStyle {
        width: s.thickness,
        join: s.join,
        miter_limit: s.miter_limit,
        start_cap: s.cap,
        end_cap: s.cap,
        dash_pattern: match &s.dash {
            Option::Some(d) => clone_copied(&d.array),
            Option::None => Vec::new(),
        },
        dash_offset: match &s.dash {
            Option::Some(d) => d.phase,
            Option::None => 0,
        },
    };
    proof {
        assert(r@.dash_pattern =~= convert_stroke_spec(*s).dash_pattern);
    }
    r
}

/// Mathematical content of the shape scene produced by [`render_shape`]:
/// the geometry's path under the item's local transform, with fill and
/// stroke paints resolved against the shape's extent and the ambient state.
pub open spec fn render_shape_spec(
    shape: ShapeItem,
    state: RenderState,
    local_transform: Affine,
) -> ShapeSceneV {
    let bbox = geometry_extent_spec(shape.geometry);
    ShapeSceneV {
        transform: local_transform,
        path: geometry_path_spec(shape.geometry),
        fill: match shape.fill {
            Option::Some(paint) => {
                let (brush, bt) = resolve_brush_spec(paint, bbox, state, false);
                Option::Some(FillV { style: shape.fill_rule, brush, brush_transform: bt })
            },
            Option::None => Option::None,
        },
        stroke: match shape.stroke {
            Option::Some(st) => {
                let (brush, bt) = resolve_brush_spec(st.paint, bbox, state, false);
                Option::Some(
                    StrokeSceneV { style: convert_stroke_spec(st), brush, brush_transform: bt },
                )
            },
            Option::None => Option::None,
        },
    }
}

/// Converts one shape item into a renderable shape (see
/// [`render_shape_spec`]).
pub fn render_shape(shape: &ShapeItem, state: RenderState, local_transform: Affine) -> (r:
    ShapeScene)
    ensures
        r@ == render_shape_spec(*shape, state, local_transform),
{
    let bbox = geometry_extent(&shape.geometry);
    ShapeScene {
        transform: local_transform,
        path: convert_geometry(&shape.geometry),
        fill: match &shape.fill {
            Option::Some(paint) => {
                let (brush, bt) = resolve_brush(paint, bbox, &state, false);
                Option::Some(Fill { style: shape.fill_rule, brush, brush_transform: bt })
            },
            Option::None => Option::None,
        },
        stroke: match &shape.stroke {
            Option::Some(st) => {
                let (brush, bt) = resolve_brush(&st.paint, bbox, &state, false);
                Option::Some(
                    StrokeScene { style: convert_fixed_stroke(st), brush, brush_transform: bt },
                )
            },
            Option::None => Option::None,
        },
    }
}

/// The fixed-point scale from font units to canvas units for a text item.
pub open spec fn text_scale_spec(text: TextItem) -> i64 {
    clamp64(tdiv(text.size as int, text.font.units_per_em as int)) as i64
}

/// Mathematical content of the glyph shape produced by
/// [`render_outline_glyph`]: `None` when the font reports no bounding box
/// or no outline for the glyph; otherwise the scaled outline with fill and
/// stroke resolved against the glyph's scaled bounding box.
pub open spec fn render_glyph_spec(
    text: TextItem,
    state: RenderState,
    id: int,
    scale: i64,
    local_transform: Affine,
) -> Option<ShapeSceneV> {
    match glyph_bbox_spec(text.font@, id) {
        Option::None => Option::<ShapeSceneV>::None,
        Option::Some(bb) => {
            let brush_size = scale_point(bb, scale);
            match outline_glyph_spec(text.font@, id, scale) {
                Option::None => Option::<ShapeSceneV>::None,
                Option::Some(els) => {
                    let (fb, fbt) = resolve_brush_spec(text.fill, brush_size, state, true);
                    Option::Some(
                        ShapeSceneV {
                            transform: local_transform,
                            path: els,
                            fill: Option::Some(
                                FillV { style: FillStyle::NonZero, brush: fb, brush_transform: fbt },
                            ),
                            stroke: match text.stroke {
                                Option::Some(st) => {
                                    let (sb, sbt) = resolve_brush_spec(
                                        st.paint,
                                        brush_size,
                                        state,
                                        true,
                                    );
                                    Option::Some(
                                        StrokeSceneV {
                                            style: convert_stroke_spec(st),
                                            brush: sb,
                                            brush_transform: sbt,
                                        },
                                    )
                                },
                                Option::None => Option::None,
                            },
                        },
                    )
                },
            }
        },
    }
}

/// Renders one glyph (see [`render_glyph_spec`]); a glyph the font cannot
/// outline yields `None` and is skipped by the caller.
pub fn render_outline_glyph(
    text: &TextItem,
    state: RenderState,
    id: usize,
    scale: i64,
    local_transform: Affine,
) -> (r: Option<ShapeScene>)
    ensures
        (match r {
            Option::Some(s) => Option::Some(s@),
            Option::None => Option::<ShapeSceneV>::None,
        }) == render_glyph_spec(*text, state, id as int, scale, local_transform),
{
    let bb = match glyph_bbox(&text.font, id) {
        Option::Some(bb) => bb,
        Option::None => {
            return None;
        },
    };
    proof {
        lemma_i64_product_bound(bb.x as int, scale as int);
        lemma_i64_product_bound(bb.y as int, scale as int);
    }
    let brush_size = Vec2 {
        x: clamp_i128((bb.x as i128) * (scale as i128)),
        y: clamp_i128((bb.y as i128) * (scale as i128)),
    };
    let path = match outline_glyph(&text.font, id, scale) {
        Option::Some(p) => p,
        Option::None => {
            return None;
        },
    };
    let (fb, fbt) = resolve_brush(&text.fill, brush_size, &state, true);
    Some(
        ShapeScene {
            transform: local_transform,
            path,
            fill: Some(Fill { style: FillStyle::NonZero, brush: fb, brush_transform: fbt }),
            stroke: match &text.stroke {
                Option::Some(st) => {
                    let (sb, sbt) = resolve_brush(&st.paint, brush_size, &state, true);
                    Option::Some(
                        StrokeScene { style: convert_fixed_stroke(st), brush: sb, brush_transform: sbt },
                    )
                },
                Option::None => Option::None,
            },
        },
    )
}

/// The glyph shapes and running advance after the first `i` glyphs of a
/// text run.  Each glyph is placed at the accumulated horizontal advance
/// (plus its own offset) and flipped vertically, since font outline space
/// is Y-up while canvas space is Y-down; glyphs without an outline are
/// skipped.
pub open spec fn text_run_state(
    text: TextItem,
    state: RenderState,
    local_transform: Affine,
    i: int,
) -> (Seq<ShapeSceneV>, i64)
    decreases i,
{
    if i <= 0 {
        (Seq::<ShapeSceneV>::empty(), 0i64)
    } else {
        let (acc, x) = text_run_state(text, state, local_transform, i - 1);
        let g = text.glyphs@[i - 1];
        let offset = fp_add_spec(x as int, fp_mul_spec(g.x_offset as int, text.size as int));
        let ot = affine_compose(
            Affine::translate_spec(Vec2 { x: offset as i64, y: 0 }),
            Affine::scale_spec(ONE, (-ONE) as i64),
        );
        let st = RenderState {
            transform: affine_compose(state.transform, ot),
            size: state.size,
        };
        let lt = affine_compose(local_transform, ot);
        let scale = text_scale_spec(text);
        let acc2 = match render_glyph_spec(text, st, g.id as int, scale, lt) {
            Option::Some(sv) => acc.push(sv),
            Option::None => acc,
        };
        let x2 = fp_add_spec(x as int, fp_mul_spec(g.x_advance as int, text.size as int)) as i64;
        (acc2, x2)
    }
}

/// Mathematical content of the text scene produced by [`render_text`].
pub open spec fn render_text_spec(
    text: TextItem,
    state: RenderState,
    local_transform: Affine,
) -> TextSceneV {
    TextSceneV { glyphs: text_run_state(text, state, local_transform, text.glyphs@.len() as int).0 }
}

/// Renders a text run: for each glyph in run order, accumulates the
/// horizontal advance, applies the per-glyph offset and vertical flip, and
/// renders its outline (see [`text_run_state`]).
pub fn render_text(text: &TextItem, state: RenderState, local_transform: Affine) -> (r: TextScene)
    ensures
        r@ == render_text_spec(*text, state, local_transform),
{
    let mut glyphs: Vec<ShapeScene> = Vec::new();
    let mut x: i64 = 0;
    let scale = {
        proof {
            lemma_i64_product_bound(text.size as int, 1);
        }
        clamp_i128(tdiv_i128(text.size as i128, text.font.units_per_em as i128))
    };
    let mut i: usize = 0;
    while i < text.glyphs.len()
        invariant
            i <= text.glyphs.len(),
            scale == text_scale_spec(*text),
            (glyphs@.map_values(|s: ShapeScene| s@), x) == text_run_state(
                *text,
                state,
                local_transform,
                i as int,
            ),
        decreases text.glyphs.len() - i,
    {
        let g = text.glyphs[i];
        let offset = fp_add(x, fp_mul(g.x_offset, text.size));
        let ot = Affine::translate(Vec2 { x: offset, y: 0 }).pre_concat(
            &Affine::scale(ONE, -ONE),
        );
        let st = state.pre_concat(&ot);
        let lt = local_transform.pre_concat(&ot);
        let shape = render_outline_glyph(text, st, g.id, scale, lt);
        match shape {
            Option::Some(s) => {
                glyphs.push(s);
            },
            Option::None => {},
        }
        x = fp_add(x, fp_mul(g.x_advance, text.size));
        proof {
            assert(glyphs@.map_values(|s: ShapeScene| s@) =~= text_run_state(
                *text,
                state,
                local_transform,
                i + 1 as int,
            ).0);
        }
        i = i + 1;
    }
    let r = TextScene { glyphs };
    proof {
        assert(r@.glyphs =~= render_text_spec(*text, state, local_transform).glyphs);
    }
    r
}

/// Mathematical content of the image scene produced by [`render_image`]:
/// the source's sub-scene (one image draw, or the nested vector scene),
/// placed under the local transform scaled from the source's intrinsic size
/// to the requested size.  An embedded page that cannot be located yields
/// an empty draw.
pub open spec fn render_image_spec(
    image: ImageKind,
    size: Vec2,
    local_transform: Affine,
) -> ImageSceneV {
    match image {
        ImageKind::Raster(img) => ImageSceneV {
            transform: affine_compose(
                local_transform,
                Affine::scale_spec(
                    tdiv(size.x as int, img.width as int) as i64,
                    tdiv(size.y as int, img.height as int) as i64,
                ),
            ),
            ops: seq![
                OpV::DrawImage {
                    transform: Affine::identity_spec(),
                    width: img.width,
                    height: img.height,
                    data: img.data@,
                },
            ],
        },
        ImageKind::Svg(svg) => ImageSceneV {
            transform: affine_compose(
                local_transform,
                Affine::scale_spec(
                    fp_div_spec(size.x as int, svg.width as int) as i64,
                    fp_div_spec(size.y as int, svg.height as int) as i64,
                ),
            ),
            ops: svg.scene@,
        },
        ImageKind::Pdf(pdf) => {
            if pdf.page_index < pdf.pages@.len() {
                let page = pdf.pages@[pdf.page_index as int];
                ImageSceneV {
                    transform: affine_compose(
                        local_transform,
                        Affine::scale_spec(
                            fp_div_spec(size.x as int, page.render_width as int) as i64,
                            fp_div_spec(size.y as int, page.render_height as int) as i64,
                        ),
                    ),
                    ops: seq![
                        OpV::DrawImage {
                            transform: Affine::identity_spec(),
                            width: page.width,
                            height: page.height,
                            data: page.data@,
                        },
                    ],
                }
            } else {
                ImageSceneV { transform: Affine::identity_spec(), ops: Seq::<OpV>::empty() }
            }
        },
    }
}

/// Renders one image item (see [`render_image_spec`]).  The requested size
/// is assumed non-zero on both axes; the flattener skips zero-size image
/// requests entirely.
pub fn render_image(image: &ImageKind, size: Vec2, local_transform: Affine) -> (r: ImageScene)
    ensures
        r@ == render_image_spec(*image, size, local_transform),
{
    match image {
        ImageKind::Raster(img) => {
            let mut scene = Scene::new();
            scene.draw_image(Affine::identity(), img.width, img.height, clone_copied(&img.data));
            let sx = {
                proof {
                    lemma_i64_product_bound(size.x as int, 1);
                    lemma_i64_product_bound(size.y as int, 1);
                }
                clamp_i128(tdiv_i128(size.x as i128, img.width as i128))
            };
            let sy = clamp_i128(tdiv_i128(size.y as i128, img.height as i128));
            proof {
                crate::num::lemma_tdiv_abs_bound(size.x as int, img.width as int);
                crate::num::lemma_tdiv_abs_bound(size.y as int, img.height as int);
                assert(clamp64(tdiv(size.x as int, img.width as int)) == tdiv(
                    size.x as int,
                    img.width as int,
                ));
                assert(clamp64(tdiv(size.y as int, img.height as int)) == tdiv(
                    size.y as int,
                    img.height as int,
                ));
            }
            let r = ImageScene {
                transform: local_transform.pre_concat(&Affine::scale(sx, sy)),
                scene,
            };
            proof {
                assert(r@.ops =~= render_image_spec(*image, size, local_transform).ops);
            }
            r
        },
        ImageKind::Svg(svg) => {
            let r = ImageScene {
                transform: local_transform.pre_concat(
                    &Affine::scale(fp_div(size.x, svg.width), fp_div(size.y, svg.height)),
                ),
                scene: svg.scene.clone(),
            };
            r
        },
        ImageKind::Pdf(pdf) => {
            if pdf.page_index < pdf.pages.len() {
                let page = &pdf.pages[pdf.page_index];
                let mut scene = Scene::new();
                scene.draw_image(
                    Affine::identity(),
                    page.width,
                    page.height,
                    clone_copied(&page.data),
                );
                let r = ImageScene {
                    transform: local_transform.pre_concat(
                        &Affine::scale(
                            fp_div(size.x, page.render_width),
                            fp_div(size.y, page.render_height),
                        ),
                    ),
                    scene,
                };
                proof {
                    assert(r@.ops =~= render_image_spec(*image, size, local_transform).ops);
                }
                r
            } else {
                ImageScene::default()
            }
        },
    }
}

} // verus!
