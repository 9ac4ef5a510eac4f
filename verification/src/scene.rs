//! The flat backend scene: a command list of draw and layer operations.
//!
//! A [`Scene`] is the output of a render pass.  Appending one scene into
//! another pre-multiplies the transform of every appended operation, which
//! models nesting a sub-scene under an accumulated world transform.

use vstd::prelude::*;
use crate::geom::{affine_compose, Affine, BezPath, PathEl};
use crate::num::clone_copied;
use crate::paint::{BlendMode, Brush, BrushV, Color};

verus! {

/// Line join style of a stroke.
#[derive(Clone, Copy, Debug, PartialEq, Eq, Structural)]
pub enum Join {
    Bevel,
    Miter,
    Round,
}

/// Line cap style of a stroke.
#[derive(Clone, Copy, Debug, PartialEq, Eq, Structural)]
pub enum Cap {
    Butt,
    Square,
    Round,
}

/// Fill rule of a filled path.
#[derive(Clone, Copy, Debug, PartialEq, Eq, Structural)]
pub enum FillStyle {
    NonZero,
    EvenOdd,
}

/// Renderer-native stroke parameters, copied verbatim from the source
/// stroke specification.
#[derive(Debug, PartialEq, Eq)]
pub struct StrokeStyle {
    pub width: i64,
    pub join: Join,
    pub miter_limit: i64,
    pub start_cap: Cap,
    pub end_cap: Cap,
    pub dash_pattern: Vec<i64>,
    pub dash_offset: i64,
}

/// Mathematical content of a [`StrokeStyle`].
pub ghost struct StrokeStyleV {
    pub width: i64,
    pub join: Join,
    pub miter_limit: i64,
    pub start_cap: Cap,
    pub end_cap: Cap,
    pub dash_pattern: Seq<i64>,
    pub dash_offset: i64,
}

impl View for StrokeStyle {
    type V = StrokeStyleV;

    open spec fn view(&self) -> StrokeStyleV {
        StrokeStyleV {
            width: self.width,
            join: self.join,
            miter_limit: self.miter_limit,
            start_cap: self.start_cap,
            end_cap: self.end_cap,
            dash_pattern: self.dash_pattern@,
            dash_offset: self.dash_offset,
        }
    }
}

impl Clone for StrokeStyle {
    /// Clones the stroke parameters, preserving their content.
    fn clone(&self) -> (r: StrokeStyle)
        ensures
            r@ == self@,
    {
        StrokeStyle {
            width: self.width,
            join: self.join,
            miter_limit: self.miter_limit,
            start_cap: self.start_cap,
            end_cap: self.end_cap,
            dash_pattern: clone_copied(&self.dash_pattern),
            dash_offset: self.dash_offset,
        }
    }
}

/// A compositing directive applied around a group's draws: blend mode,
/// opacity (fixed point, `ONE` is opaque) and an optional explicit clip
/// path.  A layer without an explicit path clips to the group's bounding
/// rectangle.
#[derive(Debug, PartialEq, Eq)]
pub struct Layer {
    pub blend_mode: BlendMode,
    pub alpha: i64,
    pub clip_path: Option<BezPath>,
}

/// Mathematical content of a [`Layer`].
pub ghost struct LayerV {
    pub blend_mode: BlendMode,
    pub alpha: i64,
    pub clip_path: Option<Seq<PathEl>>,
}

impl View for Layer {
    type V = LayerV;

    open spec fn view(&self) -> LayerV {
        LayerV {
            blend_mode: self.blend_mode,
            alpha: self.alpha,
            clip_path: match self.clip_path {
                Option::Some(ref p) => Option::Some(p@),
                Option::None => Option::None,
            },
        }
    }
}

impl Clone for Layer {
    /// Clones the layer, preserving its content.
    fn clone(&self) -> (r: Layer)
        ensures
            r@ == self@,
    {
        Layer {
            blend_mode: self.blend_mode,
            alpha: self.alpha,
            clip_path: match &self.clip_path {
                Option::Some(p) => Option::Some(p.clone()),
                Option::None => Option::None,
            },
        }
    }
}

impl Default for Layer {
    /// The default layer: normal blending, fully opaque, no explicit clip.
    fn default() -> (r: Layer)
        ensures
            r@ == (LayerV {
                blend_mode: BlendMode::normal_spec(),
                alpha: crate::num::ONE,
                clip_path: Option::None,
            }),
    {
        Layer {
            blend_mode: BlendMode::normal(),
            alpha: crate::num::ONE,
            clip_path: Option::None,
        }
    }
}

/// One operation of a backend scene.
#[derive(Debug, PartialEq, Eq)]
pub enum SceneOp {
    /// Opens a compositing layer clipped by `clip` under `transform`.
    PushLayer { blend: BlendMode, alpha: i64, transform: Affine, clip: BezPath },
    /// Closes the most recently opened layer.
    PopLayer,
    /// Fills a path.
    Fill { transform: Affine, style: FillStyle, brush: Brush, brush_transform: Affine, path: BezPath },
    /// Strokes a path.
    Stroke {
        transform: Affine,
        style: StrokeStyle,
        brush: Brush,
        brush_transform: Affine,
        path: BezPath,
    },
    /// Draws an RGBA8 image with the given pixel dimensions.
    DrawImage { transform: Affine, width: u32, height: u32, data: Vec<u8> },
}

/// Mathematical content of a [`SceneOp`].
pub ghost enum OpV {
    PushLayer { blend: BlendMode, alpha: i64, transform: Affine, clip: Seq<PathEl> },
    PopLayer,
    Fill {
        transform: Affine,
        style: FillStyle,
        brush: BrushV,
        brush_transform: Affine,
        path: Seq<PathEl>,
    },
    Stroke {
        transform: Affine,
        style: StrokeStyleV,
        brush: BrushV,
        brush_transform: Affine,
        path: Seq<PathEl>,
    },
    DrawImage { transform: Affine, width: u32, height: u32, data: Seq<u8> },
}

impl View for SceneOp {
    type V = OpV;

    open spec fn view(&self) -> OpV {
        match *self {
            SceneOp::PushLayer { blend, alpha, transform, ref clip } => OpV::PushLayer {
                blend,
                alpha,
                transform,
                clip: clip@,
            },
            SceneOp::PopLayer => OpV::PopLayer,
            SceneOp::Fill { transform, style, ref brush, brush_transform, ref path } => OpV::Fill {
                transform,
                style,
                brush: brush@,
                brush_transform,
                path: path@,
            },
            SceneOp::Stroke { transform, ref style, ref brush, brush_transform, ref path } => OpV::Stroke {
                transform,
                style: style@,
                brush: brush@,
                brush_transform,
                path: path@,
            },
            SceneOp::DrawImage { transform, width, height, ref data } => OpV::DrawImage {
                transform,
                width,
                height,
                data: data@,
            },
        }
    }
}

impl Clone for SceneOp {
    /// Clones the operation, preserving its content.
    fn clone(&self) -> (r: SceneOp)
        ensures
            r@ == self@,
    {
        match self {
            SceneOp::PushLayer { blend, alpha, transform, clip } => SceneOp::PushLayer {
                blend: *blend,
                alpha: *alpha,
                transform: *transform,
                clip: clip.clone(),
            },
            SceneOp::PopLayer => SceneOp::PopLayer,
            SceneOp::Fill { transform, style, brush, brush_transform, path } => SceneOp::Fill {
                transform: *transform,
                style: *style,
                brush: brush.clone(),
                brush_transform: *brush_transform,
                path: path.clone(),
            },
            SceneOp::Stroke { transform, style, brush, brush_transform, path } => SceneOp::Stroke {
                transform: *transform,
                style: style.clone(),
                brush: brush.clone(),
                brush_transform: *brush_transform,
                path: path.clone(),
            },
            SceneOp::DrawImage { transform, width, height, data } => SceneOp::DrawImage {
                transform: *transform,
                width: *width,
                height: *height,
                data: clone_copied(data),
            },
        }
    }
}

/// The transform stored in an operation.
pub open spec fn op_transform(op: OpV) -> Affine {
    match op {
        OpV::PushLayer { transform, .. } => transform,
        OpV::PopLayer => Affine::identity_spec(),
        OpV::Fill { transform, .. } => transform,
        OpV::Stroke { transform, .. } => transform,
        OpV::DrawImage { transform, .. } => transform,
    }
}

/// `op` with its transform replaced by `t`.
pub open spec fn op_with_transform(op: OpV, t: Affine) -> OpV {
    match op {
        OpV::PushLayer { blend, alpha, transform, clip } => OpV::PushLayer {
            blend,
            alpha,
            transform: t,
            clip,
        },
        OpV::PopLayer => OpV::PopLayer,
        OpV::Fill { transform, style, brush, brush_transform, path } => OpV::Fill {
            transform: t,
            style,
            brush,
            brush_transform,
            path,
        },
        OpV::Stroke { transform, style, brush, brush_transform, path } => OpV::Stroke {
            transform: t,
            style,
            brush,
            brush_transform,
            path,
        },
        OpV::DrawImage { transform, width, height, data } => OpV::DrawImage {
            transform: t,
            width,
            height,
            data,
        },
    }
}

/// `op` nested under `t`: its transform is pre-multiplied by `t` (a pop
/// carries no transform and is unchanged).
pub open spec fn premul_op(t: Option<Affine>, op: OpV) -> OpV {
    match t {
        Option::None => op,
        Option::Some(t) => match op {
            OpV::PopLayer => OpV::PopLayer,
            _ => op_with_transform(op, affine_compose(t, op_transform(op))),
        },
    }
}

/// A sequence of operations nested under `t`.
pub open spec fn premul_ops(ops: Seq<OpV>, t: Option<Affine>) -> Seq<OpV> {
    ops.map_values(|op: OpV| premul_op(t, op))
}

/// A flat backend scene: the list of its operations, in order.
#[derive(Debug, PartialEq, Eq)]
pub struct Scene {
    pub ops: Vec<SceneOp>,
}

impl View for Scene {
    type V = Seq<OpV>;

    open spec fn view(&self) -> Seq<OpV> {
        self.ops@.map_values(|op: SceneOp| op@)
    }
}

impl Clone for Scene {
    /// Clones the scene, preserving its operations.
    fn clone(&self) -> (r: Scene)
        ensures
            r@ == self@,
    {
        let mut ops: Vec<SceneOp> = Vec::new();
        let mut i: usize = 0;
        while i < self.ops.len()
            invariant
                i <= self.ops.len(),
                ops@.len() == i,
                forall|j: int| 0 <= j < i ==> ops@[j]@ == self.ops@[j]@,
            decreases self.ops.len() - i,
        {
            ops.push(self.ops[i].clone());
            i = i + 1;
        }
        let r = Scene { ops };
        proof {
            assert(r@ =~= self@);
        }
        r
    }
}

impl Default for Scene {
    /// The empty scene.
    fn default() -> (r: Scene)
        ensures
            r@ == Seq::<OpV>::empty(),
    {
        let r = Scene { ops: Vec::new() };
        proof {
            assert(r@ =~= Seq::<OpV>::empty());
        }
        r
    }
}

impl Scene {
    /// The empty scene.
    pub fn new() -> (r: Scene)
        ensures
            r@ == Seq::<OpV>::empty(),
    {
        let r = Scene { ops: Vec::new() };
        proof {
            assert(r@ =~= Seq::<OpV>::empty());
        }
        r
    }

    /// Opens a compositing layer.
    pub fn push_layer(&mut self, blend: BlendMode, alpha: i64, transform: Affine, clip: BezPath)
        ensures
            final(self)@ == old(self)@.push(
                OpV::PushLayer { blend, alpha, transform, clip: clip@ },
            ),
    {
        let ghost c = clip@;
        self.ops.push(SceneOp::PushLayer { blend, alpha, transform, clip });
        proof {
            assert(self@ =~= old(self)@.push(OpV::PushLayer { blend, alpha, transform, clip: c }));
        }
    }

    /// Closes the most recently opened layer.
    pub fn pop_layer(&mut self)
        ensures
            final(self)@ == old(self)@.push(OpV::PopLayer),
    {
        self.ops.push(SceneOp::PopLayer);
        proof {
            assert(self@ =~= old(self)@.push(OpV::PopLayer));
        }
    }

    /// Fills a path.
    pub fn fill(
        &mut self,
        transform: Affine,
        style: FillStyle,
        brush: Brush,
        brush_transform: Affine,
        path: BezPath,
    )
        ensures
            final(self)@ == old(self)@.push(
                OpV::Fill {
                    transform,
                    style,
                    brush: brush@,
                    brush_transform,
                    path: path@,
                },
            ),
    {
        let ghost b = brush@;
        let ghost p = path@;
        self.ops.push(SceneOp::Fill { transform, style, brush, brush_transform, path });
        proof {
            assert(self@ =~= old(self)@.push(
                OpV::Fill { transform, style, brush: b, brush_transform, path: p },
            ));
        }
    }

    /// Strokes a path.
    pub fn stroke(
        &mut self,
        transform: Affine,
        style: StrokeStyle,
        brush: Brush,
        brush_transform: Affine,
        path: BezPath,
    )
        ensures
            final(self)@ == old(self)@.push(
                OpV::Stroke {
                    transform,
                    style: style@,
                    brush: brush@,
                    brush_transform,
                    path: path@,
                },
            ),
    {
        let ghost s = style@;
        let ghost b = brush@;
        let ghost p = path@;
        self.ops.push(SceneOp::Stroke { transform, style, brush, brush_transform, path });
        proof {
            assert(self@ =~= old(self)@.push(
                OpV::Stroke { transform, style: s, brush: b, brush_transform, path: p },
            ));
        }
    }

    /// Draws an RGBA8 image.
    pub fn draw_image(&mut self, transform: Affine, width: u32, height: u32, data: Vec<u8>)
        ensures
            final(self)@ == old(self)@.push(
                OpV::DrawImage { transform, width, height, data: data@ },
            ),
    {
        let ghost d = data@;
        self.ops.push(SceneOp::DrawImage { transform, width, height, data });
        proof {
            assert(self@ =~= old(self)@.push(OpV::DrawImage { transform, width, height, data: d }));
        }
    }

    /// Appends every operation of `other`, nested under `transform`.
    pub fn append(&mut self, other: &Scene, transform: Option<&Affine>)
        ensures
            final(self)@ == old(self)@ + premul_ops(other@, match transform {
                Option::Some(t) => Option::Some(*t),
                Option::None => Option::None,
            }),
    {
        let ghost t: Option<Affine> = match transform {
            Option::Some(t) => Option::Some(*t),
            Option::None => Option::None,
        };
        let ghost old_ops = old(self).ops@;
        let mut i: usize = 0;
        while i < other.ops.len()
            invariant
                i <= other.ops.len(),
                self.ops@.len() == old_ops.len() + i,
                forall|j: int| 0 <= j < old_ops.len() ==> self.ops@[j] == old_ops[j],
                forall|j: int|
                    0 <= j < i ==> self.ops@[old_ops.len() + j]@ == premul_op(t, other@[j]),
                t == (match transform {
                    Option::Some(t) => Option::Some(*t),
                    Option::None => Option::None,
                }),
            decreases other.ops.len() - i,
        {
            let op = &other.ops[i];
            let nop: SceneOp = match transform {
                Option::None => op.clone(),
                Option::Some(tr) => match op {
                    SceneOp::PopLayer => SceneOp::PopLayer,
                    SceneOp::PushLayer { blend, alpha, transform, clip } => SceneOp::PushLayer {
                        blend: *blend,
                        alpha: *alpha,
                        transform: tr.pre_concat(transform),
                        clip: clip.clone(),
                    },
                    SceneOp::Fill { transform, style, brush, brush_transform, path } => SceneOp::Fill {
                        transform: tr.pre_concat(transform),
                        style: *style,
                        brush: brush.clone(),
                        brush_transform: *brush_transform,
                        path: path.clone(),
                    },
                    SceneOp::Stroke { transform, style, brush, brush_transform, path } => SceneOp::Stroke {
                        transform: tr.pre_concat(transform),
                        style: style.clone(),
                        brush: brush.clone(),
                        brush_transform: *brush_transform,
                        path: path.clone(),
                    },
                    SceneOp::DrawImage { transform, width, height, data } => SceneOp::DrawImage {
                        transform: tr.pre_concat(transform),
                        width: *width,
                        height: *height,
                        data: clone_copied(data),
                    },
                },
            };
            proof {
                assert(nop@ == premul_op(t, other@[i as int]));
            }
            self.ops.push(nop);
            i = i + 1;
        }
        proof {
            assert(self@ =~= old(self)@ + premul_ops(other@, t));
        }
    }

    /// The number of operations in the scene.
    pub fn len(&self) -> (r: usize)
        ensures
            r == self@.len(),
    {
        self.ops.len()
    }
}

} // verus!
