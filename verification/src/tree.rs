//! The input layout tree.
//!
//! A frame is the positioned output of an upstream layout pass: a sized box
//! holding positioned items, each a nested frame (group), a shape, a text
//! run, an image, or an ignored marker.  All geometry is fixed point.

use vstd::prelude::*;
use crate::font::Font;
use crate::geom::{Affine, BezPath, Vec2};
use crate::paint::Paint;
use crate::scene::{Cap, FillStyle, Join, Scene};

verus! {

/// A stable identity tag carried from the source document.
#[derive(Clone, Copy, Debug, PartialEq, Eq, Hash, Structural)]
pub struct Label(pub u64);

/// How a nested frame threads the relative-paint resolution context: a soft
/// frame keeps its ancestor's running transform and reference size, a hard
/// frame resets the transform and establishes a new reference size.
#[derive(Clone, Copy, Debug, PartialEq, Eq, Structural)]
pub enum FrameKind {
    Soft,
    Hard,
}

/// A positioned box of layouted items.
#[derive(Debug, PartialEq, Eq)]
pub struct Frame {
    pub size: Vec2,
    pub kind: FrameKind,
    pub items: Vec<FrameSlot>,
}

/// One item of a frame together with its local position.
#[derive(Debug, PartialEq, Eq)]
pub struct FrameSlot {
    pub pos: Vec2,
    pub item: FrameItem,
}

/// One layouted item.
#[derive(Debug, PartialEq, Eq)]
pub enum FrameItem {
    /// A nested frame with its own transform, optional clip and label.
    Group(GroupItem),
    /// A filled and/or stroked geometric shape.
    Shape(ShapeItem),
    /// A run of glyphs.
    Text(TextItem),
    /// An image of the given display size.
    Image(ImageItem),
    /// A hyperlink region; not rendered.
    Link,
    /// A metadata marker; not rendered.
    Tag,
}

/// A nested frame: its content, its declared transform, an optional clip
/// path and an optional stable label.
#[derive(Debug, PartialEq, Eq)]
pub struct GroupItem {
    pub frame: Frame,
    pub transform: Affine,
    pub clip_path: Option<BezPath>,
    pub label: Option<Label>,
}

/// The geometry of a shape.
#[derive(Debug, PartialEq, Eq)]
pub enum Geometry {
    /// A line from the origin to the given point.
    Line(Vec2),
    /// An axis-aligned rectangle from the origin, of the given extent.
    Rect(Vec2),
    /// An arbitrary Bézier path.
    Path(BezPath),
}

/// A dash pattern of a stroke.
#[derive(Debug, PartialEq, Eq)]
pub struct DashPattern {
    pub array: Vec<i64>,
    pub phase: i64,
}

/// A fully resolved stroke specification.
#[derive(Debug, PartialEq, Eq)]
pub struct FixedStroke {
    pub paint: Paint,
    pub thickness: i64,
    pub cap: Cap,
    pub join: Join,
    pub dash: Option<DashPattern>,
    pub miter_limit: i64,
}

/// A shape: geometry plus optional fill and stroke.
#[derive(Debug, PartialEq, Eq)]
pub struct ShapeItem {
    pub geometry: Geometry,
    pub fill: Option<Paint>,
    pub fill_rule: FillStyle,
    pub stroke: Option<FixedStroke>,
}

/// One glyph of a text run: its id in the font, and its horizontal advance
/// and offset, both in fixed-point em units (resolved against the font
/// size).
#[derive(Clone, Copy, Debug, PartialEq, Eq, Structural)]
pub struct Glyph {
    pub id: usize,
    pub x_advance: i64,
    pub x_offset: i64,
}

/// A run of glyphs in one font, with shared fill and stroke.
#[derive(Debug, PartialEq, Eq)]
pub struct TextItem {
    pub font: Font,
    pub size: i64,
    pub fill: Paint,
    pub stroke: Option<FixedStroke>,
    pub glyphs: Vec<Glyph>,
}

/// A decoded raster image: RGBA8 pixels with their dimensions.
#[derive(Debug, PartialEq, Eq)]
pub struct RasterImage {
    pub width: u32,
    pub height: u32,
    pub data: Vec<u8>,
}

/// A parsed nested vector image: its intrinsic size and its content,
/// already flattened to a sub-scene by the external vector-image
/// sub-renderer.
#[derive(Debug, PartialEq, Eq)]
pub struct SvgImage {
    pub width: i64,
    pub height: i64,
    pub scene: Scene,
}

/// One page of an embedded fixed-page-format document, rasterized
/// externally: the pixel buffer plus the page's intrinsic render size.
#[derive(Debug, PartialEq, Eq)]
pub struct PdfPage {
    pub width: u32,
    pub height: u32,
    pub data: Vec<u8>,
    pub render_width: i64,
    pub render_height: i64,
}

/// An embedded fixed-page-format document image: its rasterized pages and
/// the requested page index.  A missing page degrades to an empty draw.
#[derive(Debug, PartialEq, Eq)]
pub struct PdfImage {
    pub pages: Vec<PdfPage>,
    pub page_index: usize,
}

/// The kinds of image sources.
#[derive(Debug, PartialEq, Eq)]
pub enum ImageKind {
    Raster(RasterImage),
    Svg(SvgImage),
    Pdf(PdfImage),
}

/// An image item: its source and its requested display size.
#[derive(Debug, PartialEq, Eq)]
pub struct ImageItem {
    pub kind: ImageKind,
    pub size: Vec2,
}

/// The number of nested-frame nodes among `f`'s items from index `i` on,
/// including those nested deeper.
pub open spec fn items_group_count(f: Frame, i: int) -> nat
    decreases f, f.items@.len() - i,
{
    if i < 0 || i >= f.items@.len() {
        0
    } else {
        item_group_count(f.items@[i].item) + items_group_count(f, i + 1)
    }
}

/// The number of nested-frame nodes within one item (the item itself
/// included when it is a group).
pub open spec fn item_group_count(it: FrameItem) -> nat
    decreases it, 0int,
{
    match it {
        FrameItem::Group(g) => 1 + items_group_count(g.frame, 0),
        _ => 0,
    }
}

/// The number of nested-frame nodes in the whole tree under `f`.
pub open spec fn frame_group_count(f: Frame) -> nat {
    items_group_count(f, 0)
}

} // verus!
