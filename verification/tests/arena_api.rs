//! Arena API: group accessors, overrides, processors, and the zero-size
//! image gate.

use velyst::arena::{EmptySceneProcessor, PostProcess, TypstGroup, TypstGroupScene, TypstScene};
use velyst::geom::{Affine, RenderState, Vec2};
use velyst::leaf::{render_shape, SceneKind};
use velyst::num::ONE;
use velyst::paint::{Color, Paint};
use velyst::scene::{FillStyle, Scene, SceneOp};
use velyst::tree::{
    Frame, FrameItem, FrameKind, FrameSlot, Geometry, ImageItem, ImageKind, Label, RasterImage,
    ShapeItem,
};

fn empty_frame(w: i64, h: i64) -> Frame {
    Frame { size: Vec2 { x: w, y: h }, kind: FrameKind::Hard, items: Vec::new() }
}

fn image_slot(w: i64, h: i64) -> FrameSlot {
    FrameSlot {
        pos: Vec2 { x: 0, y: 0 },
        item: FrameItem::Image(ImageItem {
            kind: ImageKind::Raster(RasterImage { width: 1, height: 1, data: vec![0u8; 4] }),
            size: Vec2 { x: w, y: h },
        }),
    }
}

fn draw_image_count(scene: &Scene) -> usize {
    scene.ops.iter().filter(|op| matches!(op, SceneOp::DrawImage { .. })).count()
}

#[test]
fn zero_size_image_emits_no_draw_items() {
    let mut root = empty_frame(10 * ONE, 10 * ONE);
    root.items.push(image_slot(0, 5 * ONE));
    root.items.push(image_slot(5 * ONE, 0));
    root.items.push(image_slot(0, 0));
    let mut scene = TypstScene::from_frame(&root);
    let out = scene.render();
    assert_eq!(draw_image_count(&out), 0);
    assert!(out.ops.is_empty());
}

#[test]
fn nonzero_image_emits_one_draw_item() {
    let mut root = empty_frame(10 * ONE, 10 * ONE);
    root.items.push(image_slot(5 * ONE, 5 * ONE));
    let mut scene = TypstScene::from_frame(&root);
    let out = scene.render();
    assert_eq!(draw_image_count(&out), 1);
}

#[test]
fn group_from_scene_holds_one_item() {
    let shape = ShapeItem {
        geometry: Geometry::Rect(Vec2 { x: ONE, y: ONE }),
        fill: Some(Paint::Solid(Color { r: 9, g: 9, b: 9, a: 255 })),
        fill_rule: FillStyle::NonZero,
        stroke: None,
    };
    let state = RenderState::new(Vec2 { x: ONE, y: ONE }, Affine::identity());
    let rendered = render_shape(&shape, state, Affine::identity());
    let group = TypstGroup::from_scene(SceneKind::Shape(rendered), Some(0));
    assert_eq!(group.parent(), Some(0));
    assert_eq!(group.label(), None);
    let out = group.render(&EmptySceneProcessor);
    assert_eq!(out.ops.len(), 1);
    assert!(matches!(&out.ops[0], SceneOp::Fill { .. }));
}

#[test]
fn group_scene_starts_with_an_invalid_cache() {
    let gs = TypstGroupScene::new(TypstGroup::default());
    assert_eq!(gs.renders(), 0);
}

#[test]
fn post_process_round_trip_and_replacement() {
    let mut scene = TypstScene::default();
    let tag = Label(11);
    assert!(scene.get_post_process(tag).is_none());
    scene.set_post_process(
        tag,
        PostProcess { transform: Some(Affine::translate(Vec2 { x: ONE, y: 0 })), layer: None },
    );
    let got = scene.get_post_process(tag).expect("registered");
    assert_eq!(got.transform, Some(Affine::translate(Vec2 { x: ONE, y: 0 })));
    // Replacement overwrites in place.
    scene.set_post_process(tag, PostProcess::default());
    let got = scene.get_post_process(tag).expect("still registered");
    assert_eq!(got.transform, None);
    assert!(got.layer.is_none());
    // Other labels are untouched.
    assert!(scene.get_post_process(Label(12)).is_none());
}

#[test]
fn shape_fill_and_stroke_order_is_fill_first() {
    let shape = ShapeItem {
        geometry: Geometry::Rect(Vec2 { x: ONE, y: ONE }),
        fill: Some(Paint::Solid(Color { r: 1, g: 1, b: 1, a: 255 })),
        fill_rule: FillStyle::EvenOdd,
        stroke: Some(velyst::tree::FixedStroke {
            paint: Paint::Solid(Color { r: 2, g: 2, b: 2, a: 255 }),
            thickness: ONE / 2,
            cap: velyst::scene::Cap::Butt,
            join: velyst::scene::Join::Bevel,
            dash: None,
            miter_limit: 4 * ONE,
        }),
    };
    let state = RenderState::new(Vec2 { x: ONE, y: ONE }, Affine::identity());
    let rendered = render_shape(&shape, state, Affine::translate(Vec2 { x: ONE, y: ONE }));
    let mut out = Scene::new();
    rendered.render(&mut out);
    assert_eq!(out.ops.len(), 2);
    assert!(matches!(&out.ops[0], SceneOp::Fill { style: FillStyle::EvenOdd, .. }));
    assert!(matches!(&out.ops[1], SceneOp::Stroke { .. }));
    match &out.ops[1] {
        SceneOp::Stroke { style, transform, .. } => {
            assert_eq!(style.width, ONE / 2);
            assert_eq!(transform.tx, ONE);
        }
        _ => unreachable!(),
    }
}
