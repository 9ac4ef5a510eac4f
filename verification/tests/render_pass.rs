//! The composite render pass: world transforms, layer discipline, caching.

use velyst::arena::{PostProcess, TypstScene};
use velyst::geom::{Affine, BezPath, PathEl, Vec2};
use velyst::num::ONE;
use velyst::paint::{Color, Paint};
use velyst::scene::{FillStyle, Layer, SceneOp};
use velyst::scene::Scene;
use velyst::tree::{
    Frame, FrameItem, FrameKind, FrameSlot, Geometry, GroupItem, ImageItem, ImageKind, Label,
    ShapeItem, SvgImage,
};

fn empty_frame(w: i64, h: i64) -> Frame {
    Frame { size: Vec2 { x: w, y: h }, kind: FrameKind::Hard, items: Vec::new() }
}

fn rect_shape_slot(pos: Vec2, w: i64, h: i64) -> FrameSlot {
    FrameSlot {
        pos,
        item: FrameItem::Shape(ShapeItem {
            geometry: Geometry::Rect(Vec2 { x: w, y: h }),
            fill: Some(Paint::Solid(Color { r: 10, g: 20, b: 30, a: 255 })),
            fill_rule: FillStyle::NonZero,
            stroke: None,
        }),
    }
}

fn clip_path(w: i64, h: i64) -> BezPath {
    BezPath {
        els: vec![
            PathEl::MoveTo(Vec2 { x: 0, y: 0 }),
            PathEl::LineTo(Vec2 { x: w, y: 0 }),
            PathEl::LineTo(Vec2 { x: w, y: h }),
            PathEl::LineTo(Vec2 { x: 0, y: h }),
            PathEl::ClosePath,
        ],
    }
}

fn clipped_group_slot(pos: Vec2, frame: Frame, label: Option<Label>) -> FrameSlot {
    let (w, h) = (frame.size.x, frame.size.y);
    FrameSlot {
        pos,
        item: FrameItem::Group(GroupItem {
            frame,
            transform: Affine::identity(),
            clip_path: Some(clip_path(w, h)),
            label,
        }),
    }
}

fn push_count(scene: &velyst::scene::Scene) -> usize {
    scene.ops.iter().filter(|op| matches!(op, SceneOp::PushLayer { .. })).count()
}

fn pop_count(scene: &velyst::scene::Scene) -> usize {
    scene.ops.iter().filter(|op| matches!(op, SceneOp::PopLayer)).count()
}

/// A deep, irregularly clipped tree: some branches clipped, some not.
fn irregular_tree() -> Frame {
    let mut deep = empty_frame(ONE, ONE);
    deep.items.push(rect_shape_slot(Vec2 { x: 0, y: 0 }, ONE, ONE));
    let mut mid_a = empty_frame(2 * ONE, 2 * ONE);
    mid_a.items.push(clipped_group_slot(Vec2 { x: 0, y: 0 }, deep, None));
    let mut mid_b = empty_frame(3 * ONE, 3 * ONE);
    mid_b.items.push(rect_shape_slot(Vec2 { x: ONE, y: 0 }, ONE, ONE));
    let mut root = empty_frame(10 * ONE, 10 * ONE);
    root.items.push(clipped_group_slot(Vec2 { x: 0, y: 0 }, mid_a, None));
    root.items.push(clipped_group_slot(Vec2 { x: 4 * ONE, y: 0 }, mid_b, Some(Label(3))));
    root.items.push(rect_shape_slot(Vec2 { x: 0, y: 5 * ONE }, ONE, ONE));
    root
}

#[test]
fn layer_stack_is_balanced_after_render() {
    let root = irregular_tree();
    let mut scene = TypstScene::from_frame(&root);
    let out = scene.render();
    assert!(push_count(&out) > 0);
    assert_eq!(push_count(&out), pop_count(&out));
}

#[test]
fn balance_holds_with_embedded_vector_images() {
    // An embedded vector image whose sub-scene opens and closes a layer of
    // its own, inside a clipped group.
    let mut sub = Scene::new();
    sub.push_layer(
        velyst::paint::BlendMode::normal(),
        ONE,
        Affine::identity(),
        clip_path(ONE, ONE),
    );
    sub.pop_layer();
    let mut inner = empty_frame(2 * ONE, 2 * ONE);
    inner.items.push(FrameSlot {
        pos: Vec2 { x: 0, y: 0 },
        item: FrameItem::Image(ImageItem {
            kind: ImageKind::Svg(SvgImage { width: ONE, height: ONE, scene: sub }),
            size: Vec2 { x: 2 * ONE, y: 2 * ONE },
        }),
    });
    let mut root = empty_frame(10 * ONE, 10 * ONE);
    root.items.push(clipped_group_slot(Vec2 { x: 0, y: 0 }, inner, None));
    let mut scene = TypstScene::from_frame(&root);
    let out = scene.render();
    assert_eq!(push_count(&out), 2);
    assert_eq!(pop_count(&out), 2);
}

#[test]
fn render_twice_is_bit_identical() {
    let root = irregular_tree();
    let mut scene = TypstScene::from_frame(&root);
    let first = scene.render();
    let second = scene.render();
    assert_eq!(first, second);
}

#[test]
fn mutation_recomputes_only_that_group() {
    let mut root = empty_frame(10 * ONE, 10 * ONE);
    let mut child_a = empty_frame(ONE, ONE);
    child_a.items.push(rect_shape_slot(Vec2 { x: 0, y: 0 }, ONE, ONE));
    let mut child_b = empty_frame(ONE, ONE);
    child_b.items.push(rect_shape_slot(Vec2 { x: 0, y: 0 }, ONE, ONE));
    root.items.push(FrameSlot {
        pos: Vec2 { x: 0, y: 0 },
        item: FrameItem::Group(GroupItem {
            frame: child_a,
            transform: Affine::identity(),
            clip_path: None,
            label: None,
        }),
    });
    root.items.push(FrameSlot {
        pos: Vec2 { x: 2 * ONE, y: 0 },
        item: FrameItem::Group(GroupItem {
            frame: child_b,
            transform: Affine::identity(),
            clip_path: None,
            label: None,
        }),
    });
    let mut scene = TypstScene::from_frame(&root);
    scene.render();
    assert_eq!(scene.group_renders(0), 1);
    assert_eq!(scene.group_renders(1), 1);
    assert_eq!(scene.group_renders(2), 1);

    // Re-rendering without mutation recomputes nothing.
    scene.render();
    assert_eq!(scene.group_renders(1), 1);
    assert_eq!(scene.group_renders(2), 1);

    // Mutating group 1 invalidates only group 1's cache.
    scene.get_group_mut(1).set_transform(Affine::translate(Vec2 { x: ONE, y: ONE }));
    scene.render();
    assert_eq!(scene.group_renders(0), 1);
    assert_eq!(scene.group_renders(1), 2);
    assert_eq!(scene.group_renders(2), 1);
}

#[test]
fn world_transform_accumulates_through_parents() {
    let mut child = empty_frame(ONE, ONE);
    child.items.push(rect_shape_slot(Vec2 { x: 0, y: 0 }, ONE, ONE));
    let mut root = empty_frame(10 * ONE, 10 * ONE);
    root.items.push(FrameSlot {
        pos: Vec2 { x: 3 * ONE, y: 4 * ONE },
        item: FrameItem::Group(GroupItem {
            frame: child,
            transform: Affine::translate(Vec2 { x: ONE, y: 0 }),
            clip_path: None,
            label: None,
        }),
    });
    let mut scene = TypstScene::from_frame(&root);
    let out = scene.render();
    // One fill op, shifted by the accumulated translation (3+1, 4).
    let fills: Vec<&SceneOp> = out
        .ops
        .iter()
        .filter(|op| matches!(op, SceneOp::Fill { .. }))
        .collect();
    assert_eq!(fills.len(), 1);
    match fills[0] {
        SceneOp::Fill { transform, .. } => {
            assert_eq!(transform.tx, 4 * ONE);
            assert_eq!(transform.ty, 4 * ONE);
            assert_eq!(transform.xx, ONE);
            assert_eq!(transform.yy, ONE);
        }
        _ => unreachable!(),
    }
}

#[test]
fn transform_override_applies_at_render_time_only() {
    let tag = Label(9);
    let mut child = empty_frame(ONE, ONE);
    child.items.push(rect_shape_slot(Vec2 { x: 0, y: 0 }, ONE, ONE));
    let mut root = empty_frame(10 * ONE, 10 * ONE);
    root.items.push(FrameSlot {
        pos: Vec2 { x: 0, y: 0 },
        item: FrameItem::Group(GroupItem {
            frame: child,
            transform: Affine::identity(),
            clip_path: None,
            label: Some(tag),
        }),
    });
    let mut scene = TypstScene::from_frame(&root);
    scene.set_post_process(
        tag,
        PostProcess {
            transform: Some(Affine::translate(Vec2 { x: 7 * ONE, y: 0 })),
            layer: None,
        },
    );
    let out = scene.render();
    match out.ops.iter().find(|op| matches!(op, SceneOp::Fill { .. })).unwrap() {
        SceneOp::Fill { transform, .. } => {
            assert_eq!(transform.tx, 7 * ONE);
        }
        _ => unreachable!(),
    }
    // The stored group data is untouched by the override.
    assert_eq!(scene.get_group(1).transform(), Affine::identity());
}

#[test]
fn layer_override_without_clip_falls_back_to_size_rectangle() {
    let tag = Label(4);
    let mut root = empty_frame(10 * ONE, 10 * ONE);
    root.items.push(FrameSlot {
        pos: Vec2 { x: 0, y: 0 },
        item: FrameItem::Group(GroupItem {
            frame: empty_frame(5 * ONE, 6 * ONE),
            transform: Affine::identity(),
            clip_path: None,
            label: Some(tag),
        }),
    });
    let mut scene = TypstScene::from_frame(&root);
    scene.set_post_process(
        tag,
        PostProcess { transform: None, layer: Some(Layer::default()) },
    );
    let out = scene.render();
    assert_eq!(push_count(&out), 1);
    assert_eq!(pop_count(&out), 1);
    match out.ops.iter().find(|op| matches!(op, SceneOp::PushLayer { .. })).unwrap() {
        SceneOp::PushLayer { clip, alpha, .. } => {
            assert_eq!(*alpha, ONE);
            // Clip falls back to the rectangle spanning the group's size.
            assert_eq!(
                clip.els,
                vec![
                    PathEl::MoveTo(Vec2 { x: 0, y: 0 }),
                    PathEl::LineTo(Vec2 { x: 5 * ONE, y: 0 }),
                    PathEl::LineTo(Vec2 { x: 5 * ONE, y: 6 * ONE }),
                    PathEl::LineTo(Vec2 { x: 0, y: 6 * ONE }),
                    PathEl::ClosePath,
                ]
            );
        }
        _ => unreachable!(),
    }
}

fn gradient_shape_slot() -> FrameSlot {
    FrameSlot {
        pos: Vec2 { x: 0, y: 0 },
        item: FrameItem::Shape(ShapeItem {
            geometry: Geometry::Rect(Vec2 { x: ONE, y: ONE }),
            fill: Some(Paint::Linear(velyst::paint::LinearGradient {
                dir_cos: ONE,
                dir_sin: 0,
                stops: vec![],
                relative: Some(velyst::paint::RelativeTo::Parent),
            })),
            fill_rule: FillStyle::NonZero,
            stroke: None,
        }),
    }
}

#[test]
fn hard_frame_resets_the_reference_size_soft_frame_keeps_it() {
    // The same parent-relative gradient, inside a hard and inside a soft
    // nested frame: the hard frame anchors it to its own size, the soft
    // frame to the ancestor's.
    let mut hard_child = empty_frame(2 * ONE, 2 * ONE);
    hard_child.kind = FrameKind::Hard;
    hard_child.items.push(gradient_shape_slot());
    let mut soft_child = empty_frame(2 * ONE, 2 * ONE);
    soft_child.kind = FrameKind::Soft;
    soft_child.items.push(gradient_shape_slot());
    let mut root = empty_frame(10 * ONE, 10 * ONE);
    for child in [hard_child, soft_child] {
        root.items.push(FrameSlot {
            pos: Vec2 { x: 0, y: 0 },
            item: FrameItem::Group(GroupItem {
                frame: child,
                transform: Affine::identity(),
                clip_path: None,
                label: None,
            }),
        });
    }
    let mut scene = TypstScene::from_frame(&root);
    let out = scene.render();
    let brush_scales: Vec<i64> = out
        .ops
        .iter()
        .filter_map(|op| match op {
            SceneOp::Fill { brush_transform, .. } => Some(brush_transform.xx),
            _ => None,
        })
        .collect();
    // The hard child's gradient spans its own 2-unit box, the soft child's
    // the root's 10-unit box.
    assert_eq!(brush_scales, vec![2 * ONE, 10 * ONE]);
}

#[test]
fn layers_close_before_a_shallower_sibling_renders() {
    // A clipped deep branch followed by a shallow sibling: every layer of
    // the deep branch must be closed before the sibling's draws appear.
    let mut deep = empty_frame(ONE, ONE);
    deep.items.push(rect_shape_slot(Vec2 { x: 0, y: 0 }, ONE, ONE));
    let mut mid = empty_frame(2 * ONE, 2 * ONE);
    mid.items.push(clipped_group_slot(Vec2 { x: 0, y: 0 }, deep, None));
    let mut root = empty_frame(10 * ONE, 10 * ONE);
    root.items.push(clipped_group_slot(Vec2 { x: 0, y: 0 }, mid, None));
    root.items.push(clipped_group_slot(
        Vec2 { x: 5 * ONE, y: 0 },
        empty_frame(ONE, ONE),
        None,
    ));
    let mut scene = TypstScene::from_frame(&root);
    let out = scene.render();
    // Ops: push(1) push(2) fill pop pop push(3) pop.
    let kinds: Vec<u8> = out
        .ops
        .iter()
        .map(|op| match op {
            SceneOp::PushLayer { .. } => 1,
            SceneOp::PopLayer => 2,
            SceneOp::Fill { .. } => 3,
            _ => 0,
        })
        .collect();
    assert_eq!(kinds, vec![1, 1, 3, 2, 2, 1, 2]);
}
