//! Flattening a layout tree into the arena.

use velyst::arena::TypstScene;
use velyst::geom::{Affine, Vec2};
use velyst::num::ONE;
use velyst::tree::{Frame, FrameItem, FrameKind, FrameSlot, GroupItem, Label};

fn empty_frame(w: i64, h: i64) -> Frame {
    Frame { size: Vec2 { x: w, y: h }, kind: FrameKind::Hard, items: Vec::new() }
}

fn group_slot(pos: Vec2, frame: Frame, label: Option<Label>) -> FrameSlot {
    FrameSlot {
        pos,
        item: FrameItem::Group(GroupItem {
            frame,
            transform: Affine::identity(),
            clip_path: None,
            label,
        }),
    }
}

#[test]
fn empty_tree_yields_single_root_group() {
    let frame = empty_frame(100 * ONE, 200 * ONE);
    let scene = TypstScene::from_frame(&frame);
    assert_eq!(scene.groups_len(), 1);
    assert_eq!(scene.size(), Vec2 { x: 100 * ONE, y: 200 * ONE });
    let root = scene.get_group(0);
    assert_eq!(root.parent(), None);
    assert_eq!(root.label(), None);
    assert!(root.layer().is_none());
    assert_eq!(root.size(), Vec2 { x: 100 * ONE, y: 200 * ONE });
    assert!(scene.query(Label(7)).is_none());
}

#[test]
fn group_count_is_nested_frames_plus_one() {
    // Three nested frames: two children of the root, one grandchild.
    let grandchild = empty_frame(ONE, ONE);
    let mut child_a = empty_frame(2 * ONE, 2 * ONE);
    child_a.items.push(group_slot(Vec2 { x: 0, y: 0 }, grandchild, None));
    let child_b = empty_frame(3 * ONE, 3 * ONE);
    let mut root = empty_frame(10 * ONE, 10 * ONE);
    root.items.push(group_slot(Vec2 { x: 0, y: 0 }, child_a, None));
    root.items.push(group_slot(Vec2 { x: 0, y: 0 }, child_b, None));
    let scene = TypstScene::from_frame(&root);
    assert_eq!(scene.groups_len(), 4);
}

#[test]
fn parents_precede_children() {
    let grandchild = empty_frame(ONE, ONE);
    let mut child_a = empty_frame(2 * ONE, 2 * ONE);
    child_a.items.push(group_slot(Vec2 { x: 0, y: 0 }, grandchild, None));
    let child_b = empty_frame(3 * ONE, 3 * ONE);
    let mut root = empty_frame(10 * ONE, 10 * ONE);
    root.items.push(group_slot(Vec2 { x: 0, y: 0 }, child_a, None));
    root.items.push(group_slot(Vec2 { x: 0, y: 0 }, child_b, None));
    let scene = TypstScene::from_frame(&root);
    assert_eq!(scene.get_group(0).parent(), None);
    for i in 1..scene.groups_len() {
        let parent = scene.get_group(i).parent().expect("non-root group must have a parent");
        assert!(parent < i);
    }
    // Pre-order: child_a is 1, its grandchild 2, child_b 3.
    assert_eq!(scene.get_group(1).parent(), Some(0));
    assert_eq!(scene.get_group(2).parent(), Some(1));
    assert_eq!(scene.get_group(3).parent(), Some(0));
}

#[test]
fn labels_are_indexed_in_encounter_order() {
    let tag = Label(42);
    let other = Label(1);
    let mut root = empty_frame(10 * ONE, 10 * ONE);
    root.items.push(group_slot(Vec2 { x: 0, y: 0 }, empty_frame(ONE, ONE), Some(tag)));
    root.items.push(group_slot(Vec2 { x: 0, y: 0 }, empty_frame(ONE, ONE), Some(other)));
    root.items.push(group_slot(Vec2 { x: 0, y: 0 }, empty_frame(ONE, ONE), Some(tag)));
    let scene = TypstScene::from_frame(&root);
    assert_eq!(scene.groups_len(), 4);
    let tagged = scene.query(tag).expect("label occurs");
    assert_eq!(tagged.as_slice(), &[1, 3]);
    let others = scene.query(other).expect("label occurs");
    assert_eq!(others.as_slice(), &[2]);
    assert!(scene.query(Label(99)).is_none());
}

#[test]
fn group_transform_is_translation_then_declared_transform() {
    let declared = Affine { xx: 2 * ONE, yx: 0, xy: 0, yy: 2 * ONE, tx: 0, ty: 0 };
    let mut root = empty_frame(10 * ONE, 10 * ONE);
    root.items.push(FrameSlot {
        pos: Vec2 { x: 5 * ONE, y: 7 * ONE },
        item: FrameItem::Group(GroupItem {
            frame: empty_frame(ONE, ONE),
            transform: declared,
            clip_path: None,
            label: None,
        }),
    });
    let scene = TypstScene::from_frame(&root);
    let got = scene.get_group(1).transform();
    let expected = Affine::translate(Vec2 { x: 5 * ONE, y: 7 * ONE }).pre_concat(&declared);
    assert_eq!(got, expected);
    // The translation lands in the transform's offset part unchanged.
    assert_eq!(got.tx, 5 * ONE);
    assert_eq!(got.ty, 7 * ONE);
    assert_eq!(got.xx, 2 * ONE);
}

#[test]
fn update_frame_rebuilds_in_place() {
    let mut root = empty_frame(10 * ONE, 10 * ONE);
    root.items.push(group_slot(Vec2 { x: 0, y: 0 }, empty_frame(ONE, ONE), Some(Label(5))));
    let mut scene = TypstScene::from_frame(&root);
    assert_eq!(scene.groups_len(), 2);
    assert!(scene.query(Label(5)).is_some());

    let replacement = empty_frame(4 * ONE, 4 * ONE);
    scene.update_frame(&replacement);
    assert_eq!(scene.groups_len(), 1);
    assert_eq!(scene.size(), Vec2 { x: 4 * ONE, y: 4 * ONE });
    assert!(scene.query(Label(5)).is_none());
}

#[test]
fn ignored_markers_contribute_nothing() {
    let mut root = empty_frame(10 * ONE, 10 * ONE);
    root.items.push(FrameSlot { pos: Vec2 { x: 0, y: 0 }, item: FrameItem::Link });
    root.items.push(FrameSlot { pos: Vec2 { x: 0, y: 0 }, item: FrameItem::Tag });
    let mut scene = TypstScene::from_frame(&root);
    assert_eq!(scene.groups_len(), 1);
    let out = scene.render();
    assert!(out.ops.is_empty());
}
