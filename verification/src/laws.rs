//! Global laws of the flattener and the composite renderer, stated and
//! proved over the specification functions that the executable contracts
//! use.

use vstd::prelude::*;
use crate::arena::{
    fresh_gsv, group_ops, label_indices, root_gsv, sp_flatten, sp_group, sp_items, sp_slot,
    GroupSceneV, GroupV, PostProcessEntryV, TypstScene,
};
use crate::geom::{RenderState, Vec2};
use crate::render::{drain_above, pops, render_ops, render_rel, walk_step, walk_to};
use crate::scene::{premul_op, premul_ops, OpV, Scene};
use crate::tree::{
    frame_group_count, item_group_count, items_group_count, Frame, FrameItem, FrameSlot,
    GroupItem,
};

verus! {

/// The structural fields of every group already in the arena are preserved
/// by flattening more items into it: only draw items are appended and new
/// groups added.
pub open spec fn preserves_prefix(acc: Seq<GroupSceneV>, r: Seq<GroupSceneV>) -> bool {
    &&& r.len() >= acc.len()
    &&& forall|j: int|
        0 <= j < acc.len() ==> {
            &&& (#[trigger] r[j]).group.size == acc[j].group.size
            &&& r[j].group.transform == acc[j].group.transform
            &&& r[j].group.parent == acc[j].group.parent
            &&& r[j].group.layer == acc[j].group.layer
            &&& r[j].group.label == acc[j].group.label
            &&& r[j].scene == acc[j].scene
            &&& r[j].updated == acc[j].updated
            &&& r[j].renders == acc[j].renders
        }
}

/// Every group added beyond `base` points at a parent that precedes it.
pub open spec fn new_groups_preordered(base: int, r: Seq<GroupSceneV>) -> bool {
    forall|j: int|
        base <= j < r.len() ==> match (#[trigger] r[j]).group.parent {
            Option::Some(p) => (p as int) < j,
            Option::None => false,
        }
}

/// Flattening the items of `f` from `i` on adds exactly one group per
/// nested-frame node, preserves the structure of the groups already
/// present, and gives every added group a parent that precedes it.
pub proof fn lemma_sp_items_shape(
    acc: Seq<GroupSceneV>,
    f: Frame,
    i: int,
    state: RenderState,
    gi: int,
)
    requires
        0 <= gi < acc.len(),
    ensures
        sp_items(acc, f, i, state, gi).len() == acc.len() + items_group_count(f, i),
        preserves_prefix(acc, sp_items(acc, f, i, state, gi)),
        new_groups_preordered(acc.len() as int, sp_items(acc, f, i, state, gi)),
    decreases f, f.items@.len() - i,
{
    if !(i < 0 || i >= f.items@.len()) {
        let mid = sp_slot(acc, f.items@[i], state, gi);
        let fin = sp_items(mid, f, i + 1, state, gi);
        lemma_sp_slot_shape(acc, f.items@[i], state, gi);
        lemma_sp_items_shape(mid, f, i + 1, state, gi);
        assert forall|j: int|
            acc.len() <= j < fin.len() implies match (#[trigger] fin[j]).group.parent {
            Option::Some(p) => (p as int) < j,
            Option::None => false,
        } by {
            if j < mid.len() {
                assert(fin[j].group.parent == mid[j].group.parent);
            }
        }
    }
}

/// Flattening one positioned item adds exactly the item's nested-frame
/// count, preserves the structure of the groups already present, and gives
/// every added group a parent that precedes it.
pub proof fn lemma_sp_slot_shape(acc: Seq<GroupSceneV>, slot: FrameSlot, state: RenderState, gi: int)
    requires
        0 <= gi < acc.len(),
    ensures
        sp_slot(acc, slot, state, gi).len() == acc.len() + item_group_count(slot.item),
        preserves_prefix(acc, sp_slot(acc, slot, state, gi)),
        new_groups_preordered(acc.len() as int, sp_slot(acc, slot, state, gi)),
    decreases slot, 1int,
{
    match slot.item {
        FrameItem::Group(g) => {
            let st1 = RenderState {
                transform: crate::geom::affine_compose(
                    state.transform,
                    crate::geom::Affine::translate_spec(slot.pos),
                ),
                size: state.size,
            };
            lemma_sp_group_shape(acc, g, st1, crate::geom::Affine::translate_spec(slot.pos), Option::Some(gi as usize));
        },
        _ => {},
    }
}

/// Flattening one nested frame adds one group for the frame itself plus
/// one per nested-frame node inside it, preserves the structure of the
/// groups already present, and gives every added group a parent that
/// precedes it.
pub proof fn lemma_sp_group_shape(
    acc: Seq<GroupSceneV>,
    g: GroupItem,
    state: RenderState,
    local_transform: crate::geom::Affine,
    parent: Option<usize>,
)
    requires
        match parent {
            Option::Some(p) => (p as int) < acc.len(),
            Option::None => false,
        },
    ensures
        sp_group(acc, g, state, local_transform, parent).len() == acc.len() + 1
            + items_group_count(g.frame, 0),
        preserves_prefix(acc, sp_group(acc, g, state, local_transform, parent)),
        new_groups_preordered(acc.len() as int, sp_group(acc, g, state, local_transform, parent)),
    decreases g, 0int,
{
    let gv = GroupV {
        size: g.frame.size,
        transform: crate::geom::affine_compose(local_transform, g.transform),
        scenes: Seq::<crate::leaf::SceneKindV>::empty(),
        parent,
        layer: match g.clip_path {
            Option::Some(p) => Option::Some(
                crate::scene::LayerV {
                    blend_mode: crate::paint::BlendMode::normal_spec(),
                    alpha: crate::num::ONE,
                    clip_path: Option::Some(p@),
                },
            ),
            Option::None => Option::None,
        },
        label: g.label,
    };
    let st2 = match g.frame.kind {
        crate::tree::FrameKind::Soft => RenderState {
            transform: crate::geom::affine_compose(state.transform, g.transform),
            size: state.size,
        },
        crate::tree::FrameKind::Hard => RenderState {
            transform: crate::geom::Affine::identity_spec(),
            size: g.frame.size,
        },
    };
    lemma_sp_items_shape(acc.push(fresh_gsv(gv)), g.frame, 0, st2, acc.len() as int);
    let fin = sp_group(acc, g, state, local_transform, parent);
    assert forall|j: int|
        acc.len() <= j < fin.len() implies match (#[trigger] fin[j]).group.parent {
        Option::Some(p) => (p as int) < j,
        Option::None => false,
    } by {
        if j == acc.len() {
            assert(fin[j].group.parent == acc.push(fresh_gsv(gv))[j].group.parent);
            assert(acc.push(fresh_gsv(gv))[j] == fresh_gsv(gv));
        }
    }
}

/// For every non-root group of a flattened arena, the parent's index is
/// strictly smaller than the group's own: parents always precede their
/// children in the pre-order walk.
pub proof fn lemma_flatten_preorder(f: Frame)
    ensures
        TypstScene::parent_wf(sp_flatten(f)),
        new_groups_preordered(1, sp_flatten(f)),
{
    lemma_sp_items_shape(
        seq![root_gsv(f)],
        f,
        0,
        RenderState { size: f.size, transform: crate::geom::Affine::identity_spec() },
        0,
    );
}

/// For any input tree with `K` nested-frame nodes, the flattened arena has
/// exactly `K + 1` groups: the synthetic root plus one per nested frame.
pub proof fn lemma_flatten_group_count(f: Frame)
    ensures
        sp_flatten(f).len() == 1 + frame_group_count(f),
{
    lemma_sp_items_shape(
        seq![root_gsv(f)],
        f,
        0,
        RenderState { size: f.size, transform: crate::geom::Affine::identity_spec() },
        0,
    );
}

/// The flattened arena's first group is the synthetic root: it carries the
/// tree's size and no parent, no label and no layer.
pub proof fn lemma_flatten_root(f: Frame)
    ensures
        sp_flatten(f).len() >= 1,
        sp_flatten(f)[0].group.parent == Option::<usize>::None,
        sp_flatten(f)[0].group.label == Option::<crate::tree::Label>::None,
        sp_flatten(f)[0].group.size == f.size,
{
    lemma_sp_items_shape(
        seq![root_gsv(f)],
        f,
        0,
        RenderState { size: f.size, transform: crate::geom::Affine::identity_spec() },
        0,
    );
}

/// The label index of any label lists strictly ascending group indices —
/// ascending index order is exactly the order the labelled source nodes
/// were encountered in the pre-order walk — and each listed group carries
/// the label.
pub proof fn lemma_label_indices_ascending(gs: Seq<GroupSceneV>, l: crate::tree::Label)
    requires
        gs.len() <= usize::MAX,
    ensures
        forall|a: int, b: int|
            0 <= a < b < label_indices(gs, l).len() ==> label_indices(gs, l)[a] < label_indices(
                gs,
                l,
            )[b],
        forall|a: int|
            0 <= a < label_indices(gs, l).len() ==> ((#[trigger] label_indices(gs, l)[a]) as int)
                < gs.len(),
        forall|a: int|
            0 <= a < label_indices(gs, l).len()
                ==> gs[(#[trigger] label_indices(gs, l)[a]) as int].group.label == Option::Some(l),
    decreases gs.len(),
{
    if gs.len() > 0 {
        lemma_label_indices_ascending(gs.drop_last(), l);
        let cur = label_indices(gs, l);
        let pre = label_indices(gs.drop_last(), l);
        assert forall|a: int|
            0 <= a < cur.len() implies ((cur[a]) as int) < gs.len() && gs[cur[a] as int].group.label
            == Option::Some(l) by {
            if a < pre.len() {
                assert(cur[a] == pre[a]);
                assert((pre[a] as int) < gs.drop_last().len());
                assert(gs.drop_last()[pre[a] as int] == gs[pre[a] as int]);
            } else {
                assert(cur[a] == (gs.len() - 1) as usize);
                assert((cur[a] as int) == gs.len() - 1);
            }
        }
        assert forall|a: int, b: int| 0 <= a < b < cur.len() implies cur[a] < cur[b] by {
            if b < pre.len() {
                assert(cur[a] == pre[a] && cur[b] == pre[b]);
            } else {
                assert(cur[a] == pre[a]);
                assert((pre[a] as int) < gs.drop_last().len());
                assert(cur[b] == (gs.len() - 1) as usize);
            }
        }
    }
}

/// The world transform of every group is its parent's world transform
/// composed with its own (possibly overridden) local transform; the root's
/// is its local transform alone.
pub proof fn lemma_world_transforms(
    gs: Seq<GroupSceneV>,
    pp: Seq<PostProcessEntryV>,
    i: int,
    n: int,
)
    requires
        TypstScene::parent_wf(gs),
        0 <= i < n <= gs.len(),
    ensures
        walk_to(gs, pp, n).worlds.len() == n,
        walk_to(gs, pp, n).worlds[i] == match gs[i].group.parent {
            Option::Some(p) => crate::geom::affine_compose(
                walk_to(gs, pp, n).worlds[p as int],
                crate::render::local_transform_of(gs[i].group, pp),
            ),
            Option::None => crate::render::local_transform_of(gs[i].group, pp),
        },
    decreases n,
{
    lemma_worlds_len(gs, pp, n);
    if i == n - 1 {
        lemma_worlds_len(gs, pp, n - 1);
        match gs[i].group.parent {
            Option::Some(p) => {
                lemma_worlds_stable(gs, pp, p as int, n - 1, n);
            },
            Option::None => {},
        }
    } else {
        lemma_world_transforms(gs, pp, i, n - 1);
        lemma_worlds_stable(gs, pp, i, n - 1, n);
        match gs[i].group.parent {
            Option::Some(p) => {
                lemma_worlds_stable(gs, pp, p as int, n - 1, n);
            },
            Option::None => {},
        }
    }
}

proof fn lemma_worlds_len(gs: Seq<GroupSceneV>, pp: Seq<PostProcessEntryV>, n: int)
    requires
        0 <= n,
    ensures
        walk_to(gs, pp, n).worlds.len() == n,
    decreases n,
{
    if n > 0 {
        lemma_worlds_len(gs, pp, n - 1);
    }
}

proof fn lemma_worlds_stable(
    gs: Seq<GroupSceneV>,
    pp: Seq<PostProcessEntryV>,
    i: int,
    m: int,
    n: int,
)
    requires
        0 <= i < m <= n,
    ensures
        walk_to(gs, pp, n).worlds[i] == walk_to(gs, pp, m).worlds[i],
    decreases n - m,
{
    lemma_worlds_len(gs, pp, m);
    if m < n {
        lemma_worlds_stable(gs, pp, i, m, n - 1);
        lemma_worlds_len(gs, pp, n - 1);
    }
}

/// An image draw request with a zero extent on either axis contributes no
/// draw item at all: the arena is unchanged by flattening it.
pub proof fn lemma_zero_size_image_skipped(
    acc: Seq<GroupSceneV>,
    slot: FrameSlot,
    state: RenderState,
    gi: int,
)
    requires
        slot.item is Image,
        (slot.item->Image_0).size.x == 0 || (slot.item->Image_0).size.y == 0,
    ensures
        sp_slot(acc, slot, state, gi) == acc,
{
}

/// A linear gradient declared at angle zero (direction cosine `ONE`, sine
/// zero) over any square sizing context resolves to the gradient line from
/// `(0, 0)` to `(ONE, 0)` in normalized box coordinates: the quadrant
/// boundary maps exactly onto the box's left and right edges.
pub proof fn lemma_gradient_angle_zero(w: i64)
    requires
        0 < w <= 0x80000000,
    ensures
        crate::paint::linear_line_spec(crate::num::ONE, 0, w, w) == (
            Vec2 { x: 0, y: 0 },
            Vec2 { x: crate::num::ONE, y: 0 },
        ),
{
    let one = crate::num::ONE as int;
    let wi = w as int;
    assert((one * wi) / one == wi) by {
        vstd::arithmetic::div_mod::lemma_div_multiples_vanish(wi, one);
    }
    assert(crate::num::fp_mul_spec(one, wi) == wi);
    assert(crate::num::fp_mul_spec(0, wi) == 0) by {
        assert(0int * wi == 0) by (nonlinear_arith);
        vstd::arithmetic::div_mod::lemma_div_of0(one);
    }
    assert(wi * wi > 0) by (nonlinear_arith)
        requires
            wi > 0,
    ;
    assert(wi * (wi + 0) * one == (wi * wi) * one) by (nonlinear_arith);
    assert(((wi * wi) * one) / (wi * wi) == one) by {
        vstd::arithmetic::div_mod::lemma_div_multiples_vanish(one, wi * wi);
    }
    assert(crate::num::abs_int(wi * (wi + 0) * one) == (wi * wi) * one) by {
        assert((wi * wi) * one > 0) by (nonlinear_arith)
            requires
                wi * wi > 0,
                one > 0,
        ;
    }
    assert(crate::num::abs_int(wi * wi) == wi * wi);
    assert(crate::num::tdiv(wi * (wi + 0) * one, wi * wi) == one);
    assert(crate::num::tdiv(0 * (wi + 0) * one, wi * wi) == 0) by {
        assert(0 * (wi + 0) * one == 0) by (nonlinear_arith);
        vstd::arithmetic::div_mod::lemma_div_of0(wi * wi);
    }
    let u = crate::paint::clamp_grad(crate::num::fp_mul_spec(one, wi));
    let v = crate::paint::clamp_grad(crate::num::fp_mul_spec(0, wi));
    assert(u == wi);
    assert(v == 0);
    assert(u * u + v * v == wi * wi) by (nonlinear_arith)
        requires
            u == wi,
            v == 0,
    ;
    assert(crate::num::abs_int(u) + crate::num::abs_int(v) == wi + 0);
    assert(crate::num::tdiv(u * (crate::num::abs_int(u) + crate::num::abs_int(v)) * one, u * u + v
        * v) == one);
    assert(crate::num::tdiv(v * (crate::num::abs_int(u) + crate::num::abs_int(v)) * one, u * u + v
        * v) == 0) by {
        assert(v * (crate::num::abs_int(u) + crate::num::abs_int(v)) * one == 0 * (wi + 0) * one);
    }
    assert(crate::num::clamp64(one) == one);
    assert(crate::num::clamp64(0) == 0);
    assert(crate::num::clamp64(0 + one) == one);
    assert(crate::num::clamp64(0int + 0int) == 0);
}

/// The number of layer-opening operations in a scene.
pub open spec fn count_push(ops: Seq<OpV>) -> int
    decreases ops.len(),
{
    if ops.len() == 0 {
        0
    } else {
        count_push(ops.drop_last()) + if ops.last() is PushLayer {
            1int
        } else {
            0int
        }
    }
}

/// The number of layer-closing operations in a scene.
pub open spec fn count_pop(ops: Seq<OpV>) -> int
    decreases ops.len(),
{
    if ops.len() == 0 {
        0
    } else {
        count_pop(ops.drop_last()) + if ops.last() is PopLayer {
            1int
        } else {
            0int
        }
    }
}

/// A scene whose layer-opening and layer-closing operations are balanced.
pub open spec fn balanced(ops: Seq<OpV>) -> bool {
    count_push(ops) == count_pop(ops)
}

proof fn lemma_count_concat(a: Seq<OpV>, b: Seq<OpV>)
    ensures
        count_push(a + b) == count_push(a) + count_push(b),
        count_pop(a + b) == count_pop(a) + count_pop(b),
    decreases b.len(),
{
    if b.len() == 0 {
        assert(a + b =~= a);
    } else {
        lemma_count_concat(a, b.drop_last());
        assert((a + b).drop_last() =~= a + b.drop_last());
        assert((a + b).last() == b.last());
    }
}

proof fn lemma_count_premul(ops: Seq<OpV>, t: Option<crate::geom::Affine>)
    ensures
        count_push(premul_ops(ops, t)) == count_push(ops),
        count_pop(premul_ops(ops, t)) == count_pop(ops),
    decreases ops.len(),
{
    if ops.len() > 0 {
        lemma_count_premul(ops.drop_last(), t);
        assert(premul_ops(ops, t).drop_last() =~= premul_ops(ops.drop_last(), t));
        assert(premul_ops(ops, t).last() == premul_op(t, ops.last()));
    } else {
        assert(premul_ops(ops, t) =~= Seq::<OpV>::empty());
    }
}

proof fn lemma_count_pops(n: int)
    ensures
        count_push(pops(n)) == 0,
        count_pop(pops(n)) == if n >= 0 {
            n
        } else {
            0
        },
    decreases n,
{
    if n <= 0 {
        assert(pops(n) == Seq::<OpV>::empty());
        assert(count_push(pops(n)) == 0);
        assert(count_pop(pops(n)) == 0);
    } else {
        lemma_count_pops(n - 1);
        assert(pops(n) == pops(n - 1).push(OpV::PopLayer));
        assert(pops(n).drop_last() =~= pops(n - 1));
        assert(pops(n).last() == OpV::PopLayer);
    }
}

proof fn lemma_drain_above_counts(ops: Seq<OpV>, stack: Seq<usize>, p: usize)
    ensures
        count_push(drain_above(ops, stack, p).0) == count_push(ops),
        count_pop(drain_above(ops, stack, p).0) == count_pop(ops) + (stack.len()
            - drain_above(ops, stack, p).1.len()),
        drain_above(ops, stack, p).1.len() <= stack.len(),
    decreases stack.len(),
{
    if stack.len() > 0 && stack.last() > p {
        lemma_drain_above_counts(ops.push(OpV::PopLayer), stack.drop_last(), p);
        assert(ops.push(OpV::PopLayer).drop_last() =~= ops);
    }
}

proof fn lemma_walk_balance(gs: Seq<GroupSceneV>, pp: Seq<PostProcessEntryV>, i: int)
    requires
        i <= gs.len(),
        forall|j: int| 0 <= j < gs.len() ==> balanced(#[trigger] group_ops(gs[j].group)),
    ensures
        count_push(walk_to(gs, pp, i).ops) == count_pop(walk_to(gs, pp, i).ops) + walk_to(
            gs,
            pp,
            i,
        ).stack.len(),
    decreases i,
{
    if i <= 0 {
        assert(walk_to(gs, pp, i).ops == Seq::<OpV>::empty());
        assert(walk_to(gs, pp, i).stack == Seq::<usize>::empty());
        assert(count_push(Seq::<OpV>::empty()) == 0);
        assert(count_pop(Seq::<OpV>::empty()) == 0);
    } else {
        lemma_walk_balance(gs, pp, i - 1);
        let st = walk_to(gs, pp, i - 1);
        let g = gs[i - 1].group;
        let local = crate::render::local_transform_of(g, pp);
        let world = match g.parent {
            Option::Some(p) => if (p as int) < st.worlds.len() {
                crate::geom::affine_compose(st.worlds[p as int], local)
            } else {
                local
            },
            Option::None => local,
        };
        let drained = match g.parent {
            Option::Some(p) => drain_above(st.ops, st.stack, p),
            Option::None => (st.ops, st.stack),
        };
        match g.parent {
            Option::Some(p) => {
                lemma_drain_above_counts(st.ops, st.stack, p);
            },
            Option::None => {},
        }
        let opened = match crate::render::layer_of(g, pp) {
            Option::Some(lay) => (
                drained.0.push(
                    OpV::PushLayer {
                        blend: lay.blend_mode,
                        alpha: lay.alpha,
                        transform: world,
                        clip: match lay.clip_path {
                            Option::Some(c) => c,
                            Option::None => crate::geom::rect_path_spec(g.size),
                        },
                    },
                ),
                drained.1.push((i - 1) as usize),
            ),
            Option::None => drained,
        };
        match crate::render::layer_of(g, pp) {
            Option::Some(lay) => {
                assert(opened.0.drop_last() =~= drained.0);
            },
            Option::None => {},
        }
        if 0 <= i - 1 < gs.len() {
            assert(balanced(group_ops(gs[i - 1].group)));
        }
        lemma_count_premul(group_ops(g), Option::Some(world));
        lemma_count_concat(opened.0, premul_ops(group_ops(g), Option::Some(world)));
        assert(walk_to(gs, pp, i) == walk_step(st, g, pp, i - 1));
        assert(walk_to(gs, pp, i).ops == opened.0 + premul_ops(group_ops(g), Option::Some(world)));
        assert(walk_to(gs, pp, i).stack == opened.1);
    }
}

/// After a full render pass the layer stack is empty: the emitted scene
/// opens exactly as many layers as it closes, however deep and irregularly
/// clipped the tree is — provided each group's own draw items are balanced
/// (they always are for shapes and text; an embedded vector image carries
/// whatever its sub-scene holds, so balance is required of it).
pub proof fn lemma_render_balanced(gs: Seq<GroupSceneV>, pp: Seq<PostProcessEntryV>)
    requires
        forall|j: int| 0 <= j < gs.len() ==> balanced(#[trigger] group_ops(gs[j].group)),
    ensures
        balanced(render_ops(gs, pp)),
{
    let n = gs.len() as int;
    lemma_walk_balance(gs, pp, n);
    let st = walk_to(gs, pp, n);
    lemma_count_pops(st.stack.len() as int);
    lemma_count_concat(st.ops, pops(st.stack.len() as int));
}

/// A draw item whose contributed operations are balanced.  Shapes and text
/// contribute only fills and strokes, so of the three kinds only an
/// embedded vector image can carry layer operations of its own.
pub open spec fn kind_balanced(k: crate::leaf::SceneKindV) -> bool {
    match k {
        crate::leaf::SceneKindV::Image(v) => balanced(v.ops),
        _ => true,
    }
}

proof fn lemma_count_singleton(op: OpV)
    ensures
        count_push(seq![op]) == if op is PushLayer {
            1int
        } else {
            0int
        },
        count_pop(seq![op]) == if op is PopLayer {
            1int
        } else {
            0int
        },
{
    assert(seq![op].drop_last() =~= Seq::<OpV>::empty());
    assert(seq![op].last() == op);
    assert(seq![op].len() == 1);
    assert(count_push(Seq::<OpV>::empty()) == 0);
    assert(count_pop(Seq::<OpV>::empty()) == 0);
}

proof fn lemma_shape_ops_balanced(s: crate::leaf::ShapeSceneV)
    ensures
        count_push(crate::leaf::shape_ops(s)) == 0,
        count_pop(crate::leaf::shape_ops(s)) == 0,
{
    match s.fill {
        Option::Some(f) => {
            lemma_count_singleton(
                OpV::Fill {
                    transform: s.transform,
                    style: f.style,
                    brush: f.brush,
                    brush_transform: f.brush_transform,
                    path: s.path,
                },
            );
        },
        Option::None => {},
    }
    match s.stroke {
        Option::Some(st) => {
            lemma_count_singleton(
                OpV::Stroke {
                    transform: s.transform,
                    style: st.style,
                    brush: st.brush,
                    brush_transform: st.brush_transform,
                    path: s.path,
                },
            );
        },
        Option::None => {},
    }
    let fill = match s.fill {
        Option::Some(f) => seq![
            OpV::Fill {
                transform: s.transform,
                style: f.style,
                brush: f.brush,
                brush_transform: f.brush_transform,
                path: s.path,
            },
        ],
        Option::None => Seq::<OpV>::empty(),
    };
    let stroke = match s.stroke {
        Option::Some(st) => seq![
            OpV::Stroke {
                transform: s.transform,
                style: st.style,
                brush: st.brush,
                brush_transform: st.brush_transform,
                path: s.path,
            },
        ],
        Option::None => Seq::<OpV>::empty(),
    };
    lemma_count_concat(fill, stroke);
}

proof fn lemma_shapes_ops_balanced(ss: Seq<crate::leaf::ShapeSceneV>, i: int)
    ensures
        count_push(crate::leaf::shapes_ops_to(ss, i)) == 0,
        count_pop(crate::leaf::shapes_ops_to(ss, i)) == 0,
    decreases i,
{
    if i > 0 {
        lemma_shapes_ops_balanced(ss, i - 1);
        lemma_shape_ops_balanced(ss[i - 1]);
        lemma_count_concat(crate::leaf::shapes_ops_to(ss, i - 1), crate::leaf::shape_ops(ss[i - 1]));
    }
}

proof fn lemma_kind_ops_balanced(k: crate::leaf::SceneKindV)
    requires
        kind_balanced(k),
    ensures
        balanced(crate::leaf::kind_ops(k)),
{
    match k {
        crate::leaf::SceneKindV::Shape(s) => lemma_shape_ops_balanced(s),
        crate::leaf::SceneKindV::Text(t) => lemma_shapes_ops_balanced(
            t.glyphs,
            t.glyphs.len() as int,
        ),
        crate::leaf::SceneKindV::Image(v) => lemma_count_premul(v.ops, Option::Some(v.transform)),
    }
}

proof fn lemma_kinds_ops_balanced(ss: Seq<crate::leaf::SceneKindV>, i: int)
    requires
        i <= ss.len(),
        forall|j: int| 0 <= j < ss.len() ==> kind_balanced(#[trigger] ss[j]),
    ensures
        balanced(crate::arena::kinds_ops_to(ss, i)),
    decreases i,
{
    if i > 0 {
        lemma_kinds_ops_balanced(ss, i - 1);
        lemma_kind_ops_balanced(ss[i - 1]);
        lemma_count_concat(crate::arena::kinds_ops_to(ss, i - 1), crate::leaf::kind_ops(ss[i - 1]));
    }
}

/// A group whose draw items are all balanced contributes balanced
/// operations.
pub proof fn lemma_group_ops_balanced(g: GroupV)
    requires
        forall|j: int| 0 <= j < g.scenes.len() ==> kind_balanced(#[trigger] g.scenes[j]),
    ensures
        balanced(group_ops(g)),
{
    lemma_kinds_ops_balanced(g.scenes, g.scenes.len() as int);
}

/// As [`lemma_render_balanced`], with the balance hypothesis reduced to
/// where it can fail at all: a scene whose embedded vector images carry
/// balanced sub-scenes renders balanced, whatever its shapes, text runs
/// and nesting.
pub proof fn lemma_render_balanced_items(gs: Seq<GroupSceneV>, pp: Seq<PostProcessEntryV>)
    requires
        forall|i: int, j: int|
            0 <= i < gs.len() && 0 <= j < gs[i].group.scenes.len() ==> kind_balanced(
                #[trigger] gs[i].group.scenes[j],
            ),
    ensures
        balanced(render_ops(gs, pp)),
{
    assert forall|i: int| 0 <= i < gs.len() implies balanced(
        #[trigger] group_ops(gs[i].group),
    ) by {
        lemma_group_ops_balanced(gs[i].group);
    }
    lemma_render_balanced(gs, pp);
}

/// The composite render depends only on the groups' structural data, never
/// on their caches.
pub proof fn lemma_render_ops_congruence(
    a: Seq<GroupSceneV>,
    b: Seq<GroupSceneV>,
    pp: Seq<PostProcessEntryV>,
)
    requires
        a.len() == b.len(),
        forall|i: int| 0 <= i < a.len() ==> (#[trigger] a[i]).group == b[i].group,
    ensures
        render_ops(a, pp) == render_ops(b, pp),
{
    lemma_walk_congruence(a, b, pp, a.len() as int);
}

proof fn lemma_walk_congruence(
    a: Seq<GroupSceneV>,
    b: Seq<GroupSceneV>,
    pp: Seq<PostProcessEntryV>,
    i: int,
)
    requires
        i <= a.len(),
        a.len() == b.len(),
        forall|i: int| 0 <= i < a.len() ==> (#[trigger] a[i]).group == b[i].group,
    ensures
        walk_to(a, pp, i) == walk_to(b, pp, i),
    decreases i,
{
    if i > 0 {
        lemma_walk_congruence(a, b, pp, i - 1);
        if 0 <= i - 1 < a.len() {
            assert(a[i - 1].group == b[i - 1].group);
        }
    }
}

/// Rendering is idempotent: two render passes in a row without any
/// intervening mutation produce identical output scenes, and the second
/// pass leaves the arena exactly as the first did (no counter advances, no
/// hidden state).
pub proof fn lemma_render_idempotent(
    s0: TypstScene,
    s1: TypstScene,
    s2: TypstScene,
    out1: Scene,
    out2: Scene,
)
    requires
        render_rel(s0, s1, out1),
        render_rel(s1, s2, out2),
    ensures
        out2@ == out1@,
        s2.groups_view() == s1.groups_view(),
{
    lemma_render_ops_congruence(s1.groups_view(), s0.groups_view(), s1.pp_view());
    assert(s2.groups_view() =~= s1.groups_view());
}

} // verus!
