//! The arena: a layout tree flattened into an indexed sequence of groups.
//!
//! Index 0 is the synthetic root.  Every group stores its size, its
//! parent-relative transform, the index of its parent (`None` only for the
//! root, and always smaller than the group's own index), an optional
//! compositing layer, an optional stable label, and the draw items it owns
//! directly.  Labelled groups are additionally indexed by label, in
//! insertion order.  Each group carries a cached rendered sub-scene with a
//! validity flag and a recompute counter.

use vstd::prelude::*;
use crate::geom::{affine_compose, Affine, RenderState, Vec2};
use crate::leaf::{
    kind_ops, render_image, render_image_spec, render_shape, render_shape_spec, render_text,
    render_text_spec, SceneKind, SceneKindV,
};
use crate::num::ONE;
use crate::paint::BlendMode;
use crate::scene::{Layer, LayerV, OpV, Scene};
use crate::tree::{Frame, FrameItem, FrameSlot, FrameKind, GroupItem, Label};

verus! {

/// One flattened node of the layout tree.
#[derive(Debug, PartialEq, Eq)]
pub struct TypstGroup {
    pub(crate) size: Vec2,
    pub(crate) transform: Affine,
    pub(crate) scenes: Vec<SceneKind>,
    pub(crate) parent: Option<usize>,
    pub(crate) layer: Option<Layer>,
    pub(crate) label: Option<Label>,
}

/// Mathematical content of a [`TypstGroup`].
pub ghost struct GroupV {
    pub size: Vec2,
    pub transform: Affine,
    pub scenes: Seq<SceneKindV>,
    pub parent: Option<usize>,
    pub layer: Option<LayerV>,
    pub label: Option<Label>,
}

impl View for TypstGroup {
    type V = GroupV;

    open(crate) spec fn view(&self) -> GroupV {
        GroupV {
            size: self.size,
            transform: self.transform,
            scenes: self.scenes@.map_values(|s: SceneKind| s@),
            parent: self.parent,
            layer: match self.layer {
                Option::Some(ref l) => Option::Some(l@),
                Option::None => Option::None,
            },
            label: self.label,
        }
    }
}

impl Default for TypstGroup {
    /// An empty group: zero size, identity transform, no parent, no layer,
    /// no label, no items.
    fn default() -> (r: TypstGroup)
        ensures
            r@ == GroupV::default_spec(),
    {
        let r = TypstGroup {
            size: Vec2::zero(),
            transform: Affine::identity(),
            scenes: Vec::new(),
            parent: None,
            layer: None,
            label: None,
        };
        proof {
            assert(r@.scenes =~= GroupV::default_spec().scenes);
        }
        r
    }
}

impl GroupV {
    /// The content of a default group.
    pub open spec fn default_spec() -> GroupV {
        GroupV {
            size: Vec2::zero_spec(),
            transform: Affine::identity_spec(),
            scenes: Seq::<SceneKindV>::empty(),
            parent: Option::None,
            layer: Option::None,
            label: Option::None,
        }
    }
}

/// The operations of the first `i` draw items of `ss`, concatenated.
pub open spec fn kinds_ops_to(ss: Seq<SceneKindV>, i: int) -> Seq<OpV>
    decreases i,
{
    if i <= 0 {
        Seq::<OpV>::empty()
    } else {
        kinds_ops_to(ss, i - 1) + kind_ops(ss[i - 1])
    }
}

/// The operations of a group's own draw items, in order.
pub open spec fn group_ops(g: GroupV) -> Seq<OpV> {
    kinds_ops_to(g.scenes, g.scenes.len() as int)
}

impl TypstGroup {
    /// Builds a group holding a single draw item.
    pub fn from_scene(scene: SceneKind, parent: Option<usize>) -> (r: TypstGroup)
        ensures
            r@ == (GroupV {
                scenes: seq![scene@],
                parent,
                ..GroupV::default_spec()
            }),
    {
        let ghost sv = scene@;
        let mut scenes: Vec<SceneKind> = Vec::new();
        scenes.push(scene);
        let r = TypstGroup {
            size: Vec2::zero(),
            transform: Affine::identity(),
            scenes,
            parent,
            layer: None,
            label: None,
        };
        proof {
            assert(r@.scenes =~= seq![sv]);
        }
        r
    }

    /// The group's local content-box size.
    pub fn size(&self) -> (r: Vec2)
        ensures
            r == self@.size,
    {
        self.size
    }

    /// The group's transform, relative to its parent group.
    pub fn transform(&self) -> (r: Affine)
        ensures
            r == self@.transform,
    {
        self.transform
    }

    /// The index of the owning group; `None` only for the root.
    pub fn parent(&self) -> (r: Option<usize>)
        ensures
            r == self@.parent,
    {
        self.parent
    }

    /// The group's compositing layer, if any.
    pub fn layer(&self) -> (r: Option<&Layer>)
        ensures
            (match r {
                Option::Some(l) => Option::Some(l@),
                Option::None => Option::<LayerV>::None,
            }) == self@.layer,
    {
        self.layer.as_ref()
    }

    /// The group's stable label, if any.
    pub fn label(&self) -> (r: Option<Label>)
        ensures
            r == self@.label,
    {
        self.label
    }

    /// Replaces the group's transform.  Reached through
    /// [`TypstScene::get_group_mut`], this is the designated way to apply a
    /// structural override to one group; the handle already marked the
    /// group's cache invalid.
    pub fn set_transform(&mut self, transform: Affine)
        ensures
            final(self)@ == (GroupV { transform, ..old(self)@ }),
    {
        self.transform = transform;
    }

    /// Replaces the group's compositing layer.
    pub fn set_layer(&mut self, layer: Option<Layer>)
        ensures
            final(self)@ == (GroupV {
                layer: match layer {
                    Option::Some(ref l) => Option::Some(l@),
                    Option::None => Option::None,
                },
                ..old(self)@
            }),
    {
        self.layer = layer;
    }
}

/// Renders a group's own draw items into a fresh sub-scene.
pub fn render_group_scene(group: &TypstGroup) -> (r: Scene)
    ensures
        r@ == group_ops(group@),
{
    let mut scene = Scene::new();
    let mut i: usize = 0;
    while i < group.scenes.len()
        invariant
            i <= group.scenes.len(),
            scene@ == kinds_ops_to(group@.scenes, i as int),
        decreases group.scenes.len() - i,
    {
        group.scenes[i].render(&mut scene);
        proof {
            assert(group@.scenes[i as int] == group.scenes@[i as int]@);
            assert(scene@ =~= kinds_ops_to(group@.scenes, i + 1 as int));
        }
        i = i + 1;
    }
    scene
}

/// Processes a group's draw items into sub-scenes at render time; the
/// embedding application may implement this to post-process individual
/// items.
pub trait SceneProcesser {
    /// Produces the sub-scene of the draw item at `scene_index`.
    fn process_scene(&self, scene_index: usize, scene: &SceneKind) -> Scene;
}

/// Renders every draw item as it is, without any post-processing.
pub struct EmptySceneProcessor;

impl SceneProcesser for EmptySceneProcessor {
    /// Renders the draw item exactly as it is.
    fn process_scene(&self, scene_index: usize, scene: &SceneKind) -> (r: Scene)
        ensures
            r@ == kind_ops(scene@),
    {
        let mut vello_scene = Scene::new();
        scene.render(&mut vello_scene);
        proof {
            assert(vello_scene@ =~= kind_ops(scene@));
        }
        vello_scene
    }
}

impl TypstGroup {
    /// Renders the group's draw items through a scene processor.  What this
    /// returns depends on the processor; rendering through
    /// [`EmptySceneProcessor`] produces [`group_ops`] of the group, as
    /// [`render_group_scene`] does with a proven contract.
    pub fn render(&self, scene_processor: &impl SceneProcesser) -> Scene {
        let mut vello_scene = Scene::new();
        let mut i: usize = 0;
        while i < self.scenes.len()
            decreases self.scenes.len() - i,
        {
            let sub = scene_processor.process_scene(i, &self.scenes[i]);
            vello_scene.append(&sub, None);
            i = i + 1;
        }
        vello_scene
    }
}

/// A group together with its cached rendered sub-scene.
#[derive(Debug, PartialEq, Eq)]
pub struct TypstGroupScene {
    pub(crate) group: TypstGroup,
    pub(crate) scene: Scene,
    pub(crate) updated: bool,
    pub(crate) renders: u64,
}

/// Mathematical content of a [`TypstGroupScene`].
pub ghost struct GroupSceneV {
    pub group: GroupV,
    pub scene: Seq<OpV>,
    pub updated: bool,
    pub renders: u64,
}

impl View for TypstGroupScene {
    type V = GroupSceneV;

    open(crate) spec fn view(&self) -> GroupSceneV {
        GroupSceneV {
            group: self.group@,
            scene: self.scene@,
            updated: self.updated,
            renders: self.renders,
        }
    }
}

impl TypstGroupScene {
    /// Wraps a group with an empty, invalid cache.
    pub fn new(group: TypstGroup) -> (r: TypstGroupScene)
        ensures
            r@ == (GroupSceneV {
                group: group@,
                scene: Seq::<OpV>::empty(),
                updated: false,
                renders: 0,
            }),
    {
        let r = TypstGroupScene { group, scene: Scene::new(), updated: false, renders: 0 };
        r
    }

    /// How many times this group's sub-scene has been recomputed.
    pub fn renders(&self) -> (r: u64)
        ensures
            r == self@.renders,
    {
        self.renders
    }
}

/// A label-targeted override applied at render time: an optional transform
/// override and an optional layer override.  Stored group data is never
/// mutated by an override.
#[derive(Debug, PartialEq, Eq)]
pub struct PostProcess {
    /// Transform override.
    pub transform: Option<Affine>,
    /// Layer override.
    pub layer: Option<Layer>,
}

/// Mathematical content of a [`PostProcess`].
pub ghost struct PostProcessV {
    pub transform: Option<Affine>,
    pub layer: Option<LayerV>,
}

impl View for PostProcess {
    type V = PostProcessV;

    open(crate) spec fn view(&self) -> PostProcessV {
        PostProcessV {
            transform: self.transform,
            layer: match self.layer {
                Option::Some(ref l) => Option::Some(l@),
                Option::None => Option::None,
            },
        }
    }
}

impl Default for PostProcess {
    /// No overrides.
    fn default() -> (r: PostProcess)
        ensures
            r@ == (PostProcessV { transform: Option::None, layer: Option::None }),
    {
        PostProcess { transform: None, layer: None }
    }
}

/// The label index entry of one label: the indices of the groups carrying
/// it, in insertion order.
#[derive(Debug, PartialEq, Eq)]
pub struct LabelIndices {
    pub(crate) label: Label,
    pub(crate) indices: Vec<usize>,
}

/// Mathematical content of a [`LabelIndices`].
pub ghost struct LabelIndicesV {
    pub label: Label,
    pub indices: Seq<usize>,
}

impl View for LabelIndices {
    type V = LabelIndicesV;

    open(crate) spec fn view(&self) -> LabelIndicesV {
        LabelIndicesV { label: self.label, indices: self.indices@ }
    }
}

/// One entry of the post-process override table.
#[derive(Debug, PartialEq, Eq)]
pub struct PostProcessEntry {
    pub(crate) label: Label,
    pub(crate) post_process: PostProcess,
}

/// Mathematical content of a [`PostProcessEntry`].
pub ghost struct PostProcessEntryV {
    pub label: Label,
    pub post: PostProcessV,
}

impl View for PostProcessEntry {
    type V = PostProcessEntryV;

    open(crate) spec fn view(&self) -> PostProcessEntryV {
        PostProcessEntryV { label: self.label, post: self.post_process@ }
    }
}

/// The indices of the groups labelled `l`, in ascending order.
pub open spec fn label_indices(gs: Seq<GroupSceneV>, l: Label) -> Seq<usize>
    decreases gs.len(),
{
    if gs.len() == 0 {
        Seq::<usize>::empty()
    } else {
        let pre = label_indices(gs.drop_last(), l);
        if gs.last().group.label == Option::Some(l) {
            pre.push((gs.len() - 1) as usize)
        } else {
            pre
        }
    }
}

/// The first label-index entry at or after `i` carrying `l`, or the length.
pub open spec fn find_li_from(m: Seq<LabelIndicesV>, l: Label, i: int) -> int
    decreases m.len() - i,
{
    if i < 0 || i >= m.len() {
        m.len() as int
    } else if m[i].label == l {
        i
    } else {
        find_li_from(m, l, i + 1)
    }
}

/// The first override entry at or after `i` carrying `l`, or the length.
pub open spec fn find_pp_from(m: Seq<PostProcessEntryV>, l: Label, i: int) -> int
    decreases m.len() - i,
{
    if i < 0 || i >= m.len() {
        m.len() as int
    } else if m[i].label == l {
        i
    } else {
        find_pp_from(m, l, i + 1)
    }
}

/// The override registered for `l`, if any.
pub open spec fn pp_of(m: Seq<PostProcessEntryV>, l: Label) -> Option<PostProcessV> {
    let k = find_pp_from(m, l, 0);
    if k < m.len() {
        Option::Some(m[k].post)
    } else {
        Option::None
    }
}

/// The flattened scene: an indexed arena of groups, a label index, the
/// override table, and the overall canvas size.
#[derive(Debug, PartialEq, Eq)]
pub struct TypstScene {
    pub(crate) size: Vec2,
    pub(crate) group_scenes: Vec<TypstGroupScene>,
    pub(crate) group_map: Vec<LabelIndices>,
    pub(crate) post_process_map: Vec<PostProcessEntry>,
}

impl TypstScene {
    /// The groups of the arena, in index order.
    pub open(crate) spec fn groups_view(&self) -> Seq<GroupSceneV> {
        self.group_scenes@.map_values(|g: TypstGroupScene| g@)
    }

    /// The label index.
    pub open(crate) spec fn map_view(&self) -> Seq<LabelIndicesV> {
        self.group_map@.map_values(|e: LabelIndices| e@)
    }

    /// The override table.
    pub open(crate) spec fn pp_view(&self) -> Seq<PostProcessEntryV> {
        self.post_process_map@.map_values(|e: PostProcessEntry| e@)
    }

    /// Every non-root group's parent precedes it (the pre-order invariant).
    pub open spec fn parent_wf(gs: Seq<GroupSceneV>) -> bool {
        forall|i: int|
            0 <= i < gs.len() ==> match #[trigger] gs[i].group.parent {
                Option::Some(p) => p < i,
                Option::None => true,
            }
    }

    /// The label index is exactly the labels of the groups: entries carry
    /// distinct labels, each entry lists precisely the indices of the
    /// groups with its label in order, and every label that occurs in the
    /// arena has an entry.
    pub open spec fn map_ok(gs: Seq<GroupSceneV>, m: Seq<LabelIndicesV>) -> bool {
        &&& forall|j: int, k: int| 0 <= j < k < m.len() ==> m[j].label != m[k].label
        &&& forall|j: int|
            0 <= j < m.len() ==> #[trigger] m[j].indices == label_indices(gs, m[j].label)
        &&& forall|j: int| 0 <= j < m.len() ==> (#[trigger] m[j].indices).len() > 0
        &&& forall|l: Label|
            label_indices(gs, l).len() > 0 ==> exists|j: int| 0 <= j < m.len() && m[j].label == l
    }

    /// A valid cache reflects the group's current draw items.
    pub open spec fn caches_ok(gs: Seq<GroupSceneV>) -> bool {
        forall|i: int|
            0 <= i < gs.len() ==> (#[trigger] gs[i].updated ==> gs[i].scene == group_ops(
                gs[i].group,
            ))
    }

    /// The override table carries distinct labels.
    pub open spec fn pp_ok(m: Seq<PostProcessEntryV>) -> bool {
        forall|j: int, k: int| 0 <= j < k < m.len() ==> m[j].label != m[k].label
    }

    /// Well-formedness of the whole arena.
    pub open spec fn wf(&self) -> bool {
        &&& TypstScene::parent_wf(self.groups_view())
        &&& TypstScene::map_ok(self.groups_view(), self.map_view())
        &&& TypstScene::caches_ok(self.groups_view())
        &&& TypstScene::pp_ok(self.pp_view())
    }
}

/// A fresh, invalid cache around a group.
pub open spec fn fresh_gsv(g: GroupV) -> GroupSceneV {
    GroupSceneV { group: g, scene: Seq::<OpV>::empty(), updated: false, renders: 0 }
}

/// `acc` with the draw item `k` appended to the items of group `gi`.
pub open spec fn push_kind(acc: Seq<GroupSceneV>, gi: int, k: SceneKindV) -> Seq<GroupSceneV> {
    acc.update(
        gi,
        GroupSceneV {
            group: GroupV { scenes: acc[gi].group.scenes.push(k), ..acc[gi].group },
            ..acc[gi]
        },
    )
}

/// The arena after flattening the items of `f` from index `i` on into
/// group `gi`, threading the relative-paint resolution state.
pub open spec fn sp_items(
    acc: Seq<GroupSceneV>,
    f: Frame,
    i: int,
    state: RenderState,
    gi: int,
) -> Seq<GroupSceneV>
    decreases f, f.items@.len() - i,
{
    if i < 0 || i >= f.items@.len() {
        acc
    } else {
        sp_items(sp_slot(acc, f.items@[i], state, gi), f, i + 1, state, gi)
    }
}

/// The arena after flattening one positioned item into group `gi`: leaf
/// items are rendered and appended to group `gi` (an image with a zero
/// extent on either axis is skipped entirely, and ignored markers are
/// skipped), and a nested frame spawns a new group.
pub open spec fn sp_slot(
    acc: Seq<GroupSceneV>,
    slot: FrameSlot,
    state: RenderState,
    gi: int,
) -> Seq<GroupSceneV>
    decreases slot, 0int,
{
    let st1 = RenderState {
        transform: affine_compose(state.transform, Affine::translate_spec(slot.pos)),
        size: state.size,
    };
    let local = Affine::translate_spec(slot.pos);
    match slot.item {
        FrameItem::Group(g) => sp_group(acc, g, st1, local, Option::Some(gi as usize)),
        FrameItem::Shape(s) => push_kind(
            acc,
            gi,
            SceneKindV::Shape(render_shape_spec(s, st1, local)),
        ),
        FrameItem::Text(t) => push_kind(acc, gi, SceneKindV::Text(render_text_spec(t, st1, local))),
        FrameItem::Image(img) => if img.size.x == 0 || img.size.y == 0 {
            acc
        } else {
            push_kind(acc, gi, SceneKindV::Image(render_image_spec(img.kind, img.size, local)))
        },
        FrameItem::Link => acc,
        FrameItem::Tag => acc,
    }
}

/// The arena after flattening a nested frame: a new group is appended
/// (before its contents, so parents always precede children), carrying the
/// frame's size, the translate-then-declared transform, the clip wrapped as
/// a layer, and the label; then the frame's items are flattened into it.  A
/// soft frame keeps accumulating the running transform, a hard frame
/// resets it and establishes its own reference size.
pub open spec fn sp_group(
    acc: Seq<GroupSceneV>,
    g: GroupItem,
    state: RenderState,
    local_transform: Affine,
    parent: Option<usize>,
) -> Seq<GroupSceneV>
    decreases g, 0int,
{
    let gv = GroupV {
        size: g.frame.size,
        transform: affine_compose(local_transform, g.transform),
        scenes: Seq::<SceneKindV>::empty(),
        parent,
        layer: match g.clip_path {
            Option::Some(p) => Option::Some(
                LayerV {
                    blend_mode: BlendMode::normal_spec(),
                    alpha: ONE,
                    clip_path: Option::Some(p@),
                },
            ),
            Option::None => Option::None,
        },
        label: g.label,
    };
    let st2 = match g.frame.kind {
        FrameKind::Soft => RenderState {
            transform: affine_compose(state.transform, g.transform),
            size: state.size,
        },
        FrameKind::Hard => RenderState {
            transform: Affine::identity_spec(),
            size: g.frame.size,
        },
    };
    sp_items(acc.push(fresh_gsv(gv)), g.frame, 0, st2, acc.len() as int)
}

/// The synthetic root group of a tree: the tree's size, defaults otherwise.
pub open spec fn root_gsv(f: Frame) -> GroupSceneV {
    fresh_gsv(GroupV { size: f.size, ..GroupV::default_spec() })
}

/// The arena built from a whole layout tree.
pub open spec fn sp_flatten(f: Frame) -> Seq<GroupSceneV> {
    sp_items(
        seq![root_gsv(f)],
        f,
        0,
        RenderState { size: f.size, transform: Affine::identity_spec() },
        0,
    )
}

/// Appending a group extends exactly its own label's index list, by the
/// new group's index.
pub proof fn lemma_label_indices_push(gs: Seq<GroupSceneV>, e: GroupSceneV, l: Label)
    ensures
        label_indices(gs.push(e), l) == if e.group.label == Option::Some(l) {
            label_indices(gs, l).push(gs.len() as usize)
        } else {
            label_indices(gs, l)
        },
{
    assert(gs.push(e).drop_last() =~= gs);
    assert(gs.push(e).last() == e);
}

/// The label index depends only on the groups' labels.
pub proof fn lemma_label_indices_congruence(a: Seq<GroupSceneV>, b: Seq<GroupSceneV>, l: Label)
    requires
        a.len() == b.len(),
        forall|i: int| 0 <= i < a.len() ==> a[i].group.label == b[i].group.label,
    ensures
        label_indices(a, l) == label_indices(b, l),
    decreases a.len(),
{
    if a.len() > 0 {
        assert(forall|i: int|
            0 <= i < a.drop_last().len() ==> a.drop_last()[i].group.label
                == b.drop_last()[i].group.label);
        lemma_label_indices_congruence(a.drop_last(), b.drop_last(), l);
        assert(a.last().group.label == b.last().group.label);
    }
}

/// Where the scan for a label-index entry stops: every entry before it
/// carries another label, and the entry there (if within bounds) carries
/// the label sought.
pub proof fn lemma_find_li_props(m: Seq<LabelIndicesV>, l: Label, i: int)
    requires
        0 <= i <= m.len(),
    ensures
        i <= find_li_from(m, l, i) <= m.len(),
        forall|j: int| i <= j < find_li_from(m, l, i) ==> m[j].label != l,
        find_li_from(m, l, i) < m.len() ==> m[find_li_from(m, l, i)].label == l,
    decreases m.len() - i,
{
    if i < m.len() && m[i].label != l {
        lemma_find_li_props(m, l, i + 1);
    }
}

/// As [`lemma_find_li_props`], for the override table.
pub proof fn lemma_find_pp_props(m: Seq<PostProcessEntryV>, l: Label, i: int)
    requires
        0 <= i <= m.len(),
    ensures
        i <= find_pp_from(m, l, i) <= m.len(),
        forall|j: int| i <= j < find_pp_from(m, l, i) ==> m[j].label != l,
        find_pp_from(m, l, i) < m.len() ==> m[find_pp_from(m, l, i)].label == l,
    decreases m.len() - i,
{
    if i < m.len() && m[i].label != l {
        lemma_find_pp_props(m, l, i + 1);
    }
}

impl TypstScene {
    /// The position of the label-index entry of `label`, or the table's
    /// length when there is none.
    fn find_label_entry(&self, label: Label) -> (r: usize)
        ensures
            r as int == find_li_from(self.map_view(), label, 0),
    {
        let n = self.group_map.len();
        let mut k: usize = 0;
        while k < n
            invariant
                0 <= k <= n,
                n == self.group_map@.len(),
                find_li_from(self.map_view(), label, 0) == find_li_from(
                    self.map_view(),
                    label,
                    k as int,
                ),
            decreases n - k,
        {
            if self.group_map[k].label == label {
                return k;
            }
            k = k + 1;
        }
        n
    }

    /// Appends `group` to the arena, recording its index under its label
    /// (if it has one) at the moment of append.  The new group's cache
    /// starts empty and invalid.
    fn append_group(&mut self, group: TypstGroup)
        requires
            TypstScene::parent_wf(old(self).groups_view()),
            TypstScene::map_ok(old(self).groups_view(), old(self).map_view()),
            TypstScene::caches_ok(old(self).groups_view()),
            match group@.parent {
                Option::Some(p) => (p as int) < old(self).groups_view().len(),
                Option::None => true,
            },
        ensures
            final(self).groups_view() == old(self).groups_view().push(fresh_gsv(group@)),
            TypstScene::parent_wf(final(self).groups_view()),
            TypstScene::map_ok(final(self).groups_view(), final(self).map_view()),
            TypstScene::caches_ok(final(self).groups_view()),
            final(self).size == old(self).size,
            final(self).post_process_map == old(self).post_process_map,
    {
        let ghost old_gs = self.groups_view();
        let ghost old_mv = self.map_view();
        let ghost gv = group@;
        let index = self.group_scenes.len();
        let glabel = group.label;
        proof {
            assert forall|l: Label| true implies label_indices(old_gs.push(fresh_gsv(gv)), l)
                == if gv.label == Option::Some(l) {
                    label_indices(old_gs, l).push(old_gs.len() as usize)
                } else {
                    label_indices(old_gs, l)
                } by {
                lemma_label_indices_push(old_gs, fresh_gsv(gv), l);
            }
        }
        match glabel {
            Option::Some(label) => {
                let k = self.find_label_entry(label);
                proof {
                    lemma_find_li_props(old_mv, label, 0);
                }
                if k < self.group_map.len() {
                    let e = &mut self.group_map[k];
                    e.indices.push(index);
                    proof {
                        assert(self.map_view() =~= old_mv.update(
                            k as int,
                            LabelIndicesV {
                                label: old_mv[k as int].label,
                                indices: old_mv[k as int].indices.push(index),
                            },
                        ));
                    }
                } else {
                    let mut indices: Vec<usize> = Vec::new();
                    indices.push(index);
                    self.group_map.push(LabelIndices { label, indices });
                    proof {
                        assert(self.map_view() =~= old_mv.push(
                            LabelIndicesV { label, indices: seq![index] },
                        ));
                        assert(label_indices(old_gs, label).len() == 0);
                        assert(label_indices(old_gs, label) =~= Seq::<usize>::empty());
                    }
                }
            },
            Option::None => {},
        }
        let ghost mid_mv = self.map_view();
        self.group_scenes.push(TypstGroupScene::new(group));
        proof {
            assert(self.groups_view() =~= old_gs.push(fresh_gsv(gv)));
            assert(self.map_view() == mid_mv);
            let new_gs = self.groups_view();
            let new_mv = self.map_view();
            assert forall|j: int| 0 <= j < new_mv.len() implies #[trigger] new_mv[j].indices
                == label_indices(new_gs, new_mv[j].label) by {
                if gv.label is Some {
                    let label = gv.label->0;
                    let k = find_li_from(old_mv, label, 0);
                    if k < old_mv.len() {
                        if j == k {
                            assert(new_mv[j].indices == old_mv[k].indices.push(index));
                        } else {
                            assert(new_mv[j] == old_mv[j]);
                            assert(old_mv[j].label != label);
                        }
                    } else {
                        if j < old_mv.len() {
                            assert(new_mv[j] == old_mv[j]);
                            assert(old_mv[j].label != label);
                        } else {
                            assert(new_mv[j].indices == seq![index]);
                            assert(label_indices(new_gs, label) == label_indices(
                                old_gs,
                                label,
                            ).push(index));
                            assert(label_indices(old_gs, label) =~= Seq::<usize>::empty());
                            assert(label_indices(new_gs, label) =~= seq![index]);
                        }
                    }
                } else {
                    assert(new_mv[j] == old_mv[j]);
                }
            }
            assert forall|l: Label| label_indices(new_gs, l).len() > 0 implies exists|j: int|
                0 <= j < new_mv.len() && new_mv[j].label == l by {
                if gv.label == Option::Some(l) {
                    let k = find_li_from(old_mv, l, 0);
                    if k < old_mv.len() {
                        assert(new_mv[k].label == l);
                    } else {
                        assert(new_mv[new_mv.len() - 1].label == l);
                    }
                } else {
                    assert(label_indices(new_gs, l) == label_indices(old_gs, l));
                    let j = choose|j: int| 0 <= j < old_mv.len() && old_mv[j].label == l;
                    assert(j < new_mv.len() && new_mv[j].label == l);
                }
            }
        }
    }
}

impl TypstScene {
    /// The overall canvas size.
    pub open(crate) spec fn size_spec(&self) -> Vec2 {
        self.size
    }

    /// Invariant maintained while flattening: structure and label index are
    /// consistent and every cache is fresh.
    pub open spec fn building(&self) -> bool {
        &&& TypstScene::parent_wf(self.groups_view())
        &&& TypstScene::map_ok(self.groups_view(), self.map_view())
        &&& forall|i: int|
            0 <= i < self.groups_view().len() ==> {
                &&& (#[trigger] self.groups_view()[i]).updated == false
                &&& self.groups_view()[i].scene == Seq::<OpV>::empty()
                &&& self.groups_view()[i].renders == 0
            }
    }

    /// Appends one rendered draw item to the items of group `gi`.
    fn push_group_kind(&mut self, gi: usize, kind: SceneKind)
        requires
            old(self).building(),
            (gi as int) < old(self).groups_view().len(),
        ensures
            final(self).groups_view() == push_kind(old(self).groups_view(), gi as int, kind@),
            final(self).building(),
            final(self).groups_view().len() == old(self).groups_view().len(),
            final(self).size == old(self).size,
            final(self).post_process_map == old(self).post_process_map,
            final(self).map_view() == old(self).map_view(),
    {
        let ghost gs0 = self.groups_view();
        let ghost kv = kind@;
        let e = &mut self.group_scenes[gi];
        e.group.scenes.push(kind);
        proof {
            let gs1 = self.groups_view();
            assert(gs1[gi as int].group.scenes =~= gs0[gi as int].group.scenes.push(kv));
            assert(gs1[gi as int] == (GroupSceneV {
                group: GroupV {
                    scenes: gs0[gi as int].group.scenes.push(kv),
                    ..gs0[gi as int].group
                },
                ..gs0[gi as int]
            }));
            assert(gs1 =~= push_kind(gs0, gi as int, kv));
            assert forall|l: Label| #[trigger] label_indices(gs1, l) == label_indices(gs0, l) by {
                lemma_label_indices_congruence(gs1, gs0, l);
            }
        }
    }

    /// Flattens the items of `frame` into group `group_index`, spawning new
    /// groups for nested frames (see [`sp_items`]).
    fn handle_frame(&mut self, frame: &Frame, state: RenderState, group_index: usize)
        requires
            old(self).building(),
            (group_index as int) < old(self).groups_view().len(),
        ensures
            final(self).groups_view() == sp_items(
                old(self).groups_view(),
                *frame,
                0,
                state,
                group_index as int,
            ),
            final(self).building(),
            final(self).groups_view().len() >= old(self).groups_view().len(),
            final(self).size == old(self).size,
            final(self).post_process_map == old(self).post_process_map,
        decreases *frame, 0int,
    {
        let ghost gs0 = self.groups_view();
        let n = frame.items.len();
        let mut i: usize = 0;
        while i < n
            invariant
                n == frame.items@.len(),
                i <= n,
                self.building(),
                (group_index as int) < self.groups_view().len(),
                self.groups_view().len() >= gs0.len(),
                sp_items(gs0, *frame, 0, state, group_index as int) == sp_items(
                    self.groups_view(),
                    *frame,
                    i as int,
                    state,
                    group_index as int,
                ),
                self.size == old(self).size,
                self.post_process_map == old(self).post_process_map,
            decreases n - i,
        {
            let ghost gs_pre = self.groups_view();
            let slot = &frame.items[i];
            let pos = slot.pos;
            let local_transform = Affine::translate(pos);
            let st1 = state.pre_translate(pos);
            proof {
                assert(st1 == (RenderState {
                    transform: affine_compose(state.transform, Affine::translate_spec(pos)),
                    size: state.size,
                }));
            }
            match &slot.item {
                FrameItem::Group(g) => {
                    proof {
                        assert(decreases_to!(*frame => frame.items));
                        assert(decreases_to!(frame.items => frame.items@[i as int]));
                        assert(decreases_to!(frame.items@[i as int] => frame.items@[i as int].item));
                    }
                    self.handle_group(g, st1, local_transform, Some(group_index));
                },
                FrameItem::Shape(shape) => {
                    let kind = SceneKind::Shape(render_shape(shape, st1, local_transform));
                    self.push_group_kind(group_index, kind);
                },
                FrameItem::Text(text) => {
                    let kind = SceneKind::Text(render_text(text, st1, local_transform));
                    self.push_group_kind(group_index, kind);
                },
                FrameItem::Image(img) => {
                    if img.size.x == 0 || img.size.y == 0 {
                        // A zero extent on either axis is a hard validity
                        // gate: the image is skipped entirely.
                    } else {
                        let kind = SceneKind::Image(
                            render_image(&img.kind, img.size, local_transform),
                        );
                        self.push_group_kind(group_index, kind);
                    }
                },
                FrameItem::Link => {},
                FrameItem::Tag => {},
            }
            proof {
                assert(self.groups_view() == sp_slot(
                    gs_pre,
                    frame.items@[i as int],
                    state,
                    group_index as int,
                ));
                assert(sp_items(gs_pre, *frame, i as int, state, group_index as int) == sp_items(
                    self.groups_view(),
                    *frame,
                    i + 1,
                    state,
                    group_index as int,
                ));
            }
            i = i + 1;
        }
    }

    /// Flattens one nested frame: appends its group (before its contents),
    /// then recurses into its items (see [`sp_group`]).
    fn handle_group(
        &mut self,
        group: &GroupItem,
        state: RenderState,
        local_transform: Affine,
        parent: Option<usize>,
    )
        requires
            old(self).building(),
            match parent {
                Option::Some(p) => (p as int) < old(self).groups_view().len(),
                Option::None => true,
            },
        ensures
            final(self).groups_view() == sp_group(
                old(self).groups_view(),
                *group,
                state,
                local_transform,
                parent,
            ),
            final(self).building(),
            final(self).groups_view().len() >= old(self).groups_view().len(),
            final(self).size == old(self).size,
            final(self).post_process_map == old(self).post_process_map,
        decreases *group, 1int,
    {
        let transform = local_transform.pre_concat(&group.transform);
        let layer: Option<Layer> = match &group.clip_path {
            Option::Some(p) => Option::Some(
                Layer {
                    blend_mode: BlendMode::normal(),
                    alpha: ONE,
                    clip_path: Option::Some(p.clone()),
                },
            ),
            Option::None => Option::None,
        };
        let group_paths = TypstGroup {
            size: group.frame.size,
            transform,
            scenes: Vec::new(),
            parent,
            layer,
            label: group.label,
        };
        let state2 = match group.frame.kind {
            FrameKind::Soft => state.pre_concat(&group.transform),
            FrameKind::Hard => state.with_transform(Affine::identity()).with_size(
                group.frame.size,
            ),
        };
        let group_index = self.group_scenes.len();
        proof {
            assert(group_paths@.scenes =~= Seq::<SceneKindV>::empty());
        }
        self.append_group(group_paths);
        proof {
            assert(decreases_to!(*group => group.frame));
        }
        self.handle_frame(&group.frame, state2, group_index);
    }

    /// Flattens a whole layout tree into a fresh arena: the synthetic root
    /// group (index 0) followed by one group per nested frame, in pre-order
    /// (see [`sp_flatten`]).
    pub fn from_frame(frame: &Frame) -> (r: TypstScene)
        ensures
            r.groups_view() == sp_flatten(*frame),
            r.wf(),
            r.size_spec() == frame.size,
            r.pp_view() == Seq::<PostProcessEntryV>::empty(),
    {
        let mut typst_scene = TypstScene {
            size: frame.size,
            group_scenes: Vec::new(),
            group_map: Vec::new(),
            post_process_map: Vec::new(),
        };
        proof {
            assert(typst_scene.groups_view() =~= Seq::<GroupSceneV>::empty());
            assert(typst_scene.map_view() =~= Seq::<LabelIndicesV>::empty());
            assert(typst_scene.pp_view() =~= Seq::<PostProcessEntryV>::empty());
        }
        let mut root = TypstGroup::default();
        root.size = frame.size;
        proof {
            assert(root@ == (GroupV { size: frame.size, ..GroupV::default_spec() }));
        }
        typst_scene.append_group(root);
        proof {
            assert(typst_scene.groups_view() =~= seq![root_gsv(*frame)]);
        }
        typst_scene.handle_frame(frame, RenderState::new(frame.size, Affine::identity()), 0);
        typst_scene
    }

    /// Clears the arena and re-flattens it from `frame`, keeping the
    /// override table.  Group indices from before the rebuild are invalid
    /// afterwards.
    pub fn update_frame(&mut self, frame: &Frame)
        ensures
            final(self).groups_view() == sp_flatten(*frame),
            TypstScene::parent_wf(final(self).groups_view()),
            TypstScene::map_ok(final(self).groups_view(), final(self).map_view()),
            TypstScene::caches_ok(final(self).groups_view()),
            final(self).size_spec() == frame.size,
            final(self).pp_view() == old(self).pp_view(),
    {
        self.group_scenes.clear();
        self.group_map.clear();
        self.size = frame.size;
        proof {
            assert(self.groups_view() =~= Seq::<GroupSceneV>::empty());
            assert(self.map_view() =~= Seq::<LabelIndicesV>::empty());
        }
        let mut root = TypstGroup::default();
        root.size = frame.size;
        proof {
            assert(root@ == (GroupV { size: frame.size, ..GroupV::default_spec() }));
        }
        self.append_group(root);
        proof {
            assert(self.groups_view() =~= seq![root_gsv(*frame)]);
        }
        self.handle_frame(frame, RenderState::new(frame.size, Affine::identity()), 0);
    }
}

/// Where the scan for an override entry stops, pinned from a
/// characterization of the prefix.
pub proof fn lemma_find_pp_eq(m: Seq<PostProcessEntryV>, l: Label, i: int, k: int)
    requires
        0 <= i <= k <= m.len(),
        forall|j: int| i <= j < k ==> m[j].label != l,
        k < m.len() ==> m[k].label == l,
    ensures
        find_pp_from(m, l, i) == k,
    decreases k - i,
{
    if i < k {
        lemma_find_pp_eq(m, l, i + 1, k);
    }
}

impl Default for TypstScene {
    /// The empty arena: no groups, no labels, no overrides, zero size.
    fn default() -> (r: TypstScene)
        ensures
            r.groups_view() == Seq::<GroupSceneV>::empty(),
            r.map_view() == Seq::<LabelIndicesV>::empty(),
            r.pp_view() == Seq::<PostProcessEntryV>::empty(),
            r.size_spec() == Vec2::zero_spec(),
            r.wf(),
    {
        let r = TypstScene {
            size: Vec2::zero(),
            group_scenes: Vec::new(),
            group_map: Vec::new(),
            post_process_map: Vec::new(),
        };
        proof {
            assert(r.groups_view() =~= Seq::<GroupSceneV>::empty());
            assert(r.map_view() =~= Seq::<LabelIndicesV>::empty());
            assert(r.pp_view() =~= Seq::<PostProcessEntryV>::empty());
        }
        r
    }
}

impl TypstScene {
    /// The indices of the groups labelled `label`, in the order the source
    /// nodes were encountered during flattening; `None` exactly when no
    /// group carries the label.
    pub fn query(&self, label: Label) -> (r: Option<&Vec<usize>>)
        requires
            self.wf(),
        ensures
            match r {
                Option::Some(v) => v@ == label_indices(self.groups_view(), label) && v@.len() > 0,
                Option::None => label_indices(self.groups_view(), label).len() == 0,
            },
    {
        let k = self.find_label_entry(label);
        proof {
            lemma_find_li_props(self.map_view(), label, 0);
        }
        if k < self.group_map.len() {
            proof {
                let mv = self.map_view();
                assert(mv[k as int].label == label);
                assert(mv[k as int].indices == label_indices(self.groups_view(), label));
                assert(self.group_map@[k as int]@ == mv[k as int]);
            }
            Some(&self.group_map[k].indices)
        } else {
            proof {
                let gs = self.groups_view();
                let mv = self.map_view();
                if label_indices(gs, label).len() > 0 {
                    let j = choose|j: int| 0 <= j < mv.len() && mv[j].label == label;
                    assert(mv[j].label != label);
                }
            }
            None
        }
    }

    /// The group at `index`.
    pub fn get_group(&self, index: usize) -> (r: &TypstGroup)
        requires
            (index as int) < self.groups_view().len(),
        ensures
            r@ == self.groups_view()[index as int].group,
    {
        &self.group_scenes[index].group
    }

    /// A mutable handle to the group at `index`.  Taking the handle marks
    /// the group's cache invalid, so the next render recomputes exactly
    /// this group's sub-scene; the rest of the arena is untouched.
    pub fn get_group_mut(&mut self, index: usize) -> (r: &mut TypstGroup)
        requires
            (index as int) < old(self).groups_view().len(),
        ensures
            r@ == old(self).groups_view()[index as int].group,
            final(self).groups_view().len() == old(self).groups_view().len(),
            forall|j: int|
                0 <= j < old(self).groups_view().len() && j != index as int
                    ==> final(self).groups_view()[j] == old(self).groups_view()[j],
            final(self).groups_view()[index as int] == (GroupSceneV {
                group: final(r)@,
                scene: old(self).groups_view()[index as int].scene,
                updated: false,
                renders: old(self).groups_view()[index as int].renders,
            }),
            final(self).map_view() == old(self).map_view(),
            final(self).pp_view() == old(self).pp_view(),
            final(self).size_spec() == old(self).size_spec(),
    {
        let e = &mut self.group_scenes[index];
        e.updated = false;
        &mut e.group
    }

    /// The number of groups in the arena.
    pub fn groups_len(&self) -> (r: usize)
        ensures
            r == self.groups_view().len(),
    {
        self.group_scenes.len()
    }

    /// How many times the sub-scene of the group at `index` has been
    /// recomputed by render passes.
    pub fn group_renders(&self, index: usize) -> (r: u64)
        requires
            (index as int) < self.groups_view().len(),
        ensures
            r == self.groups_view()[index as int].renders,
    {
        self.group_scenes[index].renders
    }

    /// Width and height of the entire scene.
    pub fn size(&self) -> (r: Vec2)
        ensures
            r == self.size_spec(),
    {
        self.size
    }

    /// The position of the override entry of `label`, or the table's
    /// length when there is none.
    pub(crate) fn find_post_entry(&self, label: Label) -> (r: usize)
        ensures
            r as int == find_pp_from(self.pp_view(), label, 0),
    {
        let n = self.post_process_map.len();
        let mut k: usize = 0;
        while k < n
            invariant
                0 <= k <= n,
                n == self.post_process_map@.len(),
                find_pp_from(self.pp_view(), label, 0) == find_pp_from(
                    self.pp_view(),
                    label,
                    k as int,
                ),
            decreases n - k,
        {
            if self.post_process_map[k].label == label {
                return k;
            }
            k = k + 1;
        }
        n
    }

    /// Registers (or replaces) the post-process override applied at render
    /// time to every group labelled `label`.
    pub fn set_post_process(&mut self, label: Label, post_process: PostProcess)
        requires
            TypstScene::pp_ok(old(self).pp_view()),
        ensures
            TypstScene::pp_ok(final(self).pp_view()),
            pp_of(final(self).pp_view(), label) == Option::Some(post_process@),
            forall|l: Label|
                l != label ==> pp_of(final(self).pp_view(), l) == pp_of(old(self).pp_view(), l),
            final(self).groups_view() == old(self).groups_view(),
            final(self).map_view() == old(self).map_view(),
            final(self).size_spec() == old(self).size_spec(),
    {
        let ghost old_pp = self.pp_view();
        let ghost pv = post_process@;
        let k = self.find_post_entry(label);
        proof {
            lemma_find_pp_props(old_pp, label, 0);
        }
        if k < self.post_process_map.len() {
            self.post_process_map[k] = PostProcessEntry { label, post_process };
            proof {
                let new_pp = self.pp_view();
                assert(new_pp =~= old_pp.update(
                    k as int,
                    PostProcessEntryV { label, post: pv },
                ));
                lemma_find_pp_eq(new_pp, label, 0, k as int);
                assert forall|l: Label| l != label implies pp_of(new_pp, l) == pp_of(old_pp, l) by {
                    lemma_find_pp_props(old_pp, l, 0);
                    let f = find_pp_from(old_pp, l, 0);
                    if f < old_pp.len() {
                        assert(old_pp[f].label == l);
                        assert(f != k as int);
                        lemma_find_pp_eq(new_pp, l, 0, f);
                    } else {
                        lemma_find_pp_eq(new_pp, l, 0, new_pp.len() as int);
                    }
                }
            }
        } else {
            self.post_process_map.push(PostProcessEntry { label, post_process });
            proof {
                let new_pp = self.pp_view();
                assert(new_pp =~= old_pp.push(PostProcessEntryV { label, post: pv }));
                lemma_find_pp_eq(new_pp, label, 0, k as int);
                assert forall|l: Label| l != label implies pp_of(new_pp, l) == pp_of(old_pp, l) by {
                    lemma_find_pp_props(old_pp, l, 0);
                    let f = find_pp_from(old_pp, l, 0);
                    if f < old_pp.len() {
                        assert(old_pp[f].label == l);
                        lemma_find_pp_eq(new_pp, l, 0, f);
                    } else {
                        lemma_find_pp_eq(new_pp, l, 0, new_pp.len() as int);
                    }
                }
            }
        }
    }

    /// The override registered for `label`, if any.
    pub fn get_post_process(&self, label: Label) -> (r: Option<&PostProcess>)
        ensures
            (match r {
                Option::Some(p) => Option::Some(p@),
                Option::None => Option::<PostProcessV>::None,
            }) == pp_of(self.pp_view(), label),
    {
        let k = self.find_post_entry(label);
        if k < self.post_process_map.len() {
            Some(&self.post_process_map[k].post_process)
        } else {
            None
        }
    }
}

} // verus!
