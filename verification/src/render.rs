//! The composite renderer: walks the arena in index order, accumulates
//! world transforms, manages the layer stack, and emits one flat backend
//! scene, reusing cached per-group sub-scenes where they are valid.

use vstd::prelude::*;
use crate::arena::{
    group_ops, label_indices, lemma_label_indices_congruence, pp_of, render_group_scene,
    GroupSceneV, GroupV, PostProcessEntryV, TypstScene,
};
use crate::geom::{affine_compose, rect_path, rect_path_spec, Affine};
use crate::scene::{premul_ops, Layer, LayerV, OpV, Scene};
use crate::tree::Label;

verus! {

/// The state of the composite walk after some prefix of the groups: the
/// emitted operations, the stack of open layers (each entry the index of
/// the group that opened it), and the world transform of every processed
/// group.
pub ghost struct WalkV {
    pub ops: Seq<OpV>,
    pub stack: Seq<usize>,
    pub worlds: Seq<Affine>,
}

/// The group's local transform: its stored transform, with the override's
/// transform pre-concatenated when one is registered for its label.
pub open spec fn local_transform_of(g: GroupV, pp: Seq<PostProcessEntryV>) -> Affine {
    match g.label {
        Option::Some(l) => match pp_of(pp, l) {
            Option::Some(p) => match p.transform {
                Option::Some(t) => affine_compose(g.transform, t),
                Option::None => g.transform,
            },
            Option::None => g.transform,
        },
        Option::None => g.transform,
    }
}

/// The group's effective layer: the override's layer when one is
/// registered for its label, else the group's own.
pub open spec fn layer_of(g: GroupV, pp: Seq<PostProcessEntryV>) -> Option<LayerV> {
    match g.label {
        Option::Some(l) => match pp_of(pp, l) {
            Option::Some(p) => match p.layer {
                Option::Some(lay) => Option::Some(lay),
                Option::None => g.layer,
            },
            Option::None => g.layer,
        },
        Option::None => g.layer,
    }
}

/// Closes every layer opened at an index greater than `p`: the walk has
/// returned from a deeper branch to an ancestor, so those layers' subtrees
/// are complete.  Layers close in exactly the reverse order they opened.
pub open spec fn drain_above(ops: Seq<OpV>, stack: Seq<usize>, p: usize) -> (Seq<OpV>, Seq<usize>)
    decreases stack.len(),
{
    if stack.len() > 0 && stack.last() > p {
        drain_above(ops.push(OpV::PopLayer), stack.drop_last(), p)
    } else {
        (ops, stack)
    }
}

/// One step of the composite walk, over group `i`:
/// the world transform is the parent's world transform composed with the
/// (possibly overridden) local transform; completed layers are closed; the
/// group's effective layer (clipped by its explicit path, or by the
/// rectangle of its size) is opened under the world transform; and the
/// group's own draw items are emitted nested under the world transform.
pub open spec fn walk_step(st: WalkV, g: GroupV, pp: Seq<PostProcessEntryV>, i: int) -> WalkV {
    let local = local_transform_of(g, pp);
    let world = match g.parent {
        Option::Some(p) => if (p as int) < st.worlds.len() {
            affine_compose(st.worlds[p as int], local)
        } else {
            local
        },
        Option::None => local,
    };
    let drained = match g.parent {
        Option::Some(p) => drain_above(st.ops, st.stack, p),
        Option::None => (st.ops, st.stack),
    };
    let opened = match layer_of(g, pp) {
        Option::Some(lay) => (
            drained.0.push(
                OpV::PushLayer {
                    blend: lay.blend_mode,
                    alpha: lay.alpha,
                    transform: world,
                    clip: match lay.clip_path {
                        Option::Some(c) => c,
                        Option::None => rect_path_spec(g.size),
                    },
                },
            ),
            drained.1.push(i as usize),
        ),
        Option::None => drained,
    };
    WalkV {
        ops: opened.0 + premul_ops(group_ops(g), Option::Some(world)),
        stack: opened.1,
        worlds: st.worlds.push(world),
    }
}

/// The walk state after the first `i` groups.
pub open spec fn walk_to(gs: Seq<GroupSceneV>, pp: Seq<PostProcessEntryV>, i: int) -> WalkV
    decreases i,
{
    if i <= 0 {
        WalkV { ops: Seq::<OpV>::empty(), stack: Seq::<usize>::empty(), worlds: Seq::<Affine>::empty() }
    } else {
        walk_step(walk_to(gs, pp, i - 1), gs[i - 1].group, pp, i - 1)
    }
}

/// `n` layer-closing operations.
pub open spec fn pops(n: int) -> Seq<OpV>
    decreases n,
{
    if n <= 0 {
        Seq::<OpV>::empty()
    } else {
        pops(n - 1).push(OpV::PopLayer)
    }
}

/// The full composite render of an arena under an override table: the walk
/// over all groups, after which every layer still open is closed.
pub open spec fn render_ops(gs: Seq<GroupSceneV>, pp: Seq<PostProcessEntryV>) -> Seq<OpV> {
    let st = walk_to(gs, pp, gs.len() as int);
    st.ops + pops(st.stack.len() as int)
}

/// A recompute counter, saturating rather than wrapping.
pub open spec fn bump(r: u64) -> u64 {
    if r == u64::MAX {
        r
    } else {
        (r + 1) as u64
    }
}

/// What one render pass does: the emitted scene is the composite render of
/// the structural state; every cache is valid afterwards; exactly the
/// groups whose caches were invalid had their sub-scenes recomputed (their
/// counters advance, all others are untouched); and the groups, label
/// index, override table and canvas size are unchanged.
pub open spec fn render_rel(pre: TypstScene, post: TypstScene, out: Scene) -> bool {
    &&& out@ == render_ops(pre.groups_view(), pre.pp_view())
    &&& post.groups_view().len() == pre.groups_view().len()
    &&& forall|i: int|
        0 <= i < pre.groups_view().len() ==> {
            let g0 = pre.groups_view()[i];
            let g1 = #[trigger] post.groups_view()[i];
            &&& g1.group == g0.group
            &&& g1.updated == true
            &&& g1.scene == group_ops(g0.group)
            &&& g1.renders == if g0.updated {
                g0.renders
            } else {
                bump(g0.renders)
            }
        }
    &&& post.map_view() == pre.map_view()
    &&& post.pp_view() == pre.pp_view()
    &&& post.size_spec() == pre.size_spec()
}

impl TypstScene {
    /// Renders the arena into a flat backend scene (see [`render_rel`] and
    /// [`render_ops`]): one linear walk in index order, accumulating world
    /// transforms through the parent links and closing layers in exactly
    /// the reverse order they were opened.  Groups whose cached sub-scene
    /// is still valid are reused without recomputation.
    pub fn render(&mut self) -> (scene: Scene)
        requires
            old(self).wf(),
        ensures
            render_rel(*old(self), *final(self), scene),
            final(self).wf(),
    {
        let ghost gv = old(self).groups_view();
        let ghost ppv = old(self).pp_view();
        let mut out = Scene::new();
        let mut worlds: Vec<Affine> = Vec::new();
        let mut layers: Vec<usize> = Vec::new();
        let n = self.group_scenes.len();
        proof {
            assert(out@ =~= walk_to(gv, ppv, 0).ops);
            assert(layers@ =~= walk_to(gv, ppv, 0).stack);
            assert(worlds@ =~= walk_to(gv, ppv, 0).worlds);
        }
        let mut i: usize = 0;
        while i < n
            invariant
                i <= n,
                n == self.group_scenes@.len(),
                n == gv.len(),
                self.pp_view() == ppv,
                self.map_view() == old(self).map_view(),
                self.size == old(self).size,
                self.post_process_map == old(self).post_process_map,
                self.group_map == old(self).group_map,
                out@ == walk_to(gv, ppv, i as int).ops,
                layers@ == walk_to(gv, ppv, i as int).stack,
                worlds@ == walk_to(gv, ppv, i as int).worlds,
                worlds@.len() == i,
                forall|j: int| i <= j < n ==> #[trigger] self.groups_view()[j] == gv[j],
                forall|j: int|
                    0 <= j < i ==> {
                        let g1 = #[trigger] self.groups_view()[j];
                        &&& g1.group == gv[j].group
                        &&& g1.updated == true
                        &&& g1.scene == group_ops(gv[j].group)
                        &&& g1.renders == if gv[j].updated {
                            gv[j].renders
                        } else {
                            bump(gv[j].renders)
                        }
                    },
                TypstScene::parent_wf(gv),
                TypstScene::caches_ok(gv),
            decreases n - i,
        {
            let ghost st = walk_to(gv, ppv, i as int);
            let glabel = self.group_scenes[i].group.label;
            let gparent = self.group_scenes[i].group.parent;
            let gtransform = self.group_scenes[i].group.transform;
            let gsize = self.group_scenes[i].group.size;
            proof {
                assert(self.groups_view()[i as int] == gv[i as int]);
                assert(self.group_scenes@[i as int]@ == gv[i as int]);
            }
            // Local transform, with the label-targeted override applied.
            let local: Affine = match glabel {
                Option::Some(l) => {
                    let k = self.find_post_entry(l);
                    if k < self.post_process_map.len() {
                        proof {
                            assert(self.post_process_map@[k as int]@ == ppv[k as int]);
                        }
                        match &self.post_process_map[k].post_process.transform {
                            Option::Some(t) => gtransform.pre_concat(t),
                            Option::None => gtransform,
                        }
                    } else {
                        gtransform
                    }
                },
                Option::None => gtransform,
            };
            proof {
                assert(local == local_transform_of(gv[i as int].group, ppv));
            }
            // World transform: the parent's world transform composed with
            // the local one.
            let world: Affine = match gparent {
                Option::Some(p) => worlds[p].pre_concat(&local),
                Option::None => local,
            };
            worlds.push(world);
            // Close the layers of completed sibling branches.
            match gparent {
                Option::Some(p) => {
                    while layers.len() > 0 && layers[layers.len() - 1] > p
                        invariant
                            drain_above(st.ops, st.stack, p) == drain_above(out@, layers@, p),
                        decreases layers@.len(),
                    {
                        let ghost opre = out@;
                        let ghost lpre = layers@;
                        out.pop_layer();
                        layers.pop();
                        proof {
                            assert(layers@ =~= lpre.drop_last());
                            assert(lpre.last() == lpre[lpre.len() - 1]);
                            assert(drain_above(opre, lpre, p) == drain_above(out@, layers@, p));
                        }
                    }
                },
                Option::None => {},
            }
            proof {
                let drained = match gv[i as int].group.parent {
                    Option::Some(p) => drain_above(st.ops, st.stack, p),
                    Option::None => (st.ops, st.stack),
                };
                assert(out@ == drained.0 && layers@ == drained.1);
            }
            // Open this group's effective layer, if it has one.
            let eff: Option<Layer> = match glabel {
                Option::Some(l) => {
                    let k = self.find_post_entry(l);
                    if k < self.post_process_map.len() {
                        proof {
                            assert(self.post_process_map@[k as int]@ == ppv[k as int]);
                        }
                        match &self.post_process_map[k].post_process.layer {
                            Option::Some(lay) => Option::Some(lay.clone()),
                            Option::None => match &self.group_scenes[i].group.layer {
                                Option::Some(lay) => Option::Some(lay.clone()),
                                Option::None => Option::None,
                            },
                        }
                    } else {
                        match &self.group_scenes[i].group.layer {
                            Option::Some(lay) => Option::Some(lay.clone()),
                            Option::None => Option::None,
                        }
                    }
                },
                Option::None => match &self.group_scenes[i].group.layer {
                    Option::Some(lay) => Option::Some(lay.clone()),
                    Option::None => Option::None,
                },
            };
            proof {
                assert((match eff {
                    Option::Some(ref lay) => Option::Some(lay@),
                    Option::None => Option::<LayerV>::None,
                }) == layer_of(gv[i as int].group, ppv));
            }
            match eff {
                Option::Some(lay) => {
                    let clip = match lay.clip_path {
                        Option::Some(c) => c,
                        Option::None => rect_path(gsize),
                    };
                    out.push_layer(lay.blend_mode, lay.alpha, world, clip);
                    layers.push(i);
                },
                Option::None => {},
            }
            // Draw the group's items: reuse the cached sub-scene when it is
            // valid, else recompute, cache, and count the recomputation.
            if self.group_scenes[i].updated {
                proof {
                    assert(self.groups_view()[i as int].updated == true);
                    assert(gv[i as int].updated == true);
                    assert(gv[i as int].scene == group_ops(gv[i as int].group));
                }
                out.append(&self.group_scenes[i].scene, Some(&world));
                proof {
                    assert forall|j: int| 0 <= j < i + 1 implies {
                        let g1 = #[trigger] self.groups_view()[j];
                        &&& g1.group == gv[j].group
                        &&& g1.updated == true
                        &&& g1.scene == group_ops(gv[j].group)
                        &&& g1.renders == if gv[j].updated {
                            gv[j].renders
                        } else {
                            bump(gv[j].renders)
                        }
                    } by {
                        if j == i as int {
                            assert(self.groups_view()[j] == gv[j]);
                        }
                    }
                }
            } else {
                let ghost vpre = self.group_scenes@;
                let ghost gvpre = self.groups_view();
                let fresh = render_group_scene(&self.group_scenes[i].group);
                out.append(&fresh, Some(&world));
                let ghost fv = fresh@;
                let e = &mut self.group_scenes[i];
                e.scene = fresh;
                e.renders = if e.renders == u64::MAX {
                    e.renders
                } else {
                    e.renders + 1
                };
                e.updated = true;
                proof {
                    assert(self.group_scenes@.len() == vpre.len());
                    assert(forall|j: int|
                        0 <= j < vpre.len() && j != i ==> self.group_scenes@[j] == vpre[j]);
                    assert(self.group_scenes@[i as int].group == vpre[i as int].group);
                    assert(self.group_scenes@[i as int].scene@ == fv);
                    assert(self.group_scenes@[i as int].updated == true);
                    assert(self.group_scenes@[i as int].renders == bump(gv[i as int].renders));
                    assert forall|j: int| i + 1 <= j < n implies #[trigger] self.groups_view()[j]
                        == gv[j] by {
                        assert(self.groups_view()[j] == self.group_scenes@[j]@);
                        assert(self.group_scenes@[j] == vpre[j]);
                        assert(gvpre[j] == vpre[j]@);
                        assert(gvpre[j] == gv[j]);
                    }
                    assert forall|j: int| 0 <= j < i + 1 implies {
                        let g1 = #[trigger] self.groups_view()[j];
                        &&& g1.group == gv[j].group
                        &&& g1.updated == true
                        &&& g1.scene == group_ops(gv[j].group)
                        &&& g1.renders == if gv[j].updated {
                            gv[j].renders
                        } else {
                            bump(gv[j].renders)
                        }
                    } by {
                        assert(self.groups_view()[j] == self.group_scenes@[j]@);
                        assert(gvpre[j] == vpre[j]@);
                        if j < i as int {
                            assert(self.group_scenes@[j] == vpre[j]);
                        } else {
                            assert(self.groups_view()[j].group == vpre[j]@.group);
                            assert(gvpre[j] == gv[j]);
                            assert(gv[j].updated == false);
                        }
                    }
                }
            }
            proof {
                let stepped = walk_step(st, gv[i as int].group, ppv, i as int);
                assert(walk_to(gv, ppv, i + 1) == stepped);
                assert(out@ =~= stepped.ops);
                assert(layers@ =~= stepped.stack);
                assert(worlds@ =~= stepped.worlds);
            }
            i = i + 1;
        }
        // Close any layers still open.
        let ghost stn = walk_to(gv, ppv, n as int);
        while layers.len() > 0
            invariant
                layers@.len() <= stn.stack.len(),
                out@ == stn.ops + pops(stn.stack.len() - layers@.len()),
            decreases layers@.len(),
        {
            out.pop_layer();
            layers.pop();
            proof {
                assert(out@ =~= stn.ops + pops(stn.stack.len() - layers@.len()));
            }
        }
        proof {
            assert(out@ =~= render_ops(gv, ppv));
            let post_gs = self.groups_view();
            assert(post_gs.len() == gv.len());
            assert forall|j: int| 0 <= j < gv.len() implies (#[trigger] post_gs[j]).group
                == gv[j].group by {}
            assert forall|l: Label| #[trigger] label_indices(post_gs, l) == label_indices(
                gv,
                l,
            ) by {
                lemma_label_indices_congruence(post_gs, gv, l);
            }
            assert(TypstScene::parent_wf(post_gs));
            assert(TypstScene::caches_ok(post_gs));
            assert(TypstScene::map_ok(post_gs, self.map_view()));
        }
        out
    }
}

} // verus!
