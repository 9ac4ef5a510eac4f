//! A retained, incrementally renderable 2D vector scene built from a
//! hierarchical layout tree.
//!
//! The input is a tree of positioned boxes, text runs, vector shapes and
//! images, as produced by an upstream layout pass.  The tree is flattened
//! into an indexed arena of groups ([`arena::TypstScene`]) that preserves
//! parent links, per-group transforms, clip/layer metadata and stable
//! labels.  A composite render pass walks the arena in index order,
//! accumulates world transforms, manages the layer stack and emits a flat
//! command list ([`scene::Scene`]), reusing cached per-group sub-scenes
//! where they are still valid.
//!
//! All coordinates are fixed-point numbers: an `i64` value `v` stands for
//! the real number `v / ONE` (see [`num::ONE`]).

pub mod num;
pub mod geom;
pub mod paint;
pub mod scene;
pub mod font;
pub mod tree;
pub mod leaf;
pub mod arena;
pub mod render;
pub mod laws;
