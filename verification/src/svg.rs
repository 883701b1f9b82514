//! The view: one scene tree paired with an optional document-level scale,
//! configured builder-style and consumed once per frame to produce a size
//! and a draw list.

use crate::geom::{fit_scale, scaled_len, spec_fit_scale, spec_scaled_len, BoundingBox, Scale};
use crate::render::{
    prim_models, render_group, spec_group_prims, spec_group_uns, Primitive, PrimitiveModel,
    UnsupportedFeature,
};
use crate::scene::Group;
use vstd::prelude::*;

verus! {

/// A document view: the scene tree and the active scale.
///
/// `scale` is `None` for the document's native size; `Some(s)` applies the
/// uniform factor `s` on top of every node's own transform.
pub struct SVG {
    pub tree: Group,
    pub scale: Option<Scale>,
}

/// What one frame's draw produces: the size to reserve in the host's
/// layout, the draw list in paint order, and the features that were
/// reported and skipped as unsupported.
pub struct Rendered {
    pub width: u64,
    pub height: u64,
    pub primitives: Vec<Primitive>,
    pub skipped: Vec<UnsupportedFeature>,
}

/// The size reserved for a bounding box under an optional scale: the raw
/// box when no scale is set, the scaled (rounded-down) box otherwise.
pub open spec fn spec_size(bbox: BoundingBox, scale: Option<Scale>) -> (int, int) {
    match scale {
        Option::Some(s) => (spec_scaled_len(bbox.width, s), spec_scaled_len(bbox.height, s)),
        Option::None => (bbox.width as int, bbox.height as int),
    }
}

/// The view after fitting to a `w` x `h` target.
pub open spec fn spec_with_size(v: SVG, w: u32, h: u32) -> SVG {
    SVG {
        tree: v.tree,
        scale: Option::Some(spec_fit_scale(v.tree.bbox.width, v.tree.bbox.height, w, h)),
    }
}

/// The view after setting an explicit scale factor.
pub open spec fn spec_with_scale(v: SVG, k: Scale) -> SVG {
    SVG { tree: v.tree, scale: Option::Some(k) }
}

impl SVG {
    /// Whatever scale is configured is usable.
    pub open spec fn wf(self) -> bool {
        match self.scale {
            Option::Some(s) => s.wf(),
            Option::None => true,
        }
    }

    /// A view of a scene tree at its native size.
    pub fn new(tree: Group) -> (r: SVG)
        ensures
            r.tree == tree,
            r.scale is None,
            r.wf(),
    {
        SVG { tree, scale: None }
    }

    /// Fit the document into the target: scale by the smaller of the two
    /// per-axis ratios. The document must have a non-degenerate bounding
    /// box; fitting an empty one is the caller's mistake.
    pub fn with_size(self, size: (u32, u32)) -> (r: SVG)
        requires
            self.tree.bbox.width > 0,
            self.tree.bbox.height > 0,
        ensures
            r == spec_with_size(self, size.0, size.1),
            r.wf(),
    {
        let s = fit_scale(self.tree.bbox, size);
        SVG { tree: self.tree, scale: Some(s) }
    }

    /// Use an explicit scale factor, overriding any earlier configuration.
    pub fn with_scale(self, scale: Scale) -> (r: SVG)
        requires
            scale.wf(),
        ensures
            r == spec_with_scale(self, scale),
            r.wf(),
    {
        SVG { tree: self.tree, scale: Some(scale) }
    }

    /// The document's native size: its raw bounding box, before any scale.
    pub fn natural_size(&self) -> (r: (u64, u64))
        ensures
            r.0 == self.tree.bbox.width,
            r.1 == self.tree.bbox.height,
    {
        (self.tree.bbox.width as u64, self.tree.bbox.height as u64)
    }

    /// The size a group is given in the host's layout. With no scale
    /// configured this is exactly the raw bounding box.
    pub fn size_from_group(group: &Group, scale: &Option<Scale>) -> (r: (u64, u64))
        requires
            (*scale) matches Some(s) ==> s.wf(),
        ensures
            (r.0 as int, r.1 as int) == spec_size(group.bbox, *scale),
            (*scale) is None ==> r.0 == group.bbox.width && r.1 == group.bbox.height,
    {
        match scale {
            Some(s) => (scaled_len(group.bbox.width, *s), scaled_len(group.bbox.height, *s)),
            None => (group.bbox.width as u64, group.bbox.height as u64),
        }
    }

    /// One frame: compute the layout size for the tree, then walk it and
    /// collect the draw list.
    pub fn show_tree(tree: &Group, scale: &Option<Scale>) -> (r: Rendered)
        requires
            (*scale) matches Some(s) ==> s.wf(),
        ensures
            r.width as int == spec_size(tree.bbox, *scale).0,
            r.height as int == spec_size(tree.bbox, *scale).1,
            prim_models(r.primitives@) == spec_group_prims(*tree, *scale),
            r.skipped@ == spec_group_uns(*tree),
    {
        let size = Self::size_from_group(tree, scale);
        let mut primitives: Vec<Primitive> = Vec::new();
        let mut skipped: Vec<UnsupportedFeature> = Vec::new();
        proof {
            assert(prim_models(primitives@) =~= Seq::<PrimitiveModel>::empty());
        }
        render_group(tree, scale, &mut primitives, &mut skipped);
        proof {
            assert(prim_models(primitives@) =~= spec_group_prims(*tree, *scale));
            assert(skipped@ =~= spec_group_uns(*tree));
        }
        Rendered { width: size.0, height: size.1, primitives, skipped }
    }

    /// One frame at an explicit scale, whatever the view is configured to.
    pub fn show_scaled(&self, scale: Scale) -> (r: Rendered)
        requires
            scale.wf(),
        ensures
            r.width as int == spec_size(self.tree.bbox, Option::Some(scale)).0,
            r.height as int == spec_size(self.tree.bbox, Option::Some(scale)).1,
            prim_models(r.primitives@) == spec_group_prims(self.tree, Option::Some(scale)),
            r.skipped@ == spec_group_uns(self.tree),
    {
        Self::show_tree(&self.tree, &Some(scale))
    }

    /// One frame at the configured scale.
    pub fn show(&self) -> (r: Rendered)
        requires
            self.wf(),
        ensures
            r.width as int == spec_size(self.tree.bbox, self.scale).0,
            r.height as int == spec_size(self.tree.bbox, self.scale).1,
            prim_models(r.primitives@) == spec_group_prims(self.tree, self.scale),
            r.skipped@ == spec_group_uns(self.tree),
    {
        Self::show_tree(&self.tree, &self.scale)
    }
}

/// After fitting to a target, the rendered size never exceeds the target
/// on either axis and lands exactly on it on at least one axis.
pub proof fn lemma_fit_size_within_target(v: SVG, w: u32, h: u32)
    requires
        v.tree.bbox.width > 0,
        v.tree.bbox.height > 0,
    ensures
        ({
            let size = spec_size(v.tree.bbox, spec_with_size(v, w, h).scale);
            &&& size.0 <= w
            &&& size.1 <= h
            &&& (size.0 == w || size.1 == h)
        }),
{
    crate::geom::lemma_fit_scale_bounds(v.tree.bbox.width, v.tree.bbox.height, w, h);
}

/// An explicit scale set after a fit overrides the fitted factor: the
/// rendered size is the raw bounding box under the explicit factor alone.
pub proof fn lemma_scale_overrides_fit(v: SVG, w: u32, h: u32, k: Scale)
    requires
        k.wf(),
    ensures
        ({
            let v2 = spec_with_scale(spec_with_size(v, w, h), k);
            &&& v2.scale == Option::<Scale>::Some(k)
            &&& v2.tree == v.tree
            &&& spec_size(v2.tree.bbox, v2.scale) == (
                spec_scaled_len(v.tree.bbox.width, k),
                spec_scaled_len(v.tree.bbox.height, k),
            )
        }),
{
}

} // verus!
