//! The scene-graph model: exactly what the renderer reads of a parsed
//! vector-graphics document.
//!
//! A document is a tree of nodes -- groups, text blocks, paths and images.
//! Geometry is held as plain integers (flattened path vertices, translation
//! offsets) and exact rationals (per-axis scale factors); paints are either
//! a solid color or one of the paint kinds this adapter does not render.

use crate::geom::{BoundingBox, Scale};
use vstd::prelude::*;

verus! {

/// A solid sRGB color as parsed from the document.
#[derive(Clone, Copy, Debug, PartialEq, Eq, Structural)]
pub struct Rgb {
    pub red: u8,
    pub green: u8,
    pub blue: u8,
}

/// An abstract fill or stroke color source.
#[derive(Clone, Copy, Debug, PartialEq, Eq, Structural)]
pub enum Paint {
    Color(Rgb),
    LinearGradient,
    RadialGradient,
    Pattern,
}

/// A path fill: its paint.
#[derive(Clone, Copy, Debug, PartialEq, Eq, Structural)]
pub struct Fill {
    pub paint: Paint,
}

/// A path stroke: line width and paint.
#[derive(Clone, Copy, Debug, PartialEq, Eq, Structural)]
pub struct Stroke {
    pub width: u32,
    pub paint: Paint,
}

/// One vertex of a flattened (curve-free) path.
#[derive(Clone, Copy, Debug, PartialEq, Eq, Structural)]
pub struct Point {
    pub x: i64,
    pub y: i64,
}

/// A node's absolute transform: a translation and a per-axis scale.
#[derive(Clone, Copy, Debug, PartialEq, Eq, Structural)]
pub struct Transform {
    pub tx: i64,
    pub ty: i64,
    pub sx: Scale,
    pub sy: Scale,
}

impl Transform {
    pub open spec fn spec_has_translate(self) -> bool {
        self.tx != 0 || self.ty != 0
    }

    pub fn has_translate(&self) -> (r: bool)
        ensures
            r == self.spec_has_translate(),
    {
        self.tx != 0 || self.ty != 0
    }

    pub open spec fn spec_has_scale(self) -> bool {
        !self.sx.spec_is_identity() || !self.sy.spec_is_identity()
    }

    pub fn has_scale(&self) -> (r: bool)
        ensures
            r == self.spec_has_scale(),
    {
        !self.sx.is_identity() || !self.sy.is_identity()
    }
}

/// A drawable path node: its flattened vertices, optional fill and stroke,
/// its absolute transform, and a visibility flag.
#[derive(Debug)]
pub struct Path {
    pub visible: bool,
    pub points: Vec<Point>,
    pub fill: Option<Fill>,
    pub stroke: Option<Stroke>,
    pub transform: Transform,
}

impl Path {
    pub fn is_visible(&self) -> (r: bool)
        ensures
            r == self.visible,
    {
        self.visible
    }
}

/// A container node: its absolute bounding box, whether it must be
/// composited in isolation, and its children in document order.
#[derive(Debug)]
pub struct Group {
    pub bbox: BoundingBox,
    pub isolate: bool,
    pub children: Vec<Node>,
}

impl Group {
    pub fn should_isolate(&self) -> (r: bool)
        ensures
            r == self.isolate,
    {
        self.isolate
    }
}

/// A text node, already converted to outline paths by the parser.
#[derive(Debug)]
pub struct Text {
    pub flattened: Group,
}

/// One node of the scene graph.
#[derive(Debug)]
pub enum Node {
    Group(Group),
    Text(Text),
    Path(Path),
    Image,
}

} // verus!
