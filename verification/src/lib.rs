//! A small adapter that turns an already-parsed vector-graphics scene graph
//! into flat polygon primitives for an immediate-mode painter.
//!
//! The scene graph is modelled as a tree of groups, text blocks, paths and
//! images ([`scene`]); a view ([`svg`]) pairs one such tree with an optional
//! uniform scale and computes, per frame, the display size and the ordered
//! list of primitives to submit ([`render`]). Document bytes are parsed by an
//! external library ([`load`]); the host painter itself lives outside this
//! crate.

pub mod geom;
pub mod load;
pub mod render;
pub mod scene;
pub mod svg;
