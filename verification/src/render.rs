//! Per-frame rendering: the walk over the scene graph that turns every
//! visible path node into one polygon primitive, in document order.
//!
//! Primitives are appended to a draw list; later entries paint over earlier
//! ones, so document order in the list is what the painter's model calls
//! paint order. Features this adapter does not render (images, gradient and
//! pattern paints) are reported on a separate list and their nodes are
//! skipped, never drawn with a substitute look.

use crate::geom::{scale_min, spec_scale_min, Scale};
use crate::scene::{Group, Node, Paint, Path, Point};
use vstd::prelude::*;

verus! {

/// An RGBA color handed to the painter.
#[derive(Clone, Copy, Debug, PartialEq, Eq, Structural)]
pub struct Rgba {
    pub red: u8,
    pub green: u8,
    pub blue: u8,
    pub alpha: u8,
}

/// The painter's "no fill" default: fully transparent.
pub open spec fn spec_transparent() -> Rgba {
    Rgba { red: 0, green: 0, blue: 0, alpha: 0 }
}

/// A primitive's stroke: line width and color.
#[derive(Clone, Copy, Debug, PartialEq, Eq, Structural)]
pub struct StrokeStyle {
    pub width: u32,
    pub color: Rgba,
}

/// The "no stroke" default: zero width, transparent.
pub open spec fn spec_no_stroke() -> StrokeStyle {
    StrokeStyle { width: 0, color: spec_transparent() }
}

/// A feature of the document that this adapter does not render. The node
/// carrying it is skipped and the feature is reported, so a document is
/// never silently drawn with a wrong color or shape.
#[derive(Clone, Copy, Debug, PartialEq, Eq, Structural)]
pub enum UnsupportedFeature {
    Image,
    LinearGradient,
    RadialGradient,
    Pattern,
}

/// One polygon-with-fill-and-stroke primitive for the painter. The
/// transform steps are kept separate, to be applied in this order:
/// translate, then the node's own scale, then the document-level scale.
#[derive(Debug)]
pub struct Primitive {
    pub points: Vec<Point>,
    pub fill: Rgba,
    pub stroke: StrokeStyle,
    pub translate: Option<(i64, i64)>,
    pub scale: Option<Scale>,
    pub post_scale: Option<Scale>,
}

/// The mathematical content of a primitive.
pub ghost struct PrimitiveModel {
    pub points: Seq<Point>,
    pub fill: Rgba,
    pub stroke: StrokeStyle,
    pub translate: Option<(i64, i64)>,
    pub scale: Option<Scale>,
    pub post_scale: Option<Scale>,
}

impl View for Primitive {
    type V = PrimitiveModel;

    open spec fn view(&self) -> PrimitiveModel {
        PrimitiveModel {
            points: self.points@,
            fill: self.fill,
            stroke: self.stroke,
            translate: self.translate,
            scale: self.scale,
            post_scale: self.post_scale,
        }
    }
}

/// The models of a draw list's entries, in list order.
pub open spec fn prim_models(s: Seq<Primitive>) -> Seq<PrimitiveModel> {
    s.map_values(|p: Primitive| p@)
}

/// What a paint resolves to: a solid color, or the unsupported paint kind.
pub open spec fn spec_paint_color(p: Paint) -> Result<Rgba, UnsupportedFeature> {
    match p {
        Paint::Color(c) => Ok(Rgba { red: c.red, green: c.green, blue: c.blue, alpha: 255 }),
        Paint::LinearGradient => Err(UnsupportedFeature::LinearGradient),
        Paint::RadialGradient => Err(UnsupportedFeature::RadialGradient),
        Paint::Pattern => Err(UnsupportedFeature::Pattern),
    }
}

pub fn paint_to_color(paint: &Paint) -> (r: Result<Rgba, UnsupportedFeature>)
    ensures
        r == spec_paint_color(*paint),
{
    match paint {
        Paint::Color(c) => Ok(Rgba { red: c.red, green: c.green, blue: c.blue, alpha: 255 }),
        Paint::LinearGradient => Err(UnsupportedFeature::LinearGradient),
        Paint::RadialGradient => Err(UnsupportedFeature::RadialGradient),
        Paint::Pattern => Err(UnsupportedFeature::Pattern),
    }
}

/// An absent paint is fine; a present one must resolve to a color.
pub open spec fn spec_paint_ok(op: Option<Paint>) -> bool {
    match op {
        Option::None => true,
        Option::Some(p) => spec_paint_color(p) is Ok,
    }
}

/// The unsupported-feature reports an optional paint gives rise to.
pub open spec fn spec_opt_paint_uns(op: Option<Paint>) -> Seq<UnsupportedFeature> {
    match op {
        Option::None => Seq::empty(),
        Option::Some(p) => match spec_paint_color(p) {
            Ok(_) => Seq::empty(),
            Err(u) => seq![u],
        },
    }
}

pub open spec fn spec_fill_paint(p: Path) -> Option<Paint> {
    match p.fill {
        Option::None => Option::None,
        Option::Some(f) => Option::Some(f.paint),
    }
}

pub open spec fn spec_stroke_paint(p: Path) -> Option<Paint> {
    match p.stroke {
        Option::None => Option::None,
        Option::Some(s) => Option::Some(s.paint),
    }
}

/// The fill color of a path's primitive: its resolved fill paint, or the
/// transparent default when it has no fill.
pub open spec fn spec_fill_rgba(p: Path) -> Rgba
    recommends
        spec_paint_ok(spec_fill_paint(p)),
{
    match spec_fill_paint(p) {
        Option::None => spec_transparent(),
        Option::Some(paint) => match spec_paint_color(paint) {
            Ok(c) => c,
            Err(_) => spec_transparent(),
        },
    }
}

/// The stroke of a path's primitive: width paired with the resolved stroke
/// paint, or the zero-width default when it has no stroke.
pub open spec fn spec_stroke_style(p: Path) -> StrokeStyle
    recommends
        spec_paint_ok(spec_stroke_paint(p)),
{
    match p.stroke {
        Option::None => spec_no_stroke(),
        Option::Some(s) => match spec_paint_color(s.paint) {
            Ok(c) => StrokeStyle { width: s.width, color: c },
            Err(_) => spec_no_stroke(),
        },
    }
}

/// The one primitive a renderable path contributes.
pub open spec fn spec_path_primitive(p: Path, doc_scale: Option<Scale>) -> PrimitiveModel {
    PrimitiveModel {
        points: p.points@,
        fill: spec_fill_rgba(p),
        stroke: spec_stroke_style(p),
        translate: if p.transform.spec_has_translate() {
            Option::Some((p.transform.tx, p.transform.ty))
        } else {
            Option::None
        },
        scale: if p.transform.spec_has_scale() {
            Option::Some(spec_scale_min(p.transform.sx, p.transform.sy))
        } else {
            Option::None
        },
        post_scale: doc_scale,
    }
}

/// The primitives a path node contributes: one, unless the path is
/// invisible or one of its paints is unsupported.
pub open spec fn spec_path_prims(p: Path, doc_scale: Option<Scale>) -> Seq<PrimitiveModel> {
    if p.visible && spec_paint_ok(spec_fill_paint(p)) && spec_paint_ok(spec_stroke_paint(p)) {
        seq![spec_path_primitive(p, doc_scale)]
    } else {
        Seq::empty()
    }
}

/// The unsupported features a path node reports: those of its fill paint,
/// then those of its stroke paint. An invisible path is skipped before its
/// paints are looked at, so it reports nothing.
pub open spec fn spec_path_uns(p: Path) -> Seq<UnsupportedFeature> {
    if p.visible {
        spec_opt_paint_uns(spec_fill_paint(p)) + spec_opt_paint_uns(spec_stroke_paint(p))
    } else {
        Seq::empty()
    }
}

/// The primitives a node contributes, in document order.
pub open spec fn spec_node_prims(node: Node, doc_scale: Option<Scale>) -> Seq<PrimitiveModel>
    decreases node, 0int,
{
    match node {
        Node::Group(g) => spec_group_prims(g, doc_scale),
        Node::Text(t) => spec_group_prims(t.flattened, doc_scale),
        Node::Path(p) => spec_path_prims(p, doc_scale),
        Node::Image => Seq::empty(),
    }
}

/// The primitives a group contributes: none at all when it asks for
/// isolation, else its children's in document order.
pub open spec fn spec_group_prims(g: Group, doc_scale: Option<Scale>) -> Seq<PrimitiveModel>
    decreases g, 1int,
{
    if g.isolate {
        Seq::empty()
    } else {
        spec_children_prims(g.children@, g.children@.len() as int, doc_scale)
    }
}

/// The primitives of the first `n` nodes of a child list, concatenated in
/// order.
pub open spec fn spec_children_prims(s: Seq<Node>, n: int, doc_scale: Option<Scale>) -> Seq<
    PrimitiveModel,
>
    decreases s, n,
{
    if n <= 0 || n > s.len() {
        Seq::empty()
    } else {
        spec_children_prims(s, n - 1, doc_scale) + spec_node_prims(s[n - 1], doc_scale)
    }
}

/// The unsupported features a node reports, in document order.
pub open spec fn spec_node_uns(node: Node) -> Seq<UnsupportedFeature>
    decreases node, 0int,
{
    match node {
        Node::Group(g) => spec_group_uns(g),
        Node::Text(t) => spec_group_uns(t.flattened),
        Node::Path(p) => spec_path_uns(p),
        Node::Image => seq![UnsupportedFeature::Image],
    }
}

/// An isolated group's subtree is skipped whole, so it reports nothing.
pub open spec fn spec_group_uns(g: Group) -> Seq<UnsupportedFeature>
    decreases g, 1int,
{
    if g.isolate {
        Seq::empty()
    } else {
        spec_children_uns(g.children@, g.children@.len() as int)
    }
}

pub open spec fn spec_children_uns(s: Seq<Node>, n: int) -> Seq<UnsupportedFeature>
    decreases s, n,
{
    if n <= 0 || n > s.len() {
        Seq::empty()
    } else {
        spec_children_uns(s, n - 1) + spec_node_uns(s[n - 1])
    }
}

/// Convert a visible, renderable path into a primitive and append it to the
/// draw list; report and skip it otherwise.
pub fn render_path(
    path: &Path,
    scale: &Option<Scale>,
    out: &mut Vec<Primitive>,
    skipped: &mut Vec<UnsupportedFeature>,
)
    ensures
        prim_models(final(out)@) == prim_models(old(out)@) + spec_path_prims(*path, *scale),
        final(skipped)@ == old(skipped)@ + spec_path_uns(*path),
{
    if !path.is_visible() {
        proof {
            assert(prim_models(out@) + spec_path_prims(*path, *scale) =~= prim_models(out@));
            assert(skipped@ + spec_path_uns(*path) =~= skipped@);
        }
        return ;
    }
    let ghost uns0 = skipped@;
    let mut ok = true;
    let mut fill_color = Rgba { red: 0, green: 0, blue: 0, alpha: 0 };
    match &path.fill {
        Option::None => {},
        Option::Some(f) => {
            match paint_to_color(&f.paint) {
                Result::Ok(c) => {
                    fill_color = c;
                },
                Result::Err(u) => {
                    skipped.push(u);
                    ok = false;
                },
            }
        },
    }
    proof {
        assert(skipped@ =~= uns0 + spec_opt_paint_uns(spec_fill_paint(*path)));
        assert(ok == spec_paint_ok(spec_fill_paint(*path)));
        assert(ok ==> fill_color == spec_fill_rgba(*path));
    }
    let ghost uns1 = skipped@;
    let mut stroke_style = StrokeStyle { width: 0, color: Rgba { red: 0, green: 0, blue: 0, alpha: 0 } };
    match &path.stroke {
        Option::None => {},
        Option::Some(s) => {
            match paint_to_color(&s.paint) {
                Result::Ok(c) => {
                    stroke_style = StrokeStyle { width: s.width, color: c };
                },
                Result::Err(u) => {
                    skipped.push(u);
                    ok = false;
                },
            }
        },
    }
    proof {
        assert(skipped@ =~= uns1 + spec_opt_paint_uns(spec_stroke_paint(*path)));
        assert(skipped@ =~= uns0 + spec_path_uns(*path));
    }
    if !ok {
        proof {
            assert(prim_models(out@) + spec_path_prims(*path, *scale) =~= prim_models(out@));
        }
        return ;
    }
    let mut pts: Vec<Point> = Vec::new();
    let mut i: usize = 0;
    while i < path.points.len()
        invariant
            i <= path.points.len(),
            pts@ == path.points@.subrange(0, i as int),
        decreases path.points.len() - i,
    {
        pts.push(path.points[i]);
        proof {
            assert(pts@ =~= path.points@.subrange(0, i + 1 as int));
        }
        i = i + 1;
    }
    proof {
        assert(pts@ =~= path.points@);
    }
    let prim = Primitive {
        points: pts,
        fill: fill_color,
        stroke: stroke_style,
        translate: if path.transform.has_translate() {
            Some((path.transform.tx, path.transform.ty))
        } else {
            None
        },
        scale: if path.transform.has_scale() {
            Some(scale_min(path.transform.sx, path.transform.sy))
        } else {
            None
        },
        post_scale: *scale,
    };
    let ghost out0 = out@;
    out.push(prim);
    proof {
        assert(prim@ == spec_path_primitive(*path, *scale));
        assert(prim_models(out@) =~= prim_models(out0) + spec_path_prims(*path, *scale));
    }
}

/// Render every child of a group, in document order.
pub fn render_nodes(
    group: &Group,
    scale: &Option<Scale>,
    out: &mut Vec<Primitive>,
    skipped: &mut Vec<UnsupportedFeature>,
)
    ensures
        prim_models(final(out)@) == prim_models(old(out)@) + spec_children_prims(
            group.children@,
            group.children@.len() as int,
            *scale,
        ),
        final(skipped)@ == old(skipped)@ + spec_children_uns(
            group.children@,
            group.children@.len() as int,
        ),
    decreases *group, 0int,
{
    let ghost out0 = out@;
    let ghost uns0 = skipped@;
    let n = group.children.len();
    let mut i: usize = 0;
    proof {
        assert(prim_models(out@) =~= prim_models(out0) + spec_children_prims(
            group.children@,
            0,
            *scale,
        ));
        assert(skipped@ =~= uns0 + spec_children_uns(group.children@, 0));
    }
    while i < n
        invariant
            i <= n,
            n == group.children@.len(),
            prim_models(out@) == prim_models(out0) + spec_children_prims(
                group.children@,
                i as int,
                *scale,
            ),
            skipped@ == uns0 + spec_children_uns(group.children@, i as int),
        decreases n - i,
    {
        render_node(&group.children[i], scale, out, skipped);
        proof {
            assert(prim_models(out@) =~= prim_models(out0) + spec_children_prims(
                group.children@,
                i + 1,
                *scale,
            ));
            assert(skipped@ =~= uns0 + spec_children_uns(group.children@, i + 1));
        }
        i = i + 1;
    }
}

/// Render a group's children unless the group asks to be composited in
/// isolation, which this adapter does not do.
pub fn render_group(
    group: &Group,
    scale: &Option<Scale>,
    out: &mut Vec<Primitive>,
    skipped: &mut Vec<UnsupportedFeature>,
)
    ensures
        prim_models(final(out)@) == prim_models(old(out)@) + spec_group_prims(*group, *scale),
        final(skipped)@ == old(skipped)@ + spec_group_uns(*group),
    decreases *group, 1int,
{
    if !group.should_isolate() {
        render_nodes(group, scale, out, skipped);
    } else {
        proof {
            assert(prim_models(out@) + spec_group_prims(*group, *scale) =~= prim_models(out@));
            assert(skipped@ + spec_group_uns(*group) =~= skipped@);
        }
    }
}

/// Render one node, dispatching on its kind.
pub fn render_node(
    node: &Node,
    scale: &Option<Scale>,
    out: &mut Vec<Primitive>,
    skipped: &mut Vec<UnsupportedFeature>,
)
    ensures
        prim_models(final(out)@) == prim_models(old(out)@) + spec_node_prims(*node, *scale),
        final(skipped)@ == old(skipped)@ + spec_node_uns(*node),
    decreases *node, 2int,
{
    match node {
        Node::Group(group) => {
            render_group(group, scale, out, skipped);
        },
        Node::Text(text) => {
            render_group(&text.flattened, scale, out, skipped);
        },
        Node::Path(path) => {
            render_path(path, scale, out, skipped);
        },
        Node::Image => {
            skipped.push(UnsupportedFeature::Image);
            proof {
                assert(prim_models(out@) + spec_node_prims(*node, *scale) =~= prim_models(out@));
                assert(skipped@ =~= old(skipped)@ + spec_node_uns(*node));
            }
        },
    }
}

/// An invisible path contributes no primitive and no report, whatever its
/// geometry or paint.
pub proof fn lemma_invisible_path_hidden(p: Path, doc_scale: Option<Scale>)
    requires
        !p.visible,
    ensures
        spec_node_prims(Node::Path(p), doc_scale) == Seq::<PrimitiveModel>::empty(),
        spec_node_uns(Node::Path(p)) == Seq::<UnsupportedFeature>::empty(),
{
}

/// For two sibling nodes declared in order, everything the first one draws
/// is placed on the draw list before everything the second one draws.
pub proof fn lemma_sibling_order(g: Group, a: Node, b: Node, doc_scale: Option<Scale>)
    requires
        !g.isolate,
        g.children@ == seq![a, b],
    ensures
        spec_group_prims(g, doc_scale) == spec_node_prims(a, doc_scale) + spec_node_prims(
            b,
            doc_scale,
        ),
{
    let s = g.children@;
    assert(s[0] == a && s[1] == b);
    assert(spec_children_prims(s, 0, doc_scale) =~= Seq::<PrimitiveModel>::empty());
    assert(spec_group_prims(g, doc_scale) =~= spec_node_prims(a, doc_scale) + spec_node_prims(
        b,
        doc_scale,
    ));
}

/// An isolated group's whole subtree contributes nothing; a non-isolated
/// group contributes exactly what its children contribute, in order.
pub proof fn lemma_isolation_skip(g: Group, doc_scale: Option<Scale>)
    ensures
        g.isolate ==> spec_group_prims(g, doc_scale) == Seq::<PrimitiveModel>::empty(),
        g.isolate ==> spec_group_uns(g) == Seq::<UnsupportedFeature>::empty(),
        !g.isolate ==> spec_group_prims(g, doc_scale) == spec_children_prims(
            g.children@,
            g.children@.len() as int,
            doc_scale,
        ),
{
}

/// A visible path with neither fill nor stroke still renders: it gets the
/// transparent fill and the zero-width stroke, and reports nothing.
pub proof fn lemma_default_paints(p: Path, doc_scale: Option<Scale>)
    requires
        p.visible,
        p.fill is None,
        p.stroke is None,
    ensures
        spec_path_prims(p, doc_scale) == seq![spec_path_primitive(p, doc_scale)],
        spec_path_primitive(p, doc_scale).fill == spec_transparent(),
        spec_path_primitive(p, doc_scale).stroke == spec_no_stroke(),
        spec_path_uns(p) == Seq::<UnsupportedFeature>::empty(),
{
    assert(spec_path_uns(p) =~= Seq::<UnsupportedFeature>::empty());
}

/// An image node draws nothing and reports exactly one unsupported-image
/// feature.
pub proof fn lemma_image_signal(doc_scale: Option<Scale>)
    ensures
        spec_node_prims(Node::Image, doc_scale) == Seq::<PrimitiveModel>::empty(),
        spec_node_uns(Node::Image) == seq![UnsupportedFeature::Image],
{
}

/// A visible path with a gradient or pattern paint draws nothing at all --
/// never a substitute color -- and reports at least one unsupported
/// feature.
pub proof fn lemma_unsupported_paint_signal(p: Path, doc_scale: Option<Scale>)
    requires
        p.visible,
        !spec_paint_ok(spec_fill_paint(p)) || !spec_paint_ok(spec_stroke_paint(p)),
    ensures
        spec_path_prims(p, doc_scale) == Seq::<PrimitiveModel>::empty(),
        spec_path_uns(p).len() > 0,
        !spec_paint_ok(spec_fill_paint(p)) ==> spec_path_uns(p).contains(
            spec_opt_paint_uns(spec_fill_paint(p))[0],
        ),
        !spec_paint_ok(spec_stroke_paint(p)) ==> spec_path_uns(p).contains(
            spec_opt_paint_uns(spec_stroke_paint(p))[0],
        ),
{
    let fu = spec_opt_paint_uns(spec_fill_paint(p));
    let su = spec_opt_paint_uns(spec_stroke_paint(p));
    assert(spec_path_uns(p) == fu + su);
    if !spec_paint_ok(spec_fill_paint(p)) {
        assert((fu + su)[0] == fu[0]);
    }
    if !spec_paint_ok(spec_stroke_paint(p)) {
        assert((fu + su)[fu.len() as int] == su[0]);
    }
}

} // verus!
