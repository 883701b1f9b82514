//! End-to-end tests of the adapter: size and scale resolution, the tree
//! walk, paint resolution, and loading through the external parser.

use svgview::geom::{fit_scale, scale_min, scaled_len, BoundingBox, Scale};
use svgview::load::load_document;
use svgview::render::{paint_to_color, Rgba, UnsupportedFeature};
use svgview::scene::{Fill, Group, Node, Paint, Path, Point, Rgb, Stroke, Text, Transform};
use svgview::svg::SVG;

fn identity_transform() -> Transform {
    Transform {
        tx: 0,
        ty: 0,
        sx: Scale { num: 1, den: 1 },
        sy: Scale { num: 1, den: 1 },
    }
}

fn solid(red: u8, green: u8, blue: u8) -> Paint {
    Paint::Color(Rgb { red, green, blue })
}

fn plain_path(points: Vec<Point>, fill: Option<Fill>, stroke: Option<Stroke>) -> Path {
    Path {
        visible: true,
        points,
        fill,
        stroke,
        transform: identity_transform(),
    }
}

fn group_of(children: Vec<Node>) -> Group {
    Group {
        bbox: BoundingBox {
            width: 10,
            height: 5,
        },
        isolate: false,
        children,
    }
}

#[test]
fn fit_scale_takes_smaller_ratio() {
    let bbox = BoundingBox {
        width: 10,
        height: 5,
    };
    // 20/10 = 2 on x, 20/5 = 4 on y: the x ratio wins.
    let s = fit_scale(bbox, (20, 20));
    assert_eq!(s, Scale { num: 20, den: 10 });
    assert_eq!(scaled_len(10, s), 20);
    assert_eq!(scaled_len(5, s), 10);
}

#[test]
fn fit_never_exceeds_target_and_is_tight_on_one_axis() {
    let bbox = BoundingBox {
        width: 7,
        height: 13,
    };
    let s = fit_scale(bbox, (29, 31));
    let w = scaled_len(bbox.width, s);
    let h = scaled_len(bbox.height, s);
    assert!(w <= 29 && h <= 31);
    assert!(w == 29 || h == 31);
}

#[test]
fn with_size_stores_fit_scale() {
    let v = SVG::new(group_of(vec![])).with_size((20, 20));
    assert_eq!(v.scale, Some(Scale { num: 20, den: 10 }));
    let r = v.show();
    assert_eq!((r.width, r.height), (20, 10));
}

#[test]
fn explicit_scale_overrides_fit() {
    let v = SVG::new(group_of(vec![]))
        .with_size((20, 20))
        .with_scale(Scale { num: 3, den: 1 });
    assert_eq!(v.scale, Some(Scale { num: 3, den: 1 }));
    let r = v.show();
    // 10 x 5 under the explicit factor 3, not under the fitted factor 2.
    assert_eq!((r.width, r.height), (30, 15));
}

#[test]
fn no_scale_renders_raw_bounding_box() {
    let v = SVG::new(group_of(vec![]));
    let r = v.show();
    assert_eq!((r.width, r.height), (10, 5));
}

#[test]
fn show_scaled_uses_the_given_factor() {
    let v = SVG::new(group_of(vec![]));
    let r = v.show_scaled(Scale { num: 1, den: 2 });
    assert_eq!((r.width, r.height), (5, 2));
}

#[test]
fn scale_min_compares_as_rationals() {
    let half = Scale { num: 1, den: 2 };
    let third = Scale { num: 2, den: 6 };
    assert_eq!(scale_min(half, third), third);
    assert_eq!(scale_min(third, half), third);
}

#[test]
fn visible_path_becomes_one_primitive() {
    let path = plain_path(
        vec![Point { x: 1, y: 2 }, Point { x: 3, y: 4 }],
        Some(Fill {
            paint: solid(9, 8, 7),
        }),
        None,
    );
    let v = SVG::new(group_of(vec![Node::Path(path)]));
    let r = v.show();
    assert_eq!(r.primitives.len(), 1);
    let p = &r.primitives[0];
    assert_eq!(p.points, vec![Point { x: 1, y: 2 }, Point { x: 3, y: 4 }]);
    assert_eq!(
        p.fill,
        Rgba {
            red: 9,
            green: 8,
            blue: 7,
            alpha: 255
        }
    );
    assert_eq!(p.stroke.width, 0);
    assert_eq!(p.translate, None);
    assert_eq!(p.scale, None);
    assert_eq!(p.post_scale, None);
    assert!(r.skipped.is_empty());
}

#[test]
fn invisible_path_contributes_nothing() {
    let mut path = plain_path(
        vec![Point { x: 1, y: 2 }],
        Some(Fill {
            paint: Paint::LinearGradient,
        }),
        None,
    );
    path.visible = false;
    let v = SVG::new(group_of(vec![Node::Path(path)]));
    let r = v.show();
    assert!(r.primitives.is_empty());
    // skipped before its paints are looked at: no report either
    assert!(r.skipped.is_empty());
}

#[test]
fn sibling_paths_keep_document_order() {
    let a = plain_path(
        vec![Point { x: 0, y: 0 }],
        Some(Fill {
            paint: solid(1, 0, 0),
        }),
        None,
    );
    let b = plain_path(
        vec![Point { x: 0, y: 0 }],
        Some(Fill {
            paint: solid(0, 2, 0),
        }),
        None,
    );
    let v = SVG::new(group_of(vec![Node::Path(a), Node::Path(b)]));
    let r = v.show();
    assert_eq!(r.primitives.len(), 2);
    assert_eq!(r.primitives[0].fill.red, 1);
    assert_eq!(r.primitives[1].fill.green, 2);
}

#[test]
fn isolated_group_subtree_is_skipped() {
    let path = plain_path(
        vec![Point { x: 0, y: 0 }],
        Some(Fill {
            paint: solid(1, 2, 3),
        }),
        None,
    );
    let mut inner = group_of(vec![Node::Path(path)]);
    inner.isolate = true;
    let v = SVG::new(group_of(vec![Node::Group(inner)]));
    let r = v.show();
    assert!(r.primitives.is_empty());
    assert!(r.skipped.is_empty());
}

#[test]
fn non_isolated_group_children_are_all_visited() {
    let p1 = plain_path(vec![Point { x: 0, y: 0 }], None, None);
    let p2 = plain_path(vec![Point { x: 1, y: 1 }], None, None);
    let inner = group_of(vec![Node::Path(p1), Node::Path(p2)]);
    let v = SVG::new(group_of(vec![Node::Group(inner)]));
    let r = v.show();
    assert_eq!(r.primitives.len(), 2);
}

#[test]
fn natural_size_is_the_raw_bounding_box() {
    let v = SVG::new(group_of(vec![])).with_scale(Scale { num: 7, den: 1 });
    // independent of any configured scale
    assert_eq!(v.natural_size(), (10, 5));
}

#[test]
fn document_order_holds_across_nested_groups() {
    let early = plain_path(
        vec![Point { x: 0, y: 0 }],
        Some(Fill {
            paint: solid(1, 0, 0),
        }),
        None,
    );
    let late = plain_path(
        vec![Point { x: 0, y: 0 }],
        Some(Fill {
            paint: solid(2, 0, 0),
        }),
        None,
    );
    // a subtree declared first is drawn whole before a later sibling
    let inner = group_of(vec![Node::Path(early)]);
    let v = SVG::new(group_of(vec![Node::Group(inner), Node::Path(late)]));
    let r = v.show();
    assert_eq!(r.primitives.len(), 2);
    assert_eq!(r.primitives[0].fill.red, 1);
    assert_eq!(r.primitives[1].fill.red, 2);
}

#[test]
fn text_renders_its_flattened_outlines() {
    let outline = plain_path(
        vec![Point { x: 2, y: 2 }],
        Some(Fill {
            paint: solid(5, 5, 5),
        }),
        None,
    );
    let text = Text {
        flattened: group_of(vec![Node::Path(outline)]),
    };
    let v = SVG::new(group_of(vec![Node::Text(text)]));
    let r = v.show();
    assert_eq!(r.primitives.len(), 1);
    assert_eq!(r.primitives[0].fill.red, 5);
}

#[test]
fn path_without_paints_uses_documented_defaults() {
    let path = plain_path(vec![Point { x: 0, y: 1 }], None, None);
    let v = SVG::new(group_of(vec![Node::Path(path)]));
    let r = v.show();
    assert_eq!(r.primitives.len(), 1);
    let p = &r.primitives[0];
    // transparent fill, zero-width transparent stroke
    assert_eq!(
        p.fill,
        Rgba {
            red: 0,
            green: 0,
            blue: 0,
            alpha: 0
        }
    );
    assert_eq!(p.stroke.width, 0);
    assert_eq!(
        p.stroke.color,
        Rgba {
            red: 0,
            green: 0,
            blue: 0,
            alpha: 0
        }
    );
    assert!(r.skipped.is_empty());
}

#[test]
fn stroke_pairs_width_with_its_color() {
    let path = plain_path(
        vec![Point { x: 0, y: 0 }],
        None,
        Some(Stroke {
            width: 4,
            paint: solid(10, 20, 30),
        }),
    );
    let v = SVG::new(group_of(vec![Node::Path(path)]));
    let r = v.show();
    assert_eq!(r.primitives.len(), 1);
    assert_eq!(r.primitives[0].stroke.width, 4);
    assert_eq!(
        r.primitives[0].stroke.color,
        Rgba {
            red: 10,
            green: 20,
            blue: 30,
            alpha: 255
        }
    );
}

#[test]
fn transform_is_carried_onto_the_primitive() {
    let mut path = plain_path(vec![Point { x: 0, y: 0 }], None, None);
    path.transform = Transform {
        tx: 7,
        ty: -3,
        sx: Scale { num: 3, den: 2 },
        sy: Scale { num: 2, den: 2 },
    };
    let v = SVG::new(group_of(vec![Node::Path(path)])).with_scale(Scale { num: 5, den: 1 });
    let r = v.show();
    assert_eq!(r.primitives.len(), 1);
    let p = &r.primitives[0];
    assert_eq!(p.translate, Some((7, -3)));
    // the smaller of the two axis factors: 2/2 < 3/2
    assert_eq!(p.scale, Some(Scale { num: 2, den: 2 }));
    assert_eq!(p.post_scale, Some(Scale { num: 5, den: 1 }));
}

#[test]
fn image_node_is_reported_not_drawn() {
    let v = SVG::new(group_of(vec![Node::Image]));
    let r = v.show();
    assert!(r.primitives.is_empty());
    assert_eq!(r.skipped, vec![UnsupportedFeature::Image]);
}

#[test]
fn gradient_and_pattern_paints_are_reported_not_drawn() {
    let lg = plain_path(
        vec![Point { x: 0, y: 0 }],
        Some(Fill {
            paint: Paint::LinearGradient,
        }),
        None,
    );
    let rg = plain_path(
        vec![Point { x: 0, y: 0 }],
        None,
        Some(Stroke {
            width: 1,
            paint: Paint::RadialGradient,
        }),
    );
    let pat = plain_path(
        vec![Point { x: 0, y: 0 }],
        Some(Fill {
            paint: Paint::Pattern,
        }),
        Some(Stroke {
            width: 1,
            paint: Paint::Pattern,
        }),
    );
    let v = SVG::new(group_of(vec![
        Node::Path(lg),
        Node::Path(rg),
        Node::Path(pat),
    ]));
    let r = v.show();
    assert!(r.primitives.is_empty());
    assert_eq!(
        r.skipped,
        vec![
            UnsupportedFeature::LinearGradient,
            UnsupportedFeature::RadialGradient,
            UnsupportedFeature::Pattern,
            UnsupportedFeature::Pattern,
        ]
    );
}

#[test]
fn paint_resolution_maps_each_kind() {
    assert_eq!(
        paint_to_color(&solid(1, 2, 3)),
        Ok(Rgba {
            red: 1,
            green: 2,
            blue: 3,
            alpha: 255
        })
    );
    assert_eq!(
        paint_to_color(&Paint::LinearGradient),
        Err(UnsupportedFeature::LinearGradient)
    );
    assert_eq!(
        paint_to_color(&Paint::RadialGradient),
        Err(UnsupportedFeature::RadialGradient)
    );
    assert_eq!(
        paint_to_color(&Paint::Pattern),
        Err(UnsupportedFeature::Pattern)
    );
}

#[test]
fn load_accepts_a_well_formed_document() {
    let bytes = b"<svg xmlns='http://www.w3.org/2000/svg' width='10' height='10'>\
                  <rect x='1' y='1' width='8' height='8' fill='#102030'/></svg>";
    assert!(load_document(bytes).is_ok());
}

#[test]
fn load_rejects_malformed_bytes_with_a_message() {
    let e = load_document(b"not a document at all").unwrap_err();
    assert!(!e.message.is_empty());
}

#[test]
fn load_rejects_a_document_with_a_zero_size() {
    // width and height <= 0: the parser refuses the size
    let bytes = b"<svg xmlns='http://www.w3.org/2000/svg' width='0' height='0'></svg>";
    let e = load_document(bytes).unwrap_err();
    assert!(!e.message.is_empty());
}
