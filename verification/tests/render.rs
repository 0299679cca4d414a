//! End-to-end rendering tests: scenarios drive the compositor through the
//! real tiny_skia and usvg calls behind the trusted boundary.

use resvg::geom::max_region_bound;
use resvg::render::Context;
use resvg::render::create_rect_mask;
use resvg::render::prepare_filter_paint;
use resvg::render::render_group;
use resvg::render::TinySkiaPixmapMutExt;
use resvg::skia::Layer;
use resvg::skia::new_layer;
use resvg::tree::ClipPath;
use resvg::tree::FillPath;
use resvg::tree::Filter;
use resvg::tree::Group;
use resvg::tree::Image;
use resvg::tree::MaskDef;
use resvg::tree::Node;
use resvg::tree::Paint;
use resvg::tree::StrokePath;
use resvg::tree::Tree;

const RED: Paint = Paint { red: 255, green: 0, blue: 0, alpha: 255 };
const GREEN: Paint = Paint { red: 0, green: 255, blue: 0, alpha: 255 };
const BLUE: Paint = Paint { red: 0, green: 0, blue: 255, alpha: 255 };
const WHITE: Paint = Paint { red: 255, green: 255, blue: 255, alpha: 255 };

fn tree_100(children: Vec<Node>) -> Tree {
    Tree {
        view_box: usvg::ViewBox {
            rect: usvg::tiny_skia_path::NonZeroRect::from_xywh(0.0, 0.0, 100.0, 100.0).unwrap(),
            aspect: usvg::AspectRatio::default(),
        },
        size: usvg::tiny_skia_path::Size::from_wh(100.0, 100.0).unwrap(),
        children,
    }
}

fn solid_rect(x: f32, y: f32, w: f32, h: f32, paint: Paint) -> Node {
    let rect = tiny_skia::Rect::from_xywh(x, y, w, h).unwrap();
    Node::FillPath(FillPath {
        path: tiny_skia::PathBuilder::from_rect(rect),
        paint,
        rule: tiny_skia::FillRule::Winding,
        anti_alias: false,
    })
}

fn plain_group(children: Vec<Node>) -> Group {
    Group {
        transform: tiny_skia::Transform::identity(),
        opacity: 255,
        blend_mode: tiny_skia::BlendMode::SourceOver,
        bbox: Some(tiny_skia::Rect::from_xywh(0.0, 0.0, 100.0, 100.0).unwrap()),
        clip_path: None,
        mask: None,
        filters: vec![],
        filter_fill: None,
        filter_stroke: None,
        children,
    }
}

fn canvas(w: u32, h: u32) -> Layer {
    new_layer(w, h).unwrap()
}

fn render_to_pixmap(tree: &Tree, w: u32, h: u32) -> tiny_skia::Pixmap {
    let mut c = canvas(w, h);
    tree.render(tiny_skia::Transform::identity(), &mut c);
    c.into_pixmap()
}

fn px(pm: &tiny_skia::Pixmap, x: u32, y: u32) -> (u8, u8, u8, u8) {
    let p = pm.pixel(x, y).unwrap();
    (p.red(), p.green(), p.blue(), p.alpha())
}

#[test]
fn scenario_full_canvas_rect_fills_every_pixel() {
    let tree = tree_100(vec![solid_rect(0.0, 0.0, 100.0, 100.0, RED)]);
    let pm = render_to_pixmap(&tree, 100, 100);
    for p in pm.pixels() {
        assert_eq!((p.red(), p.green(), p.blue(), p.alpha()), (255, 0, 0, 255));
    }
}

#[test]
fn fast_path_matches_direct_rendering() {
    let shapes = || {
        vec![solid_rect(10.0, 10.0, 40.0, 40.0, RED), solid_rect(30.0, 30.0, 40.0, 40.0, BLUE)]
    };
    let direct = render_to_pixmap(&tree_100(shapes()), 100, 100);
    let grouped = render_to_pixmap(&tree_100(vec![Node::Group(plain_group(shapes()))]), 100, 100);
    assert_eq!(direct.data(), grouped.data());
}

#[test]
fn transform_only_group_reports_success() {
    let ctx = Context { max_bbox: max_region_bound(100, 100) };
    let mut c = canvas(100, 100);
    let g = plain_group(vec![solid_rect(0.0, 0.0, 10.0, 10.0, RED)]);
    assert!(render_group(&g, &ctx, tiny_skia::Transform::identity(), &mut c).is_some());
}

#[test]
fn empty_bbox_skips_subtree_but_not_siblings() {
    let broken = Group { bbox: None, ..plain_group(vec![solid_rect(0.0, 0.0, 100.0, 100.0, RED)]) };
    let tree = tree_100(vec![Node::Group(broken), solid_rect(0.0, 0.0, 10.0, 10.0, GREEN)]);
    let pm = render_to_pixmap(&tree, 100, 100);
    assert_eq!(px(&pm, 5, 5), (0, 255, 0, 255));
    assert_eq!(px(&pm, 50, 50), (0, 0, 0, 0));
}

#[test]
fn empty_bbox_group_returns_none_and_draws_nothing() {
    let ctx = Context { max_bbox: max_region_bound(100, 100) };
    let mut c = canvas(100, 100);
    let g = Group { bbox: None, ..plain_group(vec![solid_rect(0.0, 0.0, 100.0, 100.0, RED)]) };
    assert!(render_group(&g, &ctx, tiny_skia::Transform::identity(), &mut c).is_none());
    let pm = c.into_pixmap();
    for p in pm.pixels() {
        assert_eq!(p.alpha(), 0);
    }
}

#[test]
fn degenerate_transform_skips_subtree_but_not_siblings() {
    let collapsed = Group {
        transform: tiny_skia::Transform::from_scale(0.0, 0.0),
        opacity: 128,
        ..plain_group(vec![solid_rect(0.0, 0.0, 100.0, 100.0, RED)])
    };
    let tree = tree_100(vec![Node::Group(collapsed), solid_rect(0.0, 0.0, 10.0, 10.0, GREEN)]);
    let pm = render_to_pixmap(&tree, 100, 100);
    assert_eq!(px(&pm, 5, 5), (0, 255, 0, 255));
    assert_eq!(px(&pm, 50, 50), (0, 0, 0, 0));
}

#[test]
fn layer_allocation_refuses_degenerate_and_huge_sizes() {
    assert!(new_layer(0, 5).is_none());
    assert!(new_layer(5, 0).is_none());
    assert!(new_layer(2_000_000_000, 2_000_000_000).is_none());
}

#[test]
fn isolated_group_opacity_applies_once_not_per_shape() {
    let shapes = || {
        vec![solid_rect(10.0, 10.0, 40.0, 40.0, RED), solid_rect(30.0, 30.0, 40.0, 40.0, BLUE)]
    };
    let translucent = Group {
        opacity: 128,
        bbox: Some(tiny_skia::Rect::from_xywh(10.0, 10.0, 60.0, 60.0).unwrap()),
        ..plain_group(shapes())
    };
    let tree = tree_100(vec![solid_rect(0.0, 0.0, 100.0, 100.0, WHITE), Node::Group(translucent)]);
    let ours = render_to_pixmap(&tree, 100, 100);

    // Reference: the children composited among themselves first, then blended
    // once against the background at the group opacity.
    let children_pm = render_to_pixmap(&tree_100(shapes()), 100, 100);
    let mut reference = tiny_skia::Pixmap::new(100, 100).unwrap();
    reference.fill(tiny_skia::Color::from_rgba8(255, 255, 255, 255));
    let paint = tiny_skia::PixmapPaint {
        opacity: tiny_skia::Color::from_rgba8(0, 0, 0, 128).alpha(),
        blend_mode: tiny_skia::BlendMode::SourceOver,
        quality: tiny_skia::FilterQuality::Nearest,
    };
    reference.draw_pixmap(
        0,
        0,
        children_pm.as_ref(),
        &paint,
        tiny_skia::Transform::identity(),
        None,
    );
    // A red-only pixel, the overlap pixel, and a background pixel.
    assert_eq!(px(&ours, 20, 20), px(&reference, 20, 20));
    assert_eq!(px(&ours, 40, 40), px(&reference, 40, 40));
    assert_eq!(px(&ours, 80, 80), (255, 255, 255, 255));

    // The wrong model: each shape blended against the background on its own.
    let red_pm = render_to_pixmap(&tree_100(vec![solid_rect(10.0, 10.0, 40.0, 40.0, RED)]), 100, 100);
    let blue_pm =
        render_to_pixmap(&tree_100(vec![solid_rect(30.0, 30.0, 40.0, 40.0, BLUE)]), 100, 100);
    let mut per_shape = tiny_skia::Pixmap::new(100, 100).unwrap();
    per_shape.fill(tiny_skia::Color::from_rgba8(255, 255, 255, 255));
    per_shape.draw_pixmap(0, 0, red_pm.as_ref(), &paint, tiny_skia::Transform::identity(), None);
    per_shape.draw_pixmap(0, 0, blue_pm.as_ref(), &paint, tiny_skia::Transform::identity(), None);
    assert_ne!(px(&ours, 40, 40), px(&per_shape, 40, 40));
}

#[test]
fn scenario_filtered_group_is_clamped_to_region_bound() {
    let flooded = Group {
        filters: vec![Filter::Flood(RED)],
        bbox: Some(tiny_skia::Rect::from_xywh(-10000.0, -10000.0, 20000.0, 20000.0).unwrap()),
        ..plain_group(vec![])
    };
    let tree = tree_100(vec![Node::Group(flooded)]);
    let pm = render_to_pixmap(&tree, 100, 100);
    assert_eq!(px(&pm, 0, 0), (255, 0, 0, 255));
    assert_eq!(px(&pm, 99, 99), (255, 0, 0, 255));
}

#[test]
fn filtered_group_layer_is_exactly_the_rounded_bbox() {
    // A filtered group is never padded: the flood covers exactly the
    // rounded bbox, not two extra pixels around it.
    let flooded = Group {
        filters: vec![Filter::Flood(RED)],
        bbox: Some(tiny_skia::Rect::from_xywh(10.0, 10.0, 20.0, 20.0).unwrap()),
        ..plain_group(vec![])
    };
    let pm = render_to_pixmap(&tree_100(vec![Node::Group(flooded)]), 100, 100);
    assert_eq!(px(&pm, 10, 10), (255, 0, 0, 255));
    assert_eq!(px(&pm, 29, 29), (255, 0, 0, 255));
    assert_eq!(px(&pm, 9, 10), (0, 0, 0, 0));
    assert_eq!(px(&pm, 30, 10), (0, 0, 0, 0));
}

#[test]
fn filter_effects_apply_in_declared_order() {
    let flooded = Group {
        filters: vec![Filter::Flood(RED), Filter::Flood(BLUE)],
        bbox: Some(tiny_skia::Rect::from_xywh(10.0, 10.0, 20.0, 20.0).unwrap()),
        ..plain_group(vec![])
    };
    let pm = render_to_pixmap(&tree_100(vec![Node::Group(flooded)]), 100, 100);
    assert_eq!(px(&pm, 15, 15), (0, 0, 255, 255));
}

#[test]
fn fill_paint_filter_uses_synthesized_source() {
    let filtered = Group {
        filters: vec![Filter::FillPaint],
        filter_fill: Some(GREEN),
        bbox: Some(tiny_skia::Rect::from_xywh(10.0, 10.0, 20.0, 20.0).unwrap()),
        ..plain_group(vec![])
    };
    let pm = render_to_pixmap(&tree_100(vec![Node::Group(filtered)]), 100, 100);
    assert_eq!(px(&pm, 15, 15), (0, 255, 0, 255));
    assert_eq!(px(&pm, 5, 5), (0, 0, 0, 0));
}

#[test]
fn fill_paint_filter_without_paint_keeps_content() {
    let filtered = Group {
        filters: vec![Filter::FillPaint],
        bbox: Some(tiny_skia::Rect::from_xywh(10.0, 10.0, 20.0, 20.0).unwrap()),
        ..plain_group(vec![solid_rect(10.0, 10.0, 20.0, 20.0, RED)])
    };
    let pm = render_to_pixmap(&tree_100(vec![Node::Group(filtered)]), 100, 100);
    assert_eq!(px(&pm, 15, 15), (255, 0, 0, 255));
}

#[test]
fn filter_input_synthesis_fills_the_whole_layer() {
    let paint = Paint { red: 10, green: 20, blue: 30, alpha: 255 };
    let layer = prepare_filter_paint(Some(&paint), 40, 25).unwrap();
    assert_eq!(layer.width(), 40);
    assert_eq!(layer.height(), 25);
    let pm = layer.into_pixmap();
    assert_eq!(pm.width(), 40);
    assert_eq!(pm.height(), 25);
    for p in pm.pixels() {
        assert_eq!((p.red(), p.green(), p.blue(), p.alpha()), (10, 20, 30, 255));
    }
}

#[test]
fn filter_input_synthesis_without_paint_is_none() {
    assert!(prepare_filter_paint(None, 40, 25).is_none());
}

#[test]
fn clip_path_clears_coverage_outside() {
    let clipped = Group {
        clip_path: Some(ClipPath {
            rect: tiny_skia::Rect::from_xywh(0.0, 0.0, 50.0, 100.0).unwrap(),
        }),
        ..plain_group(vec![solid_rect(0.0, 0.0, 100.0, 100.0, RED)])
    };
    let pm = render_to_pixmap(&tree_100(vec![Node::Group(clipped)]), 100, 100);
    assert_eq!(px(&pm, 25, 50), (255, 0, 0, 255));
    assert_eq!(px(&pm, 75, 50), (0, 0, 0, 0));
}

#[test]
fn mask_multiplies_coverage() {
    let masked = Group {
        mask: Some(MaskDef { rect: tiny_skia::Rect::from_xywh(0.0, 0.0, 100.0, 50.0).unwrap() }),
        ..plain_group(vec![solid_rect(0.0, 0.0, 100.0, 100.0, BLUE)])
    };
    let pm = render_to_pixmap(&tree_100(vec![Node::Group(masked)]), 100, 100);
    assert_eq!(px(&pm, 50, 25), (0, 0, 255, 255));
    assert_eq!(px(&pm, 50, 75), (0, 0, 0, 0));
}

#[test]
fn rect_mask_covers_inside_only() {
    let rect = tiny_skia::Rect::from_xywh(0.0, 0.0, 5.0, 10.0).unwrap();
    let layer = canvas(10, 10);
    let via_layer = layer.create_rect_mask(&tiny_skia::Transform::identity(), &rect).unwrap();
    let mask = create_rect_mask(10, 10, &tiny_skia::Transform::identity(), &rect).unwrap();
    assert_eq!(via_layer.data(), mask.data());
    let data = mask.data();
    assert_eq!(data[3 * 10 + 2], 255);
    assert_eq!(data[3 * 10 + 8], 0);
    assert!(create_rect_mask(0, 10, &tiny_skia::Transform::identity(), &rect).is_none());
}

#[test]
fn image_node_draws_raster_content() {
    let mut img = tiny_skia::Pixmap::new(10, 10).unwrap();
    img.fill(tiny_skia::Color::from_rgba8(255, 0, 0, 255));
    let tree = tree_100(vec![Node::Image(Image { pixmap: img })]);
    let pm = render_to_pixmap(&tree, 100, 100);
    assert_eq!(px(&pm, 5, 5), (255, 0, 0, 255));
    assert_eq!(px(&pm, 50, 50), (0, 0, 0, 0));
}

#[test]
fn stroke_node_draws_stroked_geometry() {
    let mut pb = tiny_skia::PathBuilder::new();
    pb.move_to(10.0, 50.0);
    pb.line_to(90.0, 50.0);
    let path = pb.finish().unwrap();
    let stroke = tiny_skia::Stroke { width: 4.0, ..tiny_skia::Stroke::default() };
    let node = Node::StrokePath(StrokePath { path, paint: GREEN, stroke, anti_alias: false });
    let pm = render_to_pixmap(&tree_100(vec![node]), 100, 100);
    assert_eq!(px(&pm, 50, 50), (0, 255, 0, 255));
    assert_eq!(px(&pm, 50, 10), (0, 0, 0, 0));
}

#[test]
fn view_box_fit_scales_content() {
    // A 50-unit view box rendered onto a 100-pixel canvas doubles content.
    let tree = Tree {
        view_box: usvg::ViewBox {
            rect: usvg::tiny_skia_path::NonZeroRect::from_xywh(0.0, 0.0, 50.0, 50.0).unwrap(),
            aspect: usvg::AspectRatio::default(),
        },
        size: usvg::tiny_skia_path::Size::from_wh(100.0, 100.0).unwrap(),
        children: vec![solid_rect(0.0, 0.0, 25.0, 50.0, RED)],
    };
    let mut c = canvas(100, 100);
    tree.render(tiny_skia::Transform::identity(), &mut c);
    let pm = c.into_pixmap();
    assert_eq!(px(&pm, 25, 50), (255, 0, 0, 255));
    assert_eq!(px(&pm, 75, 50), (0, 0, 0, 0));
}

#[test]
fn group_transform_only_test_matches_definition() {
    let g = plain_group(vec![]);
    assert!(g.is_transform_only());
    assert!(!Group { opacity: 254, ..plain_group(vec![]) }.is_transform_only());
    assert!(
        !Group { blend_mode: tiny_skia::BlendMode::Multiply, ..plain_group(vec![]) }
            .is_transform_only()
    );
    assert!(
        !Group {
            clip_path: Some(ClipPath {
                rect: tiny_skia::Rect::from_xywh(0.0, 0.0, 1.0, 1.0).unwrap(),
            }),
            ..plain_group(vec![])
        }
            .is_transform_only()
    );
    assert!(
        !Group { filters: vec![Filter::Flood(RED)], ..plain_group(vec![]) }.is_transform_only()
    );
}
