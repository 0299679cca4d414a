//! The recursive compositor: entry setup, node dispatch and the group
//! isolation-layer algorithm.

use vstd::prelude::*;

use crate::geom::IntRect;
use crate::geom::layer_bounds;
use crate::geom::max_region_bound;
use crate::skia::Layer;
use crate::skia::combine_transforms;
use crate::skia::identity_transform;
use crate::skia::layer_apply_mask;
use crate::skia::layer_draw_pixmap;
use crate::skia::layer_fill;
use crate::skia::layer_fill_path;
use crate::skia::layer_stroke_path;
use crate::skia::mask_fill_path;
use crate::skia::new_layer;
use crate::skia::new_mask;
use crate::skia::rect_is_empty;
use crate::skia::rect_to_path;
use crate::skia::round_out;
use crate::skia::shift_to_origin;
use crate::skia::transform_rect;
use crate::skia::view_box_transform;
use crate::tree::ClipPath;
use crate::tree::Filter;
use crate::tree::Group;
use crate::tree::MaskDef;
use crate::tree::Node;
use crate::tree::Paint;
use crate::tree::Tree;

verus! {

/// Render-call-scoped state: the hard cap on layer placement.
pub struct Context {
    pub max_bbox: IntRect,
}

impl Tree {
    /// Renders the tree onto the canvas.
    ///
    /// `transform` is used as the root transform; it can position the
    /// content inside the canvas. The call always returns: malformed
    /// subtrees degrade to an empty region, never to a failure.
    pub fn render(&self, transform: tiny_skia::Transform, canvas: &mut Layer)
        ensures
            final(canvas).spec_width() == old(canvas).spec_width(),
            final(canvas).spec_height() == old(canvas).spec_height(),
    {
        if canvas.width() == 0 || canvas.height() == 0 {
            return ;
        }
        let max_bbox = max_region_bound(canvas.width(), canvas.height());
        let ts = view_box_transform(&self.view_box, &self.size);
        let root_transform = combine_transforms(&transform, &ts);
        let ctx = Context { max_bbox };
        render_nodes(&self.children, &ctx, root_transform, canvas);
    }
}

/// Visits the nodes strictly in order (painter's algorithm: later nodes
/// draw over earlier ones) and dispatches each by kind.
pub fn render_nodes(
    children: &Vec<Node>,
    ctx: &Context,
    transform: tiny_skia::Transform,
    canvas: &mut Layer,
)
    requires
        ctx.max_bbox.wf(),
    ensures
        final(canvas).spec_width() == old(canvas).spec_width(),
        final(canvas).spec_height() == old(canvas).spec_height(),
    decreases children,
{
    let ghost w0 = canvas.spec_width();
    let ghost h0 = canvas.spec_height();
    let mut i: usize = 0;
    while i < children.len()
        invariant
            i <= children.len(),
            canvas.spec_width() == w0,
            canvas.spec_height() == h0,
            ctx.max_bbox.wf(),
        decreases children.len() - i,
    {
        render_node(&children[i], ctx, transform, canvas);
        i += 1;
    }
}

/// Dispatches one node: groups go through the layer compositor, leaves draw
/// with normal source-over blending.
fn render_node(node: &Node, ctx: &Context, transform: tiny_skia::Transform, canvas: &mut Layer)
    requires
        ctx.max_bbox.wf(),
    ensures
        final(canvas).spec_width() == old(canvas).spec_width(),
        final(canvas).spec_height() == old(canvas).spec_height(),
    decreases node,
{
    match node {
        Node::Group(group) => {
            render_group(group, ctx, transform, canvas);
        },
        Node::FillPath(path) => {
            layer_fill_path(canvas, &path.path, &path.paint, path.rule, path.anti_alias, &transform);
        },
        Node::StrokePath(path) => {
            layer_stroke_path(
                canvas,
                &path.path,
                &path.paint,
                &path.stroke,
                path.anti_alias,
                &transform,
            );
        },
        Node::Image(image) => {
            layer_draw_pixmap(
                canvas,
                0,
                0,
                &image.pixmap,
                255,
                tiny_skia::BlendMode::SourceOver,
                &transform,
            );
        },
    }
}

/// Composites one group, isolating it in an offscreen layer when needed.
///
/// Returns `None` exactly when this subtree was skipped: an empty-sentinel
/// bbox, a degenerate transform, a vanishing layer rectangle or a failed
/// layer allocation. Siblings and ancestors are unaffected either way. A
/// transform-only group (with a usable bbox) always succeeds and never
/// allocates a layer.
pub fn render_group(
    group: &Group,
    ctx: &Context,
    transform: tiny_skia::Transform,
    canvas: &mut Layer,
) -> (r: Option<()>)
    requires
        ctx.max_bbox.wf(),
    ensures
        final(canvas).spec_width() == old(canvas).spec_width(),
        final(canvas).spec_height() == old(canvas).spec_height(),
        group.bbox is None ==> r is None,
        group.bbox is Some && group.spec_transform_only() ==> r is Some,
    decreases group,
{
    let bbox = match group.bbox {
        None => {
            return None;
        },
        Some(b) => b,
    };
    let transform = combine_transforms(&transform, &group.transform);

    if group.is_transform_only() {
        render_nodes(&group.children, ctx, transform, canvas);
        return Some(());
    }
    let dev = match transform_rect(&bbox, &transform) {
        None => {
            return None;
        },
        Some(d) => d,
    };
    if rect_is_empty(&dev) {
        return None;
    }
    let dev_int = match round_out(&dev) {
        None => {
            return None;
        },
        Some(d) => d,
    };
    let has_filters = group.filters.len() > 0;

    // The integer layer rectangle: padded only for filterless groups, and
    // always clamped into the region bound, so no layer outgrows four times
    // the canvas.
    let ibbox = match layer_bounds(&dev_int, has_filters, &ctx.max_bbox) {
        None => {
            return None;
        },
        Some(b) => b,
    };
    let mut sub = match new_layer(ibbox.width, ibbox.height) {
        None => {
            return None;
        },
        Some(l) => l,
    };
    // Keep the bbox's sub-pixel offset: translate the layer's integer
    // corner to the origin, so anti-aliasing stays accurate inside the
    // integer-aligned layer.
    let child_ts = combine_transforms(&shift_to_origin(ibbox.x, ibbox.y), &transform);
    render_nodes(&group.children, ctx, child_ts, &mut sub);

    if group.filters.len() > 0 {
        let fill_src = prepare_filter_paint(group.filter_fill.as_ref(), ibbox.width, ibbox.height);
        let stroke_src = prepare_filter_paint(
            group.filter_stroke.as_ref(),
            ibbox.width,
            ibbox.height,
        );
        apply_filters(&group.filters, &fill_src, &stroke_src, &mut sub);
    }
    if let Some(clip) = &group.clip_path {
        apply_clip(clip, &child_ts, &mut sub);
    }
    if let Some(mask) = &group.mask {
        apply_mask_def(mask, &child_ts, &mut sub);
    }
    layer_draw_pixmap(
        canvas,
        ibbox.x,
        ibbox.y,
        sub.pixmap(),
        group.opacity,
        group.blend_mode,
        &identity_transform(),
    );
    Some(())
}

/// Synthesizes a full-region source image for a fill-paint or stroke-paint
/// filter input: a buffer of the layer's size filled entirely with the
/// paint. The governing format leaves the exact content undefined absent a
/// real path; the deliberate policy here is a uniform full-region fill.
pub fn prepare_filter_paint(paint: Option<&Paint>, width: u32, height: u32) -> (r: Option<Layer>)
    ensures
        paint is None ==> r is None,
        r matches Some(l) ==> (paint is Some && l.spec_width() == width && l.spec_height()
            == height),
{
    let p = match paint {
        None => {
            return None;
        },
        Some(p) => p,
    };
    let mut l = match new_layer(width, height) {
        None => {
            return None;
        },
        Some(l) => l,
    };
    layer_fill(&mut l, p);
    Some(l)
}

/// Applies the group's filter effects in declared order, handing each the
/// synthesized fill/stroke sources.
fn apply_filters(
    filters: &Vec<Filter>,
    fill_src: &Option<Layer>,
    stroke_src: &Option<Layer>,
    l: &mut Layer,
)
    ensures
        final(l).spec_width() == old(l).spec_width(),
        final(l).spec_height() == old(l).spec_height(),
{
    let ghost w0 = l.spec_width();
    let ghost h0 = l.spec_height();
    let mut i: usize = 0;
    while i < filters.len()
        invariant
            i <= filters.len(),
            l.spec_width() == w0,
            l.spec_height() == h0,
        decreases filters.len() - i,
    {
        apply_filter(&filters[i], fill_src, stroke_src, l);
        i += 1;
    }
}

/// Applies one filter effect to the layer.
fn apply_filter(filter: &Filter, fill_src: &Option<Layer>, stroke_src: &Option<Layer>, l: &mut Layer)
    ensures
        final(l).spec_width() == old(l).spec_width(),
        final(l).spec_height() == old(l).spec_height(),
{
    match filter {
        Filter::Flood(paint) => {
            layer_fill(l, paint);
        },
        Filter::FillPaint => {
            if let Some(src) = fill_src {
                replace_with_source(l, src);
            }
        },
        Filter::StrokePaint => {
            if let Some(src) = stroke_src {
                replace_with_source(l, src);
            }
        },
    }
}

/// Replaces the layer's content with a synthesized source image.
fn replace_with_source(l: &mut Layer, src: &Layer)
    ensures
        final(l).spec_width() == old(l).spec_width(),
        final(l).spec_height() == old(l).spec_height(),
{
    let id = identity_transform();
    layer_draw_pixmap(l, 0, 0, src.pixmap(), 255, tiny_skia::BlendMode::Source, &id);
}

/// Builds a rectangular alpha mask over a `width` by `height` space:
/// coverage one inside the transformed rectangle, zero outside,
/// anti-aliased at the edges, winding fill semantics.
pub fn create_rect_mask(
    width: u32,
    height: u32,
    ts: &tiny_skia::Transform,
    rect: &tiny_skia::Rect,
) -> (r: Option<tiny_skia::Mask>)
    ensures
        (r is Some) == (1 <= width && 1 <= height),
{
    let mut mask = match new_mask(width, height) {
        None => {
            return None;
        },
        Some(m) => m,
    };
    let path = rect_to_path(rect);
    mask_fill_path(&mut mask, &path, ts);
    Some(mask)
}

/// Mask construction on a pixel buffer, for clip and mask collaborators.
pub trait TinySkiaPixmapMutExt {
    /// A rectangular alpha mask matching this buffer's size.
    fn create_rect_mask(&self, ts: &tiny_skia::Transform, rect: &tiny_skia::Rect) -> Option<
        tiny_skia::Mask,
    >;
}

impl TinySkiaPixmapMutExt for Layer {
    fn create_rect_mask(&self, ts: &tiny_skia::Transform, rect: &tiny_skia::Rect) -> Option<
        tiny_skia::Mask,
    > {
        create_rect_mask(self.width(), self.height(), ts, rect)
    }
}

/// Applies a clip path: clears coverage outside the clip geometry.
fn apply_clip(clip: &ClipPath, ts: &tiny_skia::Transform, l: &mut Layer)
    ensures
        final(l).spec_width() == old(l).spec_width(),
        final(l).spec_height() == old(l).spec_height(),
{
    let mask = l.create_rect_mask(ts, &clip.rect);
    if let Some(m) = mask {
        layer_apply_mask(l, &m);
    }
}

/// Applies a mask: multiplies the layer's coverage by the mask's.
fn apply_mask_def(mask_def: &MaskDef, ts: &tiny_skia::Transform, l: &mut Layer)
    ensures
        final(l).spec_width() == old(l).spec_width(),
        final(l).spec_height() == old(l).spec_height(),
{
    let mask = l.create_rect_mask(ts, &mask_def.rect);
    if let Some(m) = mask {
        layer_apply_mask(l, &m);
    }
}

} // verus!
