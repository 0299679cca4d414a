//! The trusted boundary to `tiny_skia` and `usvg`.
//!
//! Every function here is an `external_body` wrapper around exactly one
//! outside call; its contract states only what that call's source shows.
//! The declared outside types are opaque to the verifier and are only
//! carried through the verified logic.

use vstd::prelude::*;

use crate::geom::IntRect;
use crate::tree::Paint;

verus! {

#[verifier::external_type_specification]
#[verifier::external_body]
pub struct ExTransform(tiny_skia::Transform);

#[verifier::external_type_specification]
#[verifier::external_body]
pub struct ExRect(tiny_skia::Rect);

#[verifier::external_type_specification]
#[verifier::external_body]
pub struct ExPath(tiny_skia::Path);

#[verifier::external_type_specification]
#[verifier::external_body]
pub struct ExPixmap(tiny_skia::Pixmap);

#[verifier::external_type_specification]
#[verifier::external_body]
pub struct ExMask(tiny_skia::Mask);

#[verifier::external_type_specification]
#[verifier::external_body]
pub struct ExStroke(tiny_skia::Stroke);

#[verifier::external_type_specification]
pub struct ExBlendMode(tiny_skia::BlendMode);

#[verifier::external_type_specification]
pub struct ExFillRule(tiny_skia::FillRule);

#[verifier::external_type_specification]
#[verifier::external_body]
pub struct ExViewBox(usvg::ViewBox);

#[verifier::external_type_specification]
#[verifier::external_body]
pub struct ExSize(usvg::tiny_skia_path::Size);

/// An owned pixel buffer whose dimensions are tracked as plain values.
///
/// The inner pixmap is reachable only through the wrappers in this module,
/// which keep the tracked dimensions equal to the real ones.
pub struct Layer {
    width: u32,
    height: u32,
    pm: tiny_skia::Pixmap,
}

impl Layer {
    pub closed spec fn spec_width(&self) -> u32 {
        self.width
    }

    pub closed spec fn spec_height(&self) -> u32 {
        self.height
    }

    pub fn width(&self) -> (r: u32)
        ensures
            r == self.spec_width(),
    {
        self.width
    }

    pub fn height(&self) -> (r: u32)
        ensures
            r == self.spec_height(),
    {
        self.height
    }

    /// A borrow of the underlying pixmap, for drawing it elsewhere.
    pub fn pixmap(&self) -> &tiny_skia::Pixmap {
        &self.pm
    }

    /// Gives the finished pixels up to the caller.
    #[verifier::external_body]
    pub fn into_pixmap(self) -> tiny_skia::Pixmap {
        self.pm
    }
}

/// Relies on tiny_skia::Pixmap::new: allocates a transparent pixmap of the
/// given size, or returns `None` for a zero or unrepresentably large size.
#[verifier::external_body]
pub fn new_layer(width: u32, height: u32) -> (r: Option<Layer>)
    ensures
        r matches Some(l) ==> l.spec_width() == width && l.spec_height() == height && 1 <= width
            && 1 <= height,
{
    let pm = tiny_skia::Pixmap::new(width, height)?;
    Some(Layer { width, height, pm })
}

/// Relies on tiny_skia::Pixmap::fill: fills the whole buffer with one color;
/// the size is untouched.
#[verifier::external_body]
pub fn layer_fill(l: &mut Layer, paint: &Paint)
    ensures
        final(l).spec_width() == old(l).spec_width(),
        final(l).spec_height() == old(l).spec_height(),
{
    let c = tiny_skia::Color::from_rgba8(paint.red, paint.green, paint.blue, paint.alpha);
    l.pm.fill(c);
}

/// Relies on tiny_skia::Pixmap::fill_path: rasterizes a filled path with
/// source-over blending; the size is untouched.
#[verifier::external_body]
pub fn layer_fill_path(
    l: &mut Layer,
    path: &tiny_skia::Path,
    paint: &Paint,
    rule: tiny_skia::FillRule,
    anti_alias: bool,
    ts: &tiny_skia::Transform,
)
    ensures
        final(l).spec_width() == old(l).spec_width(),
        final(l).spec_height() == old(l).spec_height(),
{
    let mut p = tiny_skia::Paint::default();
    p.set_color_rgba8(paint.red, paint.green, paint.blue, paint.alpha);
    p.anti_alias = anti_alias;
    l.pm.fill_path(path, &p, rule, *ts, None);
}

/// Relies on tiny_skia::Pixmap::stroke_path: rasterizes a stroked path with
/// source-over blending; the size is untouched.
#[verifier::external_body]
pub fn layer_stroke_path(
    l: &mut Layer,
    path: &tiny_skia::Path,
    paint: &Paint,
    stroke: &tiny_skia::Stroke,
    anti_alias: bool,
    ts: &tiny_skia::Transform,
)
    ensures
        final(l).spec_width() == old(l).spec_width(),
        final(l).spec_height() == old(l).spec_height(),
{
    let mut p = tiny_skia::Paint::default();
    p.set_color_rgba8(paint.red, paint.green, paint.blue, paint.alpha);
    p.anti_alias = anti_alias;
    l.pm.stroke_path(path, &p, stroke, *ts, None);
}

/// Relies on tiny_skia::Pixmap::draw_pixmap: draws `src` at `(x, y)` under
/// `ts` with the given opacity (in 255ths) and blend mode, nearest-neighbor
/// sampling; the destination size is untouched.
#[verifier::external_body]
pub fn layer_draw_pixmap(
    dst: &mut Layer,
    x: i32,
    y: i32,
    src: &tiny_skia::Pixmap,
    opacity: u8,
    blend: tiny_skia::BlendMode,
    ts: &tiny_skia::Transform,
)
    ensures
        final(dst).spec_width() == old(dst).spec_width(),
        final(dst).spec_height() == old(dst).spec_height(),
{
    let paint = tiny_skia::PixmapPaint {
        opacity: tiny_skia::Color::from_rgba8(0, 0, 0, opacity).alpha(),
        blend_mode: blend,
        quality: tiny_skia::FilterQuality::Nearest,
    };
    dst.pm.draw_pixmap(x, y, src.as_ref(), &paint, *ts, None);
}

/// Relies on tiny_skia::Pixmap::apply_mask: multiplies coverage by the mask,
/// or leaves the buffer unchanged when the sizes differ; the size is
/// untouched.
#[verifier::external_body]
pub fn layer_apply_mask(l: &mut Layer, mask: &tiny_skia::Mask)
    ensures
        final(l).spec_width() == old(l).spec_width(),
        final(l).spec_height() == old(l).spec_height(),
{
    l.pm.apply_mask(mask);
}

/// Relies on tiny_skia::Mask::new: allocates a cleared alpha mask, `None`
/// exactly when one side is zero.
#[verifier::external_body]
pub fn new_mask(width: u32, height: u32) -> (r: Option<tiny_skia::Mask>)
    ensures
        (r is Some) == (1 <= width && 1 <= height),
{
    tiny_skia::Mask::new(width, height)
}

/// Relies on tiny_skia::Mask::fill_path: rasterizes coverage into the mask
/// with winding fill and edge anti-aliasing.
#[verifier::external_body]
pub fn mask_fill_path(mask: &mut tiny_skia::Mask, path: &tiny_skia::Path, ts: &tiny_skia::Transform)
{
    mask.fill_path(path, tiny_skia::FillRule::Winding, true, *ts);
}

/// Relies on tiny_skia::PathBuilder::from_rect: the rectangle as a closed
/// path.
#[verifier::external_body]
pub fn rect_to_path(rect: &tiny_skia::Rect) -> (r: tiny_skia::Path) {
    tiny_skia::PathBuilder::from_rect(*rect)
}

/// Relies on tiny_skia::Transform::pre_concat: the transform applying
/// `inner` first, then `outer`.
#[verifier::external_body]
pub fn combine_transforms(outer: &tiny_skia::Transform, inner: &tiny_skia::Transform) -> (r:
    tiny_skia::Transform) {
    outer.pre_concat(*inner)
}

/// Relies on tiny_skia::Transform::from_translate: the translation moving
/// `(x, y)` to the origin.
#[verifier::external_body]
pub fn shift_to_origin(x: i32, y: i32) -> (r: tiny_skia::Transform) {
    tiny_skia::Transform::from_translate(-(x as i64) as _, -(y as i64) as _)
}

/// Relies on tiny_skia::Transform::identity.
#[verifier::external_body]
pub fn identity_transform() -> (r: tiny_skia::Transform) {
    tiny_skia::Transform::identity()
}

/// Relies on tiny_skia::Rect::transform: the bounding rectangle of the
/// transformed rectangle, `None` when the result is not finite.
#[verifier::external_body]
pub fn transform_rect(rect: &tiny_skia::Rect, ts: &tiny_skia::Transform) -> (r: Option<
    tiny_skia::Rect,
>) {
    rect.transform(*ts)
}

/// Relies on tiny_skia::Rect::is_empty: true when the rectangle has a
/// zero-length side.
#[verifier::external_body]
pub fn rect_is_empty(rect: &tiny_skia::Rect) -> (r: bool) {
    rect.is_empty()
}

/// Relies on tiny_skia::Rect::round_out: the enclosing integer rectangle
/// (each side at least one pixel), `None` when it cannot be represented with
/// `i32` edges — which is exactly this crate's well-formedness.
#[verifier::external_body]
pub fn round_out(rect: &tiny_skia::Rect) -> (r: Option<IntRect>)
    ensures
        r matches Some(out) ==> out.wf(),
{
    let ir = rect.round_out()?;
    Some(IntRect { x: ir.x(), y: ir.y(), width: ir.width(), height: ir.height() })
}

/// Relies on usvg::utils::view_box_to_transform: the standard view-box-fit
/// transform for the declared view box, aspect ratio and target size.
#[verifier::external_body]
pub fn view_box_transform(view_box: &usvg::ViewBox, size: &usvg::tiny_skia_path::Size) -> (r:
    tiny_skia::Transform) {
    let t = usvg::utils::view_box_to_transform(view_box.rect, view_box.aspect, *size);
    tiny_skia::Transform::from_row(t.sx, t.ky, t.kx, t.sy, t.tx, t.ty)
}

} // verus!
