//! The resolved scene graph: a read-only tree of drawable nodes.
//!
//! Everything here is produced upstream (parsing, layout, bbox and paint
//! resolution) and only read during a render call.

use vstd::prelude::*;

verus! {

/// A resolved solid paint, as premultiplication-free RGBA.
#[derive(Clone, Copy, Debug, PartialEq, Eq, Structural)]
pub struct Paint {
    pub red: u8,
    pub green: u8,
    pub blue: u8,
    pub alpha: u8,
}

/// A filter effect applied to a group's isolation layer.
pub enum Filter {
    /// Replaces the layer with one uniform color.
    Flood(Paint),
    /// Replaces the layer with the synthesized fill-paint source image.
    FillPaint,
    /// Replaces the layer with the synthesized stroke-paint source image.
    StrokePaint,
}

/// A rectangular clip region, in the group's layer coordinate space.
pub struct ClipPath {
    pub rect: tiny_skia::Rect,
}

/// A rectangular mask region, in the group's layer coordinate space.
pub struct MaskDef {
    pub rect: tiny_skia::Rect,
}

/// Immutable filled geometry.
pub struct FillPath {
    pub path: tiny_skia::Path,
    pub paint: Paint,
    pub rule: tiny_skia::FillRule,
    pub anti_alias: bool,
}

/// Immutable stroked geometry.
pub struct StrokePath {
    pub path: tiny_skia::Path,
    pub paint: Paint,
    pub stroke: tiny_skia::Stroke,
    pub anti_alias: bool,
}

/// A decoded raster image, drawn under the accumulated transform.
pub struct Image {
    pub pixmap: tiny_skia::Pixmap,
}

/// A group container: ordered children plus the effects that force an
/// isolation layer.
pub struct Group {
    /// The group's local transform, applied before its children.
    pub transform: tiny_skia::Transform,
    /// Group opacity in 255ths: 255 is fully opaque.
    pub opacity: u8,
    pub blend_mode: tiny_skia::BlendMode,
    /// Bounding box of the children, in their own coordinate space;
    /// `None` is the empty sentinel for an invalid or unknown bbox.
    pub bbox: Option<tiny_skia::Rect>,
    pub clip_path: Option<ClipPath>,
    pub mask: Option<MaskDef>,
    /// Filter effects, applied in order.
    pub filters: Vec<Filter>,
    /// Paint for the synthesized fill-paint filter input.
    pub filter_fill: Option<Paint>,
    /// Paint for the synthesized stroke-paint filter input.
    pub filter_stroke: Option<Paint>,
    pub children: Vec<Node>,
}

impl Group {
    /// True exactly when the group needs no isolation layer: full opacity,
    /// normal (source-over) blending, and no clip, mask or filters.
    pub open spec fn spec_transform_only(&self) -> bool {
        &&& self.opacity == 255
        &&& self.blend_mode == tiny_skia::BlendMode::SourceOver
        &&& self.clip_path is None
        &&& self.mask is None
        &&& self.filters@.len() == 0
    }

    /// The derived transform-only test: such a group renders its children
    /// directly into the destination buffer.
    pub fn is_transform_only(&self) -> (r: bool)
        ensures
            r == self.spec_transform_only(),
    {
        self.opacity == 255 && matches!(self.blend_mode, tiny_skia::BlendMode::SourceOver)
            && self.clip_path.is_none() && self.mask.is_none() && self.filters.len() == 0
    }
}

/// A drawable node; the variant set is closed and dispatched exhaustively.
pub enum Node {
    Group(Group),
    FillPath(FillPath),
    StrokePath(StrokePath),
    Image(Image),
}

/// The root of a resolved scene graph.
pub struct Tree {
    /// The declared view box with its aspect-ratio policy.
    pub view_box: usvg::ViewBox,
    /// The declared content size the view box maps onto.
    pub size: usvg::tiny_skia_path::Size,
    pub children: Vec<Node>,
}

} // verus!
