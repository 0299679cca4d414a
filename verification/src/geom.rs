//! Integer rectangle geometry for layer placement.
//!
//! Layer rectangles, the render-call region bound and the region clamp all
//! live here as pure integer arithmetic with exact contracts.

use vstd::prelude::*;

verus! {

pub open spec fn min2(a: int, b: int) -> int {
    if a <= b {
        a
    } else {
        b
    }
}

pub open spec fn max2(a: int, b: int) -> int {
    if a >= b {
        a
    } else {
        b
    }
}

/// An axis-aligned integer rectangle with a strictly positive size whose
/// right and bottom edges still fit in `i32`.
#[derive(Clone, Copy, Debug, PartialEq, Eq, Structural)]
pub struct IntRect {
    pub x: i32,
    pub y: i32,
    pub width: u32,
    pub height: u32,
}

impl IntRect {
    /// The exclusive right edge.
    pub open spec fn right(self) -> int {
        self.x + self.width
    }

    /// The exclusive bottom edge.
    pub open spec fn bottom(self) -> int {
        self.y + self.height
    }

    /// Well-formed: non-degenerate, and both far edges representable as `i32`.
    pub open spec fn wf(self) -> bool {
        &&& 1 <= self.width <= i32::MAX
        &&& 1 <= self.height <= i32::MAX
        &&& self.right() <= i32::MAX
        &&& self.bottom() <= i32::MAX
    }

    pub open spec fn area(self) -> int {
        self.width * self.height
    }

    pub open spec fn contained_in(self, outer: IntRect) -> bool {
        &&& outer.x <= self.x
        &&& outer.y <= self.y
        &&& self.right() <= outer.right()
        &&& self.bottom() <= outer.bottom()
    }

    pub open spec fn spec_new(x: i32, y: i32, width: u32, height: u32) -> Option<IntRect> {
        if 1 <= width <= i32::MAX && 1 <= height <= i32::MAX && x + width <= i32::MAX && y + height
            <= i32::MAX {
            Some(IntRect { x, y, width, height })
        } else {
            None
        }
    }

    /// Builds a rectangle, refusing degenerate sizes and edges that overflow `i32`.
    pub fn new(x: i32, y: i32, width: u32, height: u32) -> (r: Option<IntRect>)
        ensures
            r == Self::spec_new(x, y, width, height),
            r matches Some(out) ==> out.wf(),
    {
        let right: i64 = x as i64 + width as i64;
        let bottom: i64 = y as i64 + height as i64;
        if 1 <= width && width <= i32::MAX as u32 && 1 <= height && height <= i32::MAX as u32
            && right <= i32::MAX as i64 && bottom <= i32::MAX as i64 {
            Some(IntRect { x, y, width, height })
        } else {
            None
        }
    }

    /// Clamps `self` into `bounds`: the intersection, or `None` when the two
    /// rectangles do not overlap.
    pub fn fit_to_rect(&self, bounds: &IntRect) -> (r: Option<IntRect>)
        ensures
            r == spec_fit(*self, *bounds),
            r matches Some(out) ==> out.contained_in(*bounds) && out.contained_in(*self),
            self.wf() && bounds.wf() ==> (r matches Some(out) ==> out.wf()),
    {
        let ax2: i64 = self.x as i64 + self.width as i64;
        let ay2: i64 = self.y as i64 + self.height as i64;
        let bx2: i64 = bounds.x as i64 + bounds.width as i64;
        let by2: i64 = bounds.y as i64 + bounds.height as i64;
        let l: i64 = if self.x >= bounds.x {
            self.x as i64
        } else {
            bounds.x as i64
        };
        let t: i64 = if self.y >= bounds.y {
            self.y as i64
        } else {
            bounds.y as i64
        };
        let rr: i64 = if ax2 <= bx2 {
            ax2
        } else {
            bx2
        };
        let bb: i64 = if ay2 <= by2 {
            ay2
        } else {
            by2
        };
        if l < rr && t < bb {
            assert(rr - l <= bounds.width as int);
            assert(bb - t <= bounds.height as int);
            Some(IntRect { x: l as i32, y: t as i32, width: (rr - l) as u32, height: (bb - t) as u32 })
        } else {
            None
        }
    }
}

/// The intersection of two rectangles, or `None` when they do not overlap.
pub open spec fn spec_fit(a: IntRect, b: IntRect) -> Option<IntRect> {
    let l = max2(a.x as int, b.x as int);
    let t = max2(a.y as int, b.y as int);
    let rr = min2(a.right(), b.right());
    let bb = min2(a.bottom(), b.bottom());
    if l < rr && t < bb {
        Some(IntRect { x: l as i32, y: t as i32, width: (rr - l) as u32, height: (bb - t) as u32 })
    } else {
        None
    }
}

pub open spec fn area_of(r: Option<IntRect>) -> int {
    match r {
        Some(out) => out.area(),
        None => 0,
    }
}

/// Law: the region clamp is idempotent on rectangles that already lie inside
/// the bounds — clamping returns them unchanged.
pub proof fn lemma_fit_to_rect_idempotent(a: IntRect, b: IntRect)
    requires
        a.wf(),
        b.wf(),
        a.contained_in(b),
    ensures
        spec_fit(a, b) == Some(a),
{
    assert(max2(a.x as int, b.x as int) == a.x as int);
    assert(min2(a.right(), b.right()) == a.right());
    assert(spec_fit(a, b) == Some(a));
}

/// Law: the region clamp is monotonically non-increasing in area — the
/// clamped rectangle never covers more than the original (a missing result
/// counts as area zero).
pub proof fn lemma_fit_to_rect_area_non_increasing(a: IntRect, b: IntRect)
    requires
        a.wf(),
        b.wf(),
    ensures
        area_of(spec_fit(a, b)) <= a.area(),
{
    if spec_fit(a, b) is Some {
        let out = spec_fit(a, b)->Some_0;
        let w = min2(a.right(), b.right()) - max2(a.x as int, b.x as int);
        let h = min2(a.bottom(), b.bottom()) - max2(a.y as int, b.y as int);
        assert(out.width == w && out.height == h);
        assert(w <= a.width as int && h <= a.height as int);
        assert(w * h <= a.width * a.height) by (nonlinear_arith)
            requires
                0 < w <= a.width as int,
                0 < h <= a.height as int,
        ;
    }
}

/// The integer layer rectangle of a group: the device-space bbox, padded by
/// two pixels per side when the group has no filters, clamped to the region
/// bound. `None` means the layer vanishes entirely.
pub open spec fn spec_layer_rect(dev: IntRect, has_filters: bool, max_bbox: IntRect) -> Option<
    IntRect,
> {
    let pad: int = if has_filters {
        0
    } else {
        2
    };
    let l = max2(dev.x - pad, max_bbox.x as int);
    let t = max2(dev.y - pad, max_bbox.y as int);
    let rr = min2(dev.right() + pad, max_bbox.right());
    let bb = min2(dev.bottom() + pad, max_bbox.bottom());
    if l < rr && t < bb {
        Some(IntRect { x: l as i32, y: t as i32, width: (rr - l) as u32, height: (bb - t) as u32 })
    } else {
        None
    }
}

/// Computes a group's integer layer rectangle from its outward-rounded
/// device-space bbox.
///
/// Filtered groups are never padded: their rectangle is exactly the clamp of
/// the rounded bbox, since the filter region itself is the clip boundary.
/// Non-filtered groups get a fixed two-pixel outward pad per side (so
/// anti-aliased edge pixels are not clipped) before the clamp.
pub fn layer_bounds(dev: &IntRect, has_filters: bool, max_bbox: &IntRect) -> (r: Option<IntRect>)
    requires
        max_bbox.wf(),
    ensures
        r == spec_layer_rect(*dev, has_filters, *max_bbox),
        has_filters ==> r == spec_fit(*dev, *max_bbox),
        r matches Some(out) ==> out.wf() && out.contained_in(*max_bbox),
{
    let pad: i64 = if has_filters {
        0
    } else {
        2
    };
    let mx2: i64 = max_bbox.x as i64 + max_bbox.width as i64;
    let my2: i64 = max_bbox.y as i64 + max_bbox.height as i64;
    let dl: i64 = dev.x as i64 - pad;
    let dt: i64 = dev.y as i64 - pad;
    let dr: i64 = dev.x as i64 + dev.width as i64 + pad;
    let db: i64 = dev.y as i64 + dev.height as i64 + pad;
    let l: i64 = if dl >= max_bbox.x as i64 {
        dl
    } else {
        max_bbox.x as i64
    };
    let t: i64 = if dt >= max_bbox.y as i64 {
        dt
    } else {
        max_bbox.y as i64
    };
    let rr: i64 = if dr <= mx2 {
        dr
    } else {
        mx2
    };
    let bb: i64 = if db <= my2 {
        db
    } else {
        my2
    };
    if l < rr && t < bb {
        assert(rr - l <= max_bbox.width as int);
        assert(bb - t <= max_bbox.height as int);
        Some(IntRect { x: l as i32, y: t as i32, width: (rr - l) as u32, height: (bb - t) as u32 })
    } else {
        None
    }
}

/// Law: for a group without filters the layer rectangle is exactly the clamp
/// of the bbox expanded two pixels per side, whenever that padded rectangle is
/// itself representable.
pub proof fn lemma_unfiltered_layer_is_padded_clamp(dev: IntRect, max_bbox: IntRect)
    requires
        dev.wf(),
        max_bbox.wf(),
        i32::MIN <= dev.x - 2,
        i32::MIN <= dev.y - 2,
        dev.right() + 2 <= i32::MAX,
        dev.bottom() + 2 <= i32::MAX,
    ensures
        spec_layer_rect(dev, false, max_bbox) == spec_fit(
            IntRect {
                x: (dev.x - 2) as i32,
                y: (dev.y - 2) as i32,
                width: (dev.width + 4) as u32,
                height: (dev.height + 4) as u32,
            },
            max_bbox,
        ),
{
    let padded = IntRect {
        x: (dev.x - 2) as i32,
        y: (dev.y - 2) as i32,
        width: (dev.width + 4) as u32,
        height: (dev.height + 4) as u32,
    };
    assert(padded.x == dev.x - 2);
    assert(padded.right() == dev.right() + 2);
    assert(padded.bottom() == dev.bottom() + 2);
}

/// Law: every layer rectangle stays inside the region bound, so its area —
/// and with it the memory behind one isolation layer — is capped by the
/// region bound's area, however large the group's own filter region is.
pub proof fn lemma_layer_area_bounded(dev: IntRect, has_filters: bool, max_bbox: IntRect)
    requires
        max_bbox.wf(),
    ensures
        area_of(spec_layer_rect(dev, has_filters, max_bbox)) <= max_bbox.area(),
{
    if spec_layer_rect(dev, has_filters, max_bbox) is Some {
        let out = spec_layer_rect(dev, has_filters, max_bbox)->Some_0;
        let pad: int = if has_filters {
            0
        } else {
            2
        };
        let w = min2(dev.right() + pad, max_bbox.right()) - max2(dev.x - pad, max_bbox.x as int);
        let h = min2(dev.bottom() + pad, max_bbox.bottom()) - max2(dev.y - pad, max_bbox.y as int);
        assert(out.width == w && out.height == h);
        assert(w <= max_bbox.width as int && h <= max_bbox.height as int);
        assert(w * h <= max_bbox.width * max_bbox.height) by (nonlinear_arith)
            requires
                0 < w <= max_bbox.width as int,
                0 < h <= max_bbox.height as int,
        ;
    }
}

/// The low edge of the region bound along one axis: minus twice the target
/// size, saturated to `i32`.
pub open spec fn bound_low(size: int) -> int {
    max2(-2 * size, i32::MIN as int)
}

/// The high edge of the region bound along one axis: twice the target size,
/// saturated so that both the edge and the resulting extent fit in `i32`.
pub open spec fn bound_high(size: int) -> int {
    min2(min2(2 * size, i32::MAX as int), bound_low(size) + i32::MAX as int)
}

/// One axis of the region bound, as (low edge, extent).
fn bound_axis(size: u32) -> (r: (i64, i64))
    requires
        1 <= size,
    ensures
        r.0 == bound_low(size as int),
        r.1 == bound_high(size as int),
        r.0 < r.1,
{
    let s: i64 = size as i64;
    let neg: i64 = 0 - 2 * s;
    let l: i64 = if neg >= i32::MIN as i64 {
        neg
    } else {
        i32::MIN as i64
    };
    let mut h: i64 = 2 * s;
    if h > i32::MAX as i64 {
        h = i32::MAX as i64;
    }
    if h > l + i32::MAX as i64 {
        h = l + i32::MAX as i64;
    }
    (l, h)
}

/// The region bound of a render call: a rectangle spanning four times the
/// target size in each axis, centered by an offset of minus twice the size,
/// with each edge saturated so the rectangle stays representable. For every
/// realistic target (four times the size fits in `i32`) it is exactly that
/// span with no saturation.
pub fn max_region_bound(width: u32, height: u32) -> (r: IntRect)
    requires
        1 <= width,
        1 <= height,
    ensures
        r.wf(),
        r.x as int == bound_low(width as int),
        r.y as int == bound_low(height as int),
        r.right() == bound_high(width as int),
        r.bottom() == bound_high(height as int),
        4 * width <= i32::MAX ==> (r.x == -2 * width && r.width == 4 * width),
        4 * height <= i32::MAX ==> (r.y == -2 * height && r.height == 4 * height),
{
    let wa = bound_axis(width);
    let ha = bound_axis(height);
    IntRect {
        x: wa.0 as i32,
        y: ha.0 as i32,
        width: (wa.1 - wa.0) as u32,
        height: (ha.1 - ha.0) as u32,
    }
}

} // verus!
