//! Conversions between the crate's extent rectangles and the
//! edge-based rectangles the platform speaks in.
//!
//! The platform describes a rectangle by its four edges (left, top,
//! right, bottom); this crate uses an origin and an extent. The two
//! conversions are exact inverses on representable rectangles.

use crate::rect::Rect;
use vstd::prelude::*;

verus! {

/// A rectangle in the platform's edge form: left, top, right and
/// bottom coordinates.
#[derive(Debug, Clone, Copy, PartialEq, Eq, Structural)]
pub struct EdgeRect {
    pub left: i32,
    pub top: i32,
    pub right: i32,
    pub bottom: i32,
}

/// An edge rectangle whose extent fits in `i32`.
pub open spec fn edge_rect_representable(r: EdgeRect) -> bool {
    &&& i32::MIN <= r.right - r.left <= i32::MAX
    &&& i32::MIN <= r.bottom - r.top <= i32::MAX
}

/// The edge form of an extent rectangle.
pub open spec fn spec_to_edge(rect: Rect) -> EdgeRect {
    EdgeRect {
        left: rect.x,
        top: rect.y,
        right: (rect.x + rect.w) as i32,
        bottom: (rect.y + rect.h) as i32,
    }
}

/// The extent form of an edge rectangle.
pub open spec fn spec_to_extent(rect: EdgeRect) -> Rect {
    Rect {
        x: rect.left,
        y: rect.top,
        w: (rect.right - rect.left) as i32,
        h: (rect.bottom - rect.top) as i32,
    }
}

/// Converts an extent rectangle to the platform's edge form.
pub fn rect_to_win32_rect(rect: &Rect) -> (r: EdgeRect)
    requires
        rect.edges_representable(),
    ensures
        r == spec_to_edge(*rect),
{
    EdgeRect { left: rect.x, top: rect.y, right: rect.x + rect.w, bottom: rect.y + rect.h }
}

/// Converts a platform edge rectangle to an extent rectangle.
pub fn win32_rect_to_rect(rect: &EdgeRect) -> (r: Rect)
    requires
        edge_rect_representable(*rect),
    ensures
        r == spec_to_extent(*rect),
{
    Rect {
        x: rect.left,
        y: rect.top,
        w: rect.right - rect.left,
        h: rect.bottom - rect.top,
    }
}

/// The left half of a work area: same height, the width halved
/// (rounding toward the left edge).
pub fn left_half(base: EdgeRect) -> (r: EdgeRect)
    requires
        edge_rect_representable(base),
        base.left <= base.right,
        base.top <= base.bottom,
    ensures
        r == (EdgeRect {
            left: base.left,
            top: base.top,
            right: (base.left + (base.right - base.left) / 2) as i32,
            bottom: base.bottom,
        }),
{
    let width = base.right - base.left;
    let height = base.bottom - base.top;

    EdgeRect {
        left: base.left,
        top: base.top,
        right: base.left + width / 2,
        bottom: base.top + height,
    }
}

/// The right half of a work area: same height, starting where the left
/// half ends.
pub fn right_half(base: EdgeRect) -> (r: EdgeRect)
    requires
        edge_rect_representable(base),
        base.left <= base.right,
        base.top <= base.bottom,
    ensures
        r == (EdgeRect {
            left: (base.left + (base.right - base.left) / 2) as i32,
            top: base.top,
            right: base.right,
            bottom: base.bottom,
        }),
{
    let width = base.right - base.left;

    EdgeRect {
        left: base.left + width / 2,
        top: base.top,
        right: base.right,
        bottom: base.bottom,
    }
}

/// The two conversions are exact inverses: a rectangle survives the
/// round trip through the platform's edge form in either direction.
pub proof fn lemma_rect_round_trip(rect: Rect, edge: EdgeRect)
    requires
        rect.edges_representable(),
        edge_rect_representable(edge),
    ensures
        spec_to_extent(spec_to_edge(rect)) == rect,
        spec_to_edge(spec_to_extent(edge)) == edge,
{
}

/// The left and right halves of a work area tile it exactly: they
/// share the dividing edge and together cover the base from edge to
/// edge at full height.
pub proof fn lemma_halves_tile(base: EdgeRect)
    requires
        edge_rect_representable(base),
        base.left <= base.right,
        base.top <= base.bottom,
    ensures
        ({
            let mid = (base.left + (base.right - base.left) / 2) as i32;
            let lh = EdgeRect { left: base.left, top: base.top, right: mid, bottom: base.bottom };
            let rh = EdgeRect { left: mid, top: base.top, right: base.right, bottom: base.bottom };
            &&& lh.right == rh.left
            &&& lh.left == base.left
            &&& rh.right == base.right
            &&& lh.left <= lh.right
            &&& rh.left <= rh.right
        }),
{
}

} // verus!
