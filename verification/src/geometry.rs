//! Integer rectangles, sizes and points in screen pixels, and the rectangle
//! arithmetic the overlay is laid out with.
use vstd::prelude::*;

verus! {

/// A rectangle given by its left, top, right and bottom edges; right and bottom
/// are exclusive.
#[derive(Clone, Copy, Debug, PartialEq, Eq, Structural)]
pub struct Rect {
    pub left: i32,
    pub top: i32,
    pub right: i32,
    pub bottom: i32,
}

/// A width and a height.
#[derive(Clone, Copy, Debug, PartialEq, Eq, Structural)]
pub struct Size {
    pub cx: i32,
    pub cy: i32,
}

/// A point.
#[derive(Clone, Copy, Debug, PartialEq, Eq, Structural)]
pub struct Point {
    pub x: i32,
    pub y: i32,
}

/// Whether an integer is representable as an `i32`.
pub open spec fn fits_i32(x: int) -> bool {
    i32::MIN <= x <= i32::MAX
}

/// Integer division rounding toward zero, as machine division does.
pub open spec fn tdiv(a: int, b: int) -> int {
    if a >= 0 {
        a / b
    } else {
        -((-a) / b)
    }
}

pub open spec fn spec_width(r: Rect) -> int {
    r.right - r.left
}

pub open spec fn spec_height(r: Rect) -> int {
    r.bottom - r.top
}

/// The rectangle with the given edges (each assumed to fit an `i32`).
pub open spec fn rect_of(left: int, top: int, right: int, bottom: int) -> Rect {
    Rect { left: left as i32, top: top as i32, right: right as i32, bottom: bottom as i32 }
}

/// Whether all four edges fit an `i32`.
pub open spec fn edges_fit(left: int, top: int, right: int, bottom: int) -> bool {
    fits_i32(left) && fits_i32(top) && fits_i32(right) && fits_i32(bottom)
}

/// Whether a point lies in a rectangle (edges at right and bottom excluded).
pub open spec fn spec_point_in_rect(r: Rect, x: int, y: int) -> bool {
    r.left <= x < r.right && r.top <= y < r.bottom
}

pub open spec fn spec_inset_rect(r: Rect, padding: int) -> Rect {
    rect_of(r.left + padding, r.top + padding, r.right - padding, r.bottom - padding)
}

pub open spec fn spec_offset_rect(r: Rect, dx: int, dy: int) -> Rect {
    rect_of(r.left + dx, r.top + dy, r.right + dx, r.bottom + dy)
}

pub open spec fn spec_scale_rect(r: Rect, scale: int) -> Rect {
    rect_of(r.left * scale, r.top * scale, r.right * scale, r.bottom * scale)
}

/// The left edge of a span of `size` centered in `[start, end)`.
pub open spec fn spec_centered_start(start: int, end: int, size: int) -> int {
    start + tdiv(end - start - size, 2)
}

/// A `width` by `height` rectangle centered in `r`.
pub open spec fn spec_centered_rect(r: Rect, width: int, height: int) -> Rect {
    let left = spec_centered_start(r.left as int, r.right as int, width);
    let top = spec_centered_start(r.top as int, r.bottom as int, height);
    rect_of(left, top, left + width, top + height)
}

/// Whether centering a `width` by `height` rectangle in `r` stays within `i32`.
pub open spec fn centered_rect_fits(r: Rect, width: int, height: int) -> bool {
    let left = spec_centered_start(r.left as int, r.right as int, width);
    let top = spec_centered_start(r.top as int, r.bottom as int, height);
    &&& fits_i32(spec_width(r))
    &&& fits_i32(spec_height(r))
    &&& fits_i32(spec_width(r) - width)
    &&& fits_i32(spec_height(r) - height)
    &&& edges_fit(left, top, left + width, top + height)
}

pub fn rect_width(rect: &Rect) -> (r: i32)
    requires
        fits_i32(spec_width(*rect)),
    ensures
        r == spec_width(*rect),
{
    rect.right - rect.left
}

pub fn rect_height(rect: &Rect) -> (r: i32)
    requires
        fits_i32(spec_height(*rect)),
    ensures
        r == spec_height(*rect),
{
    rect.bottom - rect.top
}

pub fn point_in_rect(rect: &Rect, x: i32, y: i32) -> (r: bool)
    ensures
        r == spec_point_in_rect(*rect, x as int, y as int),
{
    x >= rect.left && x < rect.right && y >= rect.top && y < rect.bottom
}

/// Moves every edge of `rect` inward by `padding`.
pub fn inset_rect(rect: Rect, padding: i32) -> (r: Rect)
    requires
        edges_fit(
            rect.left + padding,
            rect.top + padding,
            rect.right - padding,
            rect.bottom - padding,
        ),
    ensures
        r == spec_inset_rect(rect, padding as int),
{
    Rect {
        left: rect.left + padding,
        top: rect.top + padding,
        right: rect.right - padding,
        bottom: rect.bottom - padding,
    }
}

/// Moves `rect` by `dx` horizontally and `dy` vertically.
pub fn offset_rect(rect: Rect, dx: i32, dy: i32) -> (r: Rect)
    requires
        edges_fit(rect.left + dx, rect.top + dy, rect.right + dx, rect.bottom + dy),
    ensures
        r == spec_offset_rect(rect, dx as int, dy as int),
{
    Rect {
        left: rect.left + dx,
        top: rect.top + dy,
        right: rect.right + dx,
        bottom: rect.bottom + dy,
    }
}

/// Multiplies every coordinate of `rect` by `scale`.
pub fn scale_rect(rect: Rect, scale: i32) -> (r: Rect)
    requires
        edges_fit(rect.left * scale, rect.top * scale, rect.right * scale, rect.bottom * scale),
    ensures
        r == spec_scale_rect(rect, scale as int),
{
    Rect {
        left: rect.left * scale,
        top: rect.top * scale,
        right: rect.right * scale,
        bottom: rect.bottom * scale,
    }
}

/// Halves an integer, rounding toward zero.
fn half(a: i32) -> (r: i32)
    ensures
        r == tdiv(a as int, 2),
{
    a / 2
}

/// A `width` by `height` rectangle centered in `rect` (rounding toward the
/// top-left by truncating division).
pub fn centered_rect(rect: Rect, width: i32, height: i32) -> (r: Rect)
    requires
        centered_rect_fits(rect, width as int, height as int),
    ensures
        r == spec_centered_rect(rect, width as int, height as int),
{
    let left = rect.left + half(rect_width(&rect) - width);
    let top = rect.top + half(rect_height(&rect) - height);
    Rect { left, top, right: left + width, bottom: top + height }
}

} // verus!
