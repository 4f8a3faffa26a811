//! Plain-value geometry and colour types used by the painting canvas.
//!
//! Coordinates and stroke widths are integers in hundredths of a UI point,
//! so that the host can map its fractional positions onto them exactly
//! enough for drawing.
use vstd::prelude::*;

verus! {

/// Number of coordinate units in one UI point.
pub const UNITS_PER_POINT: u32 = 100;

/// Largest magnitude of a canvas-local coordinate: the difference of two
/// `i32` screen coordinates always lies within it.
pub const MAX_OFFSET: i64 = 0xFFFF_FFFF;

/// An absolute position on screen, as reported by the host.
#[derive(Clone, Copy, Debug, PartialEq, Eq, Structural)]
pub struct ScreenPos {
    pub x: i32,
    pub y: i32,
}

/// A point with wide coordinates: canvas-local while recorded, absolute
/// once emitted in a draw command.
#[derive(Clone, Copy, Debug, PartialEq, Eq, Structural)]
pub struct Point {
    pub x: i64,
    pub y: i64,
}

/// An sRGB colour with alpha, one byte per channel.
#[derive(Clone, Copy, Debug, PartialEq, Eq, Structural)]
pub struct Rgba {
    pub r: u8,
    pub g: u8,
    pub b: u8,
    pub a: u8,
}

/// Width and colour shared by every stroke of a drawing.
#[derive(Clone, Copy, Debug, PartialEq, Eq, Structural)]
pub struct StrokeStyle {
    pub width: u32,
    pub color: Rgba,
}

/// The canvas-local point of screen position `p` on a canvas whose
/// top-left corner is `min`.
pub open spec fn local_of(min: ScreenPos, p: ScreenPos) -> Point {
    Point { x: (p.x - min.x) as i64, y: (p.y - min.y) as i64 }
}

/// The absolute point of canvas-local point `q` on a canvas whose top-left
/// corner is `min`.
pub open spec fn absolute_of(min: ScreenPos, q: Point) -> Point {
    Point { x: (min.x + q.x) as i64, y: (min.y + q.y) as i64 }
}

/// A canvas-local point whose coordinates a difference of screen
/// positions can produce.
pub open spec fn offset_in_range(q: Point) -> bool {
    -MAX_OFFSET <= q.x <= MAX_OFFSET && -MAX_OFFSET <= q.y <= MAX_OFFSET
}

/// Canvas-local point of `p`: `p` minus the canvas corner `min`.
pub fn local_point(min: ScreenPos, p: ScreenPos) -> (q: Point)
    ensures
        q == local_of(min, p),
        offset_in_range(q),
{
    Point { x: p.x as i64 - min.x as i64, y: p.y as i64 - min.y as i64 }
}

/// Absolute point of the canvas-local point `q`: `q` plus the canvas corner `min`.
pub fn absolute_point(min: ScreenPos, q: Point) -> (p: Point)
    requires
        offset_in_range(q),
    ensures
        p == absolute_of(min, q),
{
    Point { x: min.x as i64 + q.x, y: min.y as i64 + q.y }
}

impl StrokeStyle {
    /// The style a new drawing starts with: one point wide, light blue.
    pub fn initial() -> (s: StrokeStyle)
        ensures
            s.width == UNITS_PER_POINT,
            s.color == (Rgba { r: 140, g: 160, b: 255, a: 255 }),
    {
        StrokeStyle { width: UNITS_PER_POINT, color: Rgba { r: 140, g: 160, b: 255, a: 255 } }
    }
}

} // verus!
