//! Points and axis-aligned rectangles in whole device units.

use vstd::prelude::*;

verus! {

/// A position, or an offset, on the window.
#[derive(Clone, Copy, PartialEq, Eq, Structural, Debug)]
pub struct Point {
    pub x: i64,
    pub y: i64,
}

impl Point {
    pub fn new(x: i64, y: i64) -> (p: Point)
        ensures
            p.x == x,
            p.y == y,
    {
        Point { x, y }
    }
}

/// An axis-aligned rectangle: its upper left corner and its extent.
///
/// The extent is signed. A rectangle with a negative width or height is
/// accepted and holds no point at all.
#[derive(Clone, Copy, PartialEq, Eq, Structural, Debug)]
pub struct Rectangle {
    pub x: i64,
    pub y: i64,
    pub width: i64,
    pub height: i64,
}

impl Rectangle {
    /// Whether the point `(px, py)` lies in the rectangle. All four edges
    /// belong to the rectangle, so a rectangle of width 0 and height 0 holds
    /// exactly its corner.
    pub open spec fn holds(self, px: int, py: int) -> bool {
        &&& self.x <= px <= self.x + self.width
        &&& self.y <= py <= self.y + self.height
    }

    pub fn new(x: i64, y: i64, width: i64, height: i64) -> (r: Rectangle)
        ensures
            r == (Rectangle { x, y, width, height }),
    {
        Rectangle { x, y, width, height }
    }

    /// The same extent with the upper left corner at `position`.
    pub open spec fn moved_to(self, position: Point) -> Rectangle {
        Rectangle { x: position.x, y: position.y, width: self.width, height: self.height }
    }

    pub fn set_x(&mut self, x: i64)
        ensures
            *final(self) == (Rectangle { x, ..*old(self) }),
    {
        self.x = x;
    }

    pub fn set_y(&mut self, y: i64)
        ensures
            *final(self) == (Rectangle { y, ..*old(self) }),
    {
        self.y = y;
    }

    /// Tests a point against the rectangle, edges included. The far edges are
    /// computed in 128 bits, so no corner and extent can overflow.
    pub fn contains(&self, point: Point) -> (inside: bool)
        ensures
            inside == self.holds(point.x as int, point.y as int),
    {
        let right: i128 = self.x as i128 + self.width as i128;
        let bottom: i128 = self.y as i128 + self.height as i128;
        point.x >= self.x && point.x as i128 <= right && point.y >= self.y && point.y as i128
            <= bottom
    }
}

} // verus!
