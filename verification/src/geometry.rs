//! Points and rectangles in pixels.

use vstd::prelude::*;

verus! {

/// A pixel position.
#[derive(Clone, Copy, Debug, Default, PartialEq, Eq, Structural)]
pub struct Point {
    pub x: i32,
    pub y: i32,
}

/// An axis-aligned rectangle, by its top-left corner and its size.
#[derive(Clone, Copy, Debug, Default, PartialEq, Eq, Structural)]
pub struct Rect {
    pub x: i32,
    pub y: i32,
    pub width: i32,
    pub height: i32,
}

/// Whether `value` can be held by an `i32`.
pub open spec fn fits(value: int) -> bool {
    i32::MIN <= value <= i32::MAX
}

/// The absolute value of `value`.
pub open spec fn magnitude(value: int) -> int {
    if value >= 0 {
        value
    } else {
        -value
    }
}

/// Half of `value`, rounded toward zero.
pub open spec fn half(value: int) -> int {
    if value >= 0 {
        value / 2
    } else {
        -((-value) / 2)
    }
}

/// The square of the straight-line distance between `a` and `b`.
pub open spec fn squared_distance(a: Point, b: Point) -> int {
    (a.x - b.x) * (a.x - b.x) + (a.y - b.y) * (a.y - b.y)
}

/// Whether `a` and `b` are at most `tolerance` apart along both axes.
pub open spec fn near(a: Point, b: Point, tolerance: int) -> bool {
    magnitude(a.x - b.x) <= tolerance && magnitude(a.y - b.y) <= tolerance
}

impl Rect {
    /// The horizontal center.
    pub open spec fn center_x(self) -> int {
        self.x + half(self.width as int)
    }

    /// The vertical center.
    pub open spec fn center_y(self) -> int {
        self.y + half(self.height as int)
    }

    /// Whether the center is a pixel position.
    pub open spec fn has_center(self) -> bool {
        fits(self.center_x()) && fits(self.center_y())
    }

    /// The distance from the bottom edge to the bottom of a frame of the given height, that is
    /// the position of the bottom edge once the vertical axis points up.
    pub open spec fn flipped_y(self, frame_height: int) -> int {
        frame_height - (self.y + self.height)
    }

    /// Whether [`Rect::flip`] stays within pixel positions.
    pub open spec fn can_flip(self, frame_height: int) -> bool {
        fits(self.y + self.height) && fits(self.flipped_y(frame_height))
    }

    /// This rectangle with its vertical position counted from the bottom of the frame.
    pub open spec fn flipped(self, frame_height: int) -> Rect {
        Rect {
            x: self.x,
            y: self.flipped_y(frame_height) as i32,
            width: self.width,
            height: self.height,
        }
    }

    /// The center of this rectangle.
    pub fn center(&self) -> (point: Point)
        requires
            self.has_center(),
        ensures
            point.x == self.center_x(),
            point.y == self.center_y(),
    {
        Point { x: self.x + self.width / 2, y: self.y + self.height / 2 }
    }

    /// Counts the vertical position from the bottom of a frame of the given height.
    pub fn flip(&self, frame_height: i32) -> (rect: Rect)
        requires
            self.can_flip(frame_height as int),
        ensures
            rect == self.flipped(frame_height as int),
            rect.y == self.flipped_y(frame_height as int),
    {
        Rect {
            x: self.x,
            y: frame_height - (self.y + self.height),
            width: self.width,
            height: self.height,
        }
    }
}

/// The distance between two coordinates.
pub fn distance(a: i32, b: i32) -> (r: i64)
    ensures
        r == magnitude(a - b),
{
    let difference: i64 = a as i64 - b as i64;
    if difference >= 0 {
        difference
    } else {
        -difference
    }
}

/// Whether two points are at most `tolerance` apart along both axes.
pub fn is_near(a: Point, b: Point, tolerance: i32) -> (r: bool)
    ensures
        r == near(a, b, tolerance as int),
{
    distance(a.x, b.x) <= tolerance as i64 && distance(a.y, b.y) <= tolerance as i64
}

/// The square of the straight-line distance between two points.
pub fn distance_squared(a: Point, b: Point) -> (r: i128)
    ensures
        r == squared_distance(a, b),
{
    let dx: i128 = a.x as i128 - b.x as i128;
    let dy: i128 = a.y as i128 - b.y as i128;
    assert(0 <= dx * dx <= 0x1_0000_0000_0000_0000) by (nonlinear_arith)
        requires
            -0x1_0000_0000 <= dx <= 0x1_0000_0000,
    ;
    assert(0 <= dy * dy <= 0x1_0000_0000_0000_0000) by (nonlinear_arith)
        requires
            -0x1_0000_0000 <= dy <= 0x1_0000_0000,
    ;
    dx * dx + dy * dy
}

} // verus!
