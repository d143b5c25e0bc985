//! Plain integer geometry: points, sizes and pixel rectangles.
//!
//! The display driver has its own geometry types; the logic here works
//! on these plain ones, and the unverified display layer converts at
//! the boundary.

use vstd::prelude::*;

verus! {

/// Coordinates this crate works with stay inside this bound, so that
/// pixel arithmetic never overflows `i32`.
pub const COORD_LIMIT: i32 = 1000000;

/// A pixel position (x to the right, y downwards).
#[derive(Clone, Copy, Debug, PartialEq, Eq, Structural)]
pub struct Point {
    pub x: i32,
    pub y: i32,
}

/// A width and height in pixels.
#[derive(Clone, Copy, Debug, PartialEq, Eq, Structural)]
pub struct Size {
    pub width: u32,
    pub height: u32,
}

/// An axis-aligned pixel rectangle.
#[derive(Clone, Copy, Debug, PartialEq, Eq, Structural)]
pub struct Rect {
    pub top_left: Point,
    pub size: Size,
}

impl Point {
    /// Both coordinates within [`COORD_LIMIT`].
    pub open spec fn in_range(self) -> bool {
        -COORD_LIMIT <= self.x <= COORD_LIMIT && -COORD_LIMIT <= self.y <= COORD_LIMIT
    }

    pub fn new(x: i32, y: i32) -> (p: Point)
        ensures
            p == (Point { x, y }),
    {
        Point { x, y }
    }

    pub fn zero() -> (p: Point)
        ensures
            p == (Point { x: 0, y: 0 }),
    {
        Point { x: 0, y: 0 }
    }
}

impl Size {
    pub fn new(width: u32, height: u32) -> (s: Size)
        ensures
            s == (Size { width, height }),
    {
        Size { width, height }
    }
}

impl Rect {
    pub fn new(top_left: Point, size: Size) -> (r: Rect)
        ensures
            r == (Rect { top_left, size }),
    {
        Rect { top_left, size }
    }

    /// The smallest rectangle containing both corner pixels: the top
    /// left is the componentwise minimum, the size spans both corners
    /// inclusively.
    pub fn with_corners(corner_1: Point, corner_2: Point) -> (r: Rect)
        requires
            corner_1.in_range(),
            corner_2.in_range(),
        ensures
            r == spanning_rect(corner_1, corner_2),
    {
        let left: i32 = if corner_1.x <= corner_2.x {
            corner_1.x
        } else {
            corner_2.x
        };
        let top: i32 = if corner_1.y <= corner_2.y {
            corner_1.y
        } else {
            corner_2.y
        };
        let width: u32 = if corner_1.x <= corner_2.x {
            (corner_2.x - corner_1.x) as u32 + 1
        } else {
            (corner_1.x - corner_2.x) as u32 + 1
        };
        let height: u32 = if corner_1.y <= corner_2.y {
            (corner_2.y - corner_1.y) as u32 + 1
        } else {
            (corner_1.y - corner_2.y) as u32 + 1
        };
        Rect { top_left: Point { x: left, y: top }, size: Size { width, height } }
    }

    /// The same rectangle with a new size, anchored at its top left
    /// corner.
    pub fn resized_top_left(&self, size: Size) -> (r: Rect)
        ensures
            r.top_left == self.top_left,
            r.size == size,
    {
        Rect { top_left: self.top_left, size }
    }
}

/// The absolute difference of two integers.
pub open spec fn abs_diff(a: int, b: int) -> int {
    if a <= b {
        b - a
    } else {
        a - b
    }
}

/// The smallest rectangle containing both corner pixels: the top
/// left is the componentwise minimum, and the size spans both
/// corners inclusively.
pub open spec fn spanning_rect(corner_1: Point, corner_2: Point) -> Rect
    recommends
        corner_1.in_range(),
        corner_2.in_range(),
{
    Rect {
        top_left: Point {
            x: if corner_1.x <= corner_2.x {
                corner_1.x
            } else {
                corner_2.x
            },
            y: if corner_1.y <= corner_2.y {
                corner_1.y
            } else {
                corner_2.y
            },
        },
        size: Size {
            width: (abs_diff(corner_1.x as int, corner_2.x as int) + 1) as u32,
            height: (abs_diff(corner_1.y as int, corner_2.y as int) + 1) as u32,
        },
    }
}

} // verus!
