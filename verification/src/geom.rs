//! Integer screen-space geometry: points and rectangles.

use vstd::prelude::*;

verus! {

/// An integer point on the screen.
#[derive(Clone, Copy, Debug, PartialEq, Eq, Structural)]
pub struct Point2D {
    pub x: i32,
    pub y: i32,
}

impl Point2D {
    /// A point with the given coordinates.
    pub fn new(x: i32, y: i32) -> (p: Point2D)
        ensures
            p.x == x,
            p.y == y,
    {
        Point2D { x, y }
    }

    /// The origin.
    pub fn def() -> (p: Point2D)
        ensures
            p.x == 0,
            p.y == 0,
    {
        Point2D { x: 0, y: 0 }
    }

    /// Overwrites both coordinates from a tuple.
    pub fn set_from_typle(&mut self, tpl: (i32, i32))
        ensures
            final(self).x == tpl.0,
            final(self).y == tpl.1,
    {
        self.x = tpl.0;
        self.y = tpl.1;
    }

    /// Overwrites the x coordinate.
    pub fn set_x(&mut self, x: i32)
        ensures
            final(self).x == x,
            final(self).y == old(self).y,
    {
        self.x = x;
    }

    /// Overwrites the y coordinate.
    pub fn set_y(&mut self, y: i32)
        ensures
            final(self).x == old(self).x,
            final(self).y == y,
    {
        self.y = y;
    }

    /// The x coordinate.
    pub fn x(&self) -> (r: i32)
        ensures
            r == self.x,
    {
        self.x
    }

    /// The y coordinate.
    pub fn y(&self) -> (r: i32)
        ensures
            r == self.y,
    {
        self.y
    }
}

/// An axis-aligned integer rectangle: top-left corner, width and height.
#[derive(Clone, Copy, Debug, PartialEq, Eq, Structural)]
pub struct Rect {
    pub x: i32,
    pub y: i32,
    pub w: i32,
    pub h: i32,
}

/// A rectangle with no area: zero or negative width or height.
pub open spec fn rect_is_empty(r: Rect) -> bool {
    r.w <= 0 || r.h <= 0
}

/// Two rectangles overlap when neither is empty and their half-open extents
/// meet on both axes.
pub open spec fn rects_intersect(a: Rect, b: Rect) -> bool {
    &&& !rect_is_empty(a)
    &&& !rect_is_empty(b)
    &&& a.x < b.x + b.w
    &&& b.x < a.x + a.w
    &&& a.y < b.y + b.h
    &&& b.y < a.y + a.h
}

impl Rect {
    /// A rectangle with the given corner and extent.
    pub fn new(x: i32, y: i32, w: i32, h: i32) -> (r: Rect)
        ensures
            r.x == x,
            r.y == y,
            r.w == w,
            r.h == h,
    {
        Rect { x, y, w, h }
    }

    /// Whether this rectangle and `other` overlap in at least one pixel.
    pub fn has_intersection(&self, other: &Rect) -> (r: bool)
        ensures
            r == rects_intersect(*self, *other),
    {
        if self.w <= 0 || self.h <= 0 || other.w <= 0 || other.h <= 0 {
            return false;
        }
        let ax: i64 = self.x as i64;
        let ay: i64 = self.y as i64;
        let bx: i64 = other.x as i64;
        let by: i64 = other.y as i64;
        ax < bx + other.w as i64 && bx < ax + self.w as i64 && ay < by + other.h as i64
            && by < ay + self.h as i64
    }

    /// Whether the point lies inside the rectangle (right and bottom edges
    /// excluded).
    pub fn contains_point(&self, point: Point2D) -> (r: bool)
        requires
            i32::MIN <= self.x + self.w <= i32::MAX,
            i32::MIN <= self.y + self.h <= i32::MAX,
        ensures
            r == (self.x <= point.x < self.x + self.w && self.y <= point.y < self.y + self.h),
    {
        let inside_x: bool = point.x() >= self.left() && point.x() < self.right();
        inside_x && (point.y() >= self.top() && point.y() < self.bottom())
    }

    /// Overwrites the left edge.
    pub fn set_x(&mut self, x: i32)
        ensures
            *final(self) == (Rect { x, ..*old(self) }),
    {
        self.x = x;
    }

    /// Overwrites the top edge.
    pub fn set_y(&mut self, y: i32)
        ensures
            *final(self) == (Rect { y, ..*old(self) }),
    {
        self.y = y;
    }

    /// The width.
    pub fn width(&self) -> (r: i32)
        ensures
            r == self.w,
    {
        self.w
    }

    /// The height.
    pub fn height(&self) -> (r: i32)
        ensures
            r == self.h,
    {
        self.h
    }

    /// The left edge.
    pub fn left(&self) -> (r: i32)
        ensures
            r == self.x,
    {
        self.x
    }

    /// The right edge (one past the last column).
    pub fn right(&self) -> (r: i32)
        requires
            self.x + self.w <= i32::MAX,
            self.x + self.w >= i32::MIN,
        ensures
            r == self.x + self.w,
    {
        self.x + self.w
    }

    /// The top edge.
    pub fn top(&self) -> (r: i32)
        ensures
            r == self.y,
    {
        self.y
    }

    /// The bottom edge (one past the last row).
    pub fn bottom(&self) -> (r: i32)
        requires
            self.y + self.h <= i32::MAX,
            self.y + self.h >= i32::MIN,
        ensures
            r == self.y + self.h,
    {
        self.y + self.h
    }
}

} // verus!
