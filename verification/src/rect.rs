//! Rectangles in real pixel coordinates.
//!
//! The fundamental building block for all geometric calculations. All
//! coordinates are in real pixels, already DPI-normalized by the caller.

use vstd::prelude::*;

verus! {

/// Rectangle in real pixel coordinates, given by its top-left corner
/// and its extent.
#[derive(Debug, Clone, Copy, PartialEq, Eq, Structural)]
pub struct Rect {
    pub x: i32,
    pub y: i32,
    pub w: i32,
    pub h: i32,
}

impl Rect {
    /// Right edge as a mathematical integer (may exceed the `i32` range).
    pub open spec fn right_spec(self) -> int {
        self.x + self.w
    }

    /// Bottom edge as a mathematical integer (may exceed the `i32` range).
    pub open spec fn bottom_spec(self) -> int {
        self.y + self.h
    }

    /// Both edges of the rectangle are representable as `i32` values.
    pub open spec fn edges_representable(self) -> bool {
        &&& i32::MIN <= self.right_spec() <= i32::MAX
        &&& i32::MIN <= self.bottom_spec() <= i32::MAX
    }

    /// Whether the point `(px, py)` lies inside this rectangle.
    pub open spec fn contains_spec(self, px: int, py: int) -> bool {
        &&& self.x <= px < self.right_spec()
        &&& self.y <= py < self.bottom_spec()
    }

    /// Creates a new rectangle.
    pub fn new(x: i32, y: i32, w: i32, h: i32) -> (r: Rect)
        ensures
            r == (Rect { x, y, w, h }),
    {
        Rect { x, y, w, h }
    }

    /// Returns the right edge coordinate.
    pub fn right(&self) -> (r: i32)
        requires
            i32::MIN <= self.right_spec() <= i32::MAX,
        ensures
            r == self.right_spec(),
    {
        self.x + self.w
    }

    /// Returns the bottom edge coordinate.
    pub fn bottom(&self) -> (r: i32)
        requires
            i32::MIN <= self.bottom_spec() <= i32::MAX,
        ensures
            r == self.bottom_spec(),
    {
        self.y + self.h
    }

    /// Returns true if this rectangle contains the given point.
    pub fn contains_point(&self, px: i32, py: i32) -> (r: bool)
        requires
            self.edges_representable(),
        ensures
            r == self.contains_spec(px as int, py as int),
    {
        px >= self.x && px < self.right() && py >= self.y && py < self.bottom()
    }

    /// Returns the intersection of two rectangles, or `None` if they do
    /// not overlap.
    pub fn intersection(&self, other: &Rect) -> (r: Option<Rect>)
        requires
            self.edges_representable(),
            other.edges_representable(),
        ensures
            ({
                let left = if self.x >= other.x { self.x as int } else { other.x as int };
                let top = if self.y >= other.y { self.y as int } else { other.y as int };
                let right = if self.right_spec() <= other.right_spec() {
                    self.right_spec()
                } else {
                    other.right_spec()
                };
                let bottom = if self.bottom_spec() <= other.bottom_spec() {
                    self.bottom_spec()
                } else {
                    other.bottom_spec()
                };
                if left < right && top < bottom {
                    r == Some(
                        Rect {
                            x: left as i32,
                            y: top as i32,
                            w: (right - left) as i32,
                            h: (bottom - top) as i32,
                        },
                    )
                } else {
                    r is None
                }
            }),
    {
        let left = if self.x >= other.x {
            self.x
        } else {
            other.x
        };
        let top = if self.y >= other.y {
            self.y
        } else {
            other.y
        };
        let self_right = self.right();
        let other_right = other.right();
        let right = if self_right <= other_right {
            self_right
        } else {
            other_right
        };
        let self_bottom = self.bottom();
        let other_bottom = other.bottom();
        let bottom = if self_bottom <= other_bottom {
            self_bottom
        } else {
            other_bottom
        };

        if left < right && top < bottom {
            Some(Rect::new(left, top, right - left, bottom - top))
        } else {
            None
        }
    }

    /// Returns the bounding box that contains both rectangles.
    pub fn union(&self, other: &Rect) -> (r: Rect)
        requires
            self.edges_representable(),
            other.edges_representable(),
            ({
                let left = if self.x <= other.x { self.x as int } else { other.x as int };
                let right = if self.right_spec() >= other.right_spec() {
                    self.right_spec()
                } else {
                    other.right_spec()
                };
                right - left <= i32::MAX
            }),
            ({
                let top = if self.y <= other.y { self.y as int } else { other.y as int };
                let bottom = if self.bottom_spec() >= other.bottom_spec() {
                    self.bottom_spec()
                } else {
                    other.bottom_spec()
                };
                bottom - top <= i32::MAX
            }),
        ensures
            ({
                let left = if self.x <= other.x { self.x as int } else { other.x as int };
                let top = if self.y <= other.y { self.y as int } else { other.y as int };
                let right = if self.right_spec() >= other.right_spec() {
                    self.right_spec()
                } else {
                    other.right_spec()
                };
                let bottom = if self.bottom_spec() >= other.bottom_spec() {
                    self.bottom_spec()
                } else {
                    other.bottom_spec()
                };
                r == (Rect {
                    x: left as i32,
                    y: top as i32,
                    w: (right - left) as i32,
                    h: (bottom - top) as i32,
                })
            }),
    {
        let left = if self.x <= other.x {
            self.x
        } else {
            other.x
        };
        let top = if self.y <= other.y {
            self.y
        } else {
            other.y
        };
        let self_right = self.right();
        let other_right = other.right();
        let right = if self_right >= other_right {
            self_right
        } else {
            other_right
        };
        let self_bottom = self.bottom();
        let other_bottom = other.bottom();
        let bottom = if self_bottom >= other_bottom {
            self_bottom
        } else {
            other_bottom
        };

        Rect::new(left, top, right - left, bottom - top)
    }

    /// Returns the area of the rectangle in square pixels.
    pub fn area(&self) -> (r: i32)
        requires
            i32::MIN <= self.w * self.h <= i32::MAX,
        ensures
            r == self.w * self.h,
    {
        self.w * self.h
    }
}

} // verus!
