//! Integer geometry of the display: points and damage rectangles.

use vstd::prelude::*;

verus! {

/// A position on the display, in pixels.
#[derive(Clone, Copy, Debug, PartialEq, Eq, Hash, Structural)]
pub struct Point {
    pub x: i64,
    pub y: i64,
}

impl Point {
    pub fn new(x: i64, y: i64) -> (p: Point)
        ensures
            p == (Point { x, y }),
    {
        Point { x, y }
    }
}

impl Default for Point {
    /// The origin.
    fn default() -> (p: Point)
        ensures
            p == (Point { x: 0, y: 0 }),
    {
        Point { x: 0, y: 0 }
    }
}

/// Axis-aligned bounds. Both corners belong to the rectangle, so the
/// rectangle of a single point has `min == max`.
#[derive(Clone, Copy, Debug, PartialEq, Eq, Hash, Structural)]
pub struct Rectangle {
    pub min: Point,
    pub max: Point,
}

impl Rectangle {
    /// Whether `p` lies within the bounds.
    pub open spec fn contains(self, p: Point) -> bool {
        &&& self.min.x <= p.x <= self.max.x
        &&& self.min.y <= p.y <= self.max.y
    }

    /// Whether every point of `other` lies within the bounds.
    pub open spec fn covers(self, other: Rectangle) -> bool {
        forall|p: Point| other.contains(p) ==> self.contains(p)
    }

    /// A rectangle that holds at least one point.
    pub open spec fn inhabited(self) -> bool {
        self.min.x <= self.max.x && self.min.y <= self.max.y
    }

    /// The bounds grown just enough to hold `p`.
    pub open spec fn merged(self, p: Point) -> Rectangle {
        Rectangle {
            min: Point {
                x: if p.x < self.min.x { p.x } else { self.min.x },
                y: if p.y < self.min.y { p.y } else { self.min.y },
            },
            max: Point {
                x: if p.x > self.max.x { p.x } else { self.max.x },
                y: if p.y > self.max.y { p.y } else { self.max.y },
            },
        }
    }

    /// The bounds of a whole surface of `width` by `height` pixels.
    pub open spec fn spec_surface(width: u32, height: u32) -> Rectangle {
        Rectangle {
            min: Point { x: 0, y: 0 },
            max: Point { x: (width - 1) as i64, y: (height - 1) as i64 },
        }
    }

    pub fn new(min: Point, max: Point) -> (r: Rectangle)
        ensures
            r == (Rectangle { min, max }),
    {
        Rectangle { min, max }
    }

    /// The rectangle that holds `pt` and nothing else.
    pub fn from_point(pt: &Point) -> (r: Rectangle)
        ensures
            r == (Rectangle { min: *pt, max: *pt }),
    {
        Rectangle { min: *pt, max: *pt }
    }

    /// The rectangle of all pixels of a surface of `width` by `height`.
    pub fn surface(width: u32, height: u32) -> (r: Rectangle)
        ensures
            r == Rectangle::spec_surface(width, height),
    {
        let w: i64 = width as i64;
        let h: i64 = height as i64;
        Rectangle { min: Point { x: 0, y: 0 }, max: Point { x: w - 1, y: h - 1 } }
    }

    /// Grows the bounds to hold `pt`.
    pub fn merge(&mut self, pt: &Point)
        ensures
            *final(self) == old(self).merged(*pt),
    {
        if pt.x < self.min.x {
            self.min.x = pt.x;
        }
        if pt.y < self.min.y {
            self.min.y = pt.y;
        }
        if pt.x > self.max.x {
            self.max.x = pt.x;
        }
        if pt.y > self.max.y {
            self.max.y = pt.y;
        }
    }
}

/// The rectangle of one point holds that point only.
pub proof fn lemma_from_point_is_singleton(pt: Point, p: Point)
    ensures
        (Rectangle { min: pt, max: pt }).contains(p) <==> p == pt,
{
}

/// Merging a point into an inhabited rectangle gives the least rectangle
/// that holds both: it holds the point and all that was held before, and
/// every rectangle that does so covers it.
pub proof fn lemma_merge_is_least_cover(r: Rectangle, pt: Point, other: Rectangle)
    requires
        r.inhabited(),
    ensures
        r.merged(pt).inhabited(),
        r.merged(pt).contains(pt),
        r.merged(pt).covers(r),
        other.contains(pt) && other.covers(r) ==> other.covers(r.merged(pt)),
{
    if other.contains(pt) && other.covers(r) {
        assert(r.contains(r.min));
        assert(r.contains(r.max));
    }
}

/// A surface's rectangle holds exactly the pixels of the surface.
pub proof fn lemma_surface_holds_pixels(width: u32, height: u32, p: Point)
    ensures
        Rectangle::spec_surface(width, height).contains(p) <==> (0 <= p.x < width && 0 <= p.y
            < height),
{
}

} // verus!
