//! Integer geometry for page space (app units) and device space (pixels).
//!
//! An app unit (`Au`) is a fixed-point length: 60 app units are one pixel.
//! All coordinates flowing through the pipeline are bounded by `MAX_AU`,
//! which keeps every sum computed while walking a render tree inside `i64`.

use vstd::prelude::*;

verus! {

/// Largest magnitude an app-unit coordinate may have.
pub const MAX_AU: i64 = 0x100_0000_0000;

/// App units per pixel.
pub const AU_PER_PX: i64 = 60;

/// A length in app units (1/60 of a pixel).
#[derive(Clone, Copy, PartialEq, Eq, Structural, Debug)]
pub struct Au(pub i64);

/// Rounding of `au` app units to the nearest pixel, halves away from zero.
pub open spec fn spec_to_nearest_px(au: int) -> int {
    if au >= 0 {
        (au + 30) / 60
    } else {
        -((-au + 30) / 60)
    }
}

impl Au {
    /// Whether the coordinate is within the pipeline's coordinate bound.
    pub open spec fn in_range(self) -> bool {
        -MAX_AU <= self.0 <= MAX_AU
    }

    /// The nearest pixel to this length, halves rounding away from zero.
    pub fn to_nearest_px(self) -> (r: i64)
        requires
            self.in_range(),
        ensures
            r == spec_to_nearest_px(self.0 as int),
    {
        if self.0 >= 0 {
            (self.0 + 30) / 60
        } else {
            -((-self.0 + 30) / 60)
        }
    }
}

/// A point, generic over the unit of its coordinates.
#[derive(Clone, Copy, PartialEq, Eq, Structural, Debug)]
pub struct Point2D<T> {
    pub x: T,
    pub y: T,
}

/// A size, generic over the unit of its extents.
#[derive(Clone, Copy, PartialEq, Eq, Structural, Debug)]
pub struct Size2D<T> {
    pub width: T,
    pub height: T,
}

/// An axis-aligned rectangle given by its origin and size.
#[derive(Clone, Copy, PartialEq, Eq, Structural, Debug)]
pub struct Rect<T> {
    pub origin: Point2D<T>,
    pub size: Size2D<T>,
}

impl Point2D<Au> {
    pub open spec fn in_range(self) -> bool {
        self.x.in_range() && self.y.in_range()
    }
}

impl Size2D<Au> {
    pub open spec fn in_range(self) -> bool {
        self.width.in_range() && self.height.in_range() && self.width.0 >= 0
            && self.height.0 >= 0
    }
}

impl Rect<Au> {
    pub open spec fn in_range(self) -> bool {
        self.origin.in_range() && self.size.in_range()
    }
}

pub fn point_au(x: i64, y: i64) -> (r: Point2D<Au>)
    ensures
        r == (Point2D { x: Au(x), y: Au(y) }),
{
    Point2D { x: Au(x), y: Au(y) }
}

pub fn size_au(width: i64, height: i64) -> (r: Size2D<Au>)
    ensures
        r == (Size2D { width: Au(width), height: Au(height) }),
{
    Size2D { width: Au(width), height: Au(height) }
}

pub fn rect_au(x: i64, y: i64, width: i64, height: i64) -> (r: Rect<Au>)
    ensures
        r == (Rect {
            origin: Point2D { x: Au(x), y: Au(y) },
            size: Size2D { width: Au(width), height: Au(height) },
        }),
{
    Rect { origin: point_au(x, y), size: size_au(width, height) }
}

} // verus!
