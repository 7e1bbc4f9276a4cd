//! The data model of glyph geometry: points, bounding boxes, font metrics and
//! outlines, all in integer font units.
//!
//! Coordinates are bounded by `COORD_BOUND` so that the arithmetic of the
//! transform engine stays within `i64`.

use vstd::prelude::*;

verus! {

/// Every coordinate and metric handled by the transform engine is strictly
/// smaller than this bound in magnitude, so products of two of them and small
/// sums of such products fit in `i64`.
pub const COORD_BOUND: i64 = 0x4000_0000;

/// A point in font-unit space.
#[derive(Clone, Copy, Debug, PartialEq, Eq, Structural)]
pub struct Point {
    pub x: i64,
    pub y: i64,
}

/// An axis-aligned bounding box in font-unit space.
#[derive(Clone, Copy, Debug, PartialEq, Eq, Structural)]
pub struct BoundingBox {
    pub x_min: i64,
    pub y_min: i64,
    pub x_max: i64,
    pub y_max: i64,
}

impl BoundingBox {
    /// A well-formed box has ordered edges and bounded coordinates.
    pub open spec fn wf(self) -> bool {
        &&& self.x_min <= self.x_max
        &&& self.y_min <= self.y_max
        &&& -COORD_BOUND < self.x_min
        &&& self.x_max < COORD_BOUND
        &&& -COORD_BOUND < self.y_min
        &&& self.y_max < COORD_BOUND
    }

    pub open spec fn spec_width(self) -> int {
        self.x_max - self.x_min
    }

    pub open spec fn spec_height(self) -> int {
        self.y_max - self.y_min
    }

    /// A box of zero width or zero height has no area; a scale may not be
    /// derived from its extent.
    pub open spec fn degenerate(self) -> bool {
        self.spec_width() == 0 || self.spec_height() == 0
    }

    pub fn width(&self) -> (r: i64)
        requires
            self.wf(),
        ensures
            r == self.spec_width(),
    {
        self.x_max - self.x_min
    }

    pub fn height(&self) -> (r: i64)
        requires
            self.wf(),
        ensures
            r == self.spec_height(),
    {
        self.y_max - self.y_min
    }
}

/// Font-wide measurements, in font units.
#[derive(Clone, Copy, Debug, PartialEq, Eq, Structural)]
pub struct FontMetrics {
    /// The granularity of the coordinate grid (units per em).
    pub units_per_em: i64,
    /// The typographical ascender relative to the baseline.
    pub ascender: i64,
    /// The typographical descender relative to the baseline.
    pub descender: i64,
}

impl FontMetrics {
    pub open spec fn wf(self) -> bool {
        &&& 0 < self.units_per_em < COORD_BOUND
        &&& -COORD_BOUND < self.ascender < COORD_BOUND
        &&& -COORD_BOUND < self.descender < COORD_BOUND
    }
}

/// One outline segment, with control points relative to the current position.
#[derive(Clone, Copy, Debug, PartialEq, Eq, Structural)]
pub enum Segment {
    /// A straight line to the given offset.
    Linear(Point),
    /// A quadratic curve through one control offset.
    Quadratic(Point, Point),
    /// A cubic curve through two control offsets.
    Cubic(Point, Point, Point),
}

/// One closed contour of an outline: an absolute starting point followed by
/// relative segments.
#[derive(Clone, Debug)]
pub struct Contour {
    pub start: Point,
    pub segments: Vec<Segment>,
}

/// The outline of one glyph: its contours and its bounding box.
#[derive(Clone, Debug)]
pub struct Glyph {
    pub contours: Vec<Contour>,
    pub bounding_box: BoundingBox,
}

impl Glyph {
    pub open spec fn wf(self) -> bool {
        self.bounding_box.wf()
    }
}

} // verus!
