//! The transform engine: computes the position and scale that map a glyph
//! outline from font-unit space into a fixed-size canvas.
//!
//! All quantities are exact rational numbers over integer font units, so the
//! scale is finite by construction and its positivity is proved. The vertical
//! flip between font-unit space (upward-positive) and canvas space
//! (downward-positive) is carried by the composed transform text, which ends
//! in a mirroring scale; the offsets computed here are expressed in the
//! pre-mirror coordinates.

use vstd::prelude::*;

use crate::geometry::{BoundingBox, FontMetrics, Glyph, COORD_BOUND};

verus! {

/// An exact rational number. Well-formed values keep the denominator
/// strictly positive, so the sign of the value is the sign of `num`.
#[derive(Clone, Copy, Debug, PartialEq, Eq, Structural)]
pub struct Frac {
    pub num: i64,
    pub den: i64,
}

impl Frac {
    pub open spec fn wf(self) -> bool {
        0 < self.den
    }
}

/// The two scaling policies.
#[derive(Clone, Copy, Debug, PartialEq, Eq, Structural)]
pub enum Mode {
    /// Scale every glyph of a font by the same factor, derived from the
    /// font-wide metrics (units per em).
    Global,
    /// Scale each glyph against the extent of the font's reference glyph.
    Local,
}

/// The output of the transform engine: a translation in font units followed
/// by a uniform scale into canvas units.
#[derive(Clone, Copy, Debug, PartialEq, Eq, Structural)]
pub struct TransformParams {
    pub offset_x: Frac,
    pub offset_y: Frac,
    pub scale: Frac,
}

impl TransformParams {
    pub open spec fn wf(self) -> bool {
        &&& self.offset_x.wf()
        &&& self.offset_y.wf()
        &&& self.scale.wf()
    }
}

/// The number of font units that are mapped onto `available` canvas units:
/// the denominator of the scale `available / spec_scale_den(..)`.
///
/// In `Global` mode this is the font's units per em, so every glyph of one
/// font shares one scale. In `Local` mode it is the larger extent of the
/// reference glyph's bounding box; a degenerate (zero-area) reference cannot
/// anchor a scale and falls back to the global choice, so the result is
/// strictly positive for every well-formed input.
pub open spec fn spec_scale_den(metrics: FontMetrics, reference: BoundingBox, mode: Mode) -> int {
    match mode {
        Mode::Global => metrics.units_per_em as int,
        Mode::Local => {
            if reference.degenerate() {
                metrics.units_per_em as int
            } else if reference.spec_width() >= reference.spec_height() {
                reference.spec_width()
            } else {
                reference.spec_height()
            }
        },
    }
}

/// The transform of a glyph: the scale maps `spec_scale_den(..)` font units
/// onto `available` canvas units, and the offsets center the glyph's bounding
/// box in the canvas (the vertical offset already accounts for the mirroring
/// of the Y axis applied after it).
pub open spec fn spec_transform(
    glyph: BoundingBox,
    metrics: FontMetrics,
    reference: BoundingBox,
    available: int,
    mode: Mode,
) -> TransformParams {
    let den = spec_scale_den(metrics, reference, mode);
    TransformParams {
        offset_x: Frac { num: (den - glyph.spec_width() - 2 * glyph.x_min) as i64, den: 2 },
        offset_y: Frac { num: (den - glyph.spec_height() + 2 * glyph.y_max) as i64, den: 2 },
        scale: Frac { num: available as i64, den: den as i64 },
    }
}

/// Computes the position and scale that draw `glyph` into a square canvas of
/// side `available_size`, uniformly scaled by the policy of `mode`.
///
/// The scale is strictly positive (and, being rational, finite) for every
/// well-formed input, degenerate glyphs and references included: a degenerate
/// reference falls back to the font-wide scale rather than dividing by a zero
/// extent.
pub fn transform(
    glyph: &Glyph,
    metrics: &FontMetrics,
    reference: &Glyph,
    available_size: i64,
    mode: Mode,
) -> (r: TransformParams)
    requires
        glyph.wf(),
        metrics.wf(),
        reference.wf(),
        0 < available_size < COORD_BOUND,
    ensures
        r == spec_transform(
            glyph.bounding_box,
            *metrics,
            reference.bounding_box,
            available_size as int,
            mode,
        ),
        r.wf(),
        r.scale.num > 0,
        r.scale.den > 0,
{
    let den: i64 = match mode {
        Mode::Global => metrics.units_per_em,
        Mode::Local => {
            let w = reference.bounding_box.width();
            let h = reference.bounding_box.height();
            if w == 0 || h == 0 {
                metrics.units_per_em
            } else if w >= h {
                w
            } else {
                h
            }
        },
    };
    let bbox = &glyph.bounding_box;
    let w = bbox.width();
    let h = bbox.height();
    TransformParams {
        offset_x: Frac { num: den - w - 2 * bbox.x_min, den: 2 },
        offset_y: Frac { num: den - h + 2 * bbox.y_max, den: 2 },
        scale: Frac { num: available_size, den },
    }
}

} // verus!
