//! Composes one SVG document per rendered glyph: a fixed-size square canvas,
//! one global style rule, and one path element carrying the composed
//! transform. The markup serialization itself is the svg crate's work and is
//! reached through one trusted wrapper.

use vstd::prelude::*;

use crate::geometry::{FontMetrics, Glyph, COORD_BOUND};
use crate::text::{chars_to_string, int_text, push_int_text};
use crate::drawing::{path_data_text, push_path_data, push_transform_attr, transform_attr_text,
    FRAC_TEXT_BOUND};
use crate::transform::{spec_transform, transform, Mode, TransformParams};

verus! {

/// The side, in canvas units, of every document produced in one run.
pub const DOCUMENT_SIZE: i64 = 512;

/// The margin, in canvas units, left on every side of the canvas.
pub const MARGIN_SIZE: i64 = 8;

/// The one style rule of every document: a black, non-zero-winding fill.
pub open spec fn style_text() -> Seq<char> {
    "path { fill: black; fill-rule: nonzero; }"@
}

/// The markup that the svg crate serializes for a document of the given
/// width and height attribute text, style rule, path data, and path
/// transform. The serialization is deterministic (the crate writes
/// attributes in sorted order), so the markup is a function of these
/// arguments alone; its exact text is not restated here.
pub uninterp spec fn document_markup(
    size: Seq<char>,
    style: Seq<char>,
    path_data: Seq<char>,
    transform: Seq<char>,
) -> Seq<char>;

/// Relies on the svg crate's `Document` (an `svg` element with the `xmlns`
/// attribute preset), `Style` and `Path` builders and their `Display`
/// implementation, which writes each element with its attributes in sorted
/// order: the result is the markup of a document of the given size holding
/// the style rule and one path with the given `d` and `transform`
/// attributes.
#[verifier::external_body]
fn compose_document(size: &str, style: &str, path_data: &str, transform: &str) -> (r: String)
    ensures
        r@ == document_markup(size@, style@, path_data@, transform@),
{
    let path_element = svg::node::element::Path::new()
        .set("d", path_data)
        .set("transform", transform);
    let style_element = svg::node::element::Style::new(style);
    let document = svg::Document::new()
        .set("width", size)
        .set("height", size)
        .add(style_element)
        .add(path_element);
    document.to_string()
}

/// The document of one glyph: the canvas-size attributes, the global style
/// rule, the glyph's path data, and the transform computed by the transform
/// engine for the canvas minus its margins.
pub open spec fn glyph_document_text(
    glyph: Glyph,
    metrics: FontMetrics,
    reference: Glyph,
    document_size: int,
    margin_size: int,
    mode: Mode,
) -> Seq<char> {
    let params = spec_transform(
        glyph.bounding_box,
        metrics,
        reference.bounding_box,
        document_size - 2 * margin_size,
        mode,
    );
    document_markup(
        int_text(document_size),
        style_text(),
        path_data_text(glyph),
        transform_attr_text(params, margin_size),
    )
}

/// Renders one glyph into a complete SVG document.
pub fn render_glyph_document(
    glyph: &Glyph,
    metrics: &FontMetrics,
    reference: &Glyph,
    document_size: i64,
    margin_size: i64,
    mode: Mode,
) -> (r: String)
    requires
        glyph.wf(),
        metrics.wf(),
        reference.wf(),
        0 <= margin_size,
        2 * margin_size < document_size < COORD_BOUND,
    ensures
        r@ == glyph_document_text(
            *glyph,
            *metrics,
            *reference,
            document_size as int,
            margin_size as int,
            mode,
        ),
{
    let available = document_size - 2 * margin_size;
    let params = transform(glyph, metrics, reference, available, mode);
    proof {
        assert(-FRAC_TEXT_BOUND < params.offset_x.num < FRAC_TEXT_BOUND);
        assert(-FRAC_TEXT_BOUND < params.offset_y.num < FRAC_TEXT_BOUND);
    }
    let mut size_chars: Vec<char> = Vec::new();
    push_int_text(document_size, &mut size_chars);
    let size = chars_to_string(&size_chars);
    let mut d_chars: Vec<char> = Vec::new();
    push_path_data(glyph, &mut d_chars);
    let d = chars_to_string(&d_chars);
    let mut attr_chars: Vec<char> = Vec::new();
    push_transform_attr(&params, margin_size, &mut attr_chars);
    let attr = chars_to_string(&attr_chars);
    compose_document(
        size.as_str(),
        "path { fill: black; fill-rule: nonzero; }",
        d.as_str(),
        attr.as_str(),
    )
}

} // verus!
