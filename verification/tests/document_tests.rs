use founder::document::{render_glyph_document, DOCUMENT_SIZE, MARGIN_SIZE};
use founder::geometry::{BoundingBox, Contour, FontMetrics, Glyph, Point, Segment};
use founder::router::{file_stem, output_file_name};
use founder::transform::Mode;

fn sample_glyph() -> Glyph {
    Glyph {
        contours: vec![Contour {
            start: Point { x: 10, y: 20 },
            segments: vec![
                Segment::Linear(Point { x: 5, y: -3 }),
                Segment::Quadratic(Point { x: 1, y: 2 }, Point { x: 3, y: 4 }),
                Segment::Cubic(
                    Point { x: 1, y: 1 },
                    Point { x: 2, y: 2 },
                    Point { x: 3, y: 3 },
                ),
            ],
        }],
        bounding_box: BoundingBox { x_min: 10, y_min: 20, x_max: 110, y_max: 220 },
    }
}

fn reference_glyph() -> Glyph {
    Glyph {
        contours: Vec::new(),
        bounding_box: BoundingBox { x_min: 0, y_min: 0, x_max: 700, y_max: 700 },
    }
}

fn metrics_1000() -> FontMetrics {
    FontMetrics { units_per_em: 1000, ascender: 800, descender: -200 }
}

#[test]
fn document_markup_is_exact() {
    let document = render_glyph_document(
        &sample_glyph(),
        &metrics_1000(),
        &reference_glyph(),
        DOCUMENT_SIZE,
        MARGIN_SIZE,
        Mode::Global,
    );
    let d = "M 10 20 l 5 -3 q 1 2 3 4 c 1 1 2 2 3 3 z";
    let t = "translate(8 8) scale(0.496000) translate(440.000000 620.000000) scale(1 -1)";
    let expected = format!(
        "<svg height=\"512\" width=\"512\" xmlns=\"http://www.w3.org/2000/svg\">\n\
         <style>\npath {{ fill: black; fill-rule: nonzero; }}\n</style>\n\
         <path d=\"{}\" transform=\"{}\"/>\n</svg>",
        d, t
    );
    assert_eq!(document, expected);
}

#[test]
fn local_mode_markup_uses_reference_scale() {
    let document = render_glyph_document(
        &sample_glyph(),
        &metrics_1000(),
        &reference_glyph(),
        DOCUMENT_SIZE,
        MARGIN_SIZE,
        Mode::Local,
    );
    assert!(document.contains("scale(0.708571)"));
    assert!(document.contains("translate(290.000000 470.000000)"));
}

#[test]
fn rendering_twice_is_byte_identical() {
    let first = render_glyph_document(
        &sample_glyph(),
        &metrics_1000(),
        &reference_glyph(),
        DOCUMENT_SIZE,
        MARGIN_SIZE,
        Mode::Global,
    );
    let second = render_glyph_document(
        &sample_glyph(),
        &metrics_1000(),
        &reference_glyph(),
        DOCUMENT_SIZE,
        MARGIN_SIZE,
        Mode::Global,
    );
    assert_eq!(first, second);
}

#[test]
fn multiple_contours_are_space_separated() {
    let glyph = Glyph {
        contours: vec![
            Contour { start: Point { x: 0, y: 0 }, segments: vec![Segment::Linear(Point { x: 1, y: 0 })] },
            Contour { start: Point { x: 9, y: 9 }, segments: Vec::new() },
        ],
        bounding_box: BoundingBox { x_min: 0, y_min: 0, x_max: 10, y_max: 10 },
    };
    let document = render_glyph_document(
        &glyph,
        &metrics_1000(),
        &reference_glyph(),
        DOCUMENT_SIZE,
        MARGIN_SIZE,
        Mode::Global,
    );
    assert!(document.contains("d=\"M 0 0 l 1 0 z M 9 9 z\""));
}

#[test]
fn file_names_carry_hex_code_points() {
    assert_eq!(output_file_name('A'), "A-0x41.svg");
    assert_eq!(output_file_name('B'), "B-0x42.svg");
    assert_eq!(output_file_name('ÿ'), "ÿ-0xff.svg");
    assert_eq!(output_file_name('𝔘'), "𝔘-0x1d518.svg");
}

#[test]
fn file_stem_strips_directory_and_extension() {
    assert_eq!(file_stem("fonts/Foo-Bold.ttf"), "Foo-Bold");
    assert_eq!(file_stem("Foo.otf"), "Foo");
    assert_eq!(file_stem("a/b/c.tar.gz"), "c.tar");
    assert_eq!(file_stem(".hidden"), ".hidden");
    assert_eq!(file_stem("noext"), "noext");
}
