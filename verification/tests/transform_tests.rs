use founder::geometry::{BoundingBox, FontMetrics, Glyph};
use founder::transform::{transform, Frac, Mode};

fn glyph_with_bbox(x_min: i64, y_min: i64, x_max: i64, y_max: i64) -> Glyph {
    Glyph {
        contours: Vec::new(),
        bounding_box: BoundingBox { x_min, y_min, x_max, y_max },
    }
}

fn metrics_1000() -> FontMetrics {
    FontMetrics { units_per_em: 1000, ascender: 800, descender: -200 }
}

#[test]
fn global_mode_uses_units_per_em() {
    let glyph = glyph_with_bbox(10, 20, 110, 220);
    let reference = glyph_with_bbox(0, 0, 700, 700);
    let params = transform(&glyph, &metrics_1000(), &reference, 496, Mode::Global);
    assert_eq!(params.scale, Frac { num: 496, den: 1000 });
    assert_eq!(params.offset_x, Frac { num: 880, den: 2 });
    assert_eq!(params.offset_y, Frac { num: 1240, den: 2 });
}

#[test]
fn local_mode_uses_reference_extent() {
    let glyph = glyph_with_bbox(10, 20, 110, 220);
    let reference = glyph_with_bbox(0, 0, 700, 700);
    let params = transform(&glyph, &metrics_1000(), &reference, 496, Mode::Local);
    assert_eq!(params.scale, Frac { num: 496, den: 700 });
    assert_eq!(params.offset_x, Frac { num: 580, den: 2 });
    assert_eq!(params.offset_y, Frac { num: 940, den: 2 });
}

#[test]
fn local_mode_takes_larger_reference_extent() {
    let glyph = glyph_with_bbox(0, 0, 100, 100);
    let reference = glyph_with_bbox(0, 0, 300, 650);
    let params = transform(&glyph, &metrics_1000(), &reference, 496, Mode::Local);
    assert_eq!(params.scale, Frac { num: 496, den: 650 });
}

#[test]
fn degenerate_reference_falls_back_to_global_scale() {
    let glyph = glyph_with_bbox(10, 20, 110, 220);
    let flat = glyph_with_bbox(5, 5, 5, 9);
    let params = transform(&glyph, &metrics_1000(), &flat, 496, Mode::Local);
    assert_eq!(params.scale, Frac { num: 496, den: 1000 });
    let empty = glyph_with_bbox(7, 7, 7, 7);
    let params = transform(&glyph, &metrics_1000(), &empty, 496, Mode::Local);
    assert_eq!(params.scale, Frac { num: 496, den: 1000 });
}

#[test]
fn scale_is_strictly_positive_for_nondegenerate_glyphs() {
    let cases = [
        (glyph_with_bbox(-500, -500, 500, 500), Mode::Global),
        (glyph_with_bbox(-500, -500, 500, 500), Mode::Local),
        (glyph_with_bbox(1, 1, 2, 2), Mode::Global),
        (glyph_with_bbox(1, 1, 2, 2), Mode::Local),
    ];
    let reference = glyph_with_bbox(0, 0, 700, 650);
    for (glyph, mode) in cases {
        let params = transform(&glyph, &metrics_1000(), &reference, 496, mode);
        assert!(params.scale.num > 0);
        assert!(params.scale.den > 0);
    }
}

#[test]
fn degenerate_glyph_still_gets_positive_scale() {
    let space = glyph_with_bbox(0, 0, 0, 0);
    let reference = glyph_with_bbox(0, 0, 700, 650);
    let params = transform(&space, &metrics_1000(), &reference, 496, Mode::Global);
    assert!(params.scale.num > 0);
    assert!(params.scale.den > 0);
    let params = transform(&space, &metrics_1000(), &reference, 496, Mode::Local);
    assert!(params.scale.num > 0);
    assert!(params.scale.den > 0);
}

#[test]
fn transform_is_deterministic() {
    let glyph = glyph_with_bbox(10, 20, 110, 220);
    let reference = glyph_with_bbox(0, 0, 700, 700);
    let first = transform(&glyph, &metrics_1000(), &reference, 496, Mode::Local);
    let second = transform(&glyph, &metrics_1000(), &reference, 496, Mode::Local);
    assert_eq!(first, second);
}
