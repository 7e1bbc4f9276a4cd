//! Turns glyph outlines and transform parameters into the texts of an SVG
//! path: the `d` attribute (the outline's segments) and the `transform`
//! attribute (the composed translate/scale mapping with the vertical flip).

use vstd::prelude::*;

use crate::geometry::{Contour, Glyph, Point, Segment};
use crate::text::{decimal_digits, int_text, padded_digits, push_decimal_digits, push_int_text,
    push_padded_digits};
use crate::transform::{Frac, TransformParams};

verus! {

/// How many decimal fraction digits the text of a rational number carries.
pub const FRAC_DIGITS: u64 = 6;

/// Rational numbers must stay below this magnitude to be formatted: the
/// scaled numerator `|num| * 10^6` must fit in `u64`.
pub const FRAC_TEXT_BOUND: i64 = 0x10_0000_0000;

/// The text of a rational number: an optional minus sign, the integer part,
/// a dot, and exactly six fraction digits, truncated toward zero.
pub open spec fn frac_text(f: Frac) -> Seq<char> {
    let sign: Seq<char> = if f.num < 0 {
        seq!['-']
    } else {
        Seq::empty()
    };
    let scaled = (abs_of(f.num as int) * 1000000) / (f.den as int);
    sign + decimal_digits((scaled / 1000000) as nat) + seq!['.'] + padded_digits(
        (scaled % 1000000) as nat,
        6,
    )
}

pub open spec fn abs_of(n: int) -> int {
    if n < 0 {
        -n
    } else {
        n
    }
}

/// Appends the text of the rational `f` to `out`.
pub fn push_frac_text(f: Frac, out: &mut Vec<char>)
    requires
        f.wf(),
        -FRAC_TEXT_BOUND < f.num < FRAC_TEXT_BOUND,
    ensures
        final(out)@ == old(out)@ + frac_text(f),
{
    let mag: u64 = if f.num < 0 {
        out.push('-');
        (-f.num) as u64
    } else {
        f.num as u64
    };
    let scaled: u64 = (mag * 1000000) / (f.den as u64);
    proof {
        assert(mag * 1000000 == abs_of(f.num as int) * 1000000);
        assert(scaled == (abs_of(f.num as int) * 1000000) / (f.den as int));
    }
    push_decimal_digits(scaled / 1000000, out);
    out.push('.');
    push_padded_digits(scaled % 1000000, FRAC_DIGITS, out);
    proof {
        assert(out@ =~= old(out)@ + frac_text(f));
    }
}

/// The text of a point: its two coordinates separated by one space.
pub open spec fn point_text(p: Point) -> Seq<char> {
    int_text(p.x as int) + seq![' '] + int_text(p.y as int)
}

/// The text of one segment, with its leading space and command letter. The
/// commands are relative (lowercase), matching the relative control offsets
/// of the outline model.
pub open spec fn segment_text(s: Segment) -> Seq<char> {
    match s {
        Segment::Linear(p) => seq![' ', 'l', ' '] + point_text(p),
        Segment::Quadratic(c, p) => seq![' ', 'q', ' '] + point_text(c) + seq![' '] + point_text(
            p,
        ),
        Segment::Cubic(c1, c2, p) => seq![' ', 'c', ' '] + point_text(c1) + seq![' '] + point_text(
            c2,
        ) + seq![' '] + point_text(p),
    }
}

pub open spec fn segments_text(ss: Seq<Segment>) -> Seq<char>
    decreases ss.len(),
{
    if ss.len() == 0 {
        Seq::empty()
    } else {
        segments_text(ss.drop_last()) + segment_text(ss.last())
    }
}

/// The text of one contour: an absolute move to its start, its segments, and
/// a closing command.
pub open spec fn contour_text(c: Contour) -> Seq<char> {
    seq!['M', ' '] + point_text(c.start) + segments_text(c.segments@) + seq![' ', 'z']
}

pub open spec fn contours_text(cs: Seq<Contour>) -> Seq<char>
    decreases cs.len(),
{
    if cs.len() == 0 {
        Seq::empty()
    } else if cs.len() == 1 {
        contour_text(cs[0])
    } else {
        contours_text(cs.drop_last()) + seq![' '] + contour_text(cs.last())
    }
}

/// The path data (`d` attribute) of a glyph: the texts of its contours,
/// separated by single spaces.
pub open spec fn path_data_text(g: Glyph) -> Seq<char> {
    contours_text(g.contours@)
}

fn push_point_text(p: &Point, out: &mut Vec<char>)
    ensures
        final(out)@ == old(out)@ + point_text(*p),
{
    push_int_text(p.x, out);
    out.push(' ');
    push_int_text(p.y, out);
    proof {
        assert(out@ =~= old(out)@ + point_text(*p));
    }
}

fn push_segment_text(s: &Segment, out: &mut Vec<char>)
    ensures
        final(out)@ == old(out)@ + segment_text(*s),
{
    match s {
        Segment::Linear(p) => {
            out.push(' ');
            out.push('l');
            out.push(' ');
            push_point_text(p, out);
        },
        Segment::Quadratic(c, p) => {
            out.push(' ');
            out.push('q');
            out.push(' ');
            push_point_text(c, out);
            out.push(' ');
            push_point_text(p, out);
        },
        Segment::Cubic(c1, c2, p) => {
            out.push(' ');
            out.push('c');
            out.push(' ');
            push_point_text(c1, out);
            out.push(' ');
            push_point_text(c2, out);
            out.push(' ');
            push_point_text(p, out);
        },
    }
    proof {
        assert(out@ =~= old(out)@ + segment_text(*s));
    }
}

fn push_contour_text(c: &Contour, out: &mut Vec<char>)
    ensures
        final(out)@ == old(out)@ + contour_text(*c),
{
    out.push('M');
    out.push(' ');
    push_point_text(&c.start, out);
    let n = c.segments.len();
    let mut i: usize = 0;
    while i < n
        invariant
            n == c.segments@.len(),
            i <= n,
            out@ == old(out)@ + seq!['M', ' '] + point_text(c.start) + segments_text(
                c.segments@.subrange(0, i as int),
            ),
        decreases n - i,
    {
        push_segment_text(&c.segments[i], out);
        proof {
            let pre = c.segments@.subrange(0, i as int);
            let post = c.segments@.subrange(0, i + 1 as int);
            assert(post.drop_last() =~= pre);
            assert(post.last() == c.segments@[i as int]);
        }
        i = i + 1;
    }
    out.push(' ');
    out.push('z');
    proof {
        assert(c.segments@.subrange(0, n as int) =~= c.segments@);
        assert(out@ =~= old(out)@ + contour_text(*c));
    }
}

/// Builds the path data of a glyph: the text of each contour in order,
/// separated by single spaces.
pub fn push_path_data(g: &Glyph, out: &mut Vec<char>)
    ensures
        final(out)@ == old(out)@ + path_data_text(*g),
{
    let n = g.contours.len();
    let mut i: usize = 0;
    while i < n
        invariant
            n == g.contours@.len(),
            i <= n,
            out@ == old(out)@ + contours_text(g.contours@.subrange(0, i as int)),
        decreases n - i,
    {
        if i > 0 {
            out.push(' ');
        }
        push_contour_text(&g.contours[i], out);
        proof {
            let pre = g.contours@.subrange(0, i as int);
            let post = g.contours@.subrange(0, i + 1 as int);
            assert(post.drop_last() =~= pre);
            assert(post.last() == g.contours@[i as int]);
            assert(post.len() == i + 1);
            if i == 0 {
                assert(post[0] == g.contours@[0]);
            }
            assert(out@ =~= old(out)@ + contours_text(post));
        }
        i = i + 1;
    }
    proof {
        assert(g.contours@.subrange(0, n as int) =~= g.contours@);
    }
}

/// The text of the `transform` attribute: a margin translation, the uniform
/// scale, the centering translation in font units, and the vertical flip.
pub open spec fn transform_attr_text(p: TransformParams, margin: int) -> Seq<char> {
    "translate("@ + int_text(margin) + seq![' '] + int_text(margin) + ") scale("@ + frac_text(
        p.scale,
    ) + ") translate("@ + frac_text(p.offset_x) + seq![' '] + frac_text(p.offset_y)
        + ") scale(1 -1)"@
}

/// Builds the `transform` attribute for the given parameters and margin.
pub fn push_transform_attr(p: &TransformParams, margin: i64, out: &mut Vec<char>)
    requires
        p.wf(),
        -FRAC_TEXT_BOUND < p.scale.num < FRAC_TEXT_BOUND,
        -FRAC_TEXT_BOUND < p.offset_x.num < FRAC_TEXT_BOUND,
        -FRAC_TEXT_BOUND < p.offset_y.num < FRAC_TEXT_BOUND,
    ensures
        final(out)@ == old(out)@ + transform_attr_text(*p, margin as int),
{
    push_str_chars("translate(", out);
    push_int_text(margin, out);
    out.push(' ');
    push_int_text(margin, out);
    push_str_chars(") scale(", out);
    push_frac_text(p.scale, out);
    push_str_chars(") translate(", out);
    push_frac_text(p.offset_x, out);
    out.push(' ');
    push_frac_text(p.offset_y, out);
    push_str_chars(") scale(1 -1)", out);
    proof {
        assert(out@ =~= old(out)@ + transform_attr_text(*p, margin as int));
    }
}

/// Appends the characters of a string slice to `out`.
fn push_str_chars(s: &str, out: &mut Vec<char>)
    ensures
        final(out)@ == old(out)@ + s@,
{
    let mut cs = crate::text::str_to_chars(s);
    let n = cs.len();
    let mut i: usize = 0;
    while i < n
        invariant
            n == cs@.len(),
            cs@ == s@,
            i <= n,
            out@ == old(out)@ + s@.subrange(0, i as int),
        decreases n - i,
    {
        let c = cs[i];
        out.push(c);
        proof {
            assert(s@.subrange(0, i + 1 as int) =~= s@.subrange(0, i as int) + seq![s@[i as int]]);
        }
        i = i + 1;
    }
    proof {
        assert(s@.subrange(0, n as int) =~= s@);
        assert(out@ =~= old(out)@ + s@);
    }
}

} // verus!
