//! The per-font pipeline: resolves a reference glyph from an ordered fallback
//! list, walks the requested characters in request order, and produces one
//! document per character whose glyph the font holds.
//!
//! The surrounding program reads the font file and hands the pipeline plain
//! values: the font's metrics and, for each candidate and requested
//! character, the glyph outline or its absence. A character absent from the
//! font yields no document and is no failure.

use vstd::prelude::*;

use crate::geometry::{FontMetrics, Glyph, COORD_BOUND};
use crate::document::{glyph_document_text, render_glyph_document};
use crate::transform::Mode;

verus! {

/// The ordered fallback list of reference candidates: a capital letter,
/// then a digit.
pub open spec fn spec_reference_candidates() -> Seq<char> {
    seq!['X', '0']
}

/// The characters tried, in priority order, as the font's reference glyph.
pub fn reference_candidates() -> (r: Vec<char>)
    ensures
        r@ == spec_reference_candidates(),
{
    let mut v: Vec<char> = Vec::new();
    v.push('X');
    v.push('0');
    proof {
        assert(v@ =~= spec_reference_candidates());
    }
    v
}

/// The first present glyph of the list, from position `i` on.
pub open spec fn first_present_from(s: Seq<Option<Glyph>>, i: int) -> Option<Glyph>
    decreases s.len() - i,
{
    if i < 0 || i >= s.len() {
        None
    } else if s[i] is Some {
        s[i]
    } else {
        first_present_from(s, i + 1)
    }
}

/// The first present glyph of the list: the one the fallback order chooses.
pub open spec fn spec_first_present(s: Seq<Option<Glyph>>) -> Option<Glyph> {
    first_present_from(s, 0)
}

/// Resolves the reference glyph: of the candidates' glyphs, in priority
/// order, the first one that the font holds, or nothing if it holds none.
pub fn resolve_reference(candidates: &mut Vec<Option<Glyph>>) -> (r: Option<Glyph>)
    ensures
        r == spec_first_present(old(candidates)@),
{
    let ghost s = old(candidates)@;
    let n = candidates.len();
    let mut i: usize = 0;
    while i < n
        invariant
            s == old(candidates)@,
            candidates@ == s,
            n == s.len(),
            i <= n,
            first_present_from(s, 0) == first_present_from(s, i as int),
        decreases n - i,
    {
        if candidates[i].is_some() {
            let found = candidates.remove(i);
            proof {
                assert(s[i as int] is Some);
                assert(first_present_from(s, i as int) == s[i as int]);
            }
            return found;
        }
        i = i + 1;
    }
    None
}

/// The view of a produced document: the text it holds, if any.
pub open spec fn document_view(d: Option<String>) -> Option<Seq<char>> {
    match d {
        Some(s) => Some(s@),
        None => None,
    }
}

/// What one requested character yields: a document exactly when the font
/// holds both a reference glyph and the character's glyph, and nothing
/// otherwise.
pub open spec fn spec_character_result(
    metrics: FontMetrics,
    reference: Option<Glyph>,
    glyph: Option<Glyph>,
    document_size: int,
    margin_size: int,
    mode: Mode,
) -> Option<Seq<char>> {
    match (reference, glyph) {
        (Some(r), Some(g)) => Some(
            glyph_document_text(g, metrics, r, document_size, margin_size, mode),
        ),
        _ => None,
    }
}

/// What the whole pipeline yields for one font: for each requested
/// character, in request order, the character and its result.
pub open spec fn spec_font_results(
    metrics: FontMetrics,
    reference: Option<Glyph>,
    characters: Seq<char>,
    glyphs: Seq<Option<Glyph>>,
    document_size: int,
    margin_size: int,
    mode: Mode,
) -> Seq<(char, Option<Seq<char>>)> {
    Seq::new(
        characters.len(),
        |i: int|
            (
                characters[i],
                spec_character_result(
                    metrics,
                    reference,
                    glyphs[i],
                    document_size,
                    margin_size,
                    mode,
                ),
            ),
    )
}

/// Renders every requested character of one font, in request order.
///
/// `glyphs[i]` is the font's outline for `characters[i]`, or nothing where
/// the font lacks it. A missing glyph, or an absent reference, yields
/// `None` for the character; the function itself always succeeds, so a
/// missing glyph never counts as a font failure.
pub fn render_font(
    metrics: &FontMetrics,
    reference: &Option<Glyph>,
    characters: &Vec<char>,
    glyphs: &Vec<Option<Glyph>>,
    document_size: i64,
    margin_size: i64,
    mode: Mode,
) -> (r: Vec<(char, Option<String>)>)
    requires
        metrics.wf(),
        (*reference) matches Some(g) ==> g.wf(),
        glyphs@.len() == characters@.len(),
        forall|i: int|
            0 <= i < glyphs@.len() && glyphs@[i] is Some ==> glyphs@[i]->Some_0.wf(),
        0 <= margin_size,
        2 * margin_size < document_size < COORD_BOUND,
    ensures
        r@.map_values(|p: (char, Option<String>)| (p.0, document_view(p.1)))
            == spec_font_results(
            *metrics,
            *reference,
            characters@,
            glyphs@,
            document_size as int,
            margin_size as int,
            mode,
        ),
        r@.len() == characters@.len(),
{
    let ghost expected = spec_font_results(
        *metrics,
        *reference,
        characters@,
        glyphs@,
        document_size as int,
        margin_size as int,
        mode,
    );
    let n = characters.len();
    let mut results: Vec<(char, Option<String>)> = Vec::new();
    let mut i: usize = 0;
    while i < n
        invariant
            n == characters@.len(),
            n == glyphs@.len(),
            metrics.wf(),
            (*reference) matches Some(g) ==> g.wf(),
            forall|j: int|
                0 <= j < glyphs@.len() && glyphs@[j] is Some ==> glyphs@[j]->Some_0.wf(),
            0 <= margin_size,
            2 * margin_size < document_size < COORD_BOUND,
            i <= n,
            expected == spec_font_results(
                *metrics,
                *reference,
                characters@,
                glyphs@,
                document_size as int,
                margin_size as int,
                mode,
            ),
            results@.len() == i,
            forall|j: int|
                0 <= j < i ==> (results@[j].0, document_view(#[trigger] results@[j].1))
                    == expected[j],
        decreases n - i,
    {
        let c = characters[i];
        let document: Option<String> = match (reference, &glyphs[i]) {
            (Some(reference_glyph), Some(glyph)) => Some(
                render_glyph_document(
                    glyph,
                    metrics,
                    reference_glyph,
                    document_size,
                    margin_size,
                    mode,
                ),
            ),
            _ => None,
        };
        results.push((c, document));
        i = i + 1;
    }
    proof {
        assert(results@.map_values(|p: (char, Option<String>)| (p.0, document_view(p.1)))
            =~= expected);
    }
    results
}

/// Running the pipeline twice on the same font, characters and mode yields
/// byte-identical results: what a font's characters render to is a function
/// of the inputs alone.
pub proof fn lemma_pipeline_idempotent(
    metrics: FontMetrics,
    reference: Option<Glyph>,
    characters: Seq<char>,
    glyphs: Seq<Option<Glyph>>,
    document_size: int,
    margin_size: int,
    mode: Mode,
    metrics2: FontMetrics,
    reference2: Option<Glyph>,
    characters2: Seq<char>,
    glyphs2: Seq<Option<Glyph>>,
    document_size2: int,
    margin_size2: int,
    mode2: Mode,
)
    requires
        metrics2 == metrics,
        reference2 == reference,
        characters2 == characters,
        glyphs2 == glyphs,
        document_size2 == document_size,
        margin_size2 == margin_size,
        mode2 == mode,
    ensures
        spec_font_results(metrics, reference, characters, glyphs, document_size, margin_size, mode)
            == spec_font_results(
            metrics2,
            reference2,
            characters2,
            glyphs2,
            document_size2,
            margin_size2,
            mode2,
        ),
{
}

/// A character whose glyph the font lacks never produces a document and
/// never counts as a font failure: its entry is `None` while every other
/// requested character keeps its own result.
pub proof fn lemma_missing_glyph_is_skipped(
    metrics: FontMetrics,
    reference: Option<Glyph>,
    characters: Seq<char>,
    glyphs: Seq<Option<Glyph>>,
    document_size: int,
    margin_size: int,
    mode: Mode,
    i: int,
)
    requires
        glyphs.len() == characters.len(),
        0 <= i < glyphs.len(),
        glyphs[i] is None,
    ensures
        spec_font_results(
            metrics,
            reference,
            characters,
            glyphs,
            document_size,
            margin_size,
            mode,
        ).len() == characters.len(),
        spec_font_results(
            metrics,
            reference,
            characters,
            glyphs,
            document_size,
            margin_size,
            mode,
        )[i].1 is None,
        forall|j: int|
            0 <= j < characters.len() ==> #[trigger] spec_font_results(
                metrics,
                reference,
                characters,
                glyphs,
                document_size,
                margin_size,
                mode,
            )[j] == (
                characters[j],
                spec_character_result(
                    metrics,
                    reference,
                    glyphs[j],
                    document_size,
                    margin_size,
                    mode,
                ),
            ),
{
}

} // verus!
