//! The scan contract: which files of a directory tree are passed to the
//! per-font pipeline.
//!
//! The walk itself, and the bounded worker pool that runs the per-file
//! processing, live in the surrounding program; this module holds what they
//! decide by: the extension filter, the ignore rules, the selection of a
//! path list, and the proof that the planned set of output paths does not
//! depend on the order in which fonts are processed — which is all a worker
//! bound changes.

use vstd::prelude::*;

use crate::router::{after_last_slash, component_chars, spec_planned_outputs};
use crate::text::str_to_chars;

verus! {

/// The extension of a path's final component: what follows its last dot,
/// when it has a dot after its first character.
pub open spec fn after_last_dot(c: Seq<char>) -> Seq<char>
    decreases c.len(),
{
    if c.len() == 0 {
        c
    } else if c.last() == '.' {
        Seq::empty()
    } else {
        after_last_dot(c.drop_last()) + seq![c.last()]
    }
}

/// Whether a path names a candidate font file: its final component carries
/// the extension `otf` or `ttf`, case-sensitively.
pub open spec fn spec_is_font_path(p: Seq<char>) -> bool {
    let c = after_last_slash(p);
    &&& exists|i: int| 1 <= i < c.len() && c[i] == '.'
    &&& (after_last_dot(c) == "otf"@ || after_last_dot(c) == "ttf"@)
}

fn extension_chars(v: &Vec<char>, n: usize) -> (r: Vec<char>)
    requires
        n <= v@.len(),
    ensures
        r@ == after_last_dot(v@.subrange(0, n as int)),
    decreases n,
{
    if n == 0 {
        let empty: Vec<char> = Vec::new();
        proof {
            assert(v@.subrange(0, 0) =~= Seq::<char>::empty());
        }
        empty
    } else if v[n - 1] == '.' {
        let empty: Vec<char> = Vec::new();
        empty
    } else {
        let mut r = extension_chars(v, n - 1);
        r.push(v[n - 1]);
        proof {
            let p = v@.subrange(0, n as int);
            assert(p.drop_last() =~= v@.subrange(0, n - 1 as int));
            assert(r@ =~= after_last_dot(p));
        }
        r
    }
}

/// Decides whether a path is a candidate font file: only files with the
/// extension `otf` or `ttf` (case-sensitive) are passed to the pipeline.
pub fn filter(path: &str) -> (r: bool)
    ensures
        r == spec_is_font_path(path@),
{
    let chars = str_to_chars(path);
    let n = chars.len();
    let component = component_chars(&chars, n);
    proof {
        assert(chars@.subrange(0, n as int) =~= chars@);
    }
    let m = component.len();
    let mut has_dot = false;
    let mut i: usize = 1;
    if m == 0 {
        i = 0;
    }
    while i < m
        invariant
            m == component@.len(),
            i <= m,
            m > 0 ==> i >= 1,
            has_dot <==> exists|j: int| 1 <= j < i && component@[j] == '.',
        decreases m - i,
    {
        if component[i] == '.' {
            has_dot = true;
        }
        i = i + 1;
    }
    if !has_dot {
        return false;
    }
    let ext = extension_chars(&component, m);
    proof {
        assert(component@.subrange(0, m as int) =~= component@);
        reveal_strlit("otf");
        reveal_strlit("ttf");
    }
    if ext.len() != 3 {
        proof {
            assert(ext@ != "otf"@ && ext@ != "ttf"@);
        }
        return false;
    }
    let is_otf = ext[0] == 'o' && ext[1] == 't' && ext[2] == 'f';
    let is_ttf = ext[0] == 't' && ext[1] == 't' && ext[2] == 'f';
    proof {
        assert(is_otf <==> ext@ =~= "otf"@);
        assert(is_ttf <==> ext@ =~= "ttf"@);
    }
    is_otf || is_ttf
}

/// Whether `pattern` occurs in `text` starting at position `k`.
pub open spec fn occurs_at(text: Seq<char>, pattern: Seq<char>, k: int) -> bool {
    &&& 0 <= k
    &&& k + pattern.len() <= text.len()
    &&& text.subrange(k, k + pattern.len()) == pattern
}

/// Whether `pattern` occurs anywhere in `text`. A path matches an ignore
/// pattern when the pattern occurs in it as a contiguous run of characters.
pub open spec fn spec_matches_pattern(text: Seq<char>, pattern: Seq<char>) -> bool {
    exists|k: int| occurs_at(text, pattern, k)
}

/// Decides whether the ignore pattern occurs in the path.
pub fn matches_pattern(path: &str, pattern: &str) -> (r: bool)
    ensures
        r == spec_matches_pattern(path@, pattern@),
{
    let text = str_to_chars(path);
    let pat = str_to_chars(pattern);
    let n = text.len();
    let m = pat.len();
    if m > n {
        proof {
            assert(forall|k: int| !occurs_at(path@, pattern@, k));
        }
        return false;
    }
    if m == 0 {
        proof {
            assert(path@.subrange(0, 0) =~= pattern@);
            assert(occurs_at(path@, pattern@, 0));
        }
        return true;
    }
    let mut k: usize = 0;
    while k <= n - m
        invariant
            n == text@.len(),
            m == pat@.len(),
            text@ == path@,
            pat@ == pattern@,
            1 <= m <= n,
            k <= n - m + 1,
            forall|k2: int| 0 <= k2 < k ==> !occurs_at(path@, pattern@, k2),
        decreases n - m + 1 - k,
    {
        let mut j: usize = 0;
        let mut same = true;
        while j < m && same
            invariant
                n == text@.len(),
                m == pat@.len(),
                text@ == path@,
                pat@ == pattern@,
                k + m <= n,
                j <= m,
                same ==> text@.subrange(k as int, k + j as int) =~= pat@.subrange(0, j as int),
                !same ==> !occurs_at(path@, pattern@, k as int),
            decreases m - j + (if same {
                1int
            } else {
                0int
            }),
        {
            if text[k + j] != pat[j] {
                proof {
                    if occurs_at(path@, pattern@, k as int) {
                        assert(text@.subrange(k as int, k + m as int) == pat@.subrange(
                            0,
                            m as int,
                        )) by {
                            assert(pat@.subrange(0, m as int) =~= pat@);
                        }
                        assert(text@.subrange(k as int, k + m as int)[j as int] == text@[k + j]);
                    }
                }
                same = false;
            } else {
                proof {
                    let pre_t = text@.subrange(k as int, k + j as int);
                    let post_t = text@.subrange(k as int, k + j + 1 as int);
                    let pre_p = pat@.subrange(0, j as int);
                    let post_p = pat@.subrange(0, j + 1 as int);
                    assert(post_t =~= pre_t + seq![text@[k + j]]);
                    assert(post_p =~= pre_p + seq![pat@[j as int]]);
                }
                j = j + 1;
            }
        }
        if same {
            proof {
                assert(pat@.subrange(0, m as int) =~= pat@);
                assert(occurs_at(path@, pattern@, k as int));
            }
            return true;
        }
        k = k + 1;
    }
    proof {
        assert(forall|k2: int| !occurs_at(path@, pattern@, k2));
    }
    false
}

/// Whether a path matches any of the ignore patterns.
pub open spec fn spec_is_ignored(p: Seq<char>, ignores: Seq<Seq<char>>) -> bool {
    exists|i: int| 0 <= i < ignores.len() && spec_matches_pattern(p, ignores[i])
}

/// Decides whether a path matches any of the ignore patterns.
pub fn is_ignored(path: &str, ignores: &Vec<String>) -> (r: bool)
    ensures
        r == spec_is_ignored(path@, ignores@.map_values(|s: String| s@)),
{
    let ghost iv = ignores@.map_values(|s: String| s@);
    let n = ignores.len();
    let mut i: usize = 0;
    while i < n
        invariant
            n == ignores@.len(),
            iv == ignores@.map_values(|s: String| s@),
            i <= n,
            forall|j: int| 0 <= j < i ==> !spec_matches_pattern(path@, iv[j]),
        decreases n - i,
    {
        if matches_pattern(path, ignores[i].as_str()) {
            proof {
                assert(spec_matches_pattern(path@, iv[i as int]));
            }
            return true;
        }
        i = i + 1;
    }
    false
}

/// Whether the scan passes a path to the pipeline: it must carry a font
/// extension and match no ignore pattern.
pub open spec fn spec_is_selected(p: Seq<char>, ignores: Seq<Seq<char>>) -> bool {
    spec_is_font_path(p) && !spec_is_ignored(p, ignores)
}

/// Decides whether the scan passes a path to the pipeline.
pub fn is_selected(path: &str, ignores: &Vec<String>) -> (r: bool)
    ensures
        r == spec_is_selected(path@, ignores@.map_values(|s: String| s@)),
{
    if !filter(path) {
        return false;
    }
    !is_ignored(path, ignores)
}

/// The paths of a list that the scan selects, in list order.
pub open spec fn spec_selected_paths(paths: Seq<Seq<char>>, ignores: Seq<Seq<char>>) -> Seq<
    Seq<char>,
>
    decreases paths.len(),
{
    if paths.len() == 0 {
        Seq::empty()
    } else {
        let rest = spec_selected_paths(paths.drop_last(), ignores);
        if spec_is_selected(paths.last(), ignores) {
            rest + seq![paths.last()]
        } else {
            rest
        }
    }
}

/// Selects, from a list of discovered paths, those the scan passes to the
/// pipeline, keeping their order.
pub fn select_paths(paths: &Vec<String>, ignores: &Vec<String>) -> (r: Vec<String>)
    ensures
        r@.map_values(|s: String| s@) == spec_selected_paths(
            paths@.map_values(|s: String| s@),
            ignores@.map_values(|s: String| s@),
        ),
{
    let ghost pv = paths@.map_values(|s: String| s@);
    let ghost iv = ignores@.map_values(|s: String| s@);
    let n = paths.len();
    let mut r: Vec<String> = Vec::new();
    let mut i: usize = 0;
    while i < n
        invariant
            n == paths@.len(),
            pv == paths@.map_values(|s: String| s@),
            iv == ignores@.map_values(|s: String| s@),
            i <= n,
            r@.map_values(|s: String| s@) == spec_selected_paths(pv.subrange(0, i as int), iv),
        decreases n - i,
    {
        if is_selected(paths[i].as_str(), ignores) {
            let kept = paths[i].clone();
            r.push(kept);
        }
        proof {
            let pre = pv.subrange(0, i as int);
            let post = pv.subrange(0, i + 1 as int);
            assert(post.drop_last() =~= pre);
            assert(post.last() == pv[i as int]);
            assert(r@.map_values(|s: String| s@) =~= spec_selected_paths(post, iv));
        }
        i = i + 1;
    }
    proof {
        assert(pv.subrange(0, n as int) =~= pv);
    }
    r
}

/// A path that matches an ignore pattern is never selected: it is not passed
/// to the pipeline, so it produces no output and no log line.
pub proof fn lemma_ignored_path_is_never_selected(
    p: Seq<char>,
    paths: Seq<Seq<char>>,
    ignores: Seq<Seq<char>>,
    i: int,
)
    requires
        0 <= i < ignores.len(),
        spec_matches_pattern(p, ignores[i]),
    ensures
        !spec_is_selected(p, ignores),
        !spec_selected_paths(paths, ignores).contains(p),
    decreases paths.len(),
{
    assert(spec_is_ignored(p, ignores));
    if paths.len() > 0 {
        lemma_ignored_path_is_never_selected(p, paths.drop_last(), ignores, i);
    }
}

/// The planned output paths of one processed font: its stem and its
/// per-character results determine them.
pub open spec fn spec_font_output_paths(
    font: (Seq<char>, Seq<(char, Option<Seq<char>>)>),
) -> Set<Seq<char>> {
    Set::new(
        |p: Seq<char>|
            exists|j: int|
                0 <= j < spec_planned_outputs(font.0, font.1).len() && spec_planned_outputs(
                    font.0,
                    font.1,
                )[j].0 == p,
    )
}

/// The planned output paths of a whole scan, over the fonts it processed in
/// some order.
pub open spec fn spec_scan_output_paths(
    fonts: Seq<(Seq<char>, Seq<(char, Option<Seq<char>>)>)>,
) -> Set<Seq<char>> {
    Set::new(
        |p: Seq<char>|
            exists|i: int| 0 <= i < fonts.len() && spec_font_output_paths(fonts[i]).contains(p),
    )
}

/// The set of output paths a scan produces is a function of the multiset of
/// fonts it processes, not of the order they finish in. A worker bound only
/// changes that order and interleaving, so scans over the same directory
/// with one worker and with many plan the same set of output paths.
pub proof fn lemma_scan_outputs_independent_of_order(
    fonts1: Seq<(Seq<char>, Seq<(char, Option<Seq<char>>)>)>,
    fonts2: Seq<(Seq<char>, Seq<(char, Option<Seq<char>>)>)>,
)
    requires
        fonts1.to_multiset() == fonts2.to_multiset(),
    ensures
        spec_scan_output_paths(fonts1) == spec_scan_output_paths(fonts2),
{
    broadcast use vstd::seq_lib::group_to_multiset_ensures;

    assert forall|p: Seq<char>|
        spec_scan_output_paths(fonts1).contains(p) implies spec_scan_output_paths(
        fonts2,
    ).contains(p) by {
        let i = choose|i: int|
            0 <= i < fonts1.len() && spec_font_output_paths(fonts1[i]).contains(p);
        assert(fonts1.contains(fonts1[i]));
        assert(fonts1.to_multiset().count(fonts1[i]) > 0);
        assert(fonts2.to_multiset().count(fonts1[i]) > 0);
        assert(fonts2.contains(fonts1[i]));
        let i2 = choose|i2: int| 0 <= i2 < fonts2.len() && fonts2[i2] == fonts1[i];
        assert(spec_font_output_paths(fonts2[i2]).contains(p));
    }
    assert forall|p: Seq<char>|
        spec_scan_output_paths(fonts2).contains(p) implies spec_scan_output_paths(
        fonts1,
    ).contains(p) by {
        let i = choose|i: int|
            0 <= i < fonts2.len() && spec_font_output_paths(fonts2[i]).contains(p);
        assert(fonts2.contains(fonts2[i]));
        assert(fonts2.to_multiset().count(fonts2[i]) > 0);
        assert(fonts1.to_multiset().count(fonts2[i]) > 0);
        assert(fonts1.contains(fonts2[i]));
        let i2 = choose|i2: int| 0 <= i2 < fonts1.len() && fonts1[i2] == fonts2[i];
        assert(spec_font_output_paths(fonts1[i2]).contains(p));
    }
    assert(spec_scan_output_paths(fonts1) =~= spec_scan_output_paths(fonts2));
}

} // verus!
