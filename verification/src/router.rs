//! The output router: decides, for a per-font sequence of results, which
//! files are written where, and what the per-font status line says.
//!
//! The router only plans: it computes file names, relative paths and
//! contents, and the outcome flag. The surrounding program performs the
//! directory creation and the writes (or prints the documents to the
//! combined stream when no destination is configured).

use vstd::prelude::*;

use crate::text::{chars_to_string, hex_digits, push_hex_digits, str_to_chars};
use crate::pipeline::document_view;

verus! {

/// The file name of one character's document: the character, its code point
/// in `0x`-prefixed lowercase hexadecimal, and the `svg` extension.
pub open spec fn spec_output_file_name(c: char) -> Seq<char> {
    seq![c] + "-0x"@ + hex_digits(c as nat) + ".svg"@
}

/// Builds the file name of one character's document.
pub fn output_file_name(c: char) -> (r: String)
    ensures
        r@ == spec_output_file_name(c),
{
    let mut head: Vec<char> = Vec::new();
    head.push(c);
    let mut s = chars_to_string(&head);
    s.append("-0x");
    let mut hex: Vec<char> = Vec::new();
    push_hex_digits(c as u64, &mut hex);
    let hex_string = chars_to_string(&hex);
    s.append(hex_string.as_str());
    s.append(".svg");
    proof {
        assert(s@ =~= spec_output_file_name(c));
    }
    s
}

/// The final component of a path: what follows the last `/`, or the whole
/// path when it has none.
pub open spec fn after_last_slash(p: Seq<char>) -> Seq<char>
    decreases p.len(),
{
    if p.len() == 0 {
        p
    } else if p.last() == '/' {
        Seq::empty()
    } else {
        after_last_slash(p.drop_last()) + seq![p.last()]
    }
}

/// Whether a component has an extension: a dot anywhere after its first
/// character (a single leading dot marks a hidden file, not an extension).
pub open spec fn has_extension_dot(c: Seq<char>) -> bool {
    exists|i: int| 1 <= i < c.len() && c[i] == '.'
}

/// The component cut at its last dot.
pub open spec fn before_last_dot(c: Seq<char>) -> Seq<char>
    decreases c.len(),
{
    if c.len() == 0 {
        c
    } else if c.last() == '.' {
        c.drop_last()
    } else {
        before_last_dot(c.drop_last())
    }
}

/// The file stem of a path: its final component without the extension.
pub open spec fn spec_file_stem(p: Seq<char>) -> Seq<char> {
    let c = after_last_slash(p);
    if has_extension_dot(c) {
        before_last_dot(c)
    } else {
        c
    }
}

pub(crate) fn component_chars(v: &Vec<char>, n: usize) -> (r: Vec<char>)
    requires
        n <= v@.len(),
    ensures
        r@ == after_last_slash(v@.subrange(0, n as int)),
    decreases n,
{
    if n == 0 {
        let empty: Vec<char> = Vec::new();
        proof {
            assert(v@.subrange(0, 0) =~= Seq::<char>::empty());
        }
        empty
    } else if v[n - 1] == '/' {
        let empty: Vec<char> = Vec::new();
        empty
    } else {
        let mut r = component_chars(v, n - 1);
        r.push(v[n - 1]);
        proof {
            let p = v@.subrange(0, n as int);
            assert(p.drop_last() =~= v@.subrange(0, n - 1 as int));
            assert(r@ =~= after_last_slash(p));
        }
        r
    }
}

fn prefix_chars(v: &Vec<char>, m: usize) -> (r: Vec<char>)
    requires
        m <= v@.len(),
    ensures
        r@ == v@.subrange(0, m as int),
{
    let mut r: Vec<char> = Vec::new();
    let mut i: usize = 0;
    while i < m
        invariant
            i <= m <= v@.len(),
            r@ == v@.subrange(0, i as int),
        decreases m - i,
    {
        let c = v[i];
        r.push(c);
        proof {
            assert(v@.subrange(0, i + 1 as int) =~= v@.subrange(0, i as int) + seq![v@[i as int]]);
        }
        i = i + 1;
    }
    r
}

fn cut_extension(v: &Vec<char>, n: usize) -> (r: Vec<char>)
    requires
        n <= v@.len(),
        exists|i: int| 0 <= i < n && v@[i] == '.',
    ensures
        r@ == before_last_dot(v@.subrange(0, n as int)),
    decreases n,
{
    if v[n - 1] == '.' {
        let r = prefix_chars(v, n - 1);
        proof {
            let p = v@.subrange(0, n as int);
            assert(p.drop_last() =~= v@.subrange(0, n - 1 as int));
        }
        r
    } else {
        let r = cut_extension(v, n - 1);
        proof {
            let p = v@.subrange(0, n as int);
            assert(p.drop_last() =~= v@.subrange(0, n - 1 as int));
        }
        r
    }
}

/// The file stem of a path: its final component (after the last `/`), cut at
/// its last dot when it has one after its first character.
pub fn file_stem(path: &str) -> (r: String)
    ensures
        r@ == spec_file_stem(path@),
{
    let chars = str_to_chars(path);
    let n = chars.len();
    let component = component_chars(&chars, n);
    proof {
        assert(chars@.subrange(0, n as int) =~= chars@);
    }
    let m = component.len();
    let mut has_dot = false;
    let mut i: usize = 1;
    if m == 0 {
        i = 0;
    }
    while i < m
        invariant
            m == component@.len(),
            i <= m,
            m > 0 ==> i >= 1,
            has_dot <==> exists|j: int| 1 <= j < i && component@[j] == '.',
        decreases m - i,
    {
        if component[i] == '.' {
            has_dot = true;
        }
        i = i + 1;
    }
    if has_dot {
        let stem = cut_extension(&component, m);
        proof {
            assert(component@.subrange(0, m as int) =~= component@);
        }
        chars_to_string(&stem)
    } else {
        chars_to_string(&component)
    }
}

/// The planned output files of one font: for each produced document, in
/// request order, the path `<stem>/<character>-<hex code point>.svg` and the
/// document's text.
pub open spec fn spec_planned_outputs(
    stem: Seq<char>,
    results: Seq<(char, Option<Seq<char>>)>,
) -> Seq<(Seq<char>, Seq<char>)>
    decreases results.len(),
{
    if results.len() == 0 {
        Seq::empty()
    } else {
        let rest = spec_planned_outputs(stem, results.drop_last());
        match results.last().1 {
            Some(doc) => rest + seq![
                (stem + seq!['/'] + spec_output_file_name(results.last().0), doc),
            ],
            None => rest,
        }
    }
}

/// Plans the output files of one font: one `(relative path, contents)` pair
/// per produced document, in request order, under a directory named after
/// the font's file stem.
pub fn plan_outputs(stem: &str, results: &Vec<(char, Option<String>)>) -> (r: Vec<(String, String)>)
    ensures
        r@.map_values(|p: (String, String)| (p.0@, p.1@)) == spec_planned_outputs(
            stem@,
            results@.map_values(|q: (char, Option<String>)| (q.0, document_view(q.1))),
        ),
{
    let ghost viewed = results@.map_values(
        |q: (char, Option<String>)| (q.0, document_view(q.1)),
    );
    let n = results.len();
    let mut r: Vec<(String, String)> = Vec::new();
    let mut i: usize = 0;
    while i < n
        invariant
            n == results@.len(),
            viewed == results@.map_values(|q: (char, Option<String>)| (q.0, document_view(q.1))),
            i <= n,
            r@.map_values(|p: (String, String)| (p.0@, p.1@)) == spec_planned_outputs(
                stem@,
                viewed.subrange(0, i as int),
            ),
        decreases n - i,
    {
        match &results[i].1 {
            Some(document) => {
                let mut path = String::from_str(stem);
                path.append("/");
                let name = output_file_name(results[i].0);
                path.append(name.as_str());
                let contents = document.clone();
                proof {
                    reveal_strlit("/");
                    assert("/"@ =~= seq!['/']);
                    assert(path@ =~= stem@ + seq!['/'] + spec_output_file_name(
                        results@[i as int].0,
                    ));
                }
                r.push((path, contents));
            },
            None => {},
        }
        proof {
            let pre = viewed.subrange(0, i as int);
            let post = viewed.subrange(0, i + 1 as int);
            assert(post.drop_last() =~= pre);
            assert(post.last() == viewed[i as int]);
            assert(viewed[i as int].0 == results@[i as int].0);
            assert(viewed[i as int].1 == document_view(results@[i as int].1));
            assert(r@.map_values(|p: (String, String)| (p.0@, p.1@)) =~= spec_planned_outputs(
                stem@,
                post,
            ));
        }
        i = i + 1;
    }
    proof {
        assert(viewed.subrange(0, n as int) =~= viewed);
    }
    r
}

/// The per-font outcome: produced when at least one requested character
/// yielded a document.
pub fn font_outcome(results: &Vec<(char, Option<String>)>) -> (r: Option<()>)
    ensures
        r is Some <==> exists|i: int| 0 <= i < results@.len() && results@[i].1 is Some,
{
    let n = results.len();
    let mut i: usize = 0;
    while i < n
        invariant
            n == results@.len(),
            i <= n,
            forall|j: int| 0 <= j < i ==> results@[j].1 is None,
        decreases n - i,
    {
        if results[i].1.is_some() {
            return Some(());
        }
        i = i + 1;
    }
    None
}

/// What one font's processing came to, as the router reports it.
#[derive(Debug)]
pub enum FontStatus {
    /// At least one document was produced.
    Rendered,
    /// The font was processed without error, but no requested character
    /// produced a document.
    Empty,
    /// Opening, reading or writing failed; the text describes the error.
    Failed(String),
}

/// The status line of one font, if one is owed.
///
/// A font that produced documents gets a success line; a failed font gets a
/// failure line naming the error. A font processed without error that
/// produced no document gets no line at all: under the outcome rule, "no
/// outcome" is neither a success nor a failure.
pub open spec fn spec_status_line(path: Seq<char>, status: FontStatus) -> Option<Seq<char>> {
    match status {
        FontStatus::Rendered => Some("[success] "@ + path),
        FontStatus::Empty => None,
        FontStatus::Failed(error) => Some(
            "[failure] "@ + path + " ("@ + error@ + ")"@,
        ),
    }
}

/// Builds the status line owed for one font, if any.
pub fn status_line(path: &str, status: &FontStatus) -> (r: Option<String>)
    ensures
        document_view(r) == spec_status_line(path@, *status),
{
    match status {
        FontStatus::Rendered => {
            let mut line = String::from_str("[success] ");
            line.append(path);
            Some(line)
        },
        FontStatus::Empty => None,
        FontStatus::Failed(error) => {
            let mut line = String::from_str("[failure] ");
            line.append(path);
            line.append(" (");
            line.append(error.as_str());
            line.append(")");
            proof {
                assert(line@ =~= "[failure] "@ + path@ + " ("@ + error@ + ")"@);
            }
            Some(line)
        },
    }
}

} // verus!
