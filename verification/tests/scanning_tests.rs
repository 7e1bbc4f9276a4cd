use founder::scanning::{filter, is_ignored, is_selected, matches_pattern, select_paths};

#[test]
fn filter_accepts_font_extensions_only() {
    assert!(filter("fonts/Foo.ttf"));
    assert!(filter("fonts/Foo.otf"));
    assert!(filter("Foo.ttf"));
    assert!(!filter("fonts/Foo.TTF"));
    assert!(!filter("fonts/Foo.woff"));
    assert!(!filter("fonts/Foo.ttf.bak"));
    assert!(!filter("fonts/noext"));
    assert!(!filter(".ttf"));
    assert!(!filter("dir.ttf/file"));
    assert!(!filter(""));
}

#[test]
fn pattern_matching_is_substring_containment() {
    assert!(matches_pattern("fonts/skip/Foo.ttf", "skip"));
    assert!(matches_pattern("fonts/skip/Foo.ttf", "Foo.ttf"));
    assert!(matches_pattern("fonts/skip/Foo.ttf", ""));
    assert!(!matches_pattern("fonts/keep/Foo.ttf", "skip"));
    assert!(!matches_pattern("abc", "abcd"));
}

#[test]
fn ignored_paths_match_any_pattern() {
    let ignores = vec![String::from("draft"), String::from("old")];
    assert!(is_ignored("fonts/old/Foo.ttf", &ignores));
    assert!(is_ignored("fonts/draft.ttf", &ignores));
    assert!(!is_ignored("fonts/new/Foo.ttf", &ignores));
    assert!(!is_ignored("fonts/new/Foo.ttf", &Vec::new()));
}

#[test]
fn ignored_font_is_never_selected() {
    let ignores = vec![String::from("skip")];
    assert!(is_selected("a/one.ttf", &ignores));
    assert!(!is_selected("b/skip/two.ttf", &ignores));
    assert!(!is_selected("c/readme.txt", &ignores));
}

#[test]
fn selection_keeps_order_and_drops_ignored() {
    let paths = vec![
        String::from("a/one.ttf"),
        String::from("b/skip/two.ttf"),
        String::from("c/three.otf"),
        String::from("d/notes.md"),
    ];
    let ignores = vec![String::from("skip")];
    let selected = select_paths(&paths, &ignores);
    assert_eq!(selected, vec![String::from("a/one.ttf"), String::from("c/three.otf")]);
}

#[test]
fn selection_without_ignores_keeps_all_fonts() {
    let paths = vec![String::from("x.ttf"), String::from("y.otf"), String::from("z.svg")];
    let selected = select_paths(&paths, &Vec::new());
    assert_eq!(selected, vec![String::from("x.ttf"), String::from("y.otf")]);
}
