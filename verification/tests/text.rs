use registry_proxy::text::{
    chars_of, count, find, find_in, is_space_char, join, lower_char, matches_at, same,
    same_ignore_case, slice, trim_bounds, unquote_bounds,
};

fn v(s: &str) -> Vec<char> {
    s.chars().collect()
}

#[test]
fn characters_of_a_text() {
    assert_eq!(chars_of("a/é"), vec!['a', '/', 'é']);
    assert_eq!(chars_of(""), Vec::<char>::new());
}

#[test]
fn pattern_at_a_position() {
    assert!(matches_at(&v("/v2/x"), &v("/v2"), 0));
    assert!(matches_at(&v("/v2/x"), &v("/x"), 3));
    assert!(!matches_at(&v("/v2/x"), &v("/x"), 2));
    assert!(!matches_at(&v("/v2/x"), &v("/x"), 4));
    assert!(!matches_at(&v("/v2/x"), &v("/x"), usize::MAX));
    assert!(matches_at(&v("abc"), &v(""), 3));
    assert!(!matches_at(&v("abc"), &v(""), 4));
    assert!(!matches_at(&v("ab"), &v("abc"), 0));
    assert!(matches_at(&v(""), &v(""), 0));
}

#[test]
fn leftmost_position() {
    assert_eq!(find(&v("a/blobs/b/blobs/c"), &v("/blobs/")), Some(1));
    assert_eq!(find(&v("aaa"), &v("aa")), Some(0));
    assert_eq!(find(&v("abc"), &v("c")), Some(2));
    assert_eq!(find(&v("abc"), &v("d")), None);
    assert_eq!(find(&v("abc"), &v("")), Some(0));
    assert_eq!(find(&v(""), &v("")), Some(0));
    assert_eq!(find(&v(""), &v("a")), None);
    assert_eq!(find(&v("ab"), &v("abc")), None);
}

#[test]
fn leftmost_position_in_a_part() {
    let text = v("a,b,c");
    assert_eq!(find_in(&text, &v(","), 0, 5), Some(1));
    assert_eq!(find_in(&text, &v(","), 2, 5), Some(3));
    assert_eq!(find_in(&text, &v(","), 4, 5), None);
    assert_eq!(find_in(&text, &v(","), 2, 3), None);
    assert_eq!(find_in(&text, &v(","), 3, 4), Some(3));
    assert_eq!(find_in(&text, &v(""), 5, 5), Some(5));
    assert_eq!(find_in(&text, &v("b,c"), 0, 4), None);
    assert_eq!(find_in(&text, &v("b,c"), 0, 5), Some(2));
}

#[test]
fn equal_texts() {
    assert!(same(&v("v2"), &v("v2")));
    assert!(!same(&v("v2"), &v("v3")));
    assert!(!same(&v("v2"), &v("v2 ")));
    assert!(same(&v(""), &v("")));
}

#[test]
fn counting_a_character() {
    assert_eq!(count(&v("/a/b/"), '/'), 3);
    assert_eq!(count(&v("abc"), '/'), 0);
    assert_eq!(count(&v(""), '/'), 0);
}

#[test]
fn white_space_is_ascii_white_space() {
    for c in [' ', '\t', '\n', '\x0C', '\r'] {
        assert!(is_space_char(c));
    }
    for c in ['a', '\x0B', '\u{a0}', '\u{2003}', '\0'] {
        assert!(!is_space_char(c));
    }
}

#[test]
fn trimming() {
    let text = v("  a b \t");
    assert_eq!(trim_bounds(&text, 0, text.len()), (2, 5));
    assert_eq!(trim_bounds(&text, 3, text.len()), (4, 5));
    assert_eq!(trim_bounds(&text, 0, 2), (2, 2));
    assert_eq!(trim_bounds(&text, 2, 3), (2, 3));
    let blank = v(" \r\n ");
    let (a, b) = trim_bounds(&blank, 0, blank.len());
    assert_eq!(a, b);
    let wide = v("\u{a0}x\u{a0}");
    assert_eq!(trim_bounds(&wide, 0, 3), (0, 3));
}

#[test]
fn unquoting() {
    let text = v("\"ab\"");
    assert_eq!(unquote_bounds(&text, 0, 4), (1, 3));
    assert_eq!(unquote_bounds(&text, 0, 3), (0, 3));
    assert_eq!(unquote_bounds(&text, 1, 4), (1, 4));
    assert_eq!(unquote_bounds(&text, 0, 1), (0, 1));
    assert_eq!(unquote_bounds(&text, 2, 2), (2, 2));
    let two = v("\"\"");
    assert_eq!(unquote_bounds(&two, 0, 2), (1, 1));
}

#[test]
fn lower_case_of_ascii_capitals() {
    assert_eq!(lower_char('A'), 'a');
    assert_eq!(lower_char('Z'), 'z');
    assert_eq!(lower_char('a'), 'a');
    assert_eq!(lower_char('@'), '@');
    assert_eq!(lower_char('['), '[');
    assert_eq!(lower_char('É'), 'É');
    assert_eq!(lower_char('-'), '-');
}

#[test]
fn equal_but_for_case() {
    assert!(same_ignore_case(&v("Bearer"), &v("bEARER")));
    assert!(!same_ignore_case(&v("Bearer"), &v("Bearer ")));
    assert!(!same_ignore_case(&v("É"), &v("é")));
    assert!(same_ignore_case(&v(""), &v("")));
    assert!(!same_ignore_case(&v("[a"), &v("{a")));
}

#[test]
fn slicing_counts_characters() {
    assert_eq!(slice("héllo", 1, 3), "él");
    assert_eq!(slice("héllo", 0, 5), "héllo");
    assert_eq!(slice("héllo", 5, 5), "");
    assert_eq!(slice("", 0, 0), "");
}

#[test]
fn joining() {
    assert_eq!(join("/v2", "/x"), "/v2/x");
    assert_eq!(join("", ""), "");
    assert_eq!(join("a", ""), "a");
}
