use gx_md::text::{
    capitalize, contains, decimal_chars, decimal_text, ends_with, exchange, find, find_from,
    has_char, is_space_char, join, matches_at, push_all, remove_char, replace, same,
    scan_back_spaces, scan_spaces, scan_word, slice, split_on, starts_with, to_ascii_upper,
    to_chars, to_text, trim, trim_end, trim_start, words,
};

fn cs(s: &str) -> Vec<char> {
    s.chars().collect()
}

fn all(parts: &[&str]) -> Vec<Vec<char>> {
    parts.iter().map(|p| cs(p)).collect()
}

#[test]
fn chars_and_text_convert_both_ways() {
    assert_eq!(to_chars("aé\u{4e2d}"), vec!['a', 'é', '\u{4e2d}']);
    assert_eq!(to_chars(""), Vec::<char>::new());
    assert_eq!(to_text(&vec!['a', 'é', '\u{4e2d}']), "aé\u{4e2d}");
    assert_eq!(to_text(&vec![]), "");
}

#[test]
fn whitespace_follows_unicode() {
    for c in [' ', '\t', '\n', '\u{b}', '\u{c}', '\r', '\u{85}', '\u{a0}', '\u{1680}', '\u{2000}',
        '\u{200a}', '\u{2028}', '\u{2029}', '\u{202f}', '\u{205f}', '\u{3000}']
    {
        assert!(is_space_char(c), "{:?}", c);
    }
    for c in ['a', '0', '\u{8}', '\u{e}', '\u{200b}', '\u{feff}', '\u{1f}'] {
        assert!(!is_space_char(c), "{:?}", c);
    }
    for n in 0..0x3100u32 {
        if let Some(c) = char::from_u32(n) {
            assert_eq!(is_space_char(c), c.is_whitespace(), "{:x}", n);
        }
    }
}

#[test]
fn trimming_drops_whitespace_at_the_ends() {
    assert_eq!(trim(&cs("  a b \t")), cs("a b"));
    assert_eq!(trim_start(&cs("  a b \t")), cs("a b \t"));
    assert_eq!(trim_end(&cs("  a b \t")), cs("  a b"));
    assert_eq!(trim(&cs(" \n ")), cs(""));
    assert_eq!(trim(&cs("")), cs(""));
    assert_eq!(trim(&cs("x")), cs("x"));
    assert_eq!(trim(&cs("\u{3000}é\u{a0}")), cs("é"));
}

#[test]
fn scanning_finds_boundaries() {
    let v = cs("  ab  c ");
    assert_eq!(scan_spaces(&v, 0), 2);
    assert_eq!(scan_spaces(&v, 2), 2);
    assert_eq!(scan_spaces(&v, 7), 8);
    assert_eq!(scan_spaces(&v, 8), 8);
    assert_eq!(scan_word(&v, 2), 4);
    assert_eq!(scan_word(&v, 0), 0);
    assert_eq!(scan_word(&v, 6), 7);
    assert_eq!(scan_back_spaces(&v, 8), 7);
    assert_eq!(scan_back_spaces(&v, 6), 4);
    assert_eq!(scan_back_spaces(&v, 2), 0);
    assert_eq!(scan_back_spaces(&v, 0), 0);
}

#[test]
fn finding_gives_first_position_or_length() {
    let v = cs("a{b{c");
    assert_eq!(find(&v, '{'), 1);
    assert_eq!(find(&v, 'a'), 0);
    assert_eq!(find(&v, 'z'), 5);
    assert_eq!(find_from(&v, '{', 2), 3);
    assert_eq!(find_from(&v, '{', 4), 5);
    assert_eq!(find_from(&v, '{', 5), 5);
    assert!(has_char(&v, 'c'));
    assert!(!has_char(&v, 'd'));
    assert!(!has_char(&cs(""), 'd'));
}

#[test]
fn slices_and_appends() {
    let v = cs("hello");
    assert_eq!(slice(&v, 1, 3), cs("el"));
    assert_eq!(slice(&v, 0, 5), cs("hello"));
    assert_eq!(slice(&v, 2, 2), cs(""));
    let mut out = cs("ab");
    push_all(&mut out, &cs("cd"));
    assert_eq!(out, cs("abcd"));
    push_all(&mut out, &cs(""));
    assert_eq!(out, cs("abcd"));
}

#[test]
fn patterns_match_at_positions() {
    let v = cs("int f();");
    assert!(matches_at(&v, &cs(");"), 6));
    assert!(!matches_at(&v, &cs(");"), 5));
    assert!(!matches_at(&v, &cs(");"), 7));
    assert!(!matches_at(&v, &cs(");"), usize::MAX));
    assert!(matches_at(&v, &cs(""), 8));
    assert!(!matches_at(&v, &cs(""), 9));
    assert!(starts_with(&v, "int"));
    assert!(starts_with(&v, ""));
    assert!(!starts_with(&v, "in f"));
    assert!(!starts_with(&cs("in"), "int"));
    assert!(ends_with(&v, ");"));
    assert!(ends_with(&v, ""));
    assert!(!ends_with(&v, ")"));
    assert!(!ends_with(&cs(";"), ");"));
    assert!(contains(&v, "f("));
    assert!(contains(&v, ""));
    assert!(contains(&v, "int f();"));
    assert!(!contains(&v, "int f();;"));
    assert!(!contains(&v, "g("));
    assert!(contains(&cs(""), ""));
}

#[test]
fn splitting_keeps_empty_pieces() {
    assert_eq!(split_on(&cs("a;b;c"), ';'), all(&["a", "b", "c"]));
    assert_eq!(split_on(&cs("a;;c;"), ';'), all(&["a", "", "c", ""]));
    assert_eq!(split_on(&cs(";"), ';'), all(&["", ""]));
    assert_eq!(split_on(&cs("abc"), ';'), all(&["abc"]));
    assert_eq!(split_on(&cs(""), ';'), all(&[""]));
}

#[test]
fn words_are_runs_without_whitespace() {
    assert_eq!(words(&cs("int x")), all(&["int", "x"]));
    assert_eq!(words(&cs("  unsigned \t int\n x  ")), all(&["unsigned", "int", "x"]));
    assert_eq!(words(&cs("x")), all(&["x"]));
    assert_eq!(words(&cs("   ")), all(&[]));
    assert_eq!(words(&cs("")), all(&[]));
}

#[test]
fn characters_are_removed_and_exchanged() {
    assert_eq!(remove_char(&cs("\"foo.h\""), '"'), cs("foo.h"));
    assert_eq!(remove_char(&cs("a\"b"), '"'), cs("ab"));
    assert_eq!(remove_char(&cs("\"\""), '"'), cs(""));
    assert_eq!(remove_char(&cs("abc"), '"'), cs("abc"));
    assert_eq!(exchange(&cs("a b  c"), ' ', '-'), cs("a-b--c"));
    assert_eq!(exchange(&cs(""), ' ', '-'), cs(""));
}

#[test]
fn replacing_goes_left_to_right() {
    assert_eq!(replace(&cs("foo.h"), ".h", ".md"), cs("foo.md"));
    assert_eq!(replace(&cs("a.h.h"), ".h", ".md"), cs("a.md.md"));
    assert_eq!(replace(&cs("a.hpp"), ".h", ".md"), cs("a.mdpp"));
    assert_eq!(replace(&cs("aaa"), "aa", "b"), cs("ba"));
    assert_eq!(replace(&cs("abc"), "", "x"), cs("abc"));
    assert_eq!(replace(&cs("abc"), "abcd", "x"), cs("abc"));
    assert_eq!(replace(&cs(""), "a", "x"), cs(""));
}

#[test]
fn capitalizing_touches_ascii_letters_only() {
    assert_eq!(to_ascii_upper('a'), 'A');
    assert_eq!(to_ascii_upper('z'), 'Z');
    assert_eq!(to_ascii_upper('A'), 'A');
    assert_eq!(to_ascii_upper('é'), 'é');
    assert_eq!(to_ascii_upper('{'), '{');
    assert_eq!(to_ascii_upper('`'), '`');
    assert_eq!(capitalize(&cs("foo.h")), cs("Foo.h"));
    assert_eq!(capitalize(&cs("élan")), cs("élan"));
    assert_eq!(capitalize(&cs("")), cs(""));
    assert_eq!(capitalize(&cs("9a")), cs("9a"));
}

#[test]
fn decimal_notation() {
    assert_eq!(decimal_text(0), "0");
    assert_eq!(decimal_text(7), "7");
    assert_eq!(decimal_text(10), "10");
    assert_eq!(decimal_text(12345), "12345");
    assert_eq!(decimal_text(usize::MAX), usize::MAX.to_string());
    assert_eq!(decimal_chars(909), cs("909"));
}

#[test]
fn joining_puts_separator_between() {
    let parts = vec!["a".to_string(), "".to_string(), "c".to_string()];
    assert_eq!(join(&parts, ", "), "a, , c");
    assert_eq!(join(&vec!["a".to_string()], ", "), "a");
    assert_eq!(join(&vec![], ", "), "");
    assert_eq!(join(&parts, ""), "ac");
}

#[test]
fn same_compares_characters() {
    assert!(same(&cs("abc"), &cs("abc")));
    assert!(same(&cs(""), &cs("")));
    assert!(!same(&cs("abc"), &cs("abd")));
    assert!(!same(&cs("abc"), &cs("ab")));
}
