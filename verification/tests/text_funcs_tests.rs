use clin::text_funcs::{
    contains_text, join_text, lower_text, replace_text, split_text, title_text, upper_text,
};

fn strings(v: &[&str]) -> Vec<String> {
    v.iter().map(|s| s.to_string()).collect()
}

#[test]
fn string_functions_on_words() {
    assert!(contains_text("hello world", "world"));
    assert_eq!(replace_text("foo-bar", "foo", "baz"), "baz-bar");
    assert_eq!(lower_text("HELLO"), "hello");
    assert_eq!(upper_text("hello"), "HELLO");
    assert_eq!(title_text("hello world"), "Hello World");
}

#[test]
fn split_then_join_with_another_separator() {
    let parts = split_text("a,b,c", ",");
    assert_eq!(parts.len(), 3);
    assert_eq!(join_text(&parts, Some("-")), "a-b-c");
}

#[test]
fn contains_edge_cases() {
    assert!(contains_text("abc", ""));
    assert!(contains_text("", ""));
    assert!(!contains_text("", "a"));
    assert!(!contains_text("ab", "abc"));
    assert!(contains_text("abcabd", "abd"));
    assert!(!contains_text("hello", "world"));
}

#[test]
fn replace_takes_leftmost_non_overlapping_matches() {
    assert_eq!(replace_text("aaa", "aa", "b"), "ba");
    assert_eq!(replace_text("abc", "x", "y"), "abc");
    assert_eq!(replace_text("abc", "", "-"), "-a-b-c-");
    assert_eq!(replace_text("", "", "-"), "-");
    assert_eq!(replace_text("a.b.c", ".", ""), "abc");
}

#[test]
fn split_keeps_empty_parts() {
    assert_eq!(split_text("a,,b,", ","), strings(&["a", "", "b", ""]));
    assert_eq!(split_text("", ","), strings(&[""]));
    assert_eq!(split_text("aaa", "aa"), strings(&["", "a"]));
    assert_eq!(split_text("abc", "abcd"), strings(&["abc"]));
    assert_eq!(split_text("a::b", "::"), strings(&["a", "b"]));
}

#[test]
fn split_on_empty_separator_cuts_every_character() {
    assert_eq!(split_text("ab", ""), strings(&["", "a", "b", ""]));
    assert_eq!(split_text("", ""), strings(&["", ""]));
    let std_parts: Vec<String> = "héllo".split("").map(|p| p.to_string()).collect();
    assert_eq!(split_text("héllo", ""), std_parts);
}

#[test]
fn join_defaults_to_comma_space() {
    let parts = strings(&["x", "y", "z"]);
    assert_eq!(join_text(&parts, None), "x, y, z");
    assert_eq!(join_text(&strings(&[]), Some("-")), "");
    assert_eq!(join_text(&strings(&["one"]), Some("-")), "one");
}

#[test]
fn title_collapses_white_space_and_capitalizes_each_word() {
    assert_eq!(title_text("  many   spaced\twords \n"), "Many Spaced Words");
    assert_eq!(title_text(""), "");
    assert_eq!(title_text("élan vital"), "Élan Vital");
    assert_eq!(title_text("already Upper"), "Already Upper");
    assert_eq!(title_text("ßtraße"), "SStraße");
}

#[test]
fn case_functions_beyond_ascii() {
    assert_eq!(upper_text("straße"), "STRASSE");
    assert_eq!(lower_text("ÀÉÎ"), "àéî");
}

#[test]
fn split_then_join_with_the_same_separator_gives_the_text_back() {
    for (s, sep) in [("a,,b,", ","), ("aaa", "aa"), ("", ","), ("héllo", ""), ("x::y", "::")] {
        assert_eq!(join_text(&split_text(s, sep), Some(sep)), s);
    }
}
