use clin::paths::{expand_path_with, parse_var, utf8_len_leading_byte};

fn env(pairs: &[(&str, &str)]) -> Vec<(String, String)> {
    pairs.iter().map(|(k, v)| (k.to_string(), v.to_string())).collect()
}

#[test]
fn test_expand_path_tilde() {
    let home = "/home/tester";
    let s = expand_path_with("~/foo", Some(home), &env(&[("HOME", home)]));
    assert!(s.starts_with(home), "expected {s} to start with {home}");
    assert!(s.ends_with("/foo"), "expected {s} to end with /foo");
}

#[test]
fn test_expand_path_dollar_home() {
    let home = "/home/tester";
    let s = expand_path_with("$HOME/foo", Some(home), &env(&[("HOME", home)]));
    assert!(s.starts_with(home), "expected {s} to start with {home}");
    assert!(s.ends_with("/foo"), "expected {s} to end with /foo");
}

#[test]
fn test_expand_path_braced_home() {
    let home = "/home/tester";
    let s = expand_path_with("${HOME}/foo", Some(home), &env(&[("HOME", home)]));
    assert!(s.starts_with(home), "expected {s} to start with {home}");
    assert!(s.ends_with("/foo"), "expected {s} to end with /foo");
}

#[test]
fn test_expand_path_plain_absolute() {
    let result = expand_path_with("/usr/local/foo", Some("/home/tester"), &Vec::new());
    assert_eq!(result, "/usr/local/foo");
}

#[test]
fn test_expand_path_unresolved_var() {
    let name = "__CLIN_TEST_UNRESOLVED_XYZ";
    let result = expand_path_with(&format!("${name}/foo"), None, &Vec::new());
    assert_eq!(result, format!("${name}/foo"));
}

#[test]
fn test_expand_path_unresolved_braced_var() {
    let name = "__CLIN_TEST_UNSET_YET";
    let result = expand_path_with(&format!("${{{name}}}/x"), None, &Vec::new());
    assert_eq!(result, format!("${{{name}}}/x"));
}

#[test]
fn expansion_keeps_non_ascii_and_lone_dollars() {
    let e = env(&[("A", "α")]);
    assert_eq!(expand_path_with("é/$A/ü$", None, &e), "é/α/ü$");
    assert_eq!(expand_path_with("${A", None, &e), "${A");
    assert_eq!(expand_path_with("~x", None, &e), "~x");
    assert_eq!(expand_path_with("a~", Some("/h"), &e), "a~");
}

#[test]
fn variable_references_parse() {
    assert_eq!(parse_var("$HOME/x"), ("HOME".to_string(), 5, false));
    assert_eq!(parse_var("${A_B}c"), ("A_B".to_string(), 6, true));
    assert_eq!(parse_var("${oops"), (String::new(), 0, false));
    assert_eq!(parse_var("$"), (String::new(), 0, false));
    assert_eq!(parse_var("x"), (String::new(), 0, false));
}

#[test]
fn utf8_lead_bytes() {
    assert_eq!(utf8_len_leading_byte(b'a'), 1);
    assert_eq!(utf8_len_leading_byte(0xC3), 2);
    assert_eq!(utf8_len_leading_byte(0xE2), 3);
    assert_eq!(utf8_len_leading_byte(0xF0), 4);
    assert_eq!(utf8_len_leading_byte(0x80), 1);
}

#[test]
fn parse_var_counts_bytes() {
    assert_eq!(parse_var("${é}/x"), ("é".to_string(), 5, true));
    assert_eq!(parse_var("$é"), (String::new(), 1, false));
    assert_eq!(parse_var("${日本}"), ("日本".to_string(), 9, true));
}

#[test]
fn unknown_variables_are_left_as_written() {
    let env = vec![("HOME".to_string(), "/h".to_string())];
    assert_eq!(expand_path_with("$NOPE/${ALSO_NOT}/x", None, &env), "$NOPE/${ALSO_NOT}/x");
    assert_eq!(expand_path_with("${open", None, &env), "${open");
}
