use clin::console::{bold, dim, error, green, hint, info, path, red, section, section_padding_of, success, warning};

#[test]
fn plain_messages_when_styling_is_off() {
    assert_eq!(success("done", false), "✓ done");
    assert_eq!(error("bad", false), "✗ bad");
    assert_eq!(warning("hm", false), "! hm");
    assert_eq!(info("fyi", false), "• fyi");
    assert_eq!(hint("run it", false), "  → run it");
    assert_eq!(path("/tmp/x", false), "/tmp/x");
    assert_eq!(bold("b", false), "b");
}

#[test]
fn styled_messages_wrap_the_mark_in_escapes() {
    let s = success("done", true);
    assert!(s.starts_with('\u{1b}'));
    assert!(s.contains("✓"));
    assert!(s.ends_with(" done"));
    assert_ne!(s, "✓ done");
    let b = bold("b", true);
    assert!(b.contains('b') && b.len() > 1);
}

#[test]
fn section_pads_to_fifty_bytes() {
    let s = section("Notes", false);
    assert_eq!(s, format!("─ Notes {}", "─".repeat(42)));
    assert_eq!(section_padding_of("Notes"), 42);
    // Title length counts bytes: "é" is two.
    assert_eq!(section_padding_of("é"), 45);
    let long = "x".repeat(60);
    assert_eq!(section(&long, false), format!("─ {long} "));
    assert_eq!(section_padding_of(&"y".repeat(47)), 0);
    assert_eq!(section_padding_of(&"y".repeat(46)), 1);
}

#[test]
fn styled_text_takes_one_of_the_crossterm_forms() {
    let g = green("x", true);
    assert!(g == "\u{1b}[38;5;10mx\u{1b}[39m" || g == "\u{1b}[mx\u{1b}[m", "{:?}", g);
    let d = dim("y", true);
    assert!(d == "\u{1b}[38;5;8my\u{1b}[39m" || d == "\u{1b}[my\u{1b}[m", "{:?}", d);
    assert_eq!(bold("b", true), "\u{1b}[1mb\u{1b}[0m");
    assert_eq!(red("r", false), "r");
}
