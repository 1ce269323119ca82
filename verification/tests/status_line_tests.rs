use clin::status_line::{expand_border_title, expand_status, replace_all};

#[test]
fn replace_all_matches_str_replace() {
    for (s, p, t) in [
        ("a-b-c", "-", "+"),
        ("aaaa", "aa", "b"),
        ("{x}{x}", "{x}", "1"),
        ("no match", "zz", "q"),
        ("", "a", "b"),
        ("ééx", "é", "e"),
    ] {
        assert_eq!(replace_all(s, p, t), s.replace(p, t), "{s} {p} {t}");
    }
}

#[test]
fn default_status_line() {
    assert_eq!(
        expand_status(None, 12, 3, None, "2024-01-02", "10:00:00", "50%", "1.0x"),
        "Files: 12 | Links: 3 | Selected: none"
    );
    assert_eq!(
        expand_status(None, 0, 0, Some("Note A"), "", "", "", ""),
        "Files: 0 | Links: 0 | Selected: Note A"
    );
}

#[test]
fn custom_status_line() {
    let fmt = "{date} {time} | {files}/{links} | {size} @ {ratio} | {selected} | {files}";
    assert_eq!(
        expand_status(Some(fmt), 7, 9, Some("x"), "2024-01-02", "10:11:12", "42%", "1.5x"),
        "2024-01-02 10:11:12 | 7/9 | 42% @ 1.5x | x | 7"
    );
}

#[test]
fn border_title_names_the_working_directory() {
    assert_eq!(expand_border_title("graf — {cwd}", "notes"), "graf — notes");
    assert_eq!(expand_border_title("graf", "notes"), "graf");
}
