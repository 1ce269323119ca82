use clin::config_types::Theme;
use clin::themes::{
    custom_themes_dir, resolve_theme, theme_file_stem, theme_names, CustomThemeFile, ResolvedTheme,
};

#[test]
fn custom_theme_resolve_and_list() {
    // === resolve_custom_first ===
    let mut foo = CustomThemeFile::default();
    foo.chrome.accent = "#ff0000".to_string();
    match resolve_theme("foo", Some(foo)) {
        ResolvedTheme::Custom(c) => assert_eq!(c.chrome.accent, "#ff0000"),
        ResolvedTheme::Builtin(t) => panic!("expected Custom, got {t:?}"),
    }

    // === resolve_builtin_fallback ===
    match resolve_theme("gruvbox", None) {
        ResolvedTheme::Builtin(Theme::Gruvbox) => {}
        _ => panic!("expected Builtin(Gruvbox)"),
    }

    // === resolve_unknown_to_default ===
    match resolve_theme("nope", None) {
        ResolvedTheme::Builtin(Theme::Default) => {}
        _ => panic!("expected Builtin(Default)"),
    }

    // === list_custom_themes_sorted ===
    let files: Vec<String> = ["z_last.toml", "foo.toml", "ignore.txt", "a_first.toml"]
        .iter()
        .map(|s| s.to_string())
        .collect();
    assert_eq!(theme_names(&files), vec!["a_first", "foo", "z_last"]);
}

#[test]
fn theme_file_names_are_checked() {
    assert_eq!(theme_file_stem("my_theme2.toml"), Some("my_theme2".to_string()));
    assert_eq!(theme_file_stem(".toml"), None);
    assert_eq!(theme_file_stem("a.b.toml"), None);
    assert_eq!(theme_file_stem("bad-name.toml"), None);
    assert_eq!(theme_file_stem("théme.toml"), None);
    assert_eq!(theme_file_stem("notes.txt"), None);
}

#[test]
fn theme_names_sort_by_character_order() {
    let files: Vec<String> = ["b.toml", "B.toml", "a_b.toml", "a.toml", "ab.toml", "a.toml"]
        .iter()
        .map(|s| s.to_string())
        .collect();
    assert_eq!(theme_names(&files), vec!["B", "a", "a", "a_b", "ab", "b"]);
    assert!(theme_names(&Vec::new()).is_empty());
}

#[test]
fn themes_live_beside_the_config_file() {
    assert_eq!(
        custom_themes_dir("/home/u/.config/clin/config.toml").unwrap(),
        "/home/u/.config/clin/themes"
    );
    assert_eq!(custom_themes_dir("/").unwrap_err(), "config path has no parent");
}
