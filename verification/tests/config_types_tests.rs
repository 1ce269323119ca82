use clin::config_types::{Background, HintBarStyle, KeybindPreset, LabelMode, NotesSection, Theme};

#[test]
fn new_themes_round_trip() {
    let cases = [
        ("catppuccin_frappe", Theme::CatppuccinFrappe),
        ("catppuccin_macchiato", Theme::CatppuccinMacchiato),
        ("rose_pine_moon", Theme::RosePineMoon),
        ("gruvbox_material", Theme::GruvboxMaterial),
        ("github_dark", Theme::GithubDark),
        ("ayu_mirage", Theme::AyuMirage),
        ("synthwave", Theme::Synthwave),
        ("material", Theme::Material),
    ];
    for (s, variant) in cases {
        assert_eq!(Theme::from_str(s).unwrap(), variant, "parse {s}");
        assert_eq!(variant.to_string(), s, "display {s}");
    }
    // Concatenated aliases parse to the same variant.
    assert_eq!(Theme::from_str("githubdark").unwrap(), Theme::GithubDark);
    assert_eq!(Theme::from_str("synthwave84").unwrap(), Theme::Synthwave);
    assert_eq!(Theme::from_str("material_theme").unwrap(), Theme::Material);
}

#[test]
fn unknown_theme_still_errors() {
    assert!(Theme::from_str("not_a_theme").is_err());
}

#[test]
fn hint_bar_style_round_trip() {
    for s in HintBarStyle::ALL {
        assert_eq!(HintBarStyle::from_index(s.index()), s, "from_index roundtrip for {:?}", s);
    }
    // Names must be unique.
    let mut names: Vec<&str> = HintBarStyle::ALL.iter().map(|s| s.name()).collect();
    names.sort();
    names.dedup();
    assert_eq!(names.len(), HintBarStyle::ALL.len(), "name() values not unique");
    // Config strings must be unique.
    let mut cfg: Vec<&str> = HintBarStyle::ALL.iter().map(|s| s.as_config_str()).collect();
    cfg.sort();
    cfg.dedup();
    assert_eq!(cfg.len(), HintBarStyle::ALL.len(), "as_config_str() values not unique");
}

#[test]
fn theme_parse_ignores_case_and_quotes_unknown_names() {
    assert_eq!(Theme::from_str("GRUVBOX").unwrap(), Theme::Gruvbox);
    assert_eq!(Theme::from_str("nope").unwrap_err(), "Unknown theme: nope");
}

#[test]
fn hint_bar_index_past_end_is_classic() {
    assert_eq!(HintBarStyle::from_index(8), HintBarStyle::Classic);
    assert_eq!(HintBarStyle::from_index(usize::MAX), HintBarStyle::Classic);
}

#[test]
fn enum_texts_round_trip() {
    for b in [Background::Transparent, Background::Solid] {
        assert_eq!(Background::from_str(&b.to_string()).unwrap(), b);
    }
    for k in [KeybindPreset::Default, KeybindPreset::Helix, KeybindPreset::Vim, KeybindPreset::Emacs] {
        assert_eq!(KeybindPreset::from_str(&k.to_string()).unwrap(), k);
    }
    for s in [NotesSection::Calendar, NotesSection::Goals, NotesSection::Draw, NotesSection::Graf] {
        assert_eq!(NotesSection::from_str(&s.to_string()).unwrap(), s);
    }
    assert_eq!(
        NotesSection::from_str("Weather").unwrap_err(),
        "Unknown section: Weather. Expected calendar, goals, draw, or graf."
    );
    assert_eq!(LabelMode::from_str("none").unwrap(), LabelMode::Off);
}

#[test]
fn theme_names_read_back_in_capitals() {
    for t in [Theme::GithubDark, Theme::CatppuccinFrappe, Theme::RosePineMoon, Theme::Default] {
        let upper = t.to_string().to_uppercase();
        assert_eq!(Theme::from_str(&upper).unwrap(), t);
    }
    assert_eq!(Theme::from_str("GitHub_Dark").unwrap(), Theme::GithubDark);
}
