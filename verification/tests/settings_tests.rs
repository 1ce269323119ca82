use clin::config_types::{KeybindPreset, NotesSection};
use clin::defaults::default_sections;
use clin::settings::{
    effective_storage_path, has_custom_storage_path, normalize_sections, validate_config,
    BorderStyle, CoreConfig, DisplayConfig, GoalsConfig, ImageConfig, PathOverrides, SearchConfig,
    UiConfig,
};

#[test]
fn test_sections_default() {
    assert_eq!(default_sections(), vec![NotesSection::Calendar, NotesSection::Goals]);
}

#[test]
fn test_sections_clamp() {
    let mut sections = vec![NotesSection::Calendar, NotesSection::Goals, NotesSection::Draw];
    normalize_sections(&mut sections);
    assert_eq!(sections.len(), 2);
    assert_eq!(sections[0], NotesSection::Calendar);
    assert_eq!(sections[1], NotesSection::Goals);
}

#[test]
fn test_sections_empty_fallback() {
    let mut sections = Vec::new();
    normalize_sections(&mut sections);
    assert_eq!(sections, vec![NotesSection::Calendar, NotesSection::Goals]);
}

#[test]
fn test_sections_duplicates_removed() {
    let mut sections = vec![NotesSection::Draw, NotesSection::Draw, NotesSection::Graf];
    normalize_sections(&mut sections);
    // "draw" kept once, truncated to 2 → [draw, graf]
    assert_eq!(sections.len(), 2);
    assert_eq!(sections[0], NotesSection::Draw);
    assert_eq!(sections[1], NotesSection::Graf);
}

#[test]
fn normalizing_twice_changes_nothing() {
    let mut s = vec![NotesSection::Graf, NotesSection::Graf, NotesSection::Goals, NotesSection::Draw];
    normalize_sections(&mut s);
    let once = s.clone();
    normalize_sections(&mut s);
    assert_eq!(s, once);
    assert_eq!(once, vec![NotesSection::Graf, NotesSection::Goals]);
}

#[test]
fn mod_test_default_config() {
    let core = CoreConfig::default();
    assert!(core.storage_path.is_none());
    assert!(!has_custom_storage_path(&None, &core.storage_path));
}

#[test]
fn config_test_default_config() {
    let core = CoreConfig::default();
    assert!(core.storage_path.is_none());
    assert!(!has_custom_storage_path(&None, &core.storage_path));
}

#[test]
fn mod_test_set_storage_path() {
    let mut core = CoreConfig::default();
    core.set_storage_path("/custom/path".to_string());
    assert!(has_custom_storage_path(&None, &core.storage_path));
    assert_eq!(core.storage_path, Some("/custom/path".to_string()));
}

#[test]
fn config_test_set_storage_path() {
    let mut core = CoreConfig::default();
    core.set_storage_path("/custom/path".to_string());
    assert!(has_custom_storage_path(&None, &core.storage_path));
    assert_eq!(core.storage_path, Some("/custom/path".to_string()));
}

#[test]
fn mod_test_reset_storage_path() {
    let mut core = CoreConfig::default();
    core.set_storage_path("/custom/path".to_string());
    core.reset_storage_path();
    assert!(!has_custom_storage_path(&None, &core.storage_path));
}

#[test]
fn config_test_reset_storage_path() {
    let mut core = CoreConfig::default();
    core.set_storage_path("/custom/path".to_string());
    core.reset_storage_path();
    assert!(!has_custom_storage_path(&None, &core.storage_path));
}

#[test]
fn validation_reports_every_fault_in_order() {
    let errs = validate_config(
        0,
        Some("graf.visual.node_size must be 1.0-5.0, got 9".to_string()),
        4,
        &vec![NotesSection::Draw, NotesSection::Draw, NotesSection::Goals, NotesSection::Draw],
    );
    assert_eq!(
        errs,
        vec![
            "graf.visual.label_max_length must be 1-60, got 0",
            "graf.visual.node_size must be 1.0-5.0, got 9",
            "graf.visual.edge_thickness must be 1-3, got 4",
            "list.sections has 4 entries, max is 2",
            "list.sections contains duplicate: draw",
            "list.sections contains duplicate: draw",
        ]
    );
    assert_eq!(
        validate_config(20, None, 1, &Vec::new()),
        vec!["list.sections is empty, will use defaults"]
    );
    assert!(validate_config(60, None, 3, &vec![NotesSection::Calendar]).is_empty());
}

#[test]
fn storage_path_precedence() {
    let default: Result<String, String> = Ok("/data/clin".to_string());
    assert_eq!(
        effective_storage_path(&Some("/v".to_string()), &Some("/c".to_string()), &default),
        Ok("/v".to_string())
    );
    assert_eq!(effective_storage_path(&None, &Some("/c".to_string()), &default), Ok("/c".to_string()));
    assert_eq!(effective_storage_path(&None, &None, &default), Ok("/data/clin".to_string()));
    let failed: Result<String, String> = Err("no home".to_string());
    assert_eq!(effective_storage_path(&None, &None, &failed), Err("no home".to_string()));
    assert!(has_custom_storage_path(&Some("/v".to_string()), &None));
}

#[test]
fn overrides_are_set_once() {
    let mut o = PathOverrides::new();
    o.set_config_path_override("/a.toml".to_string());
    o.set_config_path_override("/b.toml".to_string());
    o.set_storage_path_override("/vault".to_string());
    assert_eq!(o.config_path.as_deref(), Some("/a.toml"));
    assert_eq!(o.storage_path.as_deref(), Some("/vault"));
}

#[test]
fn defaults_match_the_documented_values() {
    assert_eq!(SearchConfig::default().max_results, 20);
    assert_eq!(GoalsConfig::default().word_goal, 500);
    assert_eq!(ImageConfig::default().attachments_subdir, "attachments");
    assert_eq!(UiConfig::default().theme, "default");
    assert_eq!(DisplayConfig::default().border_title, "graf");
    assert_eq!(CoreConfig::default().code_theme, "base16-ocean.dark");
    assert!(CoreConfig { keybind_preset: KeybindPreset::Vim, ..CoreConfig::default() }.counts_enabled());
    assert!(!CoreConfig::default().counts_enabled());
}

#[test]
fn border_styles_parse() {
    assert_eq!(BorderStyle::from_str("Double"), Ok(BorderStyle::Double));
    assert_eq!(BorderStyle::from_str("none"), Ok(BorderStyle::NoBorder));
    assert_eq!(BorderStyle::from_str("dotted"), Err("Unknown border_style: dotted".to_string()));
    assert_eq!(BorderStyle::default(), BorderStyle::Rounded);
}
