use clin::migrate::{migrate_config, table_has, table_insert, table_remove, ConfigValue, Entries};

fn table(entries: Vec<(&str, ConfigValue)>) -> ConfigValue {
    ConfigValue::Table(entries.into_iter().map(|(k, v)| (k.to_string(), v)).collect())
}

fn root(entries: Vec<(&str, ConfigValue)>) -> Entries {
    entries.into_iter().map(|(k, v)| (k.to_string(), v)).collect()
}

fn get<'a>(t: &'a Entries, key: &str) -> Option<&'a ConfigValue> {
    t.iter().rev().find(|(k, _)| k == key).map(|(_, v)| v)
}

fn sub<'a>(t: &'a Entries, key: &str) -> &'a Entries {
    match get(t, key) {
        Some(ConfigValue::Table(es)) => es,
        _ => panic!("{} is not a table", key),
    }
}

fn leaf(t: &Entries, key: &str) -> Option<u64> {
    match get(t, key) {
        Some(ConfigValue::Leaf(p)) => Some(p[0].parse().unwrap()),
        Some(ConfigValue::Table(_)) => panic!("{} is a table", key),
        None => None,
    }
}

fn legacy_file() -> Entries {
    root(vec![
        ("storage_path", ConfigValue::Leaf(vec!["1".to_string()])),
        ("theme", table(vec![("accent", ConfigValue::Leaf(vec!["2".to_string()]))])),
        ("display", table(vec![("accent", ConfigValue::Leaf(vec!["3".to_string()])), ("border", ConfigValue::Leaf(vec!["4".to_string()]))])),
        ("visual", table(vec![("notes_layout", ConfigValue::Leaf(vec!["5".to_string()])), ("node_size", ConfigValue::Leaf(vec!["6".to_string()]))])),
        ("external_editor", ConfigValue::Leaf(vec!["7".to_string()])),
        ("list_density", ConfigValue::Leaf(vec!["8".to_string()])),
        ("search", ConfigValue::Leaf(vec!["9".to_string()])),
        ("graph_preview_enabled", ConfigValue::Leaf(vec!["10".to_string()])),
    ])
}

#[test]
fn migrate_moves_legacy_keys_into_namespaces() {
    let mut cfg = legacy_file();
    assert!(migrate_config(&mut cfg));

    for key in [
        "storage_path",
        "theme",
        "display",
        "visual",
        "external_editor",
        "list_density",
        "search",
        "graph_preview_enabled",
        "default_view",
    ] {
        assert!(get(&cfg, key).is_none(), "{} left at the top level", key);
    }

    assert_eq!(leaf(sub(&cfg, "core"), "storage_path"), Some(1));
    let ui = sub(&cfg, "ui");
    assert_eq!(leaf(ui, "accent"), Some(3));
    assert_eq!(leaf(ui, "border"), Some(4));
    assert_eq!(leaf(sub(&cfg, "editor"), "external_command"), Some(7));
    let list = sub(&cfg, "list");
    assert_eq!(leaf(list, "density"), Some(8));
    assert_eq!(leaf(list, "default_view"), Some(5));
    let graf = sub(&cfg, "graf");
    assert_eq!(leaf(graf, "search"), Some(9));
    assert_eq!(leaf(graf, "preview_enabled"), Some(10));
    let visual = sub(graf, "visual");
    assert_eq!(leaf(visual, "node_size"), Some(6));
    assert_eq!(leaf(visual, "notes_layout"), None);
}

#[test]
fn migrate_twice_changes_nothing_more() {
    let mut cfg = legacy_file();
    assert!(migrate_config(&mut cfg));
    assert!(!migrate_config(&mut cfg));
}

#[test]
fn migrate_current_file_is_unchanged() {
    let mut cfg = root(vec![
        ("core", table(vec![("storage_path", ConfigValue::Leaf(vec!["1".to_string()]))])),
        ("ui", table(vec![("accent", ConfigValue::Leaf(vec!["2".to_string()]))])),
    ]);
    assert!(!migrate_config(&mut cfg));
    assert_eq!(leaf(sub(&cfg, "core"), "storage_path"), Some(1));
    assert_eq!(leaf(sub(&cfg, "ui"), "accent"), Some(2));
}

#[test]
fn migrate_merges_into_existing_table() {
    let mut cfg = root(vec![
        ("core", table(vec![("storage_path", ConfigValue::Leaf(vec!["1".to_string()])), ("mouse_enabled", ConfigValue::Leaf(vec!["2".to_string()]))])),
        ("storage_path", ConfigValue::Leaf(vec!["3".to_string()])),
    ]);
    assert!(migrate_config(&mut cfg));
    let core = sub(&cfg, "core");
    assert_eq!(leaf(core, "storage_path"), Some(3));
    assert_eq!(leaf(core, "mouse_enabled"), Some(2));
}

#[test]
fn migrate_replaces_core_that_is_not_a_table() {
    let mut cfg = root(vec![("core", ConfigValue::Leaf(vec!["1".to_string()])), ("confirm_on_quit", ConfigValue::Leaf(vec!["2".to_string()]))]);
    assert!(migrate_config(&mut cfg));
    assert_eq!(leaf(sub(&cfg, "core"), "confirm_on_quit"), Some(2));
}

#[test]
fn migrate_keeps_default_view_when_set() {
    let mut cfg = root(vec![
        ("visual", table(vec![("notes_layout", ConfigValue::Leaf(vec!["1".to_string()]))])),
        ("default_view", ConfigValue::Leaf(vec!["2".to_string()])),
    ]);
    assert!(migrate_config(&mut cfg));
    assert_eq!(leaf(sub(&cfg, "list"), "default_view"), Some(2));
    assert_eq!(leaf(sub(sub(&cfg, "graf"), "visual"), "notes_layout"), None);
}

#[test]
fn migrate_empty_theme_counts_as_change() {
    let mut cfg = root(vec![("theme", ConfigValue::Leaf(vec!["1".to_string()]))]);
    assert!(migrate_config(&mut cfg));
    assert!(get(&cfg, "theme").is_none());
    assert!(get(&cfg, "ui").is_none());
}

#[test]
fn table_operations() {
    let mut t = root(vec![("a", ConfigValue::Leaf(vec!["1".to_string()])), ("b", ConfigValue::Leaf(vec!["2".to_string()])), ("a", ConfigValue::Leaf(vec!["3".to_string()]))]);
    assert!(table_has(&t, "a"));
    assert!(!table_has(&t, "c"));
    match table_remove(&mut t, "a") {
        Some(ConfigValue::Leaf(v)) => assert_eq!(v, vec!["3".to_string()]),
        _ => panic!("expected the later value"),
    }
    assert!(!table_has(&t, "a"));
    assert!(table_remove(&mut t, "a").is_none());
    table_insert(&mut t, "b".to_string(), ConfigValue::Leaf(vec!["4".to_string()]));
    assert_eq!(leaf(&t, "b"), Some(4));
    assert_eq!(t.len(), 1);
}

fn leaf_value<'a>(t: &Entries, key: &str, file: &'a toml::Table) -> &'a toml::Value {
    let path = match get(t, key) {
        Some(ConfigValue::Leaf(p)) => p.clone(),
        _ => panic!("{} is not a leaf", key),
    };
    let (last, init) = path.split_last().unwrap();
    let mut table = file;
    for k in init {
        table = table[k.as_str()].as_table().unwrap();
    }
    &table[last.as_str()]
}

#[test]
fn mod_test_migration_logic() {
    let toml_str = r###"
external_editor = "nvim"
preview_position = "left"
mouse_enabled = false
confirm_on_quit = true

[visual]
notes_layout = "tree"

[physics]
ideal_distance = 120.0

[theme]
theme = "tokyo_night"

[display]
show_status_bar = false
"###;
    let leaves: toml::Table = toml::from_str(toml_str).unwrap();
    let mut cfg = clin::config_text::parse_config_text(toml_str).unwrap();
    assert!(migrate_config(&mut cfg));

    let list = sub(&cfg, "list");
    assert_eq!(leaf_value(list, "default_view", &leaves).as_str(), Some("tree"));
    assert_eq!(leaf_value(list, "preview_position", &leaves).as_str(), Some("left"));
    let physics = sub(sub(&cfg, "graf"), "physics");
    assert_eq!(leaf_value(physics, "ideal_distance", &leaves).as_float(), Some(120.0));
    assert_eq!(
        leaf_value(sub(&cfg, "editor"), "external_command", &leaves).as_str(),
        Some("nvim")
    );
    let core = sub(&cfg, "core");
    assert_eq!(leaf_value(core, "mouse_enabled", &leaves).as_bool(), Some(false));
    assert_eq!(leaf_value(core, "confirm_on_quit", &leaves).as_bool(), Some(true));
    let ui = sub(&cfg, "ui");
    let theme = leaf_value(ui, "theme", &leaves).as_str().unwrap();
    assert_eq!(clin::config_types::Theme::from_str(theme), Ok(clin::config_types::Theme::TokyoNight));
    assert_eq!(leaf_value(ui, "show_status_bar", &leaves).as_bool(), Some(false));
}

#[test]
fn config_test_migration_logic() {
    let toml_str = r#"
external_editor = "nvim"
preview_position = "left"

[visual]
notes_layout = "tree"

[physics]
ideal_distance = 120.0
"#;
    let leaves: toml::Table = toml::from_str(toml_str).unwrap();
    let mut cfg = clin::config_text::parse_config_text(toml_str).unwrap();
    assert!(migrate_config(&mut cfg));

    let list = sub(&cfg, "list");
    assert_eq!(leaf_value(list, "default_view", &leaves).as_str(), Some("tree"));
    let physics = sub(sub(&cfg, "graf"), "physics");
    assert_eq!(leaf_value(physics, "ideal_distance", &leaves).as_float(), Some(120.0));
    assert_eq!(
        leaf_value(sub(&cfg, "editor"), "external_command", &leaves).as_str(),
        Some("nvim")
    );
    assert_eq!(leaf_value(list, "preview_position", &leaves).as_str(), Some("left"));
}
