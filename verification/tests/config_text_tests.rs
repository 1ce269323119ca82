use clin::config_text::{config_faults_of_text, migrate_config_text, parse_config_text, read_checked_settings};
use clin::migrate::ConfigValue;
use clin::config_types::NotesSection;

fn keys(es: &[(String, ConfigValue)]) -> Vec<String> {
    es.iter().map(|(k, _)| k.clone()).collect()
}

#[test]
fn parsing_reads_tables_and_keeps_leaves_by_path() {
    let es = parse_config_text("a = 1\n[b]\nc = \"x\"\n[b.d]\ne = true\n").unwrap();
    assert_eq!(keys(&es), vec!["a", "b"]);
    match &es[0].1 {
        ConfigValue::Leaf(p) => assert_eq!(p, &vec!["a".to_string()]),
        _ => panic!("a is a leaf"),
    }
    match &es[1].1 {
        ConfigValue::Table(inner) => {
            assert_eq!(keys(inner), vec!["c", "d"]);
            match &inner[1].1 {
                ConfigValue::Table(d) => match &d[0].1 {
                    ConfigValue::Leaf(p) => assert_eq!(p, &vec!["b".to_string(), "d".to_string(), "e".to_string()]),
                    _ => panic!("e is a leaf"),
                },
                _ => panic!("d is a table"),
            }
        }
        _ => panic!("b is a table"),
    }
}

#[test]
fn text_that_is_not_toml_is_refused() {
    assert!(parse_config_text("a = = 1").is_err());
    let e = migrate_config_text("[unclosed").unwrap_err();
    assert!(e.starts_with("failed to parse config for migration: "));
}

#[test]
fn a_current_config_is_left_alone() {
    assert_eq!(migrate_config_text("[core]\nstorage_path = \"/n\"\n").unwrap(), None);
    assert_eq!(migrate_config_text("").unwrap(), None);
}

#[test]
fn legacy_keys_move_into_their_tables() {
    let old = "storage_path = \"/notes\"\nexternal_editor = \"vim\"\nlist_density = \"compact\"\n\
               [visual]\nnotes_layout = \"tree\"\nnode_size = 2.5\n\
               [theme]\naccent = \"#ff0000\"\n";
    let new = migrate_config_text(old).unwrap().expect("keys moved");
    let t: toml::Table = toml::from_str(&new).unwrap();
    assert_eq!(t["core"]["storage_path"].as_str(), Some("/notes"));
    assert_eq!(t["editor"]["external_command"].as_str(), Some("vim"));
    assert_eq!(t["list"]["density"].as_str(), Some("compact"));
    assert_eq!(t["list"]["default_view"].as_str(), Some("tree"));
    assert_eq!(t["graf"]["visual"]["node_size"].as_float(), Some(2.5));
    assert_eq!(t["ui"]["accent"].as_str(), Some("#ff0000"));
    for k in ["storage_path", "external_editor", "list_density", "visual", "theme", "default_view"] {
        assert!(!t.contains_key(k), "{k} left at the top level");
    }
    // Migrating again changes nothing.
    assert_eq!(migrate_config_text(&new).unwrap(), None);
}

#[test]
fn checked_settings_take_their_defaults() {
    let s = read_checked_settings("").unwrap();
    assert_eq!(s.theme, "default");
    assert_eq!(s.label_max_length, 20);
    assert_eq!(s.edge_thickness, 1);
    assert_eq!(s.sections, vec![NotesSection::Calendar, NotesSection::Goals]);
    assert_eq!(config_faults_of_text("", None).unwrap(), Vec::<String>::new());
}

#[test]
fn checked_settings_are_read_from_their_tables() {
    let text = "[ui]\ntheme = \"nord\"\n[graf.visual]\nlabel_max_length = 99\nedge_thickness = 7\n\
                [list]\nsections = [\"graf\", \"draw\", \"graf\"]\n";
    let s = read_checked_settings(text).unwrap();
    assert_eq!(s.theme, "nord");
    assert_eq!(s.label_max_length, 99);
    assert_eq!(s.edge_thickness, 7);
    assert_eq!(s.sections, vec![NotesSection::Graf, NotesSection::Draw, NotesSection::Graf]);
    let faults = config_faults_of_text(text, Some("graf.visual.node_size must be 1.0-5.0, got 9".to_string())).unwrap();
    assert!(faults.contains(&"graf.visual.label_max_length must be 1-60, got 99".to_string()));
    assert!(faults.contains(&"graf.visual.node_size must be 1.0-5.0, got 9".to_string()));
    assert!(faults.contains(&"graf.visual.edge_thickness must be 1-3, got 7".to_string()));
    assert!(faults.contains(&"list.sections has 3 entries, max is 2".to_string()));
}

#[test]
fn unreadable_settings_are_refused() {
    assert!(read_checked_settings("[graf.visual]\nlabel_max_length = -1\n").is_err());
    assert!(read_checked_settings("[graf.visual]\nedge_thickness = 70000\n").is_err());
    assert!(read_checked_settings("[graf]\nvisual = 3\n").is_err());
    assert!(read_checked_settings("[list]\nsections = [\"notes\"]\n").is_err());
    assert!(read_checked_settings("[list]\nsections = [\"Calendar\"]\n").is_err());
    assert!(read_checked_settings("[ui]\ntheme = 5\n").is_err());
    assert!(read_checked_settings("not toml [").is_err());
    assert!(config_faults_of_text("[list]\nsections = \"graf\"\n", None).is_err());
}
