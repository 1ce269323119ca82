use clin::redact::{redact_config_value, JsonValue};

fn obj(entries: Vec<(&str, JsonValue)>) -> JsonValue {
    JsonValue::Object(entries.into_iter().map(|(k, v)| (k.to_string(), v)).collect())
}

fn text(s: &str) -> JsonValue {
    JsonValue::Text(s.to_string())
}

fn get<'a>(v: &'a JsonValue, key: &str) -> &'a JsonValue {
    match v {
        JsonValue::Object(es) => &es.iter().find(|(k, _)| k == key).expect("key").1,
        _ => panic!("not an object"),
    }
}

fn as_text(v: &JsonValue) -> &str {
    match v {
        JsonValue::Text(s) => s,
        _ => panic!("not text"),
    }
}

#[test]
fn sensitive_config_values_are_redacted() {
    let config = obj(vec![
        (
            "core",
            obj(vec![
                ("storage_path", text("/home/me/notes")),
                ("default_folder", text("inbox")),
                ("mouse_enabled", JsonValue::Bool(true)),
            ]),
        ),
        ("backup", obj(vec![("remote_url", text("git@x:y")), ("remote_name", JsonValue::Null)])),
        ("editor", obj(vec![("external_command", text("vim")), ("soft_wrap", JsonValue::Bool(false))])),
        ("ui", obj(vec![("theme", text("default"))])),
    ]);
    let r = redact_config_value(&config, "");
    let core = get(&r, "core");
    assert_eq!(as_text(get(core, "storage_path")), "***redacted***");
    assert_eq!(as_text(get(core, "default_folder")), "***redacted***");
    assert!(matches!(get(core, "mouse_enabled"), JsonValue::Bool(true)));
    let backup = get(&r, "backup");
    assert_eq!(as_text(get(backup, "remote_url")), "***redacted***");
    assert_eq!(as_text(get(backup, "remote_name")), "***redacted***");
    assert_eq!(as_text(get(get(&r, "editor"), "external_command")), "***redacted***");
    assert_eq!(as_text(get(get(&r, "ui"), "theme")), "default");
}

#[test]
fn paths_inside_arrays_are_not_sensitive() {
    // `core` inside an array has the path `[0].core...`, which is not a
    // sensitive path.
    let v = JsonValue::Array(vec![obj(vec![("core", obj(vec![("storage_path", text("/x"))]))])]);
    let r = redact_config_value(&v, "");
    match &r {
        JsonValue::Array(items) => {
            assert_eq!(as_text(get(get(&items[0], "core"), "storage_path")), "/x");
        }
        _ => panic!("not an array"),
    }
    // A nested path given from outside is honoured.
    let r = redact_config_value(&obj(vec![("storage_path", text("/y"))]), "core");
    assert_eq!(as_text(get(&r, "storage_path")), "***redacted***");
}

#[test]
fn scalars_pass_through() {
    match redact_config_value(&JsonValue::Number("1.5".to_string()), "core.storage_path") {
        JsonValue::Number(n) => assert_eq!(n, "1.5"),
        _ => panic!("changed"),
    }
}
