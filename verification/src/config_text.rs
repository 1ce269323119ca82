//! The configuration file as text: reading its tables with the `toml`
//! crate, migrating what an older version wrote, and writing the result
//! back as text. The caller only reads and writes the file.
use vstd::prelude::*;
use crate::migrate::{key_views, migrate_config, migrated, node_view, table_view, ConfigValue, Entries, NodeV};
use crate::config_types::{notes_section_from_chars, notes_section_from_lower, NotesSection};
use crate::defaults::{default_edge_thickness, default_label_max, default_sections, default_theme};
use crate::settings::{config_faults, opt_string_view, validate_config};
use crate::text::{chars_of, string_of};

verus! {

/// A TOML value.
#[verifier::external_type_specification]
#[verifier::external_body]
pub struct ExTomlValue(toml::Value);

/// A TOML table (a map of keys to values).
#[verifier::external_type_specification]
#[verifier::external_body]
#[verifier::reject_recursive_types(K)]
#[verifier::reject_recursive_types(V)]
pub struct ExTomlMap<K, V>(toml::map::Map<K, V>);

/// The keys of the table found at the path of keys `path` in the TOML
/// document `text`, in the order the `toml` crate lists them; `None` when
/// the text is not a TOML document or no table stands at that path.
pub uninterp spec fn toml_table_keys(text: Seq<char>, path: Seq<Seq<char>>) -> Option<Seq<Seq<char>>>;

/// Parses `text` with `toml::from_str` into a `toml::Table`, looks up the
/// keys of `path` one after the other (each must name a table), and lists
/// the keys of the table reached. Trusted: the result is
/// `toml_table_keys(text@, path)`, and a table's keys are distinct (it is a
/// map). The message of an error is `toml`'s own and is left unsaid.
#[verifier::external_body]
fn toml_keys_at(text: &str, path: &Vec<String>) -> (r: Result<Vec<String>, String>)
    ensures
        r is Ok <==> toml_table_keys(text@, key_views(path@)) is Some,
        r matches Ok(ks) ==> Some(key_views(ks@)) == toml_table_keys(text@, key_views(path@)),
        r matches Ok(ks) ==> key_views(ks@).no_duplicates(),
{
    let root: toml::Table = match toml::from_str(text) {
        Ok(t) => t,
        Err(e) => return Err(e.to_string()),
    };
    let mut t = &root;
    for k in path.iter() {
        match t.get(k.as_str()) {
            Some(toml::Value::Table(inner)) => t = inner,
            _ => return Err(String::new()),
        }
    }
    Ok(t.keys().cloned().collect())
}

/// Parses `text` with `toml::from_str` into a `toml::Table` and returns a
/// copy of the value at the path of keys `path`, looked up key by key.
/// Trusted: nothing is stated of the value.
#[verifier::external_body]
fn toml_value_at(text: &str, path: &Vec<String>) -> (r: Option<toml::Value>) {
    let root: toml::Table = toml::from_str(text).ok()?;
    let (last, init) = path.split_last()?;
    let mut t = &root;
    for k in init.iter() {
        match t.get(k.as_str()) {
            Some(toml::Value::Table(inner)) => t = inner,
            _ => return None,
        }
    }
    t.get(last.as_str()).cloned()
}

/// `toml::Table::new()`, an empty table.
#[verifier::external_body]
fn toml_new_table() -> (r: toml::Table) {
    toml::Table::new()
}

/// `toml::Table::insert`: sets `k` to `v`.
#[verifier::external_body]
fn toml_insert(t: &mut toml::Table, k: String, v: toml::Value) {
    t.insert(k, v);
}

/// A table as a value: `toml::Value::Table`.
#[verifier::external_body]
fn toml_table_value(t: toml::Table) -> (r: toml::Value) {
    toml::Value::Table(t)
}

/// `toml::to_string_pretty` of a table; its error as text. Trusted: nothing
/// is stated of the text.
#[verifier::external_body]
fn toml_pretty(t: &toml::Table) -> (r: Result<String, String>) {
    match toml::to_string_pretty(t) {
        Ok(s) => Ok(s),
        Err(e) => Err(e.to_string()),
    }
}

/// The value at `path` of the document `text`, read down to `depth` more
/// levels of tables: a table as the map of its keys, anything else (and a
/// table below that depth) as a leaf known by its path.
pub open spec fn tree_value(text: Seq<char>, path: Seq<Seq<char>>, depth: nat) -> NodeV
    decreases depth, 0nat,
{
    match toml_table_keys(text, path) {
        Some(_) => if depth > 0 {
            NodeV::Table(tree_table(text, path, (depth - 1) as nat))
        } else {
            NodeV::Leaf(path)
        },
        None => NodeV::Leaf(path),
    }
}

/// The table at `path` of the document `text` as a map of its keys, read
/// down to `depth` more levels.
pub open spec fn tree_table(text: Seq<char>, path: Seq<Seq<char>>, depth: nat) -> Map<Seq<char>, NodeV>
    decreases depth, 1nat,
{
    match toml_table_keys(text, path) {
        Some(keys) => Map::new(
            |k: Seq<char>| keys.contains(k),
            |k: Seq<char>| tree_value(text, path.push(k), depth),
        ),
        None => Map::empty(),
    }
}

/// The tables of a configuration text, when it is a TOML document. Every
/// level of tables is read: a table nested `d` deep has a path of `d` keys,
/// each written with at least one character, so no table lies deeper than
/// the text is long.
pub open spec fn toml_tree(text: Seq<char>) -> Option<Map<Seq<char>, NodeV>> {
    match toml_table_keys(text, seq![]) {
        Some(_) => Some(tree_table(text, seq![], text.len())),
        None => None,
    }
}

/// `path` with `k` after it.
fn child_path(path: &Vec<String>, k: &String) -> (r: Vec<String>)
    ensures
        key_views(r@) == key_views(path@).push(k@),
{
    let mut r: Vec<String> = Vec::new();
    let mut i: usize = 0;
    while i < path.len()
        invariant
            i <= path@.len(),
            key_views(r@) == key_views(path@).take(i as int),
        decreases path@.len() - i,
    {
        let ghost before = key_views(r@);
        r.push(string_of(&crate::text::chars_of(path[i].as_str())));
        proof {
            assert(key_views(r@) =~= before.push(path@[i as int]@));
            assert(key_views(path@).take(i + 1) =~= key_views(path@).take(i as int).push(path@[i as int]@));
        }
        i = i + 1;
    }
    let ghost before = key_views(r@);
    r.push(string_of(&crate::text::chars_of(k.as_str())));
    proof {
        assert(key_views(path@).take(path@.len() as int) =~= key_views(path@));
        assert(key_views(r@) =~= before.push(k@));
    }
    r
}

/// The entries of the table at `path` of `text`, read down to `depth` more
/// levels; see `tree_table`.
fn read_table(text: &str, path: &Vec<String>, keys: &Vec<String>, depth: usize) -> (r: Entries)
    requires
        toml_table_keys(text@, key_views(path@)) == Some(key_views(keys@)),
        key_views(keys@).no_duplicates(),
    ensures
        table_view(r@) == tree_table(text@, key_views(path@), depth as nat),
    decreases depth, 1nat,
{
    let ghost kv = key_views(keys@);
    let ghost pv = key_views(path@);
    let mut r: Entries = Vec::new();
    let mut i: usize = 0;
    while i < keys.len()
        invariant
            kv == key_views(keys@),
            pv == key_views(path@),
            kv.no_duplicates(),
            toml_table_keys(text@, pv) == Some(kv),
            i <= keys@.len(),
            table_view(r@) == tree_table(text@, pv, depth as nat).restrict(Set::new(|x: Seq<char>| kv.take(i as int).contains(x))),
        decreases keys@.len() - i,
    {
        let child = child_path(path, &keys[i]);
        let v = read_value(text, &child, depth);
        let name = string_of(&crate::text::chars_of(keys[i].as_str()));
        let ghost before = r@;
        r.push((name, v));
        proof {
            let k = kv[i as int];
            assert(k == keys@[i as int]@);
            assert(key_views(child@) == pv.push(k));
            crate::migrate::lemma_view_push(before, (name, v));
            assert(kv.take(i + 1) =~= kv.take(i as int).push(k));
            let s1 = Set::new(|x: Seq<char>| kv.take(i + 1).contains(x));
            let s0 = Set::new(|x: Seq<char>| kv.take(i as int).contains(x));
            assert forall|x: Seq<char>| #[trigger] s1.contains(x) <==> s0.insert(k).contains(x) by {
                if kv.take(i + 1).contains(x) {
                    let j = choose|j: int| 0 <= j < kv.take(i + 1).len() && #[trigger] kv.take(i + 1)[j] == x;
                    if j < i {
                        assert(kv.take(i as int)[j] == x);
                    }
                }
                if kv.take(i as int).contains(x) {
                    let j = choose|j: int| 0 <= j < kv.take(i as int).len() && #[trigger] kv.take(i as int)[j] == x;
                    assert(kv.take(i + 1)[j] == x);
                }
                if x == k {
                    assert(kv.take(i + 1)[i as int] == x);
                }
            }
            assert(s1 =~= s0.insert(k));
            assert(kv.contains(k));
            assert(tree_table(text@, pv, depth as nat)[k] == tree_value(text@, pv.push(k), depth as nat));
            assert(table_view(r@) =~= tree_table(text@, pv, depth as nat).restrict(
                Set::new(|x: Seq<char>| kv.take(i + 1).contains(x)),
            ));
        }
        i = i + 1;
    }
    proof {
        assert(kv.take(keys@.len() as int) =~= kv);
        assert(tree_table(text@, pv, depth as nat).dom() =~= Set::new(|x: Seq<char>| kv.contains(x)));
        assert(tree_table(text@, pv, depth as nat).restrict(Set::new(|x: Seq<char>| kv.contains(x))) =~= tree_table(
            text@,
            pv,
            depth as nat,
        ));
    }
    r
}

/// The value at `path` of `text`, read down to `depth` more levels; see
/// `tree_value`.
fn read_value(text: &str, path: &Vec<String>, depth: usize) -> (r: ConfigValue)
    ensures
        node_view(r) == tree_value(text@, key_views(path@), depth as nat),
    decreases depth, 0nat,
{
    match toml_keys_at(text, path) {
        Ok(keys) => if depth > 0 {
            let es = read_table(text, path, &keys, depth - 1);
            ConfigValue::Table(es)
        } else {
            ConfigValue::Leaf(copy_path(path))
        },
        Err(_) => ConfigValue::Leaf(copy_path(path)),
    }
}

/// A copy of a path.
fn copy_path(path: &Vec<String>) -> (r: Vec<String>)
    ensures
        key_views(r@) == key_views(path@),
{
    let mut r: Vec<String> = Vec::new();
    let mut i: usize = 0;
    while i < path.len()
        invariant
            i <= path@.len(),
            key_views(r@) == key_views(path@).take(i as int),
        decreases path@.len() - i,
    {
        let ghost before = key_views(r@);
        r.push(string_of(&crate::text::chars_of(path[i].as_str())));
        proof {
            assert(key_views(r@) =~= before.push(path@[i as int]@));
            assert(key_views(path@).take(i + 1) =~= key_views(path@).take(i as int).push(path@[i as int]@));
        }
        i = i + 1;
    }
    proof {
        assert(key_views(path@).take(path@.len() as int) =~= key_views(path@));
    }
    r
}

/// Reads the tables of a configuration text; its error is `toml`'s message
/// when the text is not a TOML document.
pub fn parse_config_text(text: &str) -> (r: Result<Entries, String>)
    ensures
        r is Ok <==> toml_tree(text@) is Some,
        r matches Ok(es) ==> Some(table_view(es@)) == toml_tree(text@),
{
    let root: Vec<String> = Vec::new();
    proof {
        assert(key_views(root@) =~= Seq::<Seq<char>>::empty());
    }
    match toml_keys_at(text, &root) {
        Ok(keys) => {
            let n = text.unicode_len();
            Ok(read_table(text, &root, &keys, n))
        },
        Err(e) => Err(e),
    }
}

/// Writes entries back as a TOML table: each table entry as a table, each
/// leaf as the value that stood at its path in `text`.
fn write_entries(es: &Entries, text: &str) -> (r: toml::Table)
    decreases es,
{
    let mut t = toml_new_table();
    let mut i: usize = 0;
    while i < es.len()
        decreases es@.len() - i,
    {
        let v = match &es[i].1 {
            ConfigValue::Table(c) => {
                proof {
                    assert(decreases_to!(es => es@[i as int].1));
                }
                Some(toml_table_value(write_entries(c, text)))
            },
            ConfigValue::Leaf(p) => toml_value_at(text, p),
        };
        match v {
            Some(v) => toml_insert(&mut t, string_of(&crate::text::chars_of(es[i].0.as_str())), v),
            None => {},
        }
        i = i + 1;
    }
    t
}

/// Migrates a configuration text written by an older version (see
/// `migrated`): `Ok(None)` when nothing moves, `Ok(Some(new_text))` with
/// the tables written back by `toml::to_string_pretty` when keys moved,
/// and an error when the text is not a TOML document or cannot be written
/// back.
pub fn migrate_config_text(text: &str) -> (r: Result<Option<String>, String>)
    ensures
        toml_tree(text@) is None ==> r is Err,
        r matches Ok(o) ==> toml_tree(text@) is Some && (o is Some <==> migrated(
            toml_tree(text@)->0,
        ).1),
{
    let mut es = match parse_config_text(text) {
        Ok(es) => es,
        Err(e) => return Err(crate::text::concat_str("failed to parse config for migration: ", e.as_str())),
    };
    let changed = migrate_config(&mut es);
    if !changed {
        return Ok(None);
    }
    let t = write_entries(&es, text);
    match toml_pretty(&t) {
        Ok(s) => Ok(Some(s)),
        Err(e) => Err(crate::text::concat_str("failed to serialize migrated config: ", e.as_str())),
    }
}

/// What stands at a path of a TOML document, as far as the settings below
/// read it.
pub enum TomlItemV {
    Absent,
    Integer(i64),
    Text(Seq<char>),
    Array(nat),
    Table,
    Other,
}

/// What stands at a path of a TOML document: nothing, an integer, a string,
/// an array (its length), a table, or a value of another kind. A path that
/// runs through a value that is not a table ends at `Other`.
pub enum TomlItem {
    Absent,
    Integer(i64),
    Text(String),
    Array(usize),
    Table,
    Other,
}

/// An item as its model.
pub open spec fn item_view(i: TomlItem) -> TomlItemV {
    match i {
        TomlItem::Absent => TomlItemV::Absent,
        TomlItem::Integer(n) => TomlItemV::Integer(n),
        TomlItem::Text(s) => TomlItemV::Text(s@),
        TomlItem::Array(n) => TomlItemV::Array(n as nat),
        TomlItem::Table => TomlItemV::Table,
        TomlItem::Other => TomlItemV::Other,
    }
}

/// An optional item as its model.
pub open spec fn opt_item_view(i: Option<TomlItem>) -> Option<TomlItemV> {
    match i {
        Some(x) => Some(item_view(x)),
        None => None,
    }
}

/// What stands at the path of keys `path` of the TOML document `text`;
/// `None` when the text is not a TOML document.
pub uninterp spec fn toml_item(text: Seq<char>, path: Seq<Seq<char>>) -> Option<TomlItemV>;

/// What stands at position `index` of the array at the path of keys `path`
/// of the TOML document `text` (`Other` when no array stands there);
/// `None` when the text is not a TOML document.
pub uninterp spec fn toml_array_item(text: Seq<char>, path: Seq<Seq<char>>, index: int) -> Option<TomlItemV>;

/// Parses `text` with `toml::from_str`, follows the keys of `path` through
/// its tables with `toml::Table::get`, and tells the kind of value found
/// apart. Trusted: the result is `toml_item(text@, path)`.
#[verifier::external_body]
fn toml_item_at(text: &str, path: &Vec<String>) -> (r: Option<TomlItem>)
    ensures
        opt_item_view(r) == toml_item(text@, key_views(path@)),
{
    let mut v = &toml::Value::Table(toml::from_str(text).ok()?);
    for k in path.iter() {
        let toml::Value::Table(t) = v else { return Some(TomlItem::Other) };
        let Some(x) = t.get(k.as_str()) else { return Some(TomlItem::Absent) };
        v = x;
    }
    Some(match v {
        toml::Value::Integer(i) => TomlItem::Integer(*i),
        toml::Value::String(s) => TomlItem::Text(s.clone()),
        toml::Value::Array(a) => TomlItem::Array(a.len()),
        toml::Value::Table(_) => TomlItem::Table,
        _ => TomlItem::Other,
    })
}

/// Parses `text` with `toml::from_str`, follows the keys of `path` through
/// its tables, takes position `index` of the array found there with
/// `Vec::get`, and tells the kind of that value apart. Trusted: the result
/// is `toml_array_item(text@, path, index)`.
#[verifier::external_body]
fn toml_array_item_at(text: &str, path: &Vec<String>, index: usize) -> (r: Option<TomlItem>)
    ensures
        opt_item_view(r) == toml_array_item(text@, key_views(path@), index as int),
{
    let mut v = &toml::Value::Table(toml::from_str(text).ok()?);
    for k in path.iter() {
        let Some(x) = v.get(k.as_str()) else { return Some(TomlItem::Other) };
        v = x;
    }
    Some(match v.get(index) {
        Some(toml::Value::Integer(i)) => TomlItem::Integer(*i),
        Some(toml::Value::String(s)) => TomlItem::Text(s.clone()),
        Some(toml::Value::Array(a)) => TomlItem::Array(a.len()),
        Some(toml::Value::Table(_)) => TomlItem::Table,
        _ => TomlItem::Other,
    })
}

/// A path of two or three keys.
fn key_path(a: &str, b: &str, c: Option<&str>) -> (r: Vec<String>)
    ensures
        key_views(r@) == match c {
            Some(c) => seq![a@, b@, c@],
            None => seq![a@, b@],
        },
{
    let mut r: Vec<String> = Vec::new();
    r.push(String::from_str(a));
    r.push(String::from_str(b));
    match c {
        Some(c) => r.push(String::from_str(c)),
        None => {},
    }
    proof {
        assert(key_views(r@) =~= match c {
            Some(c) => seq![a@, b@, c@],
            None => seq![a@, b@],
        });
    }
    r
}

/// A whole-number setting read from an item: the default when absent, the
/// number when it lies in `0..=max`, `None` (the file is refused) otherwise.
pub open spec fn int_setting(item: TomlItemV, default: int, max: int) -> Option<int> {
    match item {
        TomlItemV::Absent => Some(default),
        TomlItemV::Integer(n) => if 0 <= n <= max {
            Some(n as int)
        } else {
            None
        },
        _ => None,
    }
}

/// The name of the configured theme (`ui.theme`): the default `"default"`
/// when absent, the text when it is a string, `None` otherwise.
pub open spec fn theme_setting(item: TomlItemV) -> Option<Seq<char>> {
    match item {
        TomlItemV::Absent => Some("default"@),
        TomlItemV::Text(s) => Some(s),
        _ => None,
    }
}

/// The section at one position of `list.sections`: its name, written
/// exactly.
pub open spec fn section_item(item: TomlItemV) -> Option<NotesSection> {
    match item {
        TomlItemV::Text(s) => notes_section_from_lower(s),
        _ => None,
    }
}

/// The section at position `i` of the array at `path`.
pub open spec fn section_at(text: Seq<char>, path: Seq<Seq<char>>, i: int) -> Option<NotesSection> {
    match toml_array_item(text, path, i) {
        Some(x) => section_item(x),
        None => None,
    }
}

/// Whether each of the first `n` positions of the array at `path` holds a
/// section's name.
pub open spec fn all_sections(text: Seq<char>, path: Seq<Seq<char>>, n: nat) -> bool {
    forall|i: int| 0 <= i < n ==> #[trigger] section_at(text, path, i) is Some
}

/// The configured sections of the notes screen (`list.sections`): the
/// default when absent, each position's section when it is an array of
/// section names, `None` otherwise.
pub open spec fn sections_setting(text: Seq<char>) -> Option<Seq<NotesSection>> {
    let path = seq!["list"@, "sections"@];
    match toml_item(text, path) {
        Some(TomlItemV::Absent) => Some(seq![NotesSection::Calendar, NotesSection::Goals]),
        Some(TomlItemV::Array(n)) => if all_sections(text, path, n) {
            Some(Seq::new(n, |i: int| section_at(text, path, i)->0))
        } else {
            None
        },
        _ => None,
    }
}

/// `ui.theme`; see `theme_setting`.
pub open spec fn theme_name_setting(text: Seq<char>) -> Option<Seq<char>> {
    match toml_item(text, seq!["ui"@, "theme"@]) {
        Some(t) => theme_setting(t),
        None => None,
    }
}

/// `graf.visual.label_max_length`, 20 when absent.
pub open spec fn label_setting(text: Seq<char>) -> Option<int> {
    match toml_item(text, seq!["graf"@, "visual"@, "label_max_length"@]) {
        Some(l) => int_setting(l, 20, usize::MAX as int),
        None => None,
    }
}

/// `graf.visual.edge_thickness`, 1 when absent.
pub open spec fn edge_setting(text: Seq<char>) -> Option<int> {
    match toml_item(text, seq!["graf"@, "visual"@, "edge_thickness"@]) {
        Some(e) => int_setting(e, 1, u16::MAX as int),
        None => None,
    }
}

/// Whether the settings the check reads can all be read.
pub open spec fn settings_readable(text: Seq<char>) -> bool {
    &&& theme_name_setting(text) is Some
    &&& label_setting(text) is Some
    &&& edge_setting(text) is Some
    &&& sections_setting(text) is Some
}

/// The settings the configuration check reads from a configuration text.
pub struct CheckedSettings {
    pub theme: String,
    pub label_max_length: usize,
    pub edge_thickness: u16,
    pub sections: Vec<NotesSection>,
}

/// Reads the settings that the configuration check needs: `ui.theme`,
/// `graf.visual.label_max_length`, `graf.visual.edge_thickness` and
/// `list.sections`, each with its default when absent. A text that is not a
/// TOML document, or a setting of the wrong kind or out of its type's
/// range (a section that is not a section's name), is refused, as reading
/// the configuration refuses it.
pub fn read_checked_settings(text: &str) -> (r: Result<CheckedSettings, String>)
    ensures
        r is Ok <==> settings_readable(text@),
        r matches Ok(c) ==> {
            &&& Some(c.theme@) == theme_name_setting(text@)
            &&& Some(c.label_max_length as int) == label_setting(text@)
            &&& Some(c.edge_thickness as int) == edge_setting(text@)
            &&& Some(c.sections@) == sections_setting(text@)
        },
{
    let theme_path = key_path("ui", "theme", None);
    let theme = match toml_item_at(text, &theme_path) {
        Some(TomlItem::Absent) => default_theme(),
        Some(TomlItem::Text(s)) => s,
        _ => return Err(String::from_str("failed to parse config: ui.theme must be a string")),
    };
    let label_path = key_path("graf", "visual", Some("label_max_length"));
    let label_max_length: usize = match toml_item_at(text, &label_path) {
        Some(TomlItem::Absent) => default_label_max(),
        Some(TomlItem::Integer(n)) => if 0 <= n && (n as u64) <= (usize::MAX as u64) {
            n as usize
        } else {
            return Err(String::from_str("failed to parse config: graf.visual.label_max_length is out of range"));
        },
        _ => return Err(String::from_str("failed to parse config: graf.visual.label_max_length must be a number")),
    };
    let edge_path = key_path("graf", "visual", Some("edge_thickness"));
    let edge_thickness: u16 = match toml_item_at(text, &edge_path) {
        Some(TomlItem::Absent) => default_edge_thickness(),
        Some(TomlItem::Integer(n)) => if 0 <= n && n <= 65535 {
            n as u16
        } else {
            return Err(String::from_str("failed to parse config: graf.visual.edge_thickness is out of range"));
        },
        _ => return Err(String::from_str("failed to parse config: graf.visual.edge_thickness must be a number")),
    };
    let sections = match read_sections(text) {
        Some(v) => v,
        None => return Err(String::from_str("failed to parse config: list.sections must list calendar, goals, draw or graf")),
    };
    Ok(CheckedSettings { theme, label_max_length, edge_thickness, sections })
}

/// `list.sections`; see `sections_setting`.
fn read_sections(text: &str) -> (r: Option<Vec<NotesSection>>)
    ensures
        match r {
            Some(v) => sections_setting(text@) == Some(v@),
            None => sections_setting(text@) is None,
        },
{
    let path = key_path("list", "sections", None);
    let ghost pv = seq!["list"@, "sections"@];
    match toml_item_at(text, &path) {
        Some(TomlItem::Absent) => Some(default_sections()),
        Some(TomlItem::Array(n)) => {
            let mut v: Vec<NotesSection> = Vec::new();
            let mut i: usize = 0;
            while i < n
                invariant
                    key_views(path@) == pv,
                    pv == seq!["list"@, "sections"@],
                    i <= n,
                    toml_item(text@, pv) == Some(TomlItemV::Array(n as nat)),
                    v@.len() == i,
                    forall|j: int| 0 <= j < i ==> #[trigger] section_at(text@, pv, j) == Some(v@[j]),
                decreases n - i,
            {
                let item = toml_array_item_at(text, &path, i);
                let s = match item {
                    Some(TomlItem::Text(name)) => notes_section_from_chars(&chars_of(name.as_str())),
                    _ => None,
                };
                match s {
                    Some(sec) => v.push(sec),
                    None => {
                        proof {
                            assert(section_at(text@, pv, i as int) is None);
                            assert(!all_sections(text@, pv, n as nat));
                        }
                        return None;
                    },
                }
                i = i + 1;
            }
            proof {
                assert(all_sections(text@, pv, n as nat));
                assert(v@ =~= Seq::new(n as nat, |j: int| section_at(text@, pv, j)->0));
            }
            Some(v)
        },
        _ => None,
    }
}

/// The faults of the configuration text `text`, as `ClinConfig::validate`
/// reports them, given the fault of its node size (a float, checked by the
/// caller); an error when its settings cannot be read.
pub fn config_faults_of_text(text: &str, node_size_fault: Option<String>) -> (r: Result<Vec<String>, String>)
    ensures
        r is Ok <==> settings_readable(text@),
        r matches Ok(f) ==> crate::settings::string_views(f@) == config_faults(
            label_setting(text@)->0 as usize,
            opt_string_view(node_size_fault),
            edge_setting(text@)->0 as u16,
            sections_setting(text@)->0,
        ),
{
    match read_checked_settings(text) {
        Ok(c) => Ok(validate_config(c.label_max_length, node_size_fault, c.edge_thickness, &c.sections)),
        Err(e) => Err(e),
    }
}

} // verus!
