//! Migration of configuration files written by older versions: keys that
//! used to stand at the top level move into the tables that hold them now.
//!
//! A configuration is a table of keys. Only the tables matter here; every
//! other value is carried along unread, under the path of keys at which it
//! stood in the file, by which it is found again.
use vstd::prelude::*;
use crate::text::str_eq;

verus! {

/// A value of a configuration file: a table, or any other value, known by
/// the path of keys at which it stood in the file.
pub enum ConfigValue {
    Table(Vec<(String, ConfigValue)>),
    Leaf(Vec<String>),
}

/// The model of a value: a table is a map from keys to values; when a key
/// is written twice, the later entry counts.
pub enum NodeV {
    Table(Map<Seq<char>, NodeV>),
    Leaf(Seq<Seq<char>>),
}

/// A table's entries.
pub type Entries = Vec<(String, ConfigValue)>;

/// A path of keys as texts.
pub open spec fn key_views(p: Seq<String>) -> Seq<Seq<char>> {
    p.map_values(|k: String| k@)
}

/// A value as its model.
pub open spec fn node_view(v: ConfigValue) -> NodeV
    decreases v,
{
    match v {
        ConfigValue::Table(es) => NodeV::Table(table_view(es@)),
        ConfigValue::Leaf(p) => NodeV::Leaf(key_views(p@)),
    }
}

/// Table entries as a map; the later entry of a key counts.
pub open spec fn table_view(es: Seq<(String, ConfigValue)>) -> Map<Seq<char>, NodeV>
    decreases es,
{
    if es.len() == 0 {
        Map::empty()
    } else {
        let last = es[es.len() - 1];
        table_view(es.drop_last()).insert(last.0@, node_view(last.1))
    }
}

/// Appending an entry sets its key.
pub proof fn lemma_view_push(es: Seq<(String, ConfigValue)>, e: (String, ConfigValue))
    ensures
        table_view(es.push(e)) == table_view(es).insert(e.0@, node_view(e.1)),
{
    assert(es.push(e).drop_last() == es);
}

/// A table built from entries is finite, and empty exactly when there are
/// no entries.
proof fn lemma_view_finite(es: Seq<(String, ConfigValue)>)
    ensures
        table_view(es).dom().finite(),
        es.len() > 0 ==> table_view(es).dom().contains(es[es.len() - 1].0@),
        es.len() == 0 ==> table_view(es) == Map::<Seq<char>, NodeV>::empty(),
    decreases es.len(),
{
    if es.len() > 0 {
        lemma_view_finite(es.drop_last());
    }
}

/// Removes every entry of `key` and gives back the value it had.
pub fn table_remove(t: &mut Entries, key: &str) -> (r: Option<ConfigValue>)
    ensures
        table_view(final(t)@) == table_view(old(t)@).remove(key@),
        match r {
            Some(v) => table_view(old(t)@).dom().contains(key@) && node_view(v) == table_view(
                old(t)@,
            )[key@],
            None => !table_view(old(t)@).dom().contains(key@),
        },
{
    let ghost es = t@;
    let mut kept: Entries = Vec::new();
    let mut found: Option<ConfigValue> = None;
    let len0 = t.len();
    let mut src: Entries = Vec::new();
    std::mem::swap(&mut src, t);
    let ghost n = es.len();
    let mut i: usize = 0;
    while src.len() > 0
        invariant
            n == es.len(),
            n == len0,
            i + src@.len() == n,
            src@ == es.skip(i as int),
            table_view(kept@) == table_view(es.take(i as int)).remove(key@),
            match found {
                Some(v) => table_view(es.take(i as int)).dom().contains(key@) && node_view(v)
                    == table_view(es.take(i as int))[key@],
                None => !table_view(es.take(i as int)).dom().contains(key@),
            },
        decreases src@.len(),
    {
        let ghost before = src@;
        let e = src.remove(0);
        proof {
            assert(before[0] == es[i as int]);
            assert(src@ =~= es.skip(i + 1));
            assert(es.take(i + 1).drop_last() == es.take(i as int));
            assert(es.take(i + 1)[i as int] == es[i as int]);
        }
        if str_eq(e.0.as_str(), key) {
            found = Some(e.1);
            proof {
                assert(table_view(kept@) =~= table_view(es.take(i + 1)).remove(key@));
            }
        } else {
            let ghost pre = kept@;
            kept.push(e);
            proof {
                lemma_view_push(pre, e);
                assert(table_view(kept@) =~= table_view(es.take(i + 1)).remove(key@));
            }
        }
        i = i + 1;
    }
    proof {
        assert(es.take(n as int) == es);
    }
    *t = kept;
    found
}

/// Sets `key` to `v`.
pub fn table_insert(t: &mut Entries, key: String, v: ConfigValue)
    ensures
        table_view(final(t)@) == table_view(old(t)@).insert(key@, node_view(v)),
{
    let _ = table_remove(t, key.as_str());
    let ghost pre = t@;
    let ghost k = key@;
    let ghost nv = node_view(v);
    t.push((key, v));
    proof {
        lemma_view_push(pre, t@.last());
        assert(table_view(t@) =~= table_view(old(t)@).insert(k, nv));
    }
}

/// Whether a value is a table holding `key`.
pub fn table_has(t: &Entries, key: &str) -> (r: bool)
    ensures
        r == table_view(t@).dom().contains(key@),
{
    let mut i: usize = t.len();
    proof {
        assert(t@.take(t@.len() as int) == t@);
    }
    while i > 0
        invariant
            i <= t@.len(),
            table_view(t@).dom().contains(key@) == table_view(t@.take(i as int)).dom().contains(key@),
        decreases i,
    {
        proof {
            assert(t@.take(i as int).drop_last() == t@.take(i - 1));
            assert(t@.take(i as int)[i - 1] == t@[i - 1]);
        }
        if str_eq(t[i - 1].0.as_str(), key) {
            return true;
        }
        i = i - 1;
    }
    proof {
        assert(t@.take(0) == Seq::<(String, ConfigValue)>::empty());
    }
    false
}


/// A list of key renamings.
pub open spec fn pair_views(pairs: Seq<(&'static str, &'static str)>) -> Seq<(Seq<char>, Seq<char>)> {
    pairs.map_values(|p: (&'static str, &'static str)| (p.0@, p.1@))
}

/// Moves the keys of `pairs` out of `m`, in order: each old key present
/// leaves `m`, and its value is kept under the new key in the second map.
pub open spec fn moved_keys(m: Map<Seq<char>, NodeV>, pairs: Seq<(Seq<char>, Seq<char>)>) -> (
    Map<Seq<char>, NodeV>,
    Map<Seq<char>, NodeV>,
)
    decreases pairs.len(),
{
    if pairs.len() == 0 {
        (m, Map::empty())
    } else {
        let (rest, moved) = moved_keys(m, pairs.drop_last());
        let (old, new) = pairs.last();
        if rest.dom().contains(old) {
            (rest.remove(old), moved.insert(new, rest[old]))
        } else {
            (rest, moved)
        }
    }
}

/// The keys in `moved` join the table `name` of `m` (overriding what it
/// had), or become that table when `name` is missing or not a table.
/// Nothing changes when nothing moved.
pub open spec fn merged(m: Map<Seq<char>, NodeV>, name: Seq<char>, moved: Map<Seq<char>, NodeV>) -> Map<
    Seq<char>,
    NodeV,
> {
    if moved == Map::<Seq<char>, NodeV>::empty() {
        m
    } else if m.dom().contains(name) && m[name] is Table {
        m.insert(name, NodeV::Table(m[name]->Table_0.union_prefer_right(moved)))
    } else {
        m.insert(name, NodeV::Table(moved))
    }
}

/// The keys of `pairs` moved into the table `name`, and whether any moved.
pub open spec fn relocated(m: Map<Seq<char>, NodeV>, pairs: Seq<(Seq<char>, Seq<char>)>, name: Seq<char>) -> (
    Map<Seq<char>, NodeV>,
    bool,
) {
    let (rest, moved) = moved_keys(m, pairs);
    (merged(rest, name, moved), moved != Map::<Seq<char>, NodeV>::empty())
}

/// Inserts every entry of `src` into `dst`, in order.
fn absorb(dst: &mut Entries, src: Entries)
    ensures
        table_view(final(dst)@) == table_view(old(dst)@).union_prefer_right(table_view(src@)),
{
    let ghost start = dst@;
    let ghost es = src@;
    let len0 = src.len();
    let mut src = src;
    let mut i: usize = 0;
    while src.len() > 0
        invariant
            es.len() == len0,
            i + src@.len() == es.len(),
            src@ == es.skip(i as int),
            table_view(dst@) == table_view(start).union_prefer_right(table_view(es.take(i as int))),
        decreases src@.len(),
    {
        let ghost before = src@;
        let e = src.remove(0);
        proof {
            assert(before[0] == es[i as int]);
            assert(src@ =~= es.skip(i + 1));
            lemma_view_push(es.take(i as int), es[i as int]);
            assert(es.take(i + 1) == es.take(i as int).push(es[i as int]));
        }
        let ghost k = e.0@;
        let ghost v = node_view(e.1);
        table_insert(dst, e.0, e.1);
        proof {
            assert(table_view(dst@) =~= table_view(start).union_prefer_right(
                table_view(es.take(i + 1)),
            ));
        }
        i = i + 1;
    }
    proof {
        assert(es.take(len0 as int) == es);
    }
}

/// Moves the keys of `pairs` out of `root`; returns the moved entries.
fn move_keys(root: &mut Entries, pairs: &Vec<(&'static str, &'static str)>) -> (r: Entries)
    ensures
        (table_view(final(root)@), table_view(r@)) == moved_keys(table_view(old(root)@), pair_views(pairs@)),
{
    let ghost ps = pair_views(pairs@);
    let mut moved: Entries = Vec::new();
    let mut i: usize = 0;
    while i < pairs.len()
        invariant
            ps == pair_views(pairs@),
            i <= pairs@.len(),
            (table_view(root@), table_view(moved@)) == moved_keys(table_view(old(root)@), ps.take(i as int)),
        decreases pairs@.len() - i,
    {
        proof {
            assert(ps.take(i + 1).drop_last() == ps.take(i as int));
            assert(ps.take(i + 1).last() == (pairs@[i as int].0@, pairs@[i as int].1@));
        }
        let (old_key, new_key) = pairs[i];
        match table_remove(root, old_key) {
            Some(v) => {
                table_insert(&mut moved, String::from_str(new_key), v);
            },
            None => {},
        }
        i = i + 1;
    }
    proof {
        assert(ps.take(pairs@.len() as int) == ps);
    }
    moved
}

/// The moved entries join the table `name` of `root`; see `merged`.
fn merge_into(root: &mut Entries, name: &str, moved: Entries)
    ensures
        table_view(final(root)@) == merged(table_view(old(root)@), name@, table_view(moved@)),
{
    proof {
        lemma_view_finite(moved@);
        if moved@.len() > 0 {
            assert(table_view(moved@) != Map::<Seq<char>, NodeV>::empty());
        }
    }
    if moved.len() == 0 {
        return;
    }
    let ghost m = table_view(root@);
    match table_remove(root, name) {
        Some(ConfigValue::Table(mut t)) => {
            absorb(&mut t, moved);
            table_insert(root, String::from_str(name), ConfigValue::Table(t));
            proof {
                assert(table_view(root@) =~= merged(m, name@, table_view(moved@)));
            }
        },
        other => {
            let ghost was = other;
            table_insert(root, String::from_str(name), ConfigValue::Table(moved));
            proof {
                assert(table_view(root@) =~= merged(m, name@, table_view(moved@)));
            }
        },
    }
}


/// The top-level keys that moved into `core`.
pub open spec fn core_pairs() -> Seq<(Seq<char>, Seq<char>)> {
    seq![("storage_path"@, "storage_path"@), ("previous_storage_path"@, "previous_storage_path"@), ("mouse_enabled"@, "mouse_enabled"@), ("default_folder"@, "default_folder"@), ("confirm_on_delete"@, "confirm_on_delete"@), ("confirm_on_quit"@, "confirm_on_quit"@)]
}

/// The top-level keys that moved into `core`.
fn core_key_pairs() -> (r: Vec<(&'static str, &'static str)>)
    ensures
        pair_views(r@) == core_pairs(),
{
    let mut v: Vec<(&'static str, &'static str)> = Vec::new();
    v.push(("storage_path", "storage_path"));
    v.push(("previous_storage_path", "previous_storage_path"));
    v.push(("mouse_enabled", "mouse_enabled"));
    v.push(("default_folder", "default_folder"));
    v.push(("confirm_on_delete", "confirm_on_delete"));
    v.push(("confirm_on_quit", "confirm_on_quit"));
    assert(pair_views(v@) =~= core_pairs());
    v
}

/// The top-level keys that moved into `editor`, under their new names.
pub open spec fn editor_pairs() -> Seq<(Seq<char>, Seq<char>)> {
    seq![("external_editor"@, "external_command"@), ("external_editor_enabled"@, "external_enabled"@), ("editor_preview_enabled"@, "preview_enabled"@), ("show_line_numbers"@, "show_line_numbers"@)]
}

/// The top-level keys that moved into `editor`, under their new names.
fn editor_key_pairs() -> (r: Vec<(&'static str, &'static str)>)
    ensures
        pair_views(r@) == editor_pairs(),
{
    let mut v: Vec<(&'static str, &'static str)> = Vec::new();
    v.push(("external_editor", "external_command"));
    v.push(("external_editor_enabled", "external_enabled"));
    v.push(("editor_preview_enabled", "preview_enabled"));
    v.push(("show_line_numbers", "show_line_numbers"));
    assert(pair_views(v@) =~= editor_pairs());
    v
}

/// The top-level keys that moved into `list`, under their new names.
pub open spec fn list_pairs() -> Seq<(Seq<char>, Seq<char>)> {
    seq![("preview_enabled"@, "preview_enabled"@), ("preview_position"@, "preview_position"@), ("preview_encryption"@, "preview_encryption"@), ("date_format"@, "date_format"@), ("list_density"@, "density"@), ("show_file_size"@, "show_file_size"@), ("show_date_in_list"@, "show_date_in_list"@), ("default_view"@, "default_view"@), ("default_sort_field"@, "default_sort_field"@), ("default_sort_order"@, "default_sort_order"@), ("pinned_on_top"@, "pinned_on_top"@)]
}

/// The top-level keys that moved into `list`, under their new names.
fn list_key_pairs() -> (r: Vec<(&'static str, &'static str)>)
    ensures
        pair_views(r@) == list_pairs(),
{
    let mut v: Vec<(&'static str, &'static str)> = Vec::new();
    v.push(("preview_enabled", "preview_enabled"));
    v.push(("preview_position", "preview_position"));
    v.push(("preview_encryption", "preview_encryption"));
    v.push(("date_format", "date_format"));
    v.push(("list_density", "density"));
    v.push(("show_file_size", "show_file_size"));
    v.push(("show_date_in_list", "show_date_in_list"));
    v.push(("default_view", "default_view"));
    v.push(("default_sort_field", "default_sort_field"));
    v.push(("default_sort_order", "default_sort_order"));
    v.push(("pinned_on_top", "pinned_on_top"));
    assert(pair_views(v@) =~= list_pairs());
    v
}

/// The top-level keys that moved into `graf`, under their new names.
pub open spec fn graf_pairs() -> Seq<(Seq<char>, Seq<char>)> {
    seq![("search"@, "search"@), ("graph_preview_enabled"@, "preview_enabled"@), ("visual"@, "visual"@), ("physics"@, "physics"@), ("interaction"@, "interaction"@), ("filter"@, "filter"@)]
}

/// The top-level keys that moved into `graf`, under their new names.
fn graf_key_pairs() -> (r: Vec<(&'static str, &'static str)>)
    ensures
        pair_views(r@) == graf_pairs(),
{
    let mut v: Vec<(&'static str, &'static str)> = Vec::new();
    v.push(("search", "search"));
    v.push(("graph_preview_enabled", "preview_enabled"));
    v.push(("visual", "visual"));
    v.push(("physics", "physics"));
    v.push(("interaction", "interaction"));
    v.push(("filter", "filter"));
    assert(pair_views(v@) =~= graf_pairs());
    v
}

/// The table a value is, or no keys when it is not a table or missing.
pub open spec fn table_or_empty(v: Option<NodeV>) -> Map<Seq<char>, NodeV> {
    match v {
        Some(NodeV::Table(t)) => t,
        _ => Map::empty(),
    }
}

/// The value of a key, if present.
pub open spec fn lookup(m: Map<Seq<char>, NodeV>, k: Seq<char>) -> Option<NodeV> {
    if m.dom().contains(k) {
        Some(m[k])
    } else {
        None
    }
}

/// The `[theme]` and `[display]` tables of old files merge into `ui`
/// (`display` overriding `theme`); finding either counts as a change.
pub open spec fn ui_step(m: Map<Seq<char>, NodeV>) -> (Map<Seq<char>, NodeV>, bool) {
    let theme = lookup(m, "theme"@);
    let display = lookup(m, "display"@);
    let rest = m.remove("theme"@).remove("display"@);
    let moved = table_or_empty(theme).union_prefer_right(table_or_empty(display));
    (merged(rest, "ui"@, moved), theme is Some || display is Some)
}

/// `visual.notes_layout` leaves `visual`; it becomes the top-level
/// `default_view` unless one is set.
pub open spec fn visual_step(m: Map<Seq<char>, NodeV>) -> (Map<Seq<char>, NodeV>, bool) {
    if m.dom().contains("visual"@) && m["visual"@] is Table && m["visual"@]->Table_0.dom().contains(
        "notes_layout"@,
    ) {
        let vt = m["visual"@]->Table_0;
        let m1 = m.insert("visual"@, NodeV::Table(vt.remove("notes_layout"@)));
        if !m1.dom().contains("default_view"@) {
            (m1.insert("default_view"@, vt["notes_layout"@]), true)
        } else {
            (m1, false)
        }
    } else {
        (m, false)
    }
}

/// The migration of a configuration file, step by step: the core keys, the
/// `theme` and `display` tables, `visual.notes_layout`, the editor keys, the
/// list keys and the graph keys. Gives the new table and whether anything
/// changed.
pub open spec fn migrated(m: Map<Seq<char>, NodeV>) -> (Map<Seq<char>, NodeV>, bool) {
    let (m1, c1) = relocated(m, core_pairs(), "core"@);
    let (m2, c2) = ui_step(m1);
    let (m3, c3) = visual_step(m2);
    let (m4, c4) = relocated(m3, editor_pairs(), "editor"@);
    let (m5, c5) = relocated(m4, list_pairs(), "list"@);
    let (m6, c6) = relocated(m5, graf_pairs(), "graf"@);
    (m6, c1 || c2 || c3 || c4 || c5 || c6)
}

/// Moves keys into a table; whether any moved.
fn relocate(root: &mut Entries, pairs: &Vec<(&'static str, &'static str)>, name: &str) -> (r: bool)
    ensures
        (table_view(final(root)@), r) == relocated(table_view(old(root)@), pair_views(pairs@), name@),
{
    let moved = move_keys(root, pairs);
    proof {
        lemma_view_finite(moved@);
    }
    let any = moved.len() > 0;
    merge_into(root, name, moved);
    any
}

/// The view of an optional value.
pub open spec fn opt_node_view(v: Option<ConfigValue>) -> Option<NodeV> {
    match v {
        Some(x) => Some(node_view(x)),
        None => None,
    }
}

/// The `ui` step.
fn merge_ui(root: &mut Entries) -> (r: bool)
    ensures
        (table_view(final(root)@), r) == ui_step(table_view(old(root)@)),
{
    let ghost m = table_view(root@);
    let theme = table_remove(root, "theme");
    let display = table_remove(root, "display");
    let found = theme.is_some() || display.is_some();
    let mut ui: Entries = Vec::new();
    let ghost tt = opt_node_view(theme);
    let ghost dd = opt_node_view(display);
    proof {
        assert(tt == lookup(m, "theme"@));
        assert(dd == lookup(m.remove("theme"@), "display"@));
        assert(lookup(m.remove("theme"@), "display"@) == lookup(m, "display"@)) by {
            reveal_strlit("theme");
            reveal_strlit("display");
            assert("theme"@.len() == 5);
            assert("display"@.len() == 7);
            assert("theme"@ != "display"@);
        }
    }
    match theme {
        Some(ConfigValue::Table(t)) => absorb(&mut ui, t),
        _ => {},
    }
    proof {
        assert(table_view(ui@) =~= table_or_empty(tt));
    }
    match display {
        Some(ConfigValue::Table(d)) => absorb(&mut ui, d),
        _ => {},
    }
    proof {
        assert(table_view(ui@) =~= table_or_empty(tt).union_prefer_right(table_or_empty(dd)));
    }
    merge_into(root, "ui", ui);
    found
}

/// The `visual.notes_layout` step.
fn move_notes_layout(root: &mut Entries) -> (r: bool)
    ensures
        (table_view(final(root)@), r) == visual_step(table_view(old(root)@)),
{
    let ghost m = table_view(root@);
    match table_remove(root, "visual") {
        Some(ConfigValue::Table(mut vt)) => {
            let ghost vm = table_view(vt@);
            match table_remove(&mut vt, "notes_layout") {
                Some(nl) => {
                    table_insert(root, String::from_str("visual"), ConfigValue::Table(vt));
                    if !table_has(root, "default_view") {
                        let ghost nv = node_view(nl);
                        table_insert(root, String::from_str("default_view"), nl);
                        proof {
                            reveal_strlit("visual");
                            reveal_strlit("default_view");
                            assert(table_view(root@) =~= visual_step(m).0);
                        }
                        true
                    } else {
                        proof {
                            assert(table_view(root@) =~= visual_step(m).0);
                        }
                        false
                    }
                },
                None => {
                    proof {
                        assert(table_view(vt@) =~= vm);
                        assert(m.dom().contains("visual"@));
                        assert(m["visual"@] == NodeV::Table(vm));
                    }
                    table_insert(root, String::from_str("visual"), ConfigValue::Table(vt));
                    proof {
                        assert(table_view(root@) =~= m);
                    }
                    false
                },
            }
        },
        Some(other) => {
            table_insert(root, String::from_str("visual"), other);
            proof {
                assert(table_view(root@) =~= m);
            }
            false
        },
        None => false,
    }
}

/// Migrates a configuration file written by an older version; see
/// `migrated`. Returns whether anything changed (the caller then writes the
/// file back).
pub fn migrate_config(root: &mut Entries) -> (r: bool)
    ensures
        (table_view(final(root)@), r) == migrated(table_view(old(root)@)),
{
    let c1 = relocate(root, &core_key_pairs(), "core");
    let c2 = merge_ui(root);
    let c3 = move_notes_layout(root);
    let c4 = relocate(root, &editor_key_pairs(), "editor");
    let c5 = relocate(root, &list_key_pairs(), "list");
    let c6 = relocate(root, &graf_key_pairs(), "graf");
    c1 || c2 || c3 || c4 || c5 || c6
}


/// Whether `k` is the old key of one of `pairs`.
pub open spec fn has_old(pairs: Seq<(Seq<char>, Seq<char>)>, k: Seq<char>) -> bool {
    exists|i: int| 0 <= i < pairs.len() && (#[trigger] pairs[i]).0 == k
}

/// Moving keys removes exactly the old keys and leaves the other values as
/// they were; when no old key is present, nothing moves.
proof fn lemma_moved_keys(m: Map<Seq<char>, NodeV>, pairs: Seq<(Seq<char>, Seq<char>)>)
    ensures
        forall|k: Seq<char>|
            #![trigger moved_keys(m, pairs).0.dom().contains(k)]
            moved_keys(m, pairs).0.dom().contains(k) <==> (m.dom().contains(k) && !has_old(pairs, k)),
        forall|k: Seq<char>|
            #![trigger moved_keys(m, pairs).0[k]]
            moved_keys(m, pairs).0.dom().contains(k) ==> moved_keys(m, pairs).0[k] == m[k],
        (forall|k: Seq<char>| has_old(pairs, k) ==> !m.dom().contains(k)) ==> (moved_keys(m, pairs).0
            == m && moved_keys(m, pairs).1 == Map::<Seq<char>, NodeV>::empty()),
    decreases pairs.len(),
{
    if pairs.len() > 0 {
        let pre = pairs.drop_last();
        lemma_moved_keys(m, pre);
        assert forall|k: Seq<char>| has_old(pre, k) implies has_old(pairs, k) by {
            let i = choose|i: int| 0 <= i < pre.len() && (#[trigger] pre[i]).0 == k;
            assert(pairs[i] == pre[i]);
        }
        assert forall|k: Seq<char>| has_old(pairs, k) && k != pairs.last().0 implies has_old(pre, k) by {
            let i = choose|i: int| 0 <= i < pairs.len() && (#[trigger] pairs[i]).0 == k;
            assert(pre[i] == pairs[i]);
        }
        assert(has_old(pairs, pairs.last().0)) by {
            assert(pairs[pairs.len() - 1].0 == pairs.last().0);
        }
        let (rest, moved) = moved_keys(m, pre);
        if (forall|k: Seq<char>| has_old(pairs, k) ==> !m.dom().contains(k)) {
            assert(rest == m);
            assert(!m.dom().contains(pairs.last().0));
        }
    }
}

/// Merging changes only the named key, and nothing when nothing moved.
proof fn lemma_merged(m: Map<Seq<char>, NodeV>, name: Seq<char>, moved: Map<Seq<char>, NodeV>)
    ensures
        forall|k: Seq<char>|
            k != name ==> (#[trigger] merged(m, name, moved).dom().contains(k) <==> m.dom().contains(k)),
        forall|k: Seq<char>| k != name && m.dom().contains(k) ==> #[trigger] merged(m, name, moved)[k] == m[k],
        moved == Map::<Seq<char>, NodeV>::empty() ==> merged(m, name, moved) == m,
{
}

/// The keys a configuration file of an older version put at the top level.
pub open spec fn is_legacy_key(k: Seq<char>) -> bool {
    ||| has_old(core_pairs(), k)
    ||| k == "theme"@
    ||| k == "display"@
    ||| has_old(editor_pairs(), k)
    ||| has_old(list_pairs(), k)
    ||| has_old(graf_pairs(), k)
}

/// The old keys of each step differ from the tables the later steps add.
proof fn lemma_names_not_legacy()
    ensures
        forall|k: Seq<char>| has_old(core_pairs(), k) ==> k != "ui"@ && k != "visual"@ && k != "default_view"@ && k != "editor"@ && k != "list"@ && k != "graf"@,
        "theme"@ != "visual"@ && "theme"@ != "default_view"@ && "theme"@ != "editor"@ && "theme"@ != "list"@ && "theme"@ != "graf"@,
        "display"@ != "visual"@ && "display"@ != "default_view"@ && "display"@ != "editor"@ && "display"@ != "list"@ && "display"@ != "graf"@,
        forall|k: Seq<char>| has_old(editor_pairs(), k) ==> k != "list"@ && k != "graf"@,
        forall|k: Seq<char>| has_old(list_pairs(), k) ==> k != "graf"@,
        forall|k: Seq<char>| has_old(graf_pairs(), k) ==> k != "graf"@,
        forall|k: Seq<char>| has_old(core_pairs(), k) ==> k != "core"@,
        "theme"@ != "ui"@ && "display"@ != "ui"@,
        forall|k: Seq<char>| has_old(editor_pairs(), k) ==> k != "editor"@,
        forall|k: Seq<char>| has_old(list_pairs(), k) ==> k != "list"@,
{
    reveal_strlit("confirm_on_delete");
    reveal_strlit("confirm_on_quit");
    reveal_strlit("core");
    reveal_strlit("date_format");
    reveal_strlit("default_folder");
    reveal_strlit("default_sort_field");
    reveal_strlit("default_sort_order");
    reveal_strlit("default_view");
    reveal_strlit("display");
    reveal_strlit("editor");
    reveal_strlit("editor_preview_enabled");
    reveal_strlit("external_editor");
    reveal_strlit("external_editor_enabled");
    reveal_strlit("filter");
    reveal_strlit("graf");
    reveal_strlit("graph_preview_enabled");
    reveal_strlit("interaction");
    reveal_strlit("list");
    reveal_strlit("list_density");
    reveal_strlit("mouse_enabled");
    reveal_strlit("physics");
    reveal_strlit("pinned_on_top");
    reveal_strlit("preview_enabled");
    reveal_strlit("preview_encryption");
    reveal_strlit("preview_position");
    reveal_strlit("previous_storage_path");
    reveal_strlit("search");
    reveal_strlit("show_date_in_list");
    reveal_strlit("show_file_size");
    reveal_strlit("show_line_numbers");
    reveal_strlit("storage_path");
    reveal_strlit("theme");
    reveal_strlit("ui");
    reveal_strlit("visual");
    assert("confirm_on_delete"@.len() == 17);
    assert("confirm_on_quit"@.len() == 15);
    assert("core"@.len() == 4);
    assert("date_format"@.len() == 11);
    assert("default_folder"@.len() == 14);
    assert("default_sort_field"@.len() == 18);
    assert("default_sort_order"@.len() == 18);
    assert("default_view"@.len() == 12);
    assert("display"@.len() == 7);
    assert("editor"@.len() == 6);
    assert("editor_preview_enabled"@.len() == 22);
    assert("external_editor"@.len() == 15);
    assert("external_editor_enabled"@.len() == 23);
    assert("filter"@.len() == 6);
    assert("graf"@.len() == 4);
    assert("graph_preview_enabled"@.len() == 21);
    assert("interaction"@.len() == 11);
    assert("list"@.len() == 4);
    assert("list_density"@.len() == 12);
    assert("mouse_enabled"@.len() == 13);
    assert("physics"@.len() == 7);
    assert("pinned_on_top"@.len() == 13);
    assert("preview_enabled"@.len() == 15);
    assert("preview_encryption"@.len() == 18);
    assert("preview_position"@.len() == 16);
    assert("previous_storage_path"@.len() == 21);
    assert("search"@.len() == 6);
    assert("show_date_in_list"@.len() == 17);
    assert("show_file_size"@.len() == 14);
    assert("show_line_numbers"@.len() == 17);
    assert("storage_path"@.len() == 12);
    assert("theme"@.len() == 5);
    assert("ui"@.len() == 2);
    assert("visual"@.len() == 6);
    assert("storage_path"@[0] != "default_view"@[0]);
}


/// The `visual` step changes only `visual` and `default_view`.
proof fn lemma_visual_step(m: Map<Seq<char>, NodeV>)
    ensures
        forall|k: Seq<char>|
            k != "visual"@ && k != "default_view"@ ==> (#[trigger] visual_step(m).0.dom().contains(k)
                <==> m.dom().contains(k)),
        !m.dom().contains("visual"@) ==> visual_step(m) == (m, false),
{
}

/// The `ui` step removes `theme` and `display` and changes only `ui`
/// besides; with neither present it changes nothing.
proof fn lemma_ui_step(m: Map<Seq<char>, NodeV>)
    ensures
        forall|k: Seq<char>|
            k != "theme"@ && k != "display"@ && k != "ui"@ ==> (#[trigger] ui_step(m).0.dom().contains(k)
                <==> m.dom().contains(k)),
        !ui_step(m).0.dom().contains("theme"@),
        !ui_step(m).0.dom().contains("display"@),
        !m.dom().contains("theme"@) && !m.dom().contains("display"@) ==> ui_step(m) == (m, false),
{
    lemma_names_not_legacy();
    let rest = m.remove("theme"@).remove("display"@);
    let moved = table_or_empty(lookup(m, "theme"@)).union_prefer_right(
        table_or_empty(lookup(m, "display"@)),
    );
    lemma_merged(rest, "ui"@, moved);
    if !m.dom().contains("theme"@) && !m.dom().contains("display"@) {
        assert(rest =~= m);
        assert(moved =~= Map::<Seq<char>, NodeV>::empty());
    }
}

/// After migration no key of an older version is left at the top level.
pub proof fn migration_leaves_no_legacy_key(m: Map<Seq<char>, NodeV>)
    ensures
        forall|k: Seq<char>| is_legacy_key(k) ==> !(#[trigger] migrated(m).0.dom().contains(k)),
{
    lemma_names_not_legacy();
    let (r1, v1) = moved_keys(m, core_pairs());
    lemma_moved_keys(m, core_pairs());
    lemma_merged(r1, "core"@, v1);
    let m1 = merged(r1, "core"@, v1);
    lemma_ui_step(m1);
    let m2 = ui_step(m1).0;
    lemma_visual_step(m2);
    let m3 = visual_step(m2).0;
    let (r4, v4) = moved_keys(m3, editor_pairs());
    lemma_moved_keys(m3, editor_pairs());
    lemma_merged(r4, "editor"@, v4);
    let m4 = merged(r4, "editor"@, v4);
    let (r5, v5) = moved_keys(m4, list_pairs());
    lemma_moved_keys(m4, list_pairs());
    lemma_merged(r5, "list"@, v5);
    let m5 = merged(r5, "list"@, v5);
    let (r6, v6) = moved_keys(m5, graf_pairs());
    lemma_moved_keys(m5, graf_pairs());
    lemma_merged(r6, "graf"@, v6);
    let m6 = merged(r6, "graf"@, v6);
    assert(migrated(m).0 == m6);
    assert forall|k: Seq<char>| is_legacy_key(k) implies !(#[trigger] migrated(m).0.dom().contains(k)) by {
        if has_old(core_pairs(), k) {
            assert(!m1.dom().contains(k));
            assert(!m2.dom().contains(k));
            assert(!m3.dom().contains(k));
            assert(!m4.dom().contains(k));
            assert(!m5.dom().contains(k));
        } else if k == "theme"@ || k == "display"@ {
            assert(!m2.dom().contains(k));
            assert(!m3.dom().contains(k));
            assert(!m4.dom().contains(k));
            assert(!m5.dom().contains(k));
        } else if has_old(editor_pairs(), k) {
            assert(!m4.dom().contains(k));
            assert(!m5.dom().contains(k));
        } else if has_old(list_pairs(), k) {
            assert(!m5.dom().contains(k));
        }
    }
}

/// Migrating a migrated configuration changes nothing.
pub proof fn migration_idempotent(m: Map<Seq<char>, NodeV>)
    ensures
        migrated(migrated(m).0) == (migrated(m).0, false),
{
    let m6 = migrated(m).0;
    migration_leaves_no_legacy_key(m);
    lemma_moved_keys(m6, core_pairs());
    let n1 = migrated(m6);
    assert forall|k: Seq<char>| has_old(core_pairs(), k) implies !m6.dom().contains(k) by {
        assert(is_legacy_key(k));
    }
    assert(relocated(m6, core_pairs(), "core"@) == (m6, false));
    lemma_ui_step(m6);
    assert(!m6.dom().contains("theme"@)) by {
        assert(is_legacy_key("theme"@));
    }
    assert(!m6.dom().contains("display"@)) by {
        assert(is_legacy_key("display"@));
    }
    lemma_visual_step(m6);
    assert(!m6.dom().contains("visual"@)) by {
        assert(graf_pairs()[2].0 == "visual"@);
        assert(has_old(graf_pairs(), "visual"@));
        assert(is_legacy_key("visual"@));
    }
    lemma_moved_keys(m6, editor_pairs());
    assert forall|k: Seq<char>| has_old(editor_pairs(), k) implies !m6.dom().contains(k) by {
        assert(is_legacy_key(k));
    }
    lemma_moved_keys(m6, list_pairs());
    assert forall|k: Seq<char>| has_old(list_pairs(), k) implies !m6.dom().contains(k) by {
        assert(is_legacy_key(k));
    }
    lemma_moved_keys(m6, graf_pairs());
    assert forall|k: Seq<char>| has_old(graf_pairs(), k) implies !m6.dom().contains(k) by {
        assert(is_legacy_key(k));
    }
}

/// Keys of `pairs` are told apart: no two old keys are equal, nor two new
/// keys.
pub open spec fn pairs_distinct(pairs: Seq<(Seq<char>, Seq<char>)>) -> bool {
    forall|a: int, b: int|
        0 <= a < b < pairs.len() ==> (#[trigger] pairs[a]).0 != (#[trigger] pairs[b]).0 && pairs[a].1
            != pairs[b].1
}

/// `k` is none of the old keys of `pairs`.
pub open spec fn not_old(pairs: Seq<(Seq<char>, Seq<char>)>, k: Seq<char>) -> bool {
    forall|i: int| 0 <= i < pairs.len() ==> (#[trigger] pairs[i]).0 != k
}

/// Moving the keys of `pairs` keeps the value of each old key present under
/// its new key.
proof fn lemma_moved_value(m: Map<Seq<char>, NodeV>, pairs: Seq<(Seq<char>, Seq<char>)>, j: int)
    requires
        0 <= j < pairs.len(),
        pairs_distinct(pairs),
        m.dom().contains(pairs[j].0),
    ensures
        moved_keys(m, pairs).1.dom().contains(pairs[j].1),
        moved_keys(m, pairs).1[pairs[j].1] == m[pairs[j].0],
    decreases pairs.len(),
{
    let pre = pairs.drop_last();
    lemma_moved_keys(m, pre);
    assert forall|a: int, b: int| 0 <= a < b < pre.len() implies (#[trigger] pre[a]).0 != (#[trigger] pre[b]).0
        && pre[a].1 != pre[b].1 by {
        assert(pre[a] == pairs[a] && pre[b] == pairs[b]);
    }
    let (rest, moved) = moved_keys(m, pre);
    if j == pairs.len() - 1 {
        assert(!has_old(pre, pairs[j].0)) by {
            if has_old(pre, pairs[j].0) {
                let i = choose|i: int| 0 <= i < pre.len() && (#[trigger] pre[i]).0 == pairs[j].0;
                assert(pre[i] == pairs[i]);
            }
        }
        assert(rest.dom().contains(pairs[j].0));
        assert(pairs.last() == pairs[j]);
    } else {
        assert(pre[j] == pairs[j]);
        lemma_moved_value(m, pre, j);
        assert(pairs.last() == pairs[pairs.len() - 1]);
        assert(pairs[pairs.len() - 1].1 != pairs[j].1);
    }
}

/// Relocating the keys of `pairs` into the table `name` puts the value of
/// each old key present under its new key in that table.
proof fn lemma_relocated_value(m: Map<Seq<char>, NodeV>, pairs: Seq<(Seq<char>, Seq<char>)>, name: Seq<char>, j: int)
    requires
        0 <= j < pairs.len(),
        pairs_distinct(pairs),
        m.dom().contains(pairs[j].0),
    ensures
        holds_under(relocated(m, pairs, name).0, name, pairs[j].1, m[pairs[j].0]),
{
    lemma_moved_value(m, pairs, j);
    let (rest, moved) = moved_keys(m, pairs);
    assert(moved != Map::<Seq<char>, NodeV>::empty()) by {
        assert(moved.dom().contains(pairs[j].1));
    }
}

/// Relocating keys leaves a key that is neither one of the old keys nor the
/// target table as it was.
proof fn lemma_relocated_keeps(m: Map<Seq<char>, NodeV>, pairs: Seq<(Seq<char>, Seq<char>)>, name: Seq<char>, k: Seq<char>)
    requires
        not_old(pairs, k),
        k != name,
        m.dom().contains(k),
    ensures
        relocated(m, pairs, name).0.dom().contains(k),
        relocated(m, pairs, name).0[k] == m[k],
{
    lemma_moved_keys(m, pairs);
    assert(!has_old(pairs, k)) by {
        if has_old(pairs, k) {
            let i = choose|i: int| 0 <= i < pairs.len() && (#[trigger] pairs[i]).0 == k;
        }
    }
    let (rest, moved) = moved_keys(m, pairs);
    assert(rest.dom().contains(k));
    lemma_merged(rest, name, moved);
}

/// The `ui` step leaves every key but `theme`, `display` and `ui` as it was.
proof fn lemma_ui_keeps(m: Map<Seq<char>, NodeV>, k: Seq<char>)
    requires
        k != "theme"@ && k != "display"@ && k != "ui"@,
        m.dom().contains(k),
    ensures
        ui_step(m).0.dom().contains(k),
        ui_step(m).0[k] == m[k],
{
    let rest = m.remove("theme"@).remove("display"@);
    let moved = table_or_empty(lookup(m, "theme"@)).union_prefer_right(table_or_empty(lookup(m, "display"@)));
    lemma_merged(rest, "ui"@, moved);
}

/// The `visual` step leaves every key but `visual` as it was, and
/// `default_view` too when it is set.
proof fn lemma_visual_keeps(m: Map<Seq<char>, NodeV>, k: Seq<char>)
    requires
        k != "visual"@,
        m.dom().contains(k),
    ensures
        visual_step(m).0.dom().contains(k),
        visual_step(m).0[k] == m[k],
{
}

/// The table `name` of `r` holds `v` under `key`.
pub open spec fn holds_under(r: Map<Seq<char>, NodeV>, name: Seq<char>, key: Seq<char>, v: NodeV) -> bool {
    &&& r.dom().contains(name)
    &&& r[name] is Table
    &&& r[name]->Table_0.dom().contains(key)
    &&& r[name]->Table_0[key] == v
}

/// The renamings of the keys that an older version wrote at the top level:
/// old key, table it moves to, new key. (`visual` also moves to `graf`, less
/// its `notes_layout`; `theme` and `display` merge into `ui`.)
pub open spec fn legacy_renames() -> Seq<(Seq<char>, Seq<char>, Seq<char>)> {
    seq![
        ("storage_path"@, "core"@, "storage_path"@),
        ("previous_storage_path"@, "core"@, "previous_storage_path"@),
        ("mouse_enabled"@, "core"@, "mouse_enabled"@),
        ("default_folder"@, "core"@, "default_folder"@),
        ("confirm_on_delete"@, "core"@, "confirm_on_delete"@),
        ("confirm_on_quit"@, "core"@, "confirm_on_quit"@),
        ("external_editor"@, "editor"@, "external_command"@),
        ("external_editor_enabled"@, "editor"@, "external_enabled"@),
        ("editor_preview_enabled"@, "editor"@, "preview_enabled"@),
        ("show_line_numbers"@, "editor"@, "show_line_numbers"@),
        ("preview_enabled"@, "list"@, "preview_enabled"@),
        ("preview_position"@, "list"@, "preview_position"@),
        ("preview_encryption"@, "list"@, "preview_encryption"@),
        ("date_format"@, "list"@, "date_format"@),
        ("list_density"@, "list"@, "density"@),
        ("show_file_size"@, "list"@, "show_file_size"@),
        ("show_date_in_list"@, "list"@, "show_date_in_list"@),
        ("default_view"@, "list"@, "default_view"@),
        ("default_sort_field"@, "list"@, "default_sort_field"@),
        ("default_sort_order"@, "list"@, "default_sort_order"@),
        ("pinned_on_top"@, "list"@, "pinned_on_top"@),
        ("search"@, "graf"@, "search"@),
        ("graph_preview_enabled"@, "graf"@, "preview_enabled"@),
        ("physics"@, "graf"@, "physics"@),
        ("interaction"@, "graf"@, "interaction"@),
        ("filter"@, "graf"@, "filter"@),
    ]
}

/// The old keys of each step are told apart, and so are the new ones.
proof fn lemma_pairs_distinct()
    ensures
        pairs_distinct(core_pairs()),
        pairs_distinct(editor_pairs()),
        pairs_distinct(list_pairs()),
        pairs_distinct(graf_pairs()),
{
    reveal_strlit("confirm_on_delete");
    reveal_strlit("confirm_on_quit");
    reveal_strlit("date_format");
    reveal_strlit("default_folder");
    reveal_strlit("default_sort_field");
    reveal_strlit("default_sort_order");
    reveal_strlit("default_view");
    reveal_strlit("density");
    reveal_strlit("editor_preview_enabled");
    reveal_strlit("external_command");
    reveal_strlit("external_editor");
    reveal_strlit("external_editor_enabled");
    reveal_strlit("external_enabled");
    reveal_strlit("filter");
    reveal_strlit("graph_preview_enabled");
    reveal_strlit("interaction");
    reveal_strlit("list_density");
    reveal_strlit("mouse_enabled");
    reveal_strlit("physics");
    reveal_strlit("pinned_on_top");
    reveal_strlit("preview_enabled");
    reveal_strlit("preview_encryption");
    reveal_strlit("preview_position");
    reveal_strlit("previous_storage_path");
    reveal_strlit("search");
    reveal_strlit("show_date_in_list");
    reveal_strlit("show_file_size");
    reveal_strlit("show_line_numbers");
    reveal_strlit("storage_path");
    reveal_strlit("visual");
    assert("storage_path"@.len() != "previous_storage_path"@.len());
    assert("storage_path"@.len() != "previous_storage_path"@.len());
    assert("storage_path"@.len() != "mouse_enabled"@.len());
    assert("storage_path"@.len() != "mouse_enabled"@.len());
    assert("storage_path"@.len() != "default_folder"@.len());
    assert("storage_path"@.len() != "default_folder"@.len());
    assert("storage_path"@.len() != "confirm_on_delete"@.len());
    assert("storage_path"@.len() != "confirm_on_delete"@.len());
    assert("storage_path"@.len() != "confirm_on_quit"@.len());
    assert("storage_path"@.len() != "confirm_on_quit"@.len());
    assert("previous_storage_path"@.len() != "mouse_enabled"@.len());
    assert("previous_storage_path"@.len() != "mouse_enabled"@.len());
    assert("previous_storage_path"@.len() != "default_folder"@.len());
    assert("previous_storage_path"@.len() != "default_folder"@.len());
    assert("previous_storage_path"@.len() != "confirm_on_delete"@.len());
    assert("previous_storage_path"@.len() != "confirm_on_delete"@.len());
    assert("previous_storage_path"@.len() != "confirm_on_quit"@.len());
    assert("previous_storage_path"@.len() != "confirm_on_quit"@.len());
    assert("mouse_enabled"@.len() != "default_folder"@.len());
    assert("mouse_enabled"@.len() != "default_folder"@.len());
    assert("mouse_enabled"@.len() != "confirm_on_delete"@.len());
    assert("mouse_enabled"@.len() != "confirm_on_delete"@.len());
    assert("mouse_enabled"@.len() != "confirm_on_quit"@.len());
    assert("mouse_enabled"@.len() != "confirm_on_quit"@.len());
    assert("default_folder"@.len() != "confirm_on_delete"@.len());
    assert("default_folder"@.len() != "confirm_on_delete"@.len());
    assert("default_folder"@.len() != "confirm_on_quit"@.len());
    assert("default_folder"@.len() != "confirm_on_quit"@.len());
    assert("confirm_on_delete"@.len() != "confirm_on_quit"@.len());
    assert("confirm_on_delete"@.len() != "confirm_on_quit"@.len());
    assert("external_editor"@.len() != "external_editor_enabled"@.len());
    assert("external_command"@[9] != "external_enabled"@[9]);
    assert("external_editor"@.len() != "editor_preview_enabled"@.len());
    assert("external_command"@.len() != "preview_enabled"@.len());
    assert("external_editor"@.len() != "show_line_numbers"@.len());
    assert("external_command"@.len() != "show_line_numbers"@.len());
    assert("external_editor_enabled"@.len() != "editor_preview_enabled"@.len());
    assert("external_enabled"@.len() != "preview_enabled"@.len());
    assert("external_editor_enabled"@.len() != "show_line_numbers"@.len());
    assert("external_enabled"@.len() != "show_line_numbers"@.len());
    assert("editor_preview_enabled"@.len() != "show_line_numbers"@.len());
    assert("preview_enabled"@.len() != "show_line_numbers"@.len());
    assert("preview_enabled"@.len() != "preview_position"@.len());
    assert("preview_enabled"@.len() != "preview_position"@.len());
    assert("preview_enabled"@.len() != "preview_encryption"@.len());
    assert("preview_enabled"@.len() != "preview_encryption"@.len());
    assert("preview_enabled"@.len() != "date_format"@.len());
    assert("preview_enabled"@.len() != "date_format"@.len());
    assert("preview_enabled"@.len() != "list_density"@.len());
    assert("preview_enabled"@.len() != "density"@.len());
    assert("preview_enabled"@.len() != "show_file_size"@.len());
    assert("preview_enabled"@.len() != "show_file_size"@.len());
    assert("preview_enabled"@.len() != "show_date_in_list"@.len());
    assert("preview_enabled"@.len() != "show_date_in_list"@.len());
    assert("preview_enabled"@.len() != "default_view"@.len());
    assert("preview_enabled"@.len() != "default_view"@.len());
    assert("preview_enabled"@.len() != "default_sort_field"@.len());
    assert("preview_enabled"@.len() != "default_sort_field"@.len());
    assert("preview_enabled"@.len() != "default_sort_order"@.len());
    assert("preview_enabled"@.len() != "default_sort_order"@.len());
    assert("preview_enabled"@.len() != "pinned_on_top"@.len());
    assert("preview_enabled"@.len() != "pinned_on_top"@.len());
    assert("preview_position"@.len() != "preview_encryption"@.len());
    assert("preview_position"@.len() != "preview_encryption"@.len());
    assert("preview_position"@.len() != "date_format"@.len());
    assert("preview_position"@.len() != "date_format"@.len());
    assert("preview_position"@.len() != "list_density"@.len());
    assert("preview_position"@.len() != "density"@.len());
    assert("preview_position"@.len() != "show_file_size"@.len());
    assert("preview_position"@.len() != "show_file_size"@.len());
    assert("preview_position"@.len() != "show_date_in_list"@.len());
    assert("preview_position"@.len() != "show_date_in_list"@.len());
    assert("preview_position"@.len() != "default_view"@.len());
    assert("preview_position"@.len() != "default_view"@.len());
    assert("preview_position"@.len() != "default_sort_field"@.len());
    assert("preview_position"@.len() != "default_sort_field"@.len());
    assert("preview_position"@.len() != "default_sort_order"@.len());
    assert("preview_position"@.len() != "default_sort_order"@.len());
    assert("preview_position"@.len() != "pinned_on_top"@.len());
    assert("preview_position"@.len() != "pinned_on_top"@.len());
    assert("preview_encryption"@.len() != "date_format"@.len());
    assert("preview_encryption"@.len() != "date_format"@.len());
    assert("preview_encryption"@.len() != "list_density"@.len());
    assert("preview_encryption"@.len() != "density"@.len());
    assert("preview_encryption"@.len() != "show_file_size"@.len());
    assert("preview_encryption"@.len() != "show_file_size"@.len());
    assert("preview_encryption"@.len() != "show_date_in_list"@.len());
    assert("preview_encryption"@.len() != "show_date_in_list"@.len());
    assert("preview_encryption"@.len() != "default_view"@.len());
    assert("preview_encryption"@.len() != "default_view"@.len());
    assert("preview_encryption"@[0] != "default_sort_field"@[0]);
    assert("preview_encryption"@[0] != "default_sort_field"@[0]);
    assert("preview_encryption"@[0] != "default_sort_order"@[0]);
    assert("preview_encryption"@[0] != "default_sort_order"@[0]);
    assert("preview_encryption"@.len() != "pinned_on_top"@.len());
    assert("preview_encryption"@.len() != "pinned_on_top"@.len());
    assert("date_format"@.len() != "list_density"@.len());
    assert("date_format"@.len() != "density"@.len());
    assert("date_format"@.len() != "show_file_size"@.len());
    assert("date_format"@.len() != "show_file_size"@.len());
    assert("date_format"@.len() != "show_date_in_list"@.len());
    assert("date_format"@.len() != "show_date_in_list"@.len());
    assert("date_format"@.len() != "default_view"@.len());
    assert("date_format"@.len() != "default_view"@.len());
    assert("date_format"@.len() != "default_sort_field"@.len());
    assert("date_format"@.len() != "default_sort_field"@.len());
    assert("date_format"@.len() != "default_sort_order"@.len());
    assert("date_format"@.len() != "default_sort_order"@.len());
    assert("date_format"@.len() != "pinned_on_top"@.len());
    assert("date_format"@.len() != "pinned_on_top"@.len());
    assert("list_density"@.len() != "show_file_size"@.len());
    assert("density"@.len() != "show_file_size"@.len());
    assert("list_density"@.len() != "show_date_in_list"@.len());
    assert("density"@.len() != "show_date_in_list"@.len());
    assert("list_density"@[0] != "default_view"@[0]);
    assert("density"@.len() != "default_view"@.len());
    assert("list_density"@.len() != "default_sort_field"@.len());
    assert("density"@.len() != "default_sort_field"@.len());
    assert("list_density"@.len() != "default_sort_order"@.len());
    assert("density"@.len() != "default_sort_order"@.len());
    assert("list_density"@.len() != "pinned_on_top"@.len());
    assert("density"@.len() != "pinned_on_top"@.len());
    assert("show_file_size"@.len() != "show_date_in_list"@.len());
    assert("show_file_size"@.len() != "show_date_in_list"@.len());
    assert("show_file_size"@.len() != "default_view"@.len());
    assert("show_file_size"@.len() != "default_view"@.len());
    assert("show_file_size"@.len() != "default_sort_field"@.len());
    assert("show_file_size"@.len() != "default_sort_field"@.len());
    assert("show_file_size"@.len() != "default_sort_order"@.len());
    assert("show_file_size"@.len() != "default_sort_order"@.len());
    assert("show_file_size"@.len() != "pinned_on_top"@.len());
    assert("show_file_size"@.len() != "pinned_on_top"@.len());
    assert("show_date_in_list"@.len() != "default_view"@.len());
    assert("show_date_in_list"@.len() != "default_view"@.len());
    assert("show_date_in_list"@.len() != "default_sort_field"@.len());
    assert("show_date_in_list"@.len() != "default_sort_field"@.len());
    assert("show_date_in_list"@.len() != "default_sort_order"@.len());
    assert("show_date_in_list"@.len() != "default_sort_order"@.len());
    assert("show_date_in_list"@.len() != "pinned_on_top"@.len());
    assert("show_date_in_list"@.len() != "pinned_on_top"@.len());
    assert("default_view"@.len() != "default_sort_field"@.len());
    assert("default_view"@.len() != "default_sort_field"@.len());
    assert("default_view"@.len() != "default_sort_order"@.len());
    assert("default_view"@.len() != "default_sort_order"@.len());
    assert("default_view"@.len() != "pinned_on_top"@.len());
    assert("default_view"@.len() != "pinned_on_top"@.len());
    assert("default_sort_field"@[13] != "default_sort_order"@[13]);
    assert("default_sort_field"@[13] != "default_sort_order"@[13]);
    assert("default_sort_field"@.len() != "pinned_on_top"@.len());
    assert("default_sort_field"@.len() != "pinned_on_top"@.len());
    assert("default_sort_order"@.len() != "pinned_on_top"@.len());
    assert("default_sort_order"@.len() != "pinned_on_top"@.len());
    assert("search"@.len() != "graph_preview_enabled"@.len());
    assert("search"@.len() != "preview_enabled"@.len());
    assert("search"@[0] != "visual"@[0]);
    assert("search"@[0] != "visual"@[0]);
    assert("search"@.len() != "physics"@.len());
    assert("search"@.len() != "physics"@.len());
    assert("search"@.len() != "interaction"@.len());
    assert("search"@.len() != "interaction"@.len());
    assert("search"@[0] != "filter"@[0]);
    assert("search"@[0] != "filter"@[0]);
    assert("graph_preview_enabled"@.len() != "visual"@.len());
    assert("preview_enabled"@.len() != "visual"@.len());
    assert("graph_preview_enabled"@.len() != "physics"@.len());
    assert("preview_enabled"@.len() != "physics"@.len());
    assert("graph_preview_enabled"@.len() != "interaction"@.len());
    assert("preview_enabled"@.len() != "interaction"@.len());
    assert("graph_preview_enabled"@.len() != "filter"@.len());
    assert("preview_enabled"@.len() != "filter"@.len());
    assert("visual"@.len() != "physics"@.len());
    assert("visual"@.len() != "physics"@.len());
    assert("visual"@.len() != "interaction"@.len());
    assert("visual"@.len() != "interaction"@.len());
    assert("visual"@[0] != "filter"@[0]);
    assert("visual"@[0] != "filter"@[0]);
    assert("physics"@.len() != "interaction"@.len());
    assert("physics"@.len() != "interaction"@.len());
    assert("physics"@.len() != "filter"@.len());
    assert("physics"@.len() != "filter"@.len());
    assert("interaction"@.len() != "filter"@.len());
    assert("interaction"@.len() != "filter"@.len());
}

/// The editor keys are none of the keys the steps before them move or add.
proof fn lemma_editor_keys_fresh()
    ensures
        not_old(core_pairs(), "external_editor"@) && "external_editor"@ != "core"@ && "external_editor"@ != "theme"@ && "external_editor"@ != "display"@ && "external_editor"@ != "ui"@ && "external_editor"@ != "visual"@,
        not_old(core_pairs(), "external_editor_enabled"@) && "external_editor_enabled"@ != "core"@ && "external_editor_enabled"@ != "theme"@ && "external_editor_enabled"@ != "display"@ && "external_editor_enabled"@ != "ui"@ && "external_editor_enabled"@ != "visual"@,
        not_old(core_pairs(), "editor_preview_enabled"@) && "editor_preview_enabled"@ != "core"@ && "editor_preview_enabled"@ != "theme"@ && "editor_preview_enabled"@ != "display"@ && "editor_preview_enabled"@ != "ui"@ && "editor_preview_enabled"@ != "visual"@,
        not_old(core_pairs(), "show_line_numbers"@) && "show_line_numbers"@ != "core"@ && "show_line_numbers"@ != "theme"@ && "show_line_numbers"@ != "display"@ && "show_line_numbers"@ != "ui"@ && "show_line_numbers"@ != "visual"@,
{
    reveal_strlit("confirm_on_delete");
    reveal_strlit("confirm_on_quit");
    reveal_strlit("core");
    reveal_strlit("default_folder");
    reveal_strlit("display");
    reveal_strlit("editor_preview_enabled");
    reveal_strlit("external_editor");
    reveal_strlit("external_editor_enabled");
    reveal_strlit("mouse_enabled");
    reveal_strlit("previous_storage_path");
    reveal_strlit("show_line_numbers");
    reveal_strlit("storage_path");
    reveal_strlit("theme");
    reveal_strlit("ui");
    reveal_strlit("visual");
    assert("external_editor"@.len() != "storage_path"@.len());
    assert("external_editor"@.len() != "previous_storage_path"@.len());
    assert("external_editor"@.len() != "mouse_enabled"@.len());
    assert("external_editor"@.len() != "default_folder"@.len());
    assert("external_editor"@.len() != "confirm_on_delete"@.len());
    assert("external_editor"@[0] != "confirm_on_quit"@[0]);
    assert("external_editor"@.len() != "core"@.len());
    assert("external_editor"@.len() != "theme"@.len());
    assert("external_editor"@.len() != "display"@.len());
    assert("external_editor"@.len() != "ui"@.len());
    assert("external_editor"@.len() != "visual"@.len());
    assert("external_editor_enabled"@.len() != "storage_path"@.len());
    assert("external_editor_enabled"@.len() != "previous_storage_path"@.len());
    assert("external_editor_enabled"@.len() != "mouse_enabled"@.len());
    assert("external_editor_enabled"@.len() != "default_folder"@.len());
    assert("external_editor_enabled"@.len() != "confirm_on_delete"@.len());
    assert("external_editor_enabled"@.len() != "confirm_on_quit"@.len());
    assert("external_editor_enabled"@.len() != "core"@.len());
    assert("external_editor_enabled"@.len() != "theme"@.len());
    assert("external_editor_enabled"@.len() != "display"@.len());
    assert("external_editor_enabled"@.len() != "ui"@.len());
    assert("external_editor_enabled"@.len() != "visual"@.len());
    assert("editor_preview_enabled"@.len() != "storage_path"@.len());
    assert("editor_preview_enabled"@.len() != "previous_storage_path"@.len());
    assert("editor_preview_enabled"@.len() != "mouse_enabled"@.len());
    assert("editor_preview_enabled"@.len() != "default_folder"@.len());
    assert("editor_preview_enabled"@.len() != "confirm_on_delete"@.len());
    assert("editor_preview_enabled"@.len() != "confirm_on_quit"@.len());
    assert("editor_preview_enabled"@.len() != "core"@.len());
    assert("editor_preview_enabled"@.len() != "theme"@.len());
    assert("editor_preview_enabled"@.len() != "display"@.len());
    assert("editor_preview_enabled"@.len() != "ui"@.len());
    assert("editor_preview_enabled"@.len() != "visual"@.len());
    assert("show_line_numbers"@.len() != "storage_path"@.len());
    assert("show_line_numbers"@.len() != "previous_storage_path"@.len());
    assert("show_line_numbers"@.len() != "mouse_enabled"@.len());
    assert("show_line_numbers"@.len() != "default_folder"@.len());
    assert("show_line_numbers"@[0] != "confirm_on_delete"@[0]);
    assert("show_line_numbers"@.len() != "confirm_on_quit"@.len());
    assert("show_line_numbers"@.len() != "core"@.len());
    assert("show_line_numbers"@.len() != "theme"@.len());
    assert("show_line_numbers"@.len() != "display"@.len());
    assert("show_line_numbers"@.len() != "ui"@.len());
    assert("show_line_numbers"@.len() != "visual"@.len());
}

/// The list keys are none of the keys the steps before them move or add.
proof fn lemma_list_keys_fresh()
    ensures
        not_old(core_pairs(), "preview_enabled"@) && not_old(editor_pairs(), "preview_enabled"@) && "preview_enabled"@ != "core"@ && "preview_enabled"@ != "editor"@ && "preview_enabled"@ != "theme"@ && "preview_enabled"@ != "display"@ && "preview_enabled"@ != "ui"@ && "preview_enabled"@ != "visual"@,
        not_old(core_pairs(), "preview_position"@) && not_old(editor_pairs(), "preview_position"@) && "preview_position"@ != "core"@ && "preview_position"@ != "editor"@ && "preview_position"@ != "theme"@ && "preview_position"@ != "display"@ && "preview_position"@ != "ui"@ && "preview_position"@ != "visual"@,
        not_old(core_pairs(), "preview_encryption"@) && not_old(editor_pairs(), "preview_encryption"@) && "preview_encryption"@ != "core"@ && "preview_encryption"@ != "editor"@ && "preview_encryption"@ != "theme"@ && "preview_encryption"@ != "display"@ && "preview_encryption"@ != "ui"@ && "preview_encryption"@ != "visual"@,
        not_old(core_pairs(), "date_format"@) && not_old(editor_pairs(), "date_format"@) && "date_format"@ != "core"@ && "date_format"@ != "editor"@ && "date_format"@ != "theme"@ && "date_format"@ != "display"@ && "date_format"@ != "ui"@ && "date_format"@ != "visual"@,
        not_old(core_pairs(), "list_density"@) && not_old(editor_pairs(), "list_density"@) && "list_density"@ != "core"@ && "list_density"@ != "editor"@ && "list_density"@ != "theme"@ && "list_density"@ != "display"@ && "list_density"@ != "ui"@ && "list_density"@ != "visual"@,
        not_old(core_pairs(), "show_file_size"@) && not_old(editor_pairs(), "show_file_size"@) && "show_file_size"@ != "core"@ && "show_file_size"@ != "editor"@ && "show_file_size"@ != "theme"@ && "show_file_size"@ != "display"@ && "show_file_size"@ != "ui"@ && "show_file_size"@ != "visual"@,
        not_old(core_pairs(), "show_date_in_list"@) && not_old(editor_pairs(), "show_date_in_list"@) && "show_date_in_list"@ != "core"@ && "show_date_in_list"@ != "editor"@ && "show_date_in_list"@ != "theme"@ && "show_date_in_list"@ != "display"@ && "show_date_in_list"@ != "ui"@ && "show_date_in_list"@ != "visual"@,
        not_old(core_pairs(), "default_view"@) && not_old(editor_pairs(), "default_view"@) && "default_view"@ != "core"@ && "default_view"@ != "editor"@ && "default_view"@ != "theme"@ && "default_view"@ != "display"@ && "default_view"@ != "ui"@ && "default_view"@ != "visual"@,
        not_old(core_pairs(), "default_sort_field"@) && not_old(editor_pairs(), "default_sort_field"@) && "default_sort_field"@ != "core"@ && "default_sort_field"@ != "editor"@ && "default_sort_field"@ != "theme"@ && "default_sort_field"@ != "display"@ && "default_sort_field"@ != "ui"@ && "default_sort_field"@ != "visual"@,
        not_old(core_pairs(), "default_sort_order"@) && not_old(editor_pairs(), "default_sort_order"@) && "default_sort_order"@ != "core"@ && "default_sort_order"@ != "editor"@ && "default_sort_order"@ != "theme"@ && "default_sort_order"@ != "display"@ && "default_sort_order"@ != "ui"@ && "default_sort_order"@ != "visual"@,
        not_old(core_pairs(), "pinned_on_top"@) && not_old(editor_pairs(), "pinned_on_top"@) && "pinned_on_top"@ != "core"@ && "pinned_on_top"@ != "editor"@ && "pinned_on_top"@ != "theme"@ && "pinned_on_top"@ != "display"@ && "pinned_on_top"@ != "ui"@ && "pinned_on_top"@ != "visual"@,
{
    reveal_strlit("confirm_on_delete");
    reveal_strlit("confirm_on_quit");
    reveal_strlit("core");
    reveal_strlit("date_format");
    reveal_strlit("default_folder");
    reveal_strlit("default_sort_field");
    reveal_strlit("default_sort_order");
    reveal_strlit("default_view");
    reveal_strlit("display");
    reveal_strlit("editor");
    reveal_strlit("editor_preview_enabled");
    reveal_strlit("external_editor");
    reveal_strlit("external_editor_enabled");
    reveal_strlit("list_density");
    reveal_strlit("mouse_enabled");
    reveal_strlit("pinned_on_top");
    reveal_strlit("preview_enabled");
    reveal_strlit("preview_encryption");
    reveal_strlit("preview_position");
    reveal_strlit("previous_storage_path");
    reveal_strlit("show_date_in_list");
    reveal_strlit("show_file_size");
    reveal_strlit("show_line_numbers");
    reveal_strlit("storage_path");
    reveal_strlit("theme");
    reveal_strlit("ui");
    reveal_strlit("visual");
    assert("preview_enabled"@.len() != "storage_path"@.len());
    assert("preview_enabled"@.len() != "previous_storage_path"@.len());
    assert("preview_enabled"@.len() != "mouse_enabled"@.len());
    assert("preview_enabled"@.len() != "default_folder"@.len());
    assert("preview_enabled"@.len() != "confirm_on_delete"@.len());
    assert("preview_enabled"@[0] != "confirm_on_quit"@[0]);
    assert("preview_enabled"@[0] != "external_editor"@[0]);
    assert("preview_enabled"@.len() != "external_editor_enabled"@.len());
    assert("preview_enabled"@.len() != "editor_preview_enabled"@.len());
    assert("preview_enabled"@.len() != "show_line_numbers"@.len());
    assert("preview_enabled"@.len() != "core"@.len());
    assert("preview_enabled"@.len() != "editor"@.len());
    assert("preview_enabled"@.len() != "theme"@.len());
    assert("preview_enabled"@.len() != "display"@.len());
    assert("preview_enabled"@.len() != "ui"@.len());
    assert("preview_enabled"@.len() != "visual"@.len());
    assert("preview_position"@.len() != "storage_path"@.len());
    assert("preview_position"@.len() != "previous_storage_path"@.len());
    assert("preview_position"@.len() != "mouse_enabled"@.len());
    assert("preview_position"@.len() != "default_folder"@.len());
    assert("preview_position"@.len() != "confirm_on_delete"@.len());
    assert("preview_position"@.len() != "confirm_on_quit"@.len());
    assert("preview_position"@.len() != "external_editor"@.len());
    assert("preview_position"@.len() != "external_editor_enabled"@.len());
    assert("preview_position"@.len() != "editor_preview_enabled"@.len());
    assert("preview_position"@.len() != "show_line_numbers"@.len());
    assert("preview_position"@.len() != "core"@.len());
    assert("preview_position"@.len() != "editor"@.len());
    assert("preview_position"@.len() != "theme"@.len());
    assert("preview_position"@.len() != "display"@.len());
    assert("preview_position"@.len() != "ui"@.len());
    assert("preview_position"@.len() != "visual"@.len());
    assert("preview_encryption"@.len() != "storage_path"@.len());
    assert("preview_encryption"@.len() != "previous_storage_path"@.len());
    assert("preview_encryption"@.len() != "mouse_enabled"@.len());
    assert("preview_encryption"@.len() != "default_folder"@.len());
    assert("preview_encryption"@.len() != "confirm_on_delete"@.len());
    assert("preview_encryption"@.len() != "confirm_on_quit"@.len());
    assert("preview_encryption"@.len() != "external_editor"@.len());
    assert("preview_encryption"@.len() != "external_editor_enabled"@.len());
    assert("preview_encryption"@.len() != "editor_preview_enabled"@.len());
    assert("preview_encryption"@.len() != "show_line_numbers"@.len());
    assert("preview_encryption"@.len() != "core"@.len());
    assert("preview_encryption"@.len() != "editor"@.len());
    assert("preview_encryption"@.len() != "theme"@.len());
    assert("preview_encryption"@.len() != "display"@.len());
    assert("preview_encryption"@.len() != "ui"@.len());
    assert("preview_encryption"@.len() != "visual"@.len());
    assert("date_format"@.len() != "storage_path"@.len());
    assert("date_format"@.len() != "previous_storage_path"@.len());
    assert("date_format"@.len() != "mouse_enabled"@.len());
    assert("date_format"@.len() != "default_folder"@.len());
    assert("date_format"@.len() != "confirm_on_delete"@.len());
    assert("date_format"@.len() != "confirm_on_quit"@.len());
    assert("date_format"@.len() != "external_editor"@.len());
    assert("date_format"@.len() != "external_editor_enabled"@.len());
    assert("date_format"@.len() != "editor_preview_enabled"@.len());
    assert("date_format"@.len() != "show_line_numbers"@.len());
    assert("date_format"@.len() != "core"@.len());
    assert("date_format"@.len() != "editor"@.len());
    assert("date_format"@.len() != "theme"@.len());
    assert("date_format"@.len() != "display"@.len());
    assert("date_format"@.len() != "ui"@.len());
    assert("date_format"@.len() != "visual"@.len());
    assert("list_density"@[0] != "storage_path"@[0]);
    assert("list_density"@.len() != "previous_storage_path"@.len());
    assert("list_density"@.len() != "mouse_enabled"@.len());
    assert("list_density"@.len() != "default_folder"@.len());
    assert("list_density"@.len() != "confirm_on_delete"@.len());
    assert("list_density"@.len() != "confirm_on_quit"@.len());
    assert("list_density"@.len() != "external_editor"@.len());
    assert("list_density"@.len() != "external_editor_enabled"@.len());
    assert("list_density"@.len() != "editor_preview_enabled"@.len());
    assert("list_density"@.len() != "show_line_numbers"@.len());
    assert("list_density"@.len() != "core"@.len());
    assert("list_density"@.len() != "editor"@.len());
    assert("list_density"@.len() != "theme"@.len());
    assert("list_density"@.len() != "display"@.len());
    assert("list_density"@.len() != "ui"@.len());
    assert("list_density"@.len() != "visual"@.len());
    assert("show_file_size"@.len() != "storage_path"@.len());
    assert("show_file_size"@.len() != "previous_storage_path"@.len());
    assert("show_file_size"@.len() != "mouse_enabled"@.len());
    assert("show_file_size"@[0] != "default_folder"@[0]);
    assert("show_file_size"@.len() != "confirm_on_delete"@.len());
    assert("show_file_size"@.len() != "confirm_on_quit"@.len());
    assert("show_file_size"@.len() != "external_editor"@.len());
    assert("show_file_size"@.len() != "external_editor_enabled"@.len());
    assert("show_file_size"@.len() != "editor_preview_enabled"@.len());
    assert("show_file_size"@.len() != "show_line_numbers"@.len());
    assert("show_file_size"@.len() != "core"@.len());
    assert("show_file_size"@.len() != "editor"@.len());
    assert("show_file_size"@.len() != "theme"@.len());
    assert("show_file_size"@.len() != "display"@.len());
    assert("show_file_size"@.len() != "ui"@.len());
    assert("show_file_size"@.len() != "visual"@.len());
    assert("show_date_in_list"@.len() != "storage_path"@.len());
    assert("show_date_in_list"@.len() != "previous_storage_path"@.len());
    assert("show_date_in_list"@.len() != "mouse_enabled"@.len());
    assert("show_date_in_list"@.len() != "default_folder"@.len());
    assert("show_date_in_list"@[0] != "confirm_on_delete"@[0]);
    assert("show_date_in_list"@.len() != "confirm_on_quit"@.len());
    assert("show_date_in_list"@.len() != "external_editor"@.len());
    assert("show_date_in_list"@.len() != "external_editor_enabled"@.len());
    assert("show_date_in_list"@.len() != "editor_preview_enabled"@.len());
    assert("show_date_in_list"@[5] != "show_line_numbers"@[5]);
    assert("show_date_in_list"@.len() != "core"@.len());
    assert("show_date_in_list"@.len() != "editor"@.len());
    assert("show_date_in_list"@.len() != "theme"@.len());
    assert("show_date_in_list"@.len() != "display"@.len());
    assert("show_date_in_list"@.len() != "ui"@.len());
    assert("show_date_in_list"@.len() != "visual"@.len());
    assert("default_view"@[0] != "storage_path"@[0]);
    assert("default_view"@.len() != "previous_storage_path"@.len());
    assert("default_view"@.len() != "mouse_enabled"@.len());
    assert("default_view"@.len() != "default_folder"@.len());
    assert("default_view"@.len() != "confirm_on_delete"@.len());
    assert("default_view"@.len() != "confirm_on_quit"@.len());
    assert("default_view"@.len() != "external_editor"@.len());
    assert("default_view"@.len() != "external_editor_enabled"@.len());
    assert("default_view"@.len() != "editor_preview_enabled"@.len());
    assert("default_view"@.len() != "show_line_numbers"@.len());
    assert("default_view"@.len() != "core"@.len());
    assert("default_view"@.len() != "editor"@.len());
    assert("default_view"@.len() != "theme"@.len());
    assert("default_view"@.len() != "display"@.len());
    assert("default_view"@.len() != "ui"@.len());
    assert("default_view"@.len() != "visual"@.len());
    assert("default_sort_field"@.len() != "storage_path"@.len());
    assert("default_sort_field"@.len() != "previous_storage_path"@.len());
    assert("default_sort_field"@.len() != "mouse_enabled"@.len());
    assert("default_sort_field"@.len() != "default_folder"@.len());
    assert("default_sort_field"@.len() != "confirm_on_delete"@.len());
    assert("default_sort_field"@.len() != "confirm_on_quit"@.len());
    assert("default_sort_field"@.len() != "external_editor"@.len());
    assert("default_sort_field"@.len() != "external_editor_enabled"@.len());
    assert("default_sort_field"@.len() != "editor_preview_enabled"@.len());
    assert("default_sort_field"@.len() != "show_line_numbers"@.len());
    assert("default_sort_field"@.len() != "core"@.len());
    assert("default_sort_field"@.len() != "editor"@.len());
    assert("default_sort_field"@.len() != "theme"@.len());
    assert("default_sort_field"@.len() != "display"@.len());
    assert("default_sort_field"@.len() != "ui"@.len());
    assert("default_sort_field"@.len() != "visual"@.len());
    assert("default_sort_order"@.len() != "storage_path"@.len());
    assert("default_sort_order"@.len() != "previous_storage_path"@.len());
    assert("default_sort_order"@.len() != "mouse_enabled"@.len());
    assert("default_sort_order"@.len() != "default_folder"@.len());
    assert("default_sort_order"@.len() != "confirm_on_delete"@.len());
    assert("default_sort_order"@.len() != "confirm_on_quit"@.len());
    assert("default_sort_order"@.len() != "external_editor"@.len());
    assert("default_sort_order"@.len() != "external_editor_enabled"@.len());
    assert("default_sort_order"@.len() != "editor_preview_enabled"@.len());
    assert("default_sort_order"@.len() != "show_line_numbers"@.len());
    assert("default_sort_order"@.len() != "core"@.len());
    assert("default_sort_order"@.len() != "editor"@.len());
    assert("default_sort_order"@.len() != "theme"@.len());
    assert("default_sort_order"@.len() != "display"@.len());
    assert("default_sort_order"@.len() != "ui"@.len());
    assert("default_sort_order"@.len() != "visual"@.len());
    assert("pinned_on_top"@.len() != "storage_path"@.len());
    assert("pinned_on_top"@.len() != "previous_storage_path"@.len());
    assert("pinned_on_top"@[0] != "mouse_enabled"@[0]);
    assert("pinned_on_top"@.len() != "default_folder"@.len());
    assert("pinned_on_top"@.len() != "confirm_on_delete"@.len());
    assert("pinned_on_top"@.len() != "confirm_on_quit"@.len());
    assert("pinned_on_top"@.len() != "external_editor"@.len());
    assert("pinned_on_top"@.len() != "external_editor_enabled"@.len());
    assert("pinned_on_top"@.len() != "editor_preview_enabled"@.len());
    assert("pinned_on_top"@.len() != "show_line_numbers"@.len());
    assert("pinned_on_top"@.len() != "core"@.len());
    assert("pinned_on_top"@.len() != "editor"@.len());
    assert("pinned_on_top"@.len() != "theme"@.len());
    assert("pinned_on_top"@.len() != "display"@.len());
    assert("pinned_on_top"@.len() != "ui"@.len());
    assert("pinned_on_top"@.len() != "visual"@.len());
}

/// The graph keys (but `visual`) are none of the keys the steps before them move or add.
proof fn lemma_graf_keys_fresh()
    ensures
        not_old(core_pairs(), "search"@) && not_old(editor_pairs(), "search"@) && not_old(list_pairs(), "search"@) && "search"@ != "core"@ && "search"@ != "editor"@ && "search"@ != "list"@ && "search"@ != "theme"@ && "search"@ != "display"@ && "search"@ != "ui"@ && "search"@ != "visual"@,
        not_old(core_pairs(), "graph_preview_enabled"@) && not_old(editor_pairs(), "graph_preview_enabled"@) && not_old(list_pairs(), "graph_preview_enabled"@) && "graph_preview_enabled"@ != "core"@ && "graph_preview_enabled"@ != "editor"@ && "graph_preview_enabled"@ != "list"@ && "graph_preview_enabled"@ != "theme"@ && "graph_preview_enabled"@ != "display"@ && "graph_preview_enabled"@ != "ui"@ && "graph_preview_enabled"@ != "visual"@,
        not_old(core_pairs(), "physics"@) && not_old(editor_pairs(), "physics"@) && not_old(list_pairs(), "physics"@) && "physics"@ != "core"@ && "physics"@ != "editor"@ && "physics"@ != "list"@ && "physics"@ != "theme"@ && "physics"@ != "display"@ && "physics"@ != "ui"@ && "physics"@ != "visual"@,
        not_old(core_pairs(), "interaction"@) && not_old(editor_pairs(), "interaction"@) && not_old(list_pairs(), "interaction"@) && "interaction"@ != "core"@ && "interaction"@ != "editor"@ && "interaction"@ != "list"@ && "interaction"@ != "theme"@ && "interaction"@ != "display"@ && "interaction"@ != "ui"@ && "interaction"@ != "visual"@,
        not_old(core_pairs(), "filter"@) && not_old(editor_pairs(), "filter"@) && not_old(list_pairs(), "filter"@) && "filter"@ != "core"@ && "filter"@ != "editor"@ && "filter"@ != "list"@ && "filter"@ != "theme"@ && "filter"@ != "display"@ && "filter"@ != "ui"@ && "filter"@ != "visual"@,
{
    reveal_strlit("confirm_on_delete");
    reveal_strlit("confirm_on_quit");
    reveal_strlit("core");
    reveal_strlit("date_format");
    reveal_strlit("default_folder");
    reveal_strlit("default_sort_field");
    reveal_strlit("default_sort_order");
    reveal_strlit("default_view");
    reveal_strlit("display");
    reveal_strlit("editor");
    reveal_strlit("editor_preview_enabled");
    reveal_strlit("external_editor");
    reveal_strlit("external_editor_enabled");
    reveal_strlit("filter");
    reveal_strlit("graph_preview_enabled");
    reveal_strlit("interaction");
    reveal_strlit("list");
    reveal_strlit("list_density");
    reveal_strlit("mouse_enabled");
    reveal_strlit("physics");
    reveal_strlit("pinned_on_top");
    reveal_strlit("preview_enabled");
    reveal_strlit("preview_encryption");
    reveal_strlit("preview_position");
    reveal_strlit("previous_storage_path");
    reveal_strlit("search");
    reveal_strlit("show_date_in_list");
    reveal_strlit("show_file_size");
    reveal_strlit("show_line_numbers");
    reveal_strlit("storage_path");
    reveal_strlit("theme");
    reveal_strlit("ui");
    reveal_strlit("visual");
    assert("search"@.len() != "storage_path"@.len());
    assert("search"@.len() != "previous_storage_path"@.len());
    assert("search"@.len() != "mouse_enabled"@.len());
    assert("search"@.len() != "default_folder"@.len());
    assert("search"@.len() != "confirm_on_delete"@.len());
    assert("search"@.len() != "confirm_on_quit"@.len());
    assert("search"@.len() != "external_editor"@.len());
    assert("search"@.len() != "external_editor_enabled"@.len());
    assert("search"@.len() != "editor_preview_enabled"@.len());
    assert("search"@.len() != "show_line_numbers"@.len());
    assert("search"@.len() != "preview_enabled"@.len());
    assert("search"@.len() != "preview_position"@.len());
    assert("search"@.len() != "preview_encryption"@.len());
    assert("search"@.len() != "date_format"@.len());
    assert("search"@.len() != "list_density"@.len());
    assert("search"@.len() != "show_file_size"@.len());
    assert("search"@.len() != "show_date_in_list"@.len());
    assert("search"@.len() != "default_view"@.len());
    assert("search"@.len() != "default_sort_field"@.len());
    assert("search"@.len() != "default_sort_order"@.len());
    assert("search"@.len() != "pinned_on_top"@.len());
    assert("search"@.len() != "core"@.len());
    assert("search"@[0] != "editor"@[0]);
    assert("search"@.len() != "list"@.len());
    assert("search"@.len() != "theme"@.len());
    assert("search"@.len() != "display"@.len());
    assert("search"@.len() != "ui"@.len());
    assert("search"@[0] != "visual"@[0]);
    assert("graph_preview_enabled"@.len() != "storage_path"@.len());
    assert("graph_preview_enabled"@[0] != "previous_storage_path"@[0]);
    assert("graph_preview_enabled"@.len() != "mouse_enabled"@.len());
    assert("graph_preview_enabled"@.len() != "default_folder"@.len());
    assert("graph_preview_enabled"@.len() != "confirm_on_delete"@.len());
    assert("graph_preview_enabled"@.len() != "confirm_on_quit"@.len());
    assert("graph_preview_enabled"@.len() != "external_editor"@.len());
    assert("graph_preview_enabled"@.len() != "external_editor_enabled"@.len());
    assert("graph_preview_enabled"@.len() != "editor_preview_enabled"@.len());
    assert("graph_preview_enabled"@.len() != "show_line_numbers"@.len());
    assert("graph_preview_enabled"@.len() != "preview_enabled"@.len());
    assert("graph_preview_enabled"@.len() != "preview_position"@.len());
    assert("graph_preview_enabled"@.len() != "preview_encryption"@.len());
    assert("graph_preview_enabled"@.len() != "date_format"@.len());
    assert("graph_preview_enabled"@.len() != "list_density"@.len());
    assert("graph_preview_enabled"@.len() != "show_file_size"@.len());
    assert("graph_preview_enabled"@.len() != "show_date_in_list"@.len());
    assert("graph_preview_enabled"@.len() != "default_view"@.len());
    assert("graph_preview_enabled"@.len() != "default_sort_field"@.len());
    assert("graph_preview_enabled"@.len() != "default_sort_order"@.len());
    assert("graph_preview_enabled"@.len() != "pinned_on_top"@.len());
    assert("graph_preview_enabled"@.len() != "core"@.len());
    assert("graph_preview_enabled"@.len() != "editor"@.len());
    assert("graph_preview_enabled"@.len() != "list"@.len());
    assert("graph_preview_enabled"@.len() != "theme"@.len());
    assert("graph_preview_enabled"@.len() != "display"@.len());
    assert("graph_preview_enabled"@.len() != "ui"@.len());
    assert("graph_preview_enabled"@.len() != "visual"@.len());
    assert("physics"@.len() != "storage_path"@.len());
    assert("physics"@.len() != "previous_storage_path"@.len());
    assert("physics"@.len() != "mouse_enabled"@.len());
    assert("physics"@.len() != "default_folder"@.len());
    assert("physics"@.len() != "confirm_on_delete"@.len());
    assert("physics"@.len() != "confirm_on_quit"@.len());
    assert("physics"@.len() != "external_editor"@.len());
    assert("physics"@.len() != "external_editor_enabled"@.len());
    assert("physics"@.len() != "editor_preview_enabled"@.len());
    assert("physics"@.len() != "show_line_numbers"@.len());
    assert("physics"@.len() != "preview_enabled"@.len());
    assert("physics"@.len() != "preview_position"@.len());
    assert("physics"@.len() != "preview_encryption"@.len());
    assert("physics"@.len() != "date_format"@.len());
    assert("physics"@.len() != "list_density"@.len());
    assert("physics"@.len() != "show_file_size"@.len());
    assert("physics"@.len() != "show_date_in_list"@.len());
    assert("physics"@.len() != "default_view"@.len());
    assert("physics"@.len() != "default_sort_field"@.len());
    assert("physics"@.len() != "default_sort_order"@.len());
    assert("physics"@.len() != "pinned_on_top"@.len());
    assert("physics"@.len() != "core"@.len());
    assert("physics"@.len() != "editor"@.len());
    assert("physics"@.len() != "list"@.len());
    assert("physics"@.len() != "theme"@.len());
    assert("physics"@[0] != "display"@[0]);
    assert("physics"@.len() != "ui"@.len());
    assert("physics"@.len() != "visual"@.len());
    assert("interaction"@.len() != "storage_path"@.len());
    assert("interaction"@.len() != "previous_storage_path"@.len());
    assert("interaction"@.len() != "mouse_enabled"@.len());
    assert("interaction"@.len() != "default_folder"@.len());
    assert("interaction"@.len() != "confirm_on_delete"@.len());
    assert("interaction"@.len() != "confirm_on_quit"@.len());
    assert("interaction"@.len() != "external_editor"@.len());
    assert("interaction"@.len() != "external_editor_enabled"@.len());
    assert("interaction"@.len() != "editor_preview_enabled"@.len());
    assert("interaction"@.len() != "show_line_numbers"@.len());
    assert("interaction"@.len() != "preview_enabled"@.len());
    assert("interaction"@.len() != "preview_position"@.len());
    assert("interaction"@.len() != "preview_encryption"@.len());
    assert("interaction"@[0] != "date_format"@[0]);
    assert("interaction"@.len() != "list_density"@.len());
    assert("interaction"@.len() != "show_file_size"@.len());
    assert("interaction"@.len() != "show_date_in_list"@.len());
    assert("interaction"@.len() != "default_view"@.len());
    assert("interaction"@.len() != "default_sort_field"@.len());
    assert("interaction"@.len() != "default_sort_order"@.len());
    assert("interaction"@.len() != "pinned_on_top"@.len());
    assert("interaction"@.len() != "core"@.len());
    assert("interaction"@.len() != "editor"@.len());
    assert("interaction"@.len() != "list"@.len());
    assert("interaction"@.len() != "theme"@.len());
    assert("interaction"@.len() != "display"@.len());
    assert("interaction"@.len() != "ui"@.len());
    assert("interaction"@.len() != "visual"@.len());
    assert("filter"@.len() != "storage_path"@.len());
    assert("filter"@.len() != "previous_storage_path"@.len());
    assert("filter"@.len() != "mouse_enabled"@.len());
    assert("filter"@.len() != "default_folder"@.len());
    assert("filter"@.len() != "confirm_on_delete"@.len());
    assert("filter"@.len() != "confirm_on_quit"@.len());
    assert("filter"@.len() != "external_editor"@.len());
    assert("filter"@.len() != "external_editor_enabled"@.len());
    assert("filter"@.len() != "editor_preview_enabled"@.len());
    assert("filter"@.len() != "show_line_numbers"@.len());
    assert("filter"@.len() != "preview_enabled"@.len());
    assert("filter"@.len() != "preview_position"@.len());
    assert("filter"@.len() != "preview_encryption"@.len());
    assert("filter"@.len() != "date_format"@.len());
    assert("filter"@.len() != "list_density"@.len());
    assert("filter"@.len() != "show_file_size"@.len());
    assert("filter"@.len() != "show_date_in_list"@.len());
    assert("filter"@.len() != "default_view"@.len());
    assert("filter"@.len() != "default_sort_field"@.len());
    assert("filter"@.len() != "default_sort_order"@.len());
    assert("filter"@.len() != "pinned_on_top"@.len());
    assert("filter"@.len() != "core"@.len());
    assert("filter"@[0] != "editor"@[0]);
    assert("filter"@.len() != "list"@.len());
    assert("filter"@.len() != "theme"@.len());
    assert("filter"@.len() != "display"@.len());
    assert("filter"@.len() != "ui"@.len());
    assert("filter"@[0] != "visual"@[0]);
}

/// The tables the steps add are none of the keys the later steps move or
/// add.
proof fn lemma_section_names_fresh()
    ensures
        not_old(editor_pairs(), "core"@) && not_old(list_pairs(), "core"@) && not_old(graf_pairs(), "core"@) && "core"@ != "editor"@ && "core"@ != "list"@ && "core"@ != "graf"@ && "core"@ != "theme"@ && "core"@ != "display"@ && "core"@ != "ui"@ && "core"@ != "visual"@,
        not_old(list_pairs(), "editor"@) && not_old(graf_pairs(), "editor"@) && "editor"@ != "list"@ && "editor"@ != "graf"@,
        not_old(graf_pairs(), "list"@) && "list"@ != "graf"@,
{
    reveal_strlit("core");
    reveal_strlit("date_format");
    reveal_strlit("default_sort_field");
    reveal_strlit("default_sort_order");
    reveal_strlit("default_view");
    reveal_strlit("display");
    reveal_strlit("editor");
    reveal_strlit("editor_preview_enabled");
    reveal_strlit("external_editor");
    reveal_strlit("external_editor_enabled");
    reveal_strlit("filter");
    reveal_strlit("graf");
    reveal_strlit("graph_preview_enabled");
    reveal_strlit("interaction");
    reveal_strlit("list");
    reveal_strlit("list_density");
    reveal_strlit("physics");
    reveal_strlit("pinned_on_top");
    reveal_strlit("preview_enabled");
    reveal_strlit("preview_encryption");
    reveal_strlit("preview_position");
    reveal_strlit("search");
    reveal_strlit("show_date_in_list");
    reveal_strlit("show_file_size");
    reveal_strlit("show_line_numbers");
    reveal_strlit("theme");
    reveal_strlit("ui");
    reveal_strlit("visual");
    assert("core"@.len() != "external_editor"@.len());
    assert("core"@.len() != "external_editor_enabled"@.len());
    assert("core"@.len() != "editor_preview_enabled"@.len());
    assert("core"@.len() != "show_line_numbers"@.len());
    assert("core"@.len() != "preview_enabled"@.len());
    assert("core"@.len() != "preview_position"@.len());
    assert("core"@.len() != "preview_encryption"@.len());
    assert("core"@.len() != "date_format"@.len());
    assert("core"@.len() != "list_density"@.len());
    assert("core"@.len() != "show_file_size"@.len());
    assert("core"@.len() != "show_date_in_list"@.len());
    assert("core"@.len() != "default_view"@.len());
    assert("core"@.len() != "default_sort_field"@.len());
    assert("core"@.len() != "default_sort_order"@.len());
    assert("core"@.len() != "pinned_on_top"@.len());
    assert("core"@.len() != "search"@.len());
    assert("core"@.len() != "graph_preview_enabled"@.len());
    assert("core"@.len() != "visual"@.len());
    assert("core"@.len() != "physics"@.len());
    assert("core"@.len() != "interaction"@.len());
    assert("core"@.len() != "filter"@.len());
    assert("core"@.len() != "editor"@.len());
    assert("core"@[0] != "list"@[0]);
    assert("core"@[0] != "graf"@[0]);
    assert("core"@.len() != "theme"@.len());
    assert("core"@.len() != "display"@.len());
    assert("core"@.len() != "ui"@.len());
    assert("core"@.len() != "visual"@.len());
    assert("editor"@.len() != "preview_enabled"@.len());
    assert("editor"@.len() != "preview_position"@.len());
    assert("editor"@.len() != "preview_encryption"@.len());
    assert("editor"@.len() != "date_format"@.len());
    assert("editor"@.len() != "list_density"@.len());
    assert("editor"@.len() != "show_file_size"@.len());
    assert("editor"@.len() != "show_date_in_list"@.len());
    assert("editor"@.len() != "default_view"@.len());
    assert("editor"@.len() != "default_sort_field"@.len());
    assert("editor"@.len() != "default_sort_order"@.len());
    assert("editor"@.len() != "pinned_on_top"@.len());
    assert("editor"@[0] != "search"@[0]);
    assert("editor"@.len() != "graph_preview_enabled"@.len());
    assert("editor"@[0] != "visual"@[0]);
    assert("editor"@.len() != "physics"@.len());
    assert("editor"@.len() != "interaction"@.len());
    assert("editor"@[0] != "filter"@[0]);
    assert("editor"@.len() != "list"@.len());
    assert("editor"@.len() != "graf"@.len());
    assert("list"@.len() != "search"@.len());
    assert("list"@.len() != "graph_preview_enabled"@.len());
    assert("list"@.len() != "visual"@.len());
    assert("list"@.len() != "physics"@.len());
    assert("list"@.len() != "interaction"@.len());
    assert("list"@.len() != "filter"@.len());
    assert("list"@[0] != "graf"@[0]);
}

/// Every key that an older version wrote at the top level lands, under its
/// new name, in its table, with the value it had: for each renaming
/// `(old, table, new)` of `legacy_renames` whose old key the file sets, the
/// migrated file's `table` holds that value under `new` (so
/// `editor.external_enabled` holds what `external_editor_enabled` held).
pub proof fn migration_renames_legacy_keys(m: Map<Seq<char>, NodeV>)
    ensures
        forall|i: int|
            0 <= i < legacy_renames().len() && m.dom().contains(#[trigger] legacy_renames()[i].0) ==> holds_under(
                migrated(m).0,
                legacy_renames()[i].1,
                legacy_renames()[i].2,
                m[legacy_renames()[i].0],
            ),
{
    lemma_pairs_distinct();
    lemma_editor_keys_fresh();
    lemma_list_keys_fresh();
    lemma_graf_keys_fresh();
    lemma_section_names_fresh();
    let (m1, c1) = relocated(m, core_pairs(), "core"@);
    let (m2, c2) = ui_step(m1);
    let (m3, c3) = visual_step(m2);
    let (m4, c4) = relocated(m3, editor_pairs(), "editor"@);
    let (m5, c5) = relocated(m4, list_pairs(), "list"@);
    let (m6, c6) = relocated(m5, graf_pairs(), "graf"@);
    assert(migrated(m).0 == m6);
    assert forall|i: int|
        0 <= i < legacy_renames().len() && m.dom().contains(#[trigger] legacy_renames()[i].0) implies holds_under(
            m6,
            legacy_renames()[i].1,
            legacy_renames()[i].2,
            m[legacy_renames()[i].0],
        ) by {
        if i == 0 {
            assert(legacy_renames()[i] == ("storage_path"@, "core"@, "storage_path"@));
            assert(core_pairs()[0].0 == "storage_path"@ && core_pairs()[0].1 == "storage_path"@);
            lemma_relocated_value(m, core_pairs(), "core"@, 0);
            lemma_ui_keeps(m1, "core"@);
            lemma_visual_keeps(m2, "core"@);
            lemma_relocated_keeps(m3, editor_pairs(), "editor"@, "core"@);
            lemma_relocated_keeps(m4, list_pairs(), "list"@, "core"@);
            lemma_relocated_keeps(m5, graf_pairs(), "graf"@, "core"@);
        } else if i == 1 {
            assert(legacy_renames()[i] == ("previous_storage_path"@, "core"@, "previous_storage_path"@));
            assert(core_pairs()[1].0 == "previous_storage_path"@ && core_pairs()[1].1 == "previous_storage_path"@);
            lemma_relocated_value(m, core_pairs(), "core"@, 1);
            lemma_ui_keeps(m1, "core"@);
            lemma_visual_keeps(m2, "core"@);
            lemma_relocated_keeps(m3, editor_pairs(), "editor"@, "core"@);
            lemma_relocated_keeps(m4, list_pairs(), "list"@, "core"@);
            lemma_relocated_keeps(m5, graf_pairs(), "graf"@, "core"@);
        } else if i == 2 {
            assert(legacy_renames()[i] == ("mouse_enabled"@, "core"@, "mouse_enabled"@));
            assert(core_pairs()[2].0 == "mouse_enabled"@ && core_pairs()[2].1 == "mouse_enabled"@);
            lemma_relocated_value(m, core_pairs(), "core"@, 2);
            lemma_ui_keeps(m1, "core"@);
            lemma_visual_keeps(m2, "core"@);
            lemma_relocated_keeps(m3, editor_pairs(), "editor"@, "core"@);
            lemma_relocated_keeps(m4, list_pairs(), "list"@, "core"@);
            lemma_relocated_keeps(m5, graf_pairs(), "graf"@, "core"@);
        } else if i == 3 {
            assert(legacy_renames()[i] == ("default_folder"@, "core"@, "default_folder"@));
            assert(core_pairs()[3].0 == "default_folder"@ && core_pairs()[3].1 == "default_folder"@);
            lemma_relocated_value(m, core_pairs(), "core"@, 3);
            lemma_ui_keeps(m1, "core"@);
            lemma_visual_keeps(m2, "core"@);
            lemma_relocated_keeps(m3, editor_pairs(), "editor"@, "core"@);
            lemma_relocated_keeps(m4, list_pairs(), "list"@, "core"@);
            lemma_relocated_keeps(m5, graf_pairs(), "graf"@, "core"@);
        } else if i == 4 {
            assert(legacy_renames()[i] == ("confirm_on_delete"@, "core"@, "confirm_on_delete"@));
            assert(core_pairs()[4].0 == "confirm_on_delete"@ && core_pairs()[4].1 == "confirm_on_delete"@);
            lemma_relocated_value(m, core_pairs(), "core"@, 4);
            lemma_ui_keeps(m1, "core"@);
            lemma_visual_keeps(m2, "core"@);
            lemma_relocated_keeps(m3, editor_pairs(), "editor"@, "core"@);
            lemma_relocated_keeps(m4, list_pairs(), "list"@, "core"@);
            lemma_relocated_keeps(m5, graf_pairs(), "graf"@, "core"@);
        } else if i == 5 {
            assert(legacy_renames()[i] == ("confirm_on_quit"@, "core"@, "confirm_on_quit"@));
            assert(core_pairs()[5].0 == "confirm_on_quit"@ && core_pairs()[5].1 == "confirm_on_quit"@);
            lemma_relocated_value(m, core_pairs(), "core"@, 5);
            lemma_ui_keeps(m1, "core"@);
            lemma_visual_keeps(m2, "core"@);
            lemma_relocated_keeps(m3, editor_pairs(), "editor"@, "core"@);
            lemma_relocated_keeps(m4, list_pairs(), "list"@, "core"@);
            lemma_relocated_keeps(m5, graf_pairs(), "graf"@, "core"@);
        } else if i == 6 {
            assert(legacy_renames()[i] == ("external_editor"@, "editor"@, "external_command"@));
            assert(editor_pairs()[0].0 == "external_editor"@ && editor_pairs()[0].1 == "external_command"@);
            lemma_relocated_keeps(m, core_pairs(), "core"@, "external_editor"@);
            lemma_ui_keeps(m1, "external_editor"@);
            lemma_visual_keeps(m2, "external_editor"@);
            lemma_relocated_value(m3, editor_pairs(), "editor"@, 0);
            lemma_relocated_keeps(m4, list_pairs(), "list"@, "editor"@);
            lemma_relocated_keeps(m5, graf_pairs(), "graf"@, "editor"@);
        } else if i == 7 {
            assert(legacy_renames()[i] == ("external_editor_enabled"@, "editor"@, "external_enabled"@));
            assert(editor_pairs()[1].0 == "external_editor_enabled"@ && editor_pairs()[1].1 == "external_enabled"@);
            lemma_relocated_keeps(m, core_pairs(), "core"@, "external_editor_enabled"@);
            lemma_ui_keeps(m1, "external_editor_enabled"@);
            lemma_visual_keeps(m2, "external_editor_enabled"@);
            lemma_relocated_value(m3, editor_pairs(), "editor"@, 1);
            lemma_relocated_keeps(m4, list_pairs(), "list"@, "editor"@);
            lemma_relocated_keeps(m5, graf_pairs(), "graf"@, "editor"@);
        } else if i == 8 {
            assert(legacy_renames()[i] == ("editor_preview_enabled"@, "editor"@, "preview_enabled"@));
            assert(editor_pairs()[2].0 == "editor_preview_enabled"@ && editor_pairs()[2].1 == "preview_enabled"@);
            lemma_relocated_keeps(m, core_pairs(), "core"@, "editor_preview_enabled"@);
            lemma_ui_keeps(m1, "editor_preview_enabled"@);
            lemma_visual_keeps(m2, "editor_preview_enabled"@);
            lemma_relocated_value(m3, editor_pairs(), "editor"@, 2);
            lemma_relocated_keeps(m4, list_pairs(), "list"@, "editor"@);
            lemma_relocated_keeps(m5, graf_pairs(), "graf"@, "editor"@);
        } else if i == 9 {
            assert(legacy_renames()[i] == ("show_line_numbers"@, "editor"@, "show_line_numbers"@));
            assert(editor_pairs()[3].0 == "show_line_numbers"@ && editor_pairs()[3].1 == "show_line_numbers"@);
            lemma_relocated_keeps(m, core_pairs(), "core"@, "show_line_numbers"@);
            lemma_ui_keeps(m1, "show_line_numbers"@);
            lemma_visual_keeps(m2, "show_line_numbers"@);
            lemma_relocated_value(m3, editor_pairs(), "editor"@, 3);
            lemma_relocated_keeps(m4, list_pairs(), "list"@, "editor"@);
            lemma_relocated_keeps(m5, graf_pairs(), "graf"@, "editor"@);
        } else if i == 10 {
            assert(legacy_renames()[i] == ("preview_enabled"@, "list"@, "preview_enabled"@));
            assert(list_pairs()[0].0 == "preview_enabled"@ && list_pairs()[0].1 == "preview_enabled"@);
            lemma_relocated_keeps(m, core_pairs(), "core"@, "preview_enabled"@);
            lemma_ui_keeps(m1, "preview_enabled"@);
            lemma_visual_keeps(m2, "preview_enabled"@);
            lemma_relocated_keeps(m3, editor_pairs(), "editor"@, "preview_enabled"@);
            lemma_relocated_value(m4, list_pairs(), "list"@, 0);
            lemma_relocated_keeps(m5, graf_pairs(), "graf"@, "list"@);
        } else if i == 11 {
            assert(legacy_renames()[i] == ("preview_position"@, "list"@, "preview_position"@));
            assert(list_pairs()[1].0 == "preview_position"@ && list_pairs()[1].1 == "preview_position"@);
            lemma_relocated_keeps(m, core_pairs(), "core"@, "preview_position"@);
            lemma_ui_keeps(m1, "preview_position"@);
            lemma_visual_keeps(m2, "preview_position"@);
            lemma_relocated_keeps(m3, editor_pairs(), "editor"@, "preview_position"@);
            lemma_relocated_value(m4, list_pairs(), "list"@, 1);
            lemma_relocated_keeps(m5, graf_pairs(), "graf"@, "list"@);
        } else if i == 12 {
            assert(legacy_renames()[i] == ("preview_encryption"@, "list"@, "preview_encryption"@));
            assert(list_pairs()[2].0 == "preview_encryption"@ && list_pairs()[2].1 == "preview_encryption"@);
            lemma_relocated_keeps(m, core_pairs(), "core"@, "preview_encryption"@);
            lemma_ui_keeps(m1, "preview_encryption"@);
            lemma_visual_keeps(m2, "preview_encryption"@);
            lemma_relocated_keeps(m3, editor_pairs(), "editor"@, "preview_encryption"@);
            lemma_relocated_value(m4, list_pairs(), "list"@, 2);
            lemma_relocated_keeps(m5, graf_pairs(), "graf"@, "list"@);
        } else if i == 13 {
            assert(legacy_renames()[i] == ("date_format"@, "list"@, "date_format"@));
            assert(list_pairs()[3].0 == "date_format"@ && list_pairs()[3].1 == "date_format"@);
            lemma_relocated_keeps(m, core_pairs(), "core"@, "date_format"@);
            lemma_ui_keeps(m1, "date_format"@);
            lemma_visual_keeps(m2, "date_format"@);
            lemma_relocated_keeps(m3, editor_pairs(), "editor"@, "date_format"@);
            lemma_relocated_value(m4, list_pairs(), "list"@, 3);
            lemma_relocated_keeps(m5, graf_pairs(), "graf"@, "list"@);
        } else if i == 14 {
            assert(legacy_renames()[i] == ("list_density"@, "list"@, "density"@));
            assert(list_pairs()[4].0 == "list_density"@ && list_pairs()[4].1 == "density"@);
            lemma_relocated_keeps(m, core_pairs(), "core"@, "list_density"@);
            lemma_ui_keeps(m1, "list_density"@);
            lemma_visual_keeps(m2, "list_density"@);
            lemma_relocated_keeps(m3, editor_pairs(), "editor"@, "list_density"@);
            lemma_relocated_value(m4, list_pairs(), "list"@, 4);
            lemma_relocated_keeps(m5, graf_pairs(), "graf"@, "list"@);
        } else if i == 15 {
            assert(legacy_renames()[i] == ("show_file_size"@, "list"@, "show_file_size"@));
            assert(list_pairs()[5].0 == "show_file_size"@ && list_pairs()[5].1 == "show_file_size"@);
            lemma_relocated_keeps(m, core_pairs(), "core"@, "show_file_size"@);
            lemma_ui_keeps(m1, "show_file_size"@);
            lemma_visual_keeps(m2, "show_file_size"@);
            lemma_relocated_keeps(m3, editor_pairs(), "editor"@, "show_file_size"@);
            lemma_relocated_value(m4, list_pairs(), "list"@, 5);
            lemma_relocated_keeps(m5, graf_pairs(), "graf"@, "list"@);
        } else if i == 16 {
            assert(legacy_renames()[i] == ("show_date_in_list"@, "list"@, "show_date_in_list"@));
            assert(list_pairs()[6].0 == "show_date_in_list"@ && list_pairs()[6].1 == "show_date_in_list"@);
            lemma_relocated_keeps(m, core_pairs(), "core"@, "show_date_in_list"@);
            lemma_ui_keeps(m1, "show_date_in_list"@);
            lemma_visual_keeps(m2, "show_date_in_list"@);
            lemma_relocated_keeps(m3, editor_pairs(), "editor"@, "show_date_in_list"@);
            lemma_relocated_value(m4, list_pairs(), "list"@, 6);
            lemma_relocated_keeps(m5, graf_pairs(), "graf"@, "list"@);
        } else if i == 17 {
            assert(legacy_renames()[i] == ("default_view"@, "list"@, "default_view"@));
            assert(list_pairs()[7].0 == "default_view"@ && list_pairs()[7].1 == "default_view"@);
            lemma_relocated_keeps(m, core_pairs(), "core"@, "default_view"@);
            lemma_ui_keeps(m1, "default_view"@);
            lemma_visual_keeps(m2, "default_view"@);
            lemma_relocated_keeps(m3, editor_pairs(), "editor"@, "default_view"@);
            lemma_relocated_value(m4, list_pairs(), "list"@, 7);
            lemma_relocated_keeps(m5, graf_pairs(), "graf"@, "list"@);
        } else if i == 18 {
            assert(legacy_renames()[i] == ("default_sort_field"@, "list"@, "default_sort_field"@));
            assert(list_pairs()[8].0 == "default_sort_field"@ && list_pairs()[8].1 == "default_sort_field"@);
            lemma_relocated_keeps(m, core_pairs(), "core"@, "default_sort_field"@);
            lemma_ui_keeps(m1, "default_sort_field"@);
            lemma_visual_keeps(m2, "default_sort_field"@);
            lemma_relocated_keeps(m3, editor_pairs(), "editor"@, "default_sort_field"@);
            lemma_relocated_value(m4, list_pairs(), "list"@, 8);
            lemma_relocated_keeps(m5, graf_pairs(), "graf"@, "list"@);
        } else if i == 19 {
            assert(legacy_renames()[i] == ("default_sort_order"@, "list"@, "default_sort_order"@));
            assert(list_pairs()[9].0 == "default_sort_order"@ && list_pairs()[9].1 == "default_sort_order"@);
            lemma_relocated_keeps(m, core_pairs(), "core"@, "default_sort_order"@);
            lemma_ui_keeps(m1, "default_sort_order"@);
            lemma_visual_keeps(m2, "default_sort_order"@);
            lemma_relocated_keeps(m3, editor_pairs(), "editor"@, "default_sort_order"@);
            lemma_relocated_value(m4, list_pairs(), "list"@, 9);
            lemma_relocated_keeps(m5, graf_pairs(), "graf"@, "list"@);
        } else if i == 20 {
            assert(legacy_renames()[i] == ("pinned_on_top"@, "list"@, "pinned_on_top"@));
            assert(list_pairs()[10].0 == "pinned_on_top"@ && list_pairs()[10].1 == "pinned_on_top"@);
            lemma_relocated_keeps(m, core_pairs(), "core"@, "pinned_on_top"@);
            lemma_ui_keeps(m1, "pinned_on_top"@);
            lemma_visual_keeps(m2, "pinned_on_top"@);
            lemma_relocated_keeps(m3, editor_pairs(), "editor"@, "pinned_on_top"@);
            lemma_relocated_value(m4, list_pairs(), "list"@, 10);
            lemma_relocated_keeps(m5, graf_pairs(), "graf"@, "list"@);
        } else if i == 21 {
            assert(legacy_renames()[i] == ("search"@, "graf"@, "search"@));
            assert(graf_pairs()[0].0 == "search"@ && graf_pairs()[0].1 == "search"@);
            lemma_relocated_keeps(m, core_pairs(), "core"@, "search"@);
            lemma_ui_keeps(m1, "search"@);
            lemma_visual_keeps(m2, "search"@);
            lemma_relocated_keeps(m3, editor_pairs(), "editor"@, "search"@);
            lemma_relocated_keeps(m4, list_pairs(), "list"@, "search"@);
            lemma_relocated_value(m5, graf_pairs(), "graf"@, 0);
        } else if i == 22 {
            assert(legacy_renames()[i] == ("graph_preview_enabled"@, "graf"@, "preview_enabled"@));
            assert(graf_pairs()[1].0 == "graph_preview_enabled"@ && graf_pairs()[1].1 == "preview_enabled"@);
            lemma_relocated_keeps(m, core_pairs(), "core"@, "graph_preview_enabled"@);
            lemma_ui_keeps(m1, "graph_preview_enabled"@);
            lemma_visual_keeps(m2, "graph_preview_enabled"@);
            lemma_relocated_keeps(m3, editor_pairs(), "editor"@, "graph_preview_enabled"@);
            lemma_relocated_keeps(m4, list_pairs(), "list"@, "graph_preview_enabled"@);
            lemma_relocated_value(m5, graf_pairs(), "graf"@, 1);
        } else if i == 23 {
            assert(legacy_renames()[i] == ("physics"@, "graf"@, "physics"@));
            assert(graf_pairs()[3].0 == "physics"@ && graf_pairs()[3].1 == "physics"@);
            lemma_relocated_keeps(m, core_pairs(), "core"@, "physics"@);
            lemma_ui_keeps(m1, "physics"@);
            lemma_visual_keeps(m2, "physics"@);
            lemma_relocated_keeps(m3, editor_pairs(), "editor"@, "physics"@);
            lemma_relocated_keeps(m4, list_pairs(), "list"@, "physics"@);
            lemma_relocated_value(m5, graf_pairs(), "graf"@, 3);
        } else if i == 24 {
            assert(legacy_renames()[i] == ("interaction"@, "graf"@, "interaction"@));
            assert(graf_pairs()[4].0 == "interaction"@ && graf_pairs()[4].1 == "interaction"@);
            lemma_relocated_keeps(m, core_pairs(), "core"@, "interaction"@);
            lemma_ui_keeps(m1, "interaction"@);
            lemma_visual_keeps(m2, "interaction"@);
            lemma_relocated_keeps(m3, editor_pairs(), "editor"@, "interaction"@);
            lemma_relocated_keeps(m4, list_pairs(), "list"@, "interaction"@);
            lemma_relocated_value(m5, graf_pairs(), "graf"@, 4);
        } else if i == 25 {
            assert(legacy_renames()[i] == ("filter"@, "graf"@, "filter"@));
            assert(graf_pairs()[5].0 == "filter"@ && graf_pairs()[5].1 == "filter"@);
            lemma_relocated_keeps(m, core_pairs(), "core"@, "filter"@);
            lemma_ui_keeps(m1, "filter"@);
            lemma_visual_keeps(m2, "filter"@);
            lemma_relocated_keeps(m3, editor_pairs(), "editor"@, "filter"@);
            lemma_relocated_keeps(m4, list_pairs(), "list"@, "filter"@);
            lemma_relocated_value(m5, graf_pairs(), "graf"@, 5);
        }
    }
}

/// The keys the `visual`, `default_view` and `ui` laws follow are none of
/// the keys the other steps move or add.
proof fn lemma_layout_names_fresh()
    ensures
        not_old(core_pairs(), "default_view"@),
        not_old(editor_pairs(), "default_view"@),
        "default_view"@ != "core"@,
        "default_view"@ != "theme"@,
        "default_view"@ != "display"@,
        "default_view"@ != "ui"@,
        "default_view"@ != "visual"@,
        "default_view"@ != "editor"@,
        not_old(core_pairs(), "visual"@),
        not_old(editor_pairs(), "visual"@),
        not_old(list_pairs(), "visual"@),
        "visual"@ != "core"@,
        "visual"@ != "theme"@,
        "visual"@ != "display"@,
        "visual"@ != "ui"@,
        "visual"@ != "editor"@,
        "visual"@ != "list"@,
        not_old(editor_pairs(), "ui"@),
        not_old(list_pairs(), "ui"@),
        not_old(graf_pairs(), "ui"@),
        "ui"@ != "visual"@,
        "ui"@ != "default_view"@,
        "ui"@ != "editor"@,
        "ui"@ != "list"@,
        "ui"@ != "graf"@,
        "ui"@ != "core"@,
        not_old(graf_pairs(), "list"@),
        "list"@ != "graf"@,
        not_old(core_pairs(), "theme"@),
        not_old(core_pairs(), "display"@),
        "theme"@ != "core"@,
        "display"@ != "core"@,
        "theme"@ != "ui"@,
        "display"@ != "ui"@,
        "theme"@ != "display"@,
{
    reveal_strlit("confirm_on_delete");
    reveal_strlit("confirm_on_quit");
    reveal_strlit("core");
    reveal_strlit("date_format");
    reveal_strlit("default_folder");
    reveal_strlit("default_sort_field");
    reveal_strlit("default_sort_order");
    reveal_strlit("default_view");
    reveal_strlit("display");
    reveal_strlit("editor");
    reveal_strlit("editor_preview_enabled");
    reveal_strlit("external_editor");
    reveal_strlit("external_editor_enabled");
    reveal_strlit("filter");
    reveal_strlit("graf");
    reveal_strlit("graph_preview_enabled");
    reveal_strlit("interaction");
    reveal_strlit("list");
    reveal_strlit("list_density");
    reveal_strlit("mouse_enabled");
    reveal_strlit("physics");
    reveal_strlit("pinned_on_top");
    reveal_strlit("preview_enabled");
    reveal_strlit("preview_encryption");
    reveal_strlit("preview_position");
    reveal_strlit("previous_storage_path");
    reveal_strlit("search");
    reveal_strlit("show_date_in_list");
    reveal_strlit("show_file_size");
    reveal_strlit("show_line_numbers");
    reveal_strlit("storage_path");
    reveal_strlit("theme");
    reveal_strlit("ui");
    reveal_strlit("visual");
    assert("default_view"@[0] != "storage_path"@[0]);
    assert("default_view"@.len() != "previous_storage_path"@.len());
    assert("default_view"@.len() != "mouse_enabled"@.len());
    assert("default_view"@.len() != "default_folder"@.len());
    assert("default_view"@.len() != "confirm_on_delete"@.len());
    assert("default_view"@.len() != "confirm_on_quit"@.len());
    assert("default_view"@.len() != "external_editor"@.len());
    assert("default_view"@.len() != "external_editor_enabled"@.len());
    assert("default_view"@.len() != "editor_preview_enabled"@.len());
    assert("default_view"@.len() != "show_line_numbers"@.len());
    assert("default_view"@.len() != "core"@.len());
    assert("default_view"@.len() != "theme"@.len());
    assert("default_view"@.len() != "display"@.len());
    assert("default_view"@.len() != "ui"@.len());
    assert("default_view"@.len() != "visual"@.len());
    assert("default_view"@.len() != "editor"@.len());
    assert("visual"@.len() != "storage_path"@.len());
    assert("visual"@.len() != "previous_storage_path"@.len());
    assert("visual"@.len() != "mouse_enabled"@.len());
    assert("visual"@.len() != "default_folder"@.len());
    assert("visual"@.len() != "confirm_on_delete"@.len());
    assert("visual"@.len() != "confirm_on_quit"@.len());
    assert("visual"@.len() != "external_editor"@.len());
    assert("visual"@.len() != "external_editor_enabled"@.len());
    assert("visual"@.len() != "editor_preview_enabled"@.len());
    assert("visual"@.len() != "show_line_numbers"@.len());
    assert("visual"@.len() != "preview_enabled"@.len());
    assert("visual"@.len() != "preview_position"@.len());
    assert("visual"@.len() != "preview_encryption"@.len());
    assert("visual"@.len() != "date_format"@.len());
    assert("visual"@.len() != "list_density"@.len());
    assert("visual"@.len() != "show_file_size"@.len());
    assert("visual"@.len() != "show_date_in_list"@.len());
    assert("visual"@.len() != "default_view"@.len());
    assert("visual"@.len() != "default_sort_field"@.len());
    assert("visual"@.len() != "default_sort_order"@.len());
    assert("visual"@.len() != "pinned_on_top"@.len());
    assert("visual"@.len() != "core"@.len());
    assert("visual"@.len() != "theme"@.len());
    assert("visual"@.len() != "display"@.len());
    assert("visual"@.len() != "ui"@.len());
    assert("visual"@[0] != "editor"@[0]);
    assert("visual"@.len() != "list"@.len());
    assert("ui"@.len() != "external_editor"@.len());
    assert("ui"@.len() != "external_editor_enabled"@.len());
    assert("ui"@.len() != "editor_preview_enabled"@.len());
    assert("ui"@.len() != "show_line_numbers"@.len());
    assert("ui"@.len() != "preview_enabled"@.len());
    assert("ui"@.len() != "preview_position"@.len());
    assert("ui"@.len() != "preview_encryption"@.len());
    assert("ui"@.len() != "date_format"@.len());
    assert("ui"@.len() != "list_density"@.len());
    assert("ui"@.len() != "show_file_size"@.len());
    assert("ui"@.len() != "show_date_in_list"@.len());
    assert("ui"@.len() != "default_view"@.len());
    assert("ui"@.len() != "default_sort_field"@.len());
    assert("ui"@.len() != "default_sort_order"@.len());
    assert("ui"@.len() != "pinned_on_top"@.len());
    assert("ui"@.len() != "search"@.len());
    assert("ui"@.len() != "graph_preview_enabled"@.len());
    assert("ui"@.len() != "visual"@.len());
    assert("ui"@.len() != "physics"@.len());
    assert("ui"@.len() != "interaction"@.len());
    assert("ui"@.len() != "filter"@.len());
    assert("ui"@.len() != "visual"@.len());
    assert("ui"@.len() != "default_view"@.len());
    assert("ui"@.len() != "editor"@.len());
    assert("ui"@.len() != "list"@.len());
    assert("ui"@.len() != "graf"@.len());
    assert("ui"@.len() != "core"@.len());
    assert("list"@.len() != "search"@.len());
    assert("list"@.len() != "graph_preview_enabled"@.len());
    assert("list"@.len() != "visual"@.len());
    assert("list"@.len() != "physics"@.len());
    assert("list"@.len() != "interaction"@.len());
    assert("list"@.len() != "filter"@.len());
    assert("list"@[0] != "graf"@[0]);
    assert("theme"@.len() != "storage_path"@.len());
    assert("theme"@.len() != "previous_storage_path"@.len());
    assert("theme"@.len() != "mouse_enabled"@.len());
    assert("theme"@.len() != "default_folder"@.len());
    assert("theme"@.len() != "confirm_on_delete"@.len());
    assert("theme"@.len() != "confirm_on_quit"@.len());
    assert("display"@.len() != "storage_path"@.len());
    assert("display"@.len() != "previous_storage_path"@.len());
    assert("display"@.len() != "mouse_enabled"@.len());
    assert("display"@.len() != "default_folder"@.len());
    assert("display"@.len() != "confirm_on_delete"@.len());
    assert("display"@.len() != "confirm_on_quit"@.len());
    assert("theme"@.len() != "core"@.len());
    assert("display"@.len() != "core"@.len());
    assert("theme"@.len() != "ui"@.len());
    assert("display"@.len() != "ui"@.len());
    assert("theme"@.len() != "display"@.len());
}

/// The old `visual.notes_layout` becomes `list.default_view` when the file
/// sets no `default_view`, and the rest of `visual` becomes `graf.visual`.
pub proof fn migration_moves_notes_layout(m: Map<Seq<char>, NodeV>)
    requires
        m.dom().contains("visual"@),
        m["visual"@] is Table,
        m["visual"@]->Table_0.dom().contains("notes_layout"@),
        !m.dom().contains("default_view"@),
    ensures
        holds_under(migrated(m).0, "list"@, "default_view"@, m["visual"@]->Table_0["notes_layout"@]),
        holds_under(migrated(m).0, "graf"@, "visual"@, NodeV::Table(m["visual"@]->Table_0.remove("notes_layout"@))),
{
    lemma_pairs_distinct();
    lemma_layout_names_fresh();
    lemma_section_names_fresh();
    let vt = m["visual"@]->Table_0;
    let (m1, c1) = relocated(m, core_pairs(), "core"@);
    lemma_relocated_keeps(m, core_pairs(), "core"@, "visual"@);
    lemma_moved_keys(m, core_pairs());
    let (r1, v1) = moved_keys(m, core_pairs());
    lemma_merged(r1, "core"@, v1);
    assert(!m1.dom().contains("default_view"@));
    let (m2, c2) = ui_step(m1);
    lemma_ui_keeps(m1, "visual"@);
    lemma_ui_step(m1);
    assert(!m2.dom().contains("default_view"@));
    let (m3, c3) = visual_step(m2);
    assert(m3["default_view"@] == vt["notes_layout"@]);
    assert(m3.dom().contains("default_view"@));
    assert(m3["visual"@] == NodeV::Table(vt.remove("notes_layout"@)));
    let (m4, c4) = relocated(m3, editor_pairs(), "editor"@);
    lemma_relocated_keeps(m3, editor_pairs(), "editor"@, "default_view"@);
    lemma_relocated_keeps(m3, editor_pairs(), "editor"@, "visual"@);
    let (m5, c5) = relocated(m4, list_pairs(), "list"@);
    assert(list_pairs()[7].0 == "default_view"@ && list_pairs()[7].1 == "default_view"@);
    lemma_relocated_value(m4, list_pairs(), "list"@, 7);
    lemma_relocated_keeps(m4, list_pairs(), "list"@, "visual"@);
    let (m6, c6) = relocated(m5, graf_pairs(), "graf"@);
    lemma_relocated_keeps(m5, graf_pairs(), "graf"@, "list"@);
    assert(graf_pairs()[2].0 == "visual"@ && graf_pairs()[2].1 == "visual"@);
    lemma_relocated_value(m5, graf_pairs(), "graf"@, 2);
    assert(migrated(m).0 == m6);
}

/// The old `[theme]` and `[display]` tables merge into `ui`: each key of
/// `display` keeps its value there, and each key of `theme` that `display`
/// does not set keeps its own.
pub proof fn migration_merges_ui_tables(m: Map<Seq<char>, NodeV>, k: Seq<char>)
    ensures
        (m.dom().contains("display"@) && m["display"@] is Table && m["display"@]->Table_0.dom().contains(k))
            ==> holds_under(migrated(m).0, "ui"@, k, m["display"@]->Table_0[k]),
        (m.dom().contains("theme"@) && m["theme"@] is Table && m["theme"@]->Table_0.dom().contains(k)
            && !(m.dom().contains("display"@) && m["display"@] is Table && m["display"@]->Table_0.dom().contains(k)))
            ==> holds_under(migrated(m).0, "ui"@, k, m["theme"@]->Table_0[k]),
{
    lemma_layout_names_fresh();
    let (m1, c1) = relocated(m, core_pairs(), "core"@);
    let in_display = m.dom().contains("display"@) && m["display"@] is Table && m["display"@]->Table_0.dom().contains(k);
    let in_theme = m.dom().contains("theme"@) && m["theme"@] is Table && m["theme"@]->Table_0.dom().contains(k);
    if in_display || in_theme {
        if m.dom().contains("display"@) {
            lemma_relocated_keeps(m, core_pairs(), "core"@, "display"@);
        }
        if m.dom().contains("theme"@) {
            lemma_relocated_keeps(m, core_pairs(), "core"@, "theme"@);
        }
        lemma_moved_keys(m, core_pairs());
        let (r1, v1) = moved_keys(m, core_pairs());
        lemma_merged(r1, "core"@, v1);
        assert(!has_old(core_pairs(), "display"@)) by {
            if has_old(core_pairs(), "display"@) {
                let i = choose|i: int| 0 <= i < core_pairs().len() && (#[trigger] core_pairs()[i]).0 == "display"@;
            }
        }
        assert(m1.dom().contains("display"@) == m.dom().contains("display"@));
        let dt = table_or_empty(lookup(m1, "display"@));
        let tt = table_or_empty(lookup(m1, "theme"@));
        assert(dt.dom().contains(k) == in_display);
        if in_theme {
            assert(tt == m["theme"@]->Table_0);
        }
        let (m2, c2) = ui_step(m1);
        let moved = tt.union_prefer_right(dt);
        if in_theme && !in_display {
            assert(moved[k] == m["theme"@]->Table_0[k]);
        }
        assert(moved.dom().contains(k));
        assert(moved != Map::<Seq<char>, NodeV>::empty());
        assert(holds_under(m2, "ui"@, k, moved[k]));
        let (m3, c3) = visual_step(m2);
        lemma_visual_keeps(m2, "ui"@);
        let (m4, c4) = relocated(m3, editor_pairs(), "editor"@);
        lemma_relocated_keeps(m3, editor_pairs(), "editor"@, "ui"@);
        let (m5, c5) = relocated(m4, list_pairs(), "list"@);
        lemma_relocated_keeps(m4, list_pairs(), "list"@, "ui"@);
        let (m6, c6) = relocated(m5, graf_pairs(), "graf"@);
        lemma_relocated_keeps(m5, graf_pairs(), "graf"@, "ui"@);
        assert(migrated(m).0 == m6);
    }
}

} // verus!
