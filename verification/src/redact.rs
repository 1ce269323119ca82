//! The configuration as a JSON tree, and the redaction of its sensitive
//! values before it is written into a debug dump.
use vstd::prelude::*;
use crate::debug_log::{child_key_path, child_path, decimal, is_sensitive, is_sensitive_path, usize_to_decimal};
use crate::text::concat_str;

verus! {

/// A JSON value. Numbers keep their text; an object keeps its entries in
/// order, each key once.
pub enum JsonValue {
    Null,
    Bool(bool),
    Number(String),
    Text(String),
    Array(Vec<JsonValue>),
    Object(Vec<(String, JsonValue)>),
}

/// The model of a JSON value.
pub enum JsonV {
    Null,
    Bool(bool),
    Number(Seq<char>),
    Text(Seq<char>),
    Array(Seq<JsonV>),
    Object(Seq<(Seq<char>, JsonV)>),
}

/// A JSON value as its model.
pub open spec fn json_view(v: JsonValue) -> JsonV
    decreases v,
{
    match v {
        JsonValue::Null => JsonV::Null,
        JsonValue::Bool(b) => JsonV::Bool(b),
        JsonValue::Number(s) => JsonV::Number(s@),
        JsonValue::Text(s) => JsonV::Text(s@),
        JsonValue::Array(items) => JsonV::Array(json_views(items@)),
        JsonValue::Object(entries) => JsonV::Object(entry_views(entries@)),
    }
}

/// JSON values as their models.
pub open spec fn json_views(s: Seq<JsonValue>) -> Seq<JsonV>
    decreases s,
{
    Seq::new(s.len(), |i: int| if 0 <= i < s.len() { json_view(s[i]) } else { JsonV::Null })
}

/// Object entries as values.
pub open spec fn entry_views(s: Seq<(String, JsonValue)>) -> Seq<(Seq<char>, JsonV)>
    decreases s,
{
    Seq::new(
        s.len(),
        |i: int|
            if 0 <= i < s.len() {
                (s[i].0@, json_view(s[i].1))
            } else {
                (Seq::empty(), JsonV::Null)
            },
    )
}

/// The text that replaces a sensitive value.
pub open spec fn redaction_mark() -> Seq<char> {
    "***redacted***"@
}

/// The path of item `i` of an array at `path`: `path[i]`.
pub open spec fn item_path(path: Seq<char>, i: nat) -> Seq<char> {
    path + seq!['['] + decimal(i) + seq![']']
}

/// The tree with the value of every sensitive key replaced by the
/// redaction mark. `path` is the dotted path of `v` in the configuration.
pub open spec fn redacted(v: JsonV, path: Seq<char>) -> JsonV
    decreases v,
{
    match v {
        JsonV::Object(es) => JsonV::Object(
            Seq::new(
                es.len(),
                |i: int|
                    if 0 <= i < es.len() {
                        let child = child_key_path(path, es[i].0);
                        if is_sensitive(child) {
                            (es[i].0, JsonV::Text(redaction_mark()))
                        } else {
                            (es[i].0, redacted(es[i].1, child))
                        }
                    } else {
                        (Seq::empty(), JsonV::Null)
                    },
            ),
        ),
        JsonV::Array(items) => JsonV::Array(
            Seq::new(
                items.len(),
                |i: int|
                    if 0 <= i < items.len() {
                        redacted(items[i], item_path(path, i as nat))
                    } else {
                        JsonV::Null
                    },
            ),
        ),
        _ => v,
    }
}

/// Whether a sensitive value shows anywhere in `v`: a key whose path is
/// sensitive holding anything but the redaction mark.
pub open spec fn leaks(v: JsonV, path: Seq<char>) -> bool
    decreases v,
{
    match v {
        JsonV::Object(es) => exists|i: int|
            0 <= i < es.len() && {
                let child = child_key_path(path, #[trigger] es[i].0);
                if is_sensitive(child) {
                    es[i].1 != JsonV::Text(redaction_mark())
                } else {
                    leaks(es[i].1, child)
                }
            },
        JsonV::Array(items) => exists|i: int|
            0 <= i < items.len() && leaks(#[trigger] items[i], item_path(path, i as nat)),
        _ => false,
    }
}

/// A redacted tree shows no sensitive value.
pub proof fn redaction_hides_every_sensitive_value(v: JsonV, path: Seq<char>)
    ensures
        !leaks(redacted(v, path), path),
    decreases v,
{
    match v {
        JsonV::Object(es) => {
            let r = redacted(v, path);
            let res = r->Object_0;
            assert forall|i: int| 0 <= i < res.len() implies !({
                let child = child_key_path(path, #[trigger] res[i].0);
                if is_sensitive(child) {
                    res[i].1 != JsonV::Text(redaction_mark())
                } else {
                    leaks(res[i].1, child)
                }
            }) by {
                let child = child_key_path(path, es[i].0);
                if !is_sensitive(child) {
                    redaction_hides_every_sensitive_value(es[i].1, child);
                }
            }
        },
        JsonV::Array(items) => {
            let r = redacted(v, path);
            let ris = r->Array_0;
            assert forall|i: int| 0 <= i < ris.len() implies !leaks(
                #[trigger] ris[i],
                item_path(path, i as nat),
            ) by {
                redaction_hides_every_sensitive_value(items[i], item_path(path, i as nat));
            }
        },
        _ => {},
    }
}

/// Redacting twice gives what redacting once gives.
pub proof fn redaction_idempotent(v: JsonV, path: Seq<char>)
    ensures
        redacted(redacted(v, path), path) == redacted(v, path),
    decreases v,
{
    match v {
        JsonV::Object(es) => {
            let once = redacted(v, path)->Object_0;
            let twice = redacted(redacted(v, path), path)->Object_0;
            assert forall|i: int| 0 <= i < once.len() implies #[trigger] twice[i] == once[i] by {
                let child = child_key_path(path, es[i].0);
                if !is_sensitive(child) {
                    redaction_idempotent(es[i].1, child);
                }
            }
            assert(twice =~= once);
        },
        JsonV::Array(items) => {
            let once = redacted(v, path)->Array_0;
            let twice = redacted(redacted(v, path), path)->Array_0;
            assert forall|i: int| 0 <= i < once.len() implies #[trigger] twice[i] == once[i] by {
                redaction_idempotent(items[i], item_path(path, i as nat));
            }
            assert(twice =~= once);
        },
        _ => {},
    }
}

/// A copy of a JSON value.
pub fn copy_json(v: &JsonValue) -> (r: JsonValue)
    ensures
        json_view(r) == json_view(*v),
    decreases v,
{
    match v {
        JsonValue::Null => JsonValue::Null,
        JsonValue::Bool(b) => JsonValue::Bool(*b),
        JsonValue::Number(s) => JsonValue::Number(s.clone()),
        JsonValue::Text(s) => JsonValue::Text(s.clone()),
        JsonValue::Array(items) => {
            let mut out: Vec<JsonValue> = Vec::new();
            let mut i: usize = 0;
            while i < items.len()
                invariant
                    *v == JsonValue::Array(*items),
                    i <= items@.len(),
                    out@.len() == i,
                    forall|k: int| 0 <= k < i ==> json_view(#[trigger] out@[k]) == json_view(items@[k]),
                decreases items@.len() - i,
            {
                proof {
                    assert(decreases_to!(*v => v->Array_0));
                    assert(decreases_to!(items => items@));
                    assert(decreases_to!(items@ => items@[i as int]));
                }
                out.push(copy_json(&items[i]));
                i = i + 1;
            }
            assert(json_views(out@) =~= json_views(items@));
            JsonValue::Array(out)
        },
        JsonValue::Object(entries) => {
            let mut out: Vec<(String, JsonValue)> = Vec::new();
            let mut i: usize = 0;
            while i < entries.len()
                invariant
                    *v == JsonValue::Object(*entries),
                    i <= entries@.len(),
                    out@.len() == i,
                    forall|k: int|
                        0 <= k < i ==> (#[trigger] out@[k]).0@ == entries@[k].0@ && json_view(
                            out@[k].1,
                        ) == json_view(entries@[k].1),
                decreases entries@.len() - i,
            {
                proof {
                    assert(decreases_to!(*v => v->Object_0));
                    assert(decreases_to!(entries => entries@));
                    assert(decreases_to!(entries@ => entries@[i as int]));
                    assert(decreases_to!(entries@[i as int] => entries@[i as int].1));
                }
                let e = &entries[i];
                out.push((e.0.clone(), copy_json(&e.1)));
                i = i + 1;
            }
            assert(entry_views(out@) =~= entry_views(entries@));
            JsonValue::Object(out)
        },
    }
}

/// The tree with every sensitive value replaced by `***redacted***`; `path`
/// is the dotted path of `value` in the configuration (empty at the top).
pub fn redact_config_value(value: &JsonValue, path: &str) -> (r: JsonValue)
    ensures
        json_view(r) == redacted(json_view(*value), path@),
    decreases value,
{
    match value {
        JsonValue::Object(entries) => {
            let ghost es = entry_views(entries@);
            let mut out: Vec<(String, JsonValue)> = Vec::new();
            let mut i: usize = 0;
            while i < entries.len()
                invariant
                    *value == JsonValue::Object(*entries),
                    es == entry_views(entries@),
                    i <= entries@.len(),
                    out@.len() == i,
                    forall|k: int|
                        0 <= k < i ==> (#[trigger] entry_views(out@)[k]) == redacted(
                            json_view(*value),
                            path@,
                        )->Object_0[k],
                decreases entries@.len() - i,
            {
                proof {
                    assert(decreases_to!(value => entries));
                    assert(decreases_to!(entries => entries@));
                    assert(decreases_to!(entries@ => entries@[i as int]));
                    assert(decreases_to!(entries@[i as int] => entries@[i as int].1));
                }
                let e = &entries[i];
                let child = child_path(path, e.0.as_str());
                let ghost pre = out@;
                proof {
                    assert(json_view(*value) == JsonV::Object(es));
                    assert(es[i as int] == (e.0@, json_view(e.1)));
                }
                if is_sensitive_path(child.as_str()) {
                    out.push((e.0.clone(), JsonValue::Text(String::from_str("***redacted***"))));
                } else {
                    let inner = redact_config_value(&e.1, child.as_str());
                    out.push((e.0.clone(), inner));
                }
                proof {
                    assert forall|k: int| 0 <= k < i + 1 implies (#[trigger] entry_views(out@)[k])
                        == redacted(json_view(*value), path@)->Object_0[k] by {
                        if k < i {
                            assert(out@[k] == pre[k]);
                            assert(entry_views(out@)[k] == entry_views(pre)[k]);
                        } else {
                            assert(entry_views(out@)[k] == (out@[k].0@, json_view(out@[k].1)));
                        }
                    }
                }
                i = i + 1;
            }
            proof {
                assert(entry_views(out@) =~= redacted(json_view(*value), path@)->Object_0);
            }
            JsonValue::Object(out)
        },
        JsonValue::Array(items) => {
            let mut out: Vec<JsonValue> = Vec::new();
            let mut i: usize = 0;
            while i < items.len()
                invariant
                    *value == JsonValue::Array(*items),
                    i <= items@.len(),
                    out@.len() == i,
                    forall|k: int|
                        0 <= k < i ==> json_view(#[trigger] out@[k]) == redacted(
                            json_view(*value),
                            path@,
                        )->Array_0[k],
                decreases items@.len() - i,
            {
                proof {
                    assert(decreases_to!(value => items));
                    assert(decreases_to!(items => items@));
                    assert(decreases_to!(items@ => items@[i as int]));
                }
                let a = concat_str(path, "[");
                let b = concat_str(a.as_str(), usize_to_decimal(i).as_str());
                let p = concat_str(b.as_str(), "]");
                proof {
                    reveal_strlit("[");
                    reveal_strlit("]");
                    assert(p@ =~= item_path(path@, i as nat));
                }
                proof {
                    assert(json_view(*value) == JsonV::Array(json_views(items@)));
                    assert(json_views(items@)[i as int] == json_view(items@[i as int]));
                }
                out.push(redact_config_value(&items[i], p.as_str()));
                i = i + 1;
            }
            proof {
                assert(json_views(out@) =~= redacted(json_view(*value), path@)->Array_0);
            }
            JsonValue::Array(out)
        },
        _ => copy_json(value),
    }
}

} // verus!
