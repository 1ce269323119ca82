//! The parts of evaluating a base view that need no formula values: which
//! columns it shows and under which names, which extra properties its
//! layout reads, how its row limit cuts the groups, and the summaries that
//! count cells or pick a date.
use vstd::prelude::*;
use crate::base::{ColumnDef, ViewType};
use crate::text::{chars_of, concat_str, str_eq, to_lowercase, unicode_lowercase, views};
use crate::themes::{is_sorted_texts, lemma_text_le_total, lemma_text_le_transitive, string_views, text_le, text_le_exec};

verus! {

proof fn lemma_text_le_reflexive(a: Seq<char>)
    ensures
        text_le(a, a),
    decreases a.len(),
{
    if a.len() > 0 {
        lemma_text_le_reflexive(a.skip(1));
    }
}

proof fn lemma_text_le_antisymmetric(a: Seq<char>, b: Seq<char>)
    requires
        text_le(a, b),
        text_le(b, a),
    ensures
        a == b,
    decreases a.len(),
{
    if a.len() > 0 && b.len() > 0 {
        lemma_text_le_antisymmetric(a.skip(1), b.skip(1));
        assert(a =~= seq![a[0]] + a.skip(1));
        assert(b =~= seq![b[0]] + b.skip(1));
    } else {
        assert(a =~= b);
    }
}

/// The distinct texts of `items`, in character order.
pub fn sorted_unique(items: &Vec<String>) -> (r: Vec<String>)
    ensures
        is_sorted_texts(string_views(r@)),
        string_views(r@).no_duplicates(),
        string_views(r@).to_set() == string_views(items@).to_set(),
{
    let ghost names = string_views(items@);
    let mut out: Vec<String> = Vec::new();
    let mut keys: Vec<Vec<char>> = Vec::new();
    let mut i: usize = 0;
    assert(names.take(0) =~= Seq::<Seq<char>>::empty());
    assert(string_views(out@) =~= Seq::<Seq<char>>::empty());
    assert(string_views(out@).to_set() =~= names.take(0).to_set());
    while i < items.len()
        invariant
            names == string_views(items@),
            i <= names.len(),
            out@.len() == keys@.len(),
            forall|k: int| 0 <= k < keys@.len() ==> (#[trigger] keys@[k])@ == out@[k]@,
            is_sorted_texts(string_views(out@)),
            string_views(out@).no_duplicates(),
            string_views(out@).to_set() == names.take(i as int).to_set(),
        decreases names.len() - i,
    {
        proof {
            assert(names.take(i + 1) =~= names.take(i as int).push(items@[i as int]@));
            names.take(i as int).lemma_push_to_set_commute(items@[i as int]@);
        }
        let key = chars_of(items[i].as_str());
        let mut p: usize = 0;
        while p < keys.len() && text_le_exec(&keys[p], &key)
            invariant
                p <= keys@.len(),
                forall|k: int| 0 <= k < p ==> text_le((#[trigger] keys@[k])@, key@),
            decreases keys@.len() - p,
        {
            p = p + 1;
        }
        let ghost before = string_views(out@);
        let ghost keys_before = keys@;
        let ghost out_before = out@;
        proof {
            assert forall|k: int| 0 <= k < before.len() implies before[k] == (#[trigger] keys@[k])@ by {}
            if p < keys@.len() {
                assert(!text_le(keys@[p as int]@, key@));
                lemma_text_le_total(keys@[p as int]@, key@);
                assert forall|j: int| p <= j < before.len() implies !text_le(#[trigger] before[j], key@) by {
                    if j > p {
                        assert(text_le(before[p as int], before[j]));
                        if text_le(before[j], key@) {
                            lemma_text_le_transitive(before[p as int], before[j], key@);
                        }
                    }
                }
            }
        }
        let dup = p > 0 && str_eq(out[p - 1].as_str(), items[i].as_str());
        if dup {
            proof {
                assert(before[p - 1] == key@);
                assert(before.contains(key@));
                assert(names.take(i + 1).to_set() =~= names.take(i as int).to_set().insert(key@));
                assert(string_views(out@).to_set() =~= before.to_set());
                assert(before.to_set().contains(key@));
                assert(before.to_set().insert(key@) =~= before.to_set());
            }
        } else {
            proof {
                lemma_text_le_reflexive(key@);
                assert(!before.contains(key@)) by {
                    if before.contains(key@) {
                        let k = choose|k: int| 0 <= k < before.len() && before[k] == key@;
                        if k >= p {
                            assert(!text_le(before[k], key@));
                        } else {
                            assert(text_le(before[k], before[p - 1]));
                            assert(text_le(keys@[p - 1]@, key@));
                            lemma_text_le_antisymmetric(before[p - 1], key@);
                        }
                    }
                }
            }
            out.insert(p, items[i].clone());
            keys.insert(p, key);
            proof {
                let after = string_views(out@);
                assert(after =~= before.insert(p as int, key@));
                assert forall|a: int, b: int|
                    0 <= a < b < after.len() implies text_le(#[trigger] after[a], #[trigger] after[b]) by {
                    if b < p {
                        assert(after[a] == before[a]);
                        assert(after[b] == before[b]);
                    } else if b == p {
                        assert(after[a] == before[a]);
                        assert(text_le(keys@[a]@, key@));
                    } else if a < p {
                        assert(after[a] == before[a]);
                        assert(after[b] == before[b - 1]);
                        assert(text_le(keys@[a]@, key@));
                        lemma_text_le_total(key@, before[b - 1]);
                        lemma_text_le_transitive(before[a], key@, before[b - 1]);
                    } else if a == p {
                        assert(after[b] == before[b - 1]);
                        lemma_text_le_total(key@, before[b - 1]);
                    } else {
                        assert(after[a] == before[a - 1]);
                        assert(after[b] == before[b - 1]);
                    }
                }
                assert forall|a: int, b: int|
                    0 <= a < after.len() && 0 <= b < after.len() && a != b implies after[a] != after[b] by {
                    if a != p && b != p {
                        let a0 = if a < p { a } else { a - 1 };
                        let b0 = if b < p { b } else { b - 1 };
                        assert(after[a] == before[a0]);
                        assert(after[b] == before[b0]);
                    } else if a == p {
                        let b0 = if b < p { b } else { b - 1 };
                        assert(after[b] == before[b0]);
                    } else {
                        let a0 = if a < p { a } else { a - 1 };
                        assert(after[a] == before[a0]);
                    }
                }
                assert forall|x: Seq<char>| after.contains(x) <==> before.contains(x) || x == key@ by {
                    if after.contains(x) {
                        let k = choose|k: int| 0 <= k < after.len() && after[k] == x;
                        if k < p {
                            assert(before[k] == x);
                        } else if k > p {
                            assert(before[k - 1] == x);
                        }
                    }
                    if before.contains(x) {
                        let k = choose|k: int| 0 <= k < before.len() && before[k] == x;
                        if k < p {
                            assert(after[k] == x);
                        } else {
                            assert(after[k + 1] == x);
                        }
                    }
                    if x == key@ {
                        assert(after[p as int] == x);
                    }
                }
                assert(after.to_set() =~= before.to_set().insert(key@));
                assert(names.take(i + 1).to_set() =~= names.take(i as int).to_set().insert(key@));
                assert forall|k: int| 0 <= k < keys@.len() implies (#[trigger] keys@[k])@ == out@[k]@ by {
                    if k < p {
                        assert(keys@[k] == keys_before[k]);
                        assert(out@[k] == out_before[k]);
                    } else if k > p {
                        assert(keys@[k] == keys_before[k - 1]);
                        assert(out@[k] == out_before[k - 1]);
                    }
                }
            }
        }
        i = i + 1;
    }
    proof {
        assert(names.take(names.len() as int) == names);
    }
    out
}

/// `formula.` before each formula name.
pub open spec fn formula_columns(formulas: Seq<Seq<char>>) -> Seq<Seq<char>> {
    formulas.map_values(|f: Seq<char>| "formula."@ + f)
}

/// The column keys of a view: its `order` when it gives one; else
/// `file.name`, then `formula.<name>` for each formula in the order given,
/// then each note property seen, once, in character order.
pub open spec fn columns_ok(r: Seq<Seq<char>>, order: Seq<Seq<char>>, formulas: Seq<Seq<char>>, seen: Seq<Seq<char>>) -> bool {
    if order.len() > 0 {
        r == order
    } else {
        let props = r.skip(1 + formulas.len() as int);
        &&& r.len() >= 1 + formulas.len()
        &&& r[0] == "file.name"@
        &&& r.subrange(1, 1 + formulas.len() as int) == formula_columns(formulas)
        &&& is_sorted_texts(props)
        &&& props.no_duplicates()
        &&& props.to_set() == seen.to_set()
    }
}

/// The column keys of a view; see `columns_ok`. `formula_names` are the
/// names of the base's formulas in their order, `seen` the property names
/// of the notes, with repeats.
pub fn column_keys(order: &Vec<String>, formula_names: &Vec<String>, seen: &Vec<String>) -> (r: Vec<String>)
    ensures
        columns_ok(string_views(r@), string_views(order@), string_views(formula_names@), string_views(seen@)),
{
    if order.len() > 0 {
        let mut r: Vec<String> = Vec::new();
        let mut i: usize = 0;
        while i < order.len()
            invariant
                i <= order@.len(),
                string_views(r@) == string_views(order@).take(i as int),
            decreases order@.len() - i,
        {
            let ghost before = r@;
            r.push(order[i].clone());
            proof {
                assert(r@ == before.push(order@[i as int]));
                assert(string_views(r@) =~= string_views(before).push(order@[i as int]@));
                assert(string_views(order@).take(i + 1) =~= string_views(order@).take(i as int).push(order@[i as int]@));
            }
            i = i + 1;
        }
        proof {
            assert(string_views(order@).take(order@.len() as int) == string_views(order@));
        }
        return r;
    }
    let ghost fs = string_views(formula_names@);
    let mut r: Vec<String> = Vec::new();
    r.push(String::from_str("file.name"));
    let mut i: usize = 0;
    proof {
        assert(string_views(r@).subrange(1, 1) =~= formula_columns(fs.take(0)));
    }
    while i < formula_names.len()
        invariant
            fs == string_views(formula_names@),
            i <= fs.len(),
            r@.len() == 1 + i,
            string_views(r@)[0] == "file.name"@,
            string_views(r@).subrange(1, 1 + i as int) == formula_columns(fs.take(i as int)),
        decreases fs.len() - i,
    {
        let ghost before = r@;
        let c = concat_str("formula.", formula_names[i].as_str());
        r.push(c);
        proof {
            assert(r@ == before.push(c));
            assert(string_views(r@) =~= string_views(before).push(c@));
            assert(fs.take(i + 1) =~= fs.take(i as int).push(fs[i as int]));
            assert(formula_columns(fs.take(i + 1)) =~= formula_columns(fs.take(i as int)).push("formula."@ + fs[i as int]));
            assert(string_views(r@).subrange(1, 1 + i + 1) =~= string_views(before).subrange(1, 1 + i as int).push(c@));
        }
        i = i + 1;
    }
    let props = sorted_unique(seen);
    let ghost head = string_views(r@);
    let mut j: usize = 0;
    while j < props.len()
        invariant
            j <= props@.len(),
            head.len() == 1 + fs.len(),
            string_views(r@) == head + string_views(props@).take(j as int),
        decreases props@.len() - j,
    {
        let ghost before = r@;
        r.push(props[j].clone());
        proof {
            assert(r@ == before.push(props@[j as int]));
            assert(string_views(r@) =~= string_views(before).push(props@[j as int]@));
            assert(string_views(props@).take(j + 1) =~= string_views(props@).take(j as int).push(props@[j as int]@));
            assert(string_views(r@) =~= head + string_views(props@).take(j + 1));
        }
        j = j + 1;
    }
    proof {
        assert(fs.take(fs.len() as int) == fs);
        assert(string_views(props@).take(props@.len() as int) == string_views(props@));
        assert(string_views(r@).skip(1 + fs.len() as int) =~= string_views(props@));
        assert(string_views(r@).subrange(1, 1 + fs.len() as int) =~= head.subrange(1, 1 + fs.len() as int));
    }
    r
}

/// The heading of a column: the display name the base gives the property,
/// else the key itself. The last entry for a key counts.
pub open spec fn display_of(names: Seq<(Seq<char>, Option<Seq<char>>)>, key: Seq<char>) -> Seq<char>
    decreases names.len(),
{
    if names.len() == 0 {
        key
    } else if names.last().0 == key {
        match names.last().1 {
            Some(d) => d,
            None => key,
        }
    } else {
        display_of(names.drop_last(), key)
    }
}

/// Display names as values.
pub open spec fn display_views(names: Seq<(String, Option<String>)>) -> Seq<(Seq<char>, Option<Seq<char>>)> {
    names.map_values(|e: (String, Option<String>)| (e.0@, match e.1 {
        Some(d) => Some(d@),
        None => None,
    }))
}

fn display_name(names: &Vec<(String, Option<String>)>, key: &String) -> (r: String)
    ensures
        r@ == display_of(display_views(names@), key@),
{
    let ghost dv = display_views(names@);
    let mut i: usize = names.len();
    proof {
        assert(dv.take(dv.len() as int) == dv);
    }
    while i > 0
        invariant
            i <= names@.len(),
            dv == display_views(names@),
            display_of(dv, key@) == display_of(dv.take(i as int), key@),
        decreases i,
    {
        proof {
            assert(dv.take(i as int).drop_last() == dv.take(i - 1));
            assert(dv.take(i as int).last() == dv[i - 1]);
        }
        if str_eq(names[i - 1].0.as_str(), key.as_str()) {
            return match &names[i - 1].1 {
                Some(d) => d.clone(),
                None => key.clone(),
            };
        }
        i = i - 1;
    }
    key.clone()
}

/// The columns of the keys, each with its heading; `names` are the
/// display names the base gives properties.
pub fn column_defs(keys: &Vec<String>, names: &Vec<(String, Option<String>)>) -> (r: Vec<ColumnDef>)
    ensures
        r@.len() == keys@.len(),
        forall|i: int|
            0 <= i < keys@.len() ==> (#[trigger] r@[i]).key@ == keys@[i]@ && r@[i].display@ == display_of(
                display_views(names@),
                keys@[i]@,
            ),
{
    let mut r: Vec<ColumnDef> = Vec::new();
    let mut i: usize = 0;
    while i < keys.len()
        invariant
            i <= keys@.len(),
            r@.len() == i,
            forall|k: int|
                0 <= k < i ==> (#[trigger] r@[k]).key@ == keys@[k]@ && r@[k].display@ == display_of(
                    display_views(names@),
                    keys@[k]@,
                ),
        decreases keys@.len() - i,
    {
        let display = display_name(names, &keys[i]);
        r.push(ColumnDef { key: keys[i].clone(), display });
        i = i + 1;
    }
    r
}

/// The properties a layout reads besides its columns: coordinates, marker
/// color and icon for a map, color and cover for cards.
pub open spec fn layout_properties(t: ViewType) -> Seq<Seq<char>> {
    match t {
        ViewType::MapView => seq![
            "coordinates"@,
            "coords"@,
            "location"@,
            "marker_color"@,
            "color"@,
            "marker_icon"@,
            "icon"@,
        ],
        ViewType::Cards => seq!["color"@, "cover"@],
        _ => Seq::empty(),
    }
}

/// The layout's properties that are not among the columns, in order.
pub open spec fn extra_keys_of(t: ViewType, columns: Seq<Seq<char>>) -> Seq<Seq<char>> {
    layout_properties(t).filter(|k: Seq<char>| !columns.contains(k))
}

fn contains_key(columns: &Vec<String>, key: &str) -> (r: bool)
    ensures
        r == string_views(columns@).contains(key@),
{
    let mut i: usize = 0;
    while i < columns.len()
        invariant
            i <= columns@.len(),
            forall|k: int| 0 <= k < i ==> (#[trigger] columns@[k])@ != key@,
        decreases columns@.len() - i,
    {
        if str_eq(columns[i].as_str(), key) {
            proof {
                assert(string_views(columns@)[i as int] == key@);
            }
            return true;
        }
        i = i + 1;
    }
    proof {
        if string_views(columns@).contains(key@) {
            let k = choose|k: int| 0 <= k < columns@.len() && string_views(columns@)[k] == key@;
            assert(columns@[k]@ == key@);
        }
    }
    false
}

/// The properties a layout reads that its columns do not already hold.
pub fn view_extra_keys(t: ViewType, columns: &Vec<String>) -> (r: Vec<&'static str>)
    ensures
        r@.map_values(|k: &'static str| k@) == extra_keys_of(t, string_views(columns@)),
{
    let all: Vec<&'static str> = match t {
        ViewType::MapView => vec!["coordinates", "coords", "location", "marker_color", "color", "marker_icon", "icon"],
        ViewType::Cards => vec!["color", "cover"],
        _ => Vec::new(),
    };
    let ghost lp = layout_properties(t);
    proof {
        assert(all@.map_values(|k: &'static str| k@) =~= lp);
    }
    let ghost cs = string_views(columns@);
    let mut r: Vec<&'static str> = Vec::new();
    let mut i: usize = 0;
    while i < all.len()
        invariant
            i <= all@.len(),
            lp == layout_properties(t),
            cs == string_views(columns@),
            all@.map_values(|k: &'static str| k@) == lp,
            r@.map_values(|k: &'static str| k@) == lp.take(i as int).filter(|k: Seq<char>| !cs.contains(k)),
        decreases all@.len() - i,
    {
        let k = all[i];
        proof {
            assert(lp.take(i + 1).drop_last() =~= lp.take(i as int));
            assert(lp.take(i + 1).last() == k@);
            reveal(Seq::filter);
        }
        if !contains_key(columns, k) {
            r.push(k);
        }
        proof {
            assert(r@.map_values(|k: &'static str| k@) =~= lp.take(i + 1).filter(|k: Seq<char>| !cs.contains(k)));
        }
        i = i + 1;
    }
    proof {
        assert(lp.take(all@.len() as int) == lp);
    }
    r
}

/// The group sizes left when a view shows at most `limit` rows: groups are
/// kept in order while rows remain, the last one kept cut to what
/// remains; `count` rows are already shown.
pub open spec fn limited(sizes: Seq<nat>, limit: nat, count: nat) -> Seq<nat>
    decreases sizes.len(),
{
    if sizes.len() == 0 || count >= limit {
        Seq::empty()
    } else {
        let kept = if sizes[0] > limit - count { (limit - count) as nat } else { sizes[0] };
        seq![kept] + limited(sizes.drop_first(), limit, count + kept)
    }
}

/// The sum of sizes.
pub open spec fn total(sizes: Seq<nat>) -> nat
    decreases sizes.len(),
{
    if sizes.len() == 0 {
        0
    } else {
        sizes[0] + total(sizes.drop_first())
    }
}

/// Sizes as values.
pub open spec fn size_views(v: Seq<usize>) -> Seq<nat> {
    v.map_values(|n: usize| n as nat)
}

/// The group sizes a view with row limit `limit` shows; all of them when
/// it has none.
pub fn limit_groups(sizes: &Vec<usize>, limit: Option<usize>) -> (r: Vec<usize>)
    ensures
        size_views(r@) == match limit {
            Some(l) => limited(size_views(sizes@), l as nat, 0),
            None => size_views(sizes@),
        },
{
    let l = match limit {
        Some(l) => l,
        None => {
            let mut all: Vec<usize> = Vec::new();
            let mut k: usize = 0;
            while k < sizes.len()
                invariant
                    k <= sizes@.len(),
                    all@ == sizes@.take(k as int),
                decreases sizes@.len() - k,
            {
                all.push(sizes[k]);
                proof {
                    assert(all@ =~= sizes@.take(k + 1));
                }
                k = k + 1;
            }
            proof {
                assert(sizes@.take(sizes@.len() as int) == sizes@);
            }
            return all;
        },
    };
    let ghost sv = size_views(sizes@);
    let mut r: Vec<usize> = Vec::new();
    let mut count: usize = 0;
    let mut i: usize = 0;
    proof {
        assert(sv.skip(0) =~= sv);
        assert(size_views(r@) + limited(sv, l as nat, 0) =~= limited(sv, l as nat, 0));
    }
    while i < sizes.len()
        invariant
            sv == size_views(sizes@),
            i <= sizes@.len(),
            count <= l,
            limited(sv, l as nat, 0) == size_views(r@) + limited(sv.skip(i as int), l as nat, count as nat),
        ensures
            i == sizes@.len() || count >= l,
            i <= sizes@.len(),
            limited(sv, l as nat, 0) == size_views(r@) + limited(sv.skip(i as int), l as nat, count as nat),
        decreases sizes@.len() - i,
    {
        if count >= l {
            break;
        }
        let remaining = l - count;
        let kept = if sizes[i] > remaining { remaining } else { sizes[i] };
        proof {
            assert(sv.skip(i as int).drop_first() =~= sv.skip(i + 1));
            assert(sv.skip(i as int)[0] == sizes@[i as int]);
            assert(size_views(r@.push(kept)) =~= size_views(r@) + seq![kept as nat]);
        }
        r.push(kept);
        count = count + kept;
        i = i + 1;
    }
    proof {
        if i == sizes@.len() {
            assert(sv.skip(i as int).len() == 0);
        }
        assert(size_views(r@) + Seq::<nat>::empty() =~= size_views(r@));
    }
    r
}

/// A row limit shows exactly the first `limit` rows, or all when there are
/// fewer, and never makes a group larger.
pub proof fn limit_keeps_first_rows(sizes: Seq<nat>, limit: nat, count: nat)
    requires
        count <= limit,
    ensures
        total(limited(sizes, limit, count)) == if total(sizes) < limit - count {
            total(sizes)
        } else {
            (limit - count) as nat
        },
        limited(sizes, limit, count).len() <= sizes.len(),
        forall|i: int| 0 <= i < limited(sizes, limit, count).len() ==> #[trigger] limited(sizes, limit, count)[i] <= sizes[i],
    decreases sizes.len(),
{
    if sizes.len() > 0 && count < limit {
        let kept = if sizes[0] > limit - count { (limit - count) as nat } else { sizes[0] };
        limit_keeps_first_rows(sizes.drop_first(), limit, count + kept);
        let rest = limited(sizes.drop_first(), limit, count + kept);
        assert(total(seq![kept] + rest) == kept + total(rest)) by {
            assert((seq![kept] + rest).drop_first() =~= rest);
        }
        assert forall|i: int| 0 <= i < limited(sizes, limit, count).len() implies #[trigger] limited(sizes, limit, count)[i] <= sizes[i] by {
            if i > 0 {
                assert(limited(sizes, limit, count)[i] == rest[i - 1]);
                assert(sizes.drop_first()[i - 1] == sizes[i]);
            }
        }
    }
}

/// The number of leading keys of `keys` equal to `k`.
pub open spec fn run_of(keys: Seq<u64>, k: u64) -> nat
    decreases keys.len(),
{
    if keys.len() > 0 && keys[0] == k {
        1 + run_of(keys.drop_first(), k)
    } else {
        0
    }
}

/// A run is no longer than the keys.
pub proof fn lemma_run_of_bound(keys: Seq<u64>, k: u64)
    ensures
        run_of(keys, k) <= keys.len(),
    decreases keys.len(),
{
    if keys.len() > 0 && keys[0] == k {
        lemma_run_of_bound(keys.drop_first(), k);
    }
}

/// The sizes of the groups of a view grouped by a property, for rows
/// already in group order whose group values are `keys` (two rows' keys
/// are equal exactly when their values are): each group is the longest
/// run of rows whose key is that of the group's first row.
pub open spec fn group_runs(keys: Seq<u64>) -> Seq<nat>
    decreases keys.len(),
{
    if keys.len() == 0 {
        seq![]
    } else {
        let n = run_of(keys, keys[0]);
        proof {
            lemma_run_of_bound(keys, keys[0]);
        }
        seq![n] + group_runs(keys.skip(n as int))
    }
}

/// The group sizes of rows in group order with group keys `keys`.
pub fn group_sizes(keys: &Vec<u64>) -> (r: Vec<usize>)
    ensures
        size_views(r@) == group_runs(keys@),
{
    let mut r: Vec<usize> = Vec::new();
    let mut i: usize = 0;
    proof {
        assert(keys@.skip(0) =~= keys@);
        assert(size_views(r@) + group_runs(keys@) =~= group_runs(keys@));
    }
    while i < keys.len()
        invariant
            i <= keys@.len(),
            size_views(r@) + group_runs(keys@.skip(i as int)) == group_runs(keys@),
        decreases keys@.len() - i,
    {
        let k = keys[i];
        let mut j: usize = i + 1;
        proof {
            assert(keys@.skip(i as int).drop_first() =~= keys@.skip(i + 1));
        }
        while j < keys.len() && keys[j] == k
            invariant
                i < j <= keys@.len(),
                k == keys@[i as int],
                run_of(keys@.skip(i as int), k) == (j - i) + run_of(keys@.skip(j as int), k),
            decreases keys@.len() - j,
        {
            proof {
                assert(keys@.skip(j as int).drop_first() =~= keys@.skip(j + 1));
            }
            j = j + 1;
        }
        let ghost before = size_views(r@);
        let ghost rest = keys@.skip(i as int);
        r.push(j - i);
        proof {
            assert(run_of(rest, k) == j - i);
            assert(rest.skip((j - i) as int) =~= keys@.skip(j as int));
            assert(size_views(r@) =~= before + seq![(j - i) as nat]);
            assert(before + group_runs(rest) =~= size_views(r@) + group_runs(keys@.skip(j as int)));
        }
        i = j;
    }
    proof {
        assert(keys@.skip(i as int).len() == 0);
        assert(size_views(r@) + group_runs(keys@.skip(i as int)) =~= size_views(r@));
    }
    r
}

/// Grouping puts each row in exactly one group and makes no empty group:
/// the group sizes add up to the number of rows, and each is at least one.
pub proof fn groups_cover_rows(keys: Seq<u64>)
    ensures
        total(group_runs(keys)) == keys.len(),
        forall|g: int| 0 <= g < group_runs(keys).len() ==> #[trigger] group_runs(keys)[g] >= 1,
    decreases keys.len(),
{
    if keys.len() > 0 {
        let n = run_of(keys, keys[0]);
        lemma_run_of_bound(keys, keys[0]);
        assert(keys.drop_first().len() >= 0);
        assert(n >= 1);
        let rest = keys.skip(n as int);
        groups_cover_rows(rest);
        let r = group_runs(keys);
        assert(r == seq![n] + group_runs(rest));
        assert(r.drop_first() =~= group_runs(rest));
        assert forall|g: int| 0 <= g < r.len() implies #[trigger] r[g] >= 1 by {
            if g > 0 {
                assert(r[g] == group_runs(rest)[g - 1]);
            }
        }
    }
}

/// Whether row `a` may come before row `b`: rows are ordered by the rank of
/// their group value, then by their path.
pub open spec fn row_before(ranks: Seq<u64>, paths: Seq<Seq<char>>, a: int, b: int) -> bool {
    ranks[a] < ranks[b] || (ranks[a] == ranks[b] && text_le(paths[a], paths[b]))
}

/// `r` lists the rows `0..n` once each, in row order, rows that are
/// level with each other keeping the order they came in.
pub open spec fn rows_in_order(ranks: Seq<u64>, paths: Seq<Seq<char>>, r: Seq<usize>, n: nat) -> bool {
    &&& r.len() == n
    &&& forall|i: int| 0 <= i < n ==> #[trigger] r[i] < n
    &&& forall|i: int, j: int| 0 <= i < j < n ==> #[trigger] r[i] != #[trigger] r[j]
    &&& forall|i: int, j: int|
        0 <= i < j < n ==> row_before(ranks, paths, #[trigger] r[i] as int, #[trigger] r[j] as int)
    &&& forall|i: int, j: int|
        0 <= i < j < n && row_before(ranks, paths, #[trigger] r[j] as int, #[trigger] r[i] as int)
            ==> r[i] < r[j]
}

/// The row order is total.
pub proof fn lemma_row_before_total(ranks: Seq<u64>, paths: Seq<Seq<char>>, a: int, b: int)
    ensures
        row_before(ranks, paths, a, b) || row_before(ranks, paths, b, a),
{
    lemma_text_le_total(paths[a], paths[b]);
}

/// The row order is transitive.
pub proof fn lemma_row_before_transitive(ranks: Seq<u64>, paths: Seq<Seq<char>>, a: int, b: int, c: int)
    requires
        row_before(ranks, paths, a, b),
        row_before(ranks, paths, b, c),
    ensures
        row_before(ranks, paths, a, c),
{
    if ranks[a] == ranks[b] && ranks[b] == ranks[c] {
        lemma_text_le_transitive(paths[a], paths[b], paths[c]);
    }
}

/// Whether row `a` may come before row `b`.
fn row_before_exec(ranks: &Vec<u64>, paths: &Vec<Vec<char>>, a: usize, b: usize) -> (r: bool)
    requires
        a < ranks@.len(),
        b < ranks@.len(),
        ranks@.len() == paths@.len(),
    ensures
        r == row_before(ranks@, views(paths@), a as int, b as int),
{
    ranks[a] < ranks[b] || (ranks[a] == ranks[b] && text_le_exec(&paths[a], &paths[b]))
}

/// The order in which a view lists its rows: by the rank of each row's
/// group value (all equal when the view is not grouped), then by path, a
/// stable sort. Returns the row indices in that order.
pub fn row_order(ranks: &Vec<u64>, paths: &Vec<String>) -> (r: Vec<usize>)
    requires
        ranks@.len() == paths@.len(),
    ensures
        rows_in_order(ranks@, string_views(paths@), r@, ranks@.len()),
{
    let n = ranks.len();
    let mut ps: Vec<Vec<char>> = Vec::new();
    let mut t: usize = 0;
    while t < n
        invariant
            n == paths@.len(),
            t <= n,
            views(ps@) == string_views(paths@).take(t as int),
        decreases n - t,
    {
        let ghost before = views(ps@);
        ps.push(chars_of(paths[t].as_str()));
        proof {
            assert(views(ps@) =~= before.push(paths@[t as int]@));
            assert(string_views(paths@).take(t + 1) =~= string_views(paths@).take(t as int).push(
                paths@[t as int]@,
            ));
        }
        t = t + 1;
    }
    proof {
        assert(string_views(paths@).take(n as int) =~= string_views(paths@));
    }
    let ghost pv = string_views(paths@);
    let mut r: Vec<usize> = Vec::new();
    let mut k: usize = 0;
    while k < n
        invariant
            n == ranks@.len(),
            n == ps@.len(),
            views(ps@) == pv,
            k <= n,
            rows_in_order(ranks@, pv, r@, k as nat),
        decreases n - k,
    {
        let mut p: usize = k;
        while p > 0 && !row_before_exec(ranks, &ps, r[p - 1], k)
            invariant
                n == ranks@.len(),
                n == ps@.len(),
                views(ps@) == pv,
                k < n,
                p <= k,
                rows_in_order(ranks@, pv, r@, k as nat),
                forall|q: int| p <= q < k ==> !row_before(ranks@, pv, #[trigger] r@[q] as int, k as int),
            decreases p,
        {
            p = p - 1;
        }
        let ghost s = r@;
        r.insert(p, k);
        proof {
            assert(r@ =~= s.insert(p as int, k));
            let s2 = r@;
            assert forall|i: int| 0 <= i < k + 1 implies #[trigger] s2[i] < k + 1 by {
                if i < p {
                    assert(s2[i] == s[i]);
                } else if i > p {
                    assert(s2[i] == s[i - 1]);
                }
            }
            assert forall|i: int, j: int| 0 <= i < j < k + 1 implies #[trigger] s2[i] != #[trigger] s2[j] by {
                if i < p && j < p {
                    assert(s2[i] == s[i] && s2[j] == s[j]);
                } else if i < p && j == p {
                    assert(s2[i] == s[i]);
                } else if i < p {
                    assert(s2[i] == s[i] && s2[j] == s[j - 1]);
                } else if i == p {
                    assert(s2[j] == s[j - 1]);
                } else {
                    assert(s2[i] == s[i - 1] && s2[j] == s[j - 1]);
                }
            }
            assert forall|i: int, j: int| 0 <= i < j < k + 1 implies row_before(ranks@, pv, #[trigger] s2[i] as int, #[trigger] s2[j] as int) by {
                if i < p && j < p {
                    assert(s2[i] == s[i] && s2[j] == s[j]);
                } else if i < p && j == p {
                    assert(s2[i] == s[i]);
                    if i < p - 1 {
                        assert(row_before(ranks@, pv, s[i] as int, s[p - 1] as int));
                        lemma_row_before_transitive(ranks@, pv, s[i] as int, s[p - 1] as int, k as int);
                    }
                } else if i < p {
                    assert(s2[i] == s[i] && s2[j] == s[j - 1]);
                    assert(row_before(ranks@, pv, s[i] as int, s[j - 1] as int));
                } else if i == p {
                    assert(s2[j] == s[j - 1]);
                    assert(!row_before(ranks@, pv, s[j - 1] as int, k as int));
                    lemma_row_before_total(ranks@, pv, s[j - 1] as int, k as int);
                } else {
                    assert(s2[i] == s[i - 1] && s2[j] == s[j - 1]);
                    assert(row_before(ranks@, pv, s[i - 1] as int, s[j - 1] as int));
                }
            }
            assert forall|i: int, j: int| 0 <= i < j < k + 1 && row_before(ranks@, pv, #[trigger] s2[j] as int, #[trigger] s2[i] as int) implies s2[i] < s2[j] by {
                if i < p && j < p {
                    assert(s2[i] == s[i] && s2[j] == s[j]);
                } else if i < p && j == p {
                    assert(s2[i] == s[i]);
                } else if i < p {
                    assert(s2[i] == s[i] && s2[j] == s[j - 1]);
                } else if i == p {
                    assert(s2[j] == s[j - 1]);
                    assert(!row_before(ranks@, pv, s[j - 1] as int, k as int));
                } else {
                    assert(s2[i] == s[i - 1] && s2[j] == s[j - 1]);
                }
            }
        }
        k = k + 1;
    }
    r
}

/// The summaries a view can show under a column, by their names (in any
/// case); any other name refers to a custom summary formula of the base.
#[derive(Debug, Clone, Copy, PartialEq, Eq, Structural)]
pub enum SummaryKind {
    Average,
    Sum,
    Min,
    Max,
    Range,
    Median,
    StdDev,
    Earliest,
    Latest,
    Checked,
    Unchecked,
    Empty,
    Filled,
    Unique,
    Custom,
}

/// The summary a lowercase name selects.
pub open spec fn summary_of_lower(s: Seq<char>) -> SummaryKind {
    if s == "average"@ {
        SummaryKind::Average
    } else if s == "sum"@ {
        SummaryKind::Sum
    } else if s == "min"@ {
        SummaryKind::Min
    } else if s == "max"@ {
        SummaryKind::Max
    } else if s == "range"@ {
        SummaryKind::Range
    } else if s == "median"@ {
        SummaryKind::Median
    } else if s == "stddev"@ {
        SummaryKind::StdDev
    } else if s == "earliest"@ {
        SummaryKind::Earliest
    } else if s == "latest"@ {
        SummaryKind::Latest
    } else if s == "checked"@ {
        SummaryKind::Checked
    } else if s == "unchecked"@ {
        SummaryKind::Unchecked
    } else if s == "empty"@ {
        SummaryKind::Empty
    } else if s == "filled"@ {
        SummaryKind::Filled
    } else if s == "unique"@ {
        SummaryKind::Unique
    } else {
        SummaryKind::Custom
    }
}

/// The summary a name selects: its lowercase form names it.
pub fn summary_kind(name: &str) -> (r: SummaryKind)
    ensures
        r == summary_of_lower(unicode_lowercase(name@)),
{
    let lower = to_lowercase(name);
    let l = lower.as_str();
    if str_eq(l, "average") {
        SummaryKind::Average
    } else if str_eq(l, "sum") {
        SummaryKind::Sum
    } else if str_eq(l, "min") {
        SummaryKind::Min
    } else if str_eq(l, "max") {
        SummaryKind::Max
    } else if str_eq(l, "range") {
        SummaryKind::Range
    } else if str_eq(l, "median") {
        SummaryKind::Median
    } else if str_eq(l, "stddev") {
        SummaryKind::StdDev
    } else if str_eq(l, "earliest") {
        SummaryKind::Earliest
    } else if str_eq(l, "latest") {
        SummaryKind::Latest
    } else if str_eq(l, "checked") {
        SummaryKind::Checked
    } else if str_eq(l, "unchecked") {
        SummaryKind::Unchecked
    } else if str_eq(l, "empty") {
        SummaryKind::Empty
    } else if str_eq(l, "filled") {
        SummaryKind::Filled
    } else if str_eq(l, "unique") {
        SummaryKind::Unique
    } else {
        SummaryKind::Custom
    }
}

/// What the counting summaries read of a cell's value.
#[derive(Debug, Clone, Copy, PartialEq, Eq, Structural)]
pub enum CellKind {
    Null,
    EmptyText,
    True,
    False,
    Other,
}

/// Whether a counting summary counts a cell: `checked` counts true,
/// `unchecked` false, `empty` null or empty text, `filled` the rest.
pub open spec fn counted(kind: SummaryKind, c: CellKind) -> bool {
    match kind {
        SummaryKind::Checked => c == CellKind::True,
        SummaryKind::Unchecked => c == CellKind::False,
        SummaryKind::Empty => c == CellKind::Null || c == CellKind::EmptyText,
        SummaryKind::Filled => !(c == CellKind::Null || c == CellKind::EmptyText),
        _ => false,
    }
}

/// The number of cells a counting summary counts.
pub open spec fn count_of(kind: SummaryKind, cells: Seq<CellKind>) -> nat
    decreases cells.len(),
{
    if cells.len() == 0 {
        0
    } else {
        count_of(kind, cells.drop_last()) + if counted(kind, cells.last()) { 1nat } else { 0nat }
    }
}

/// The value of a counting summary (`checked`, `unchecked`, `empty`,
/// `filled`) over a column's cells; `None` for the other summaries.
pub fn count_summary(kind: SummaryKind, cells: &Vec<CellKind>) -> (r: Option<usize>)
    ensures
        match kind {
            SummaryKind::Checked | SummaryKind::Unchecked | SummaryKind::Empty | SummaryKind::Filled => r
                == Some(count_of(kind, cells@) as usize),
            _ => r is None,
        },
        count_of(kind, cells@) <= cells@.len(),
{
    proof {
        lemma_count_le(kind, cells@);
    }
    match kind {
        SummaryKind::Checked | SummaryKind::Unchecked | SummaryKind::Empty | SummaryKind::Filled => {},
        _ => {
            return None;
        },
    }
    let mut n: usize = 0;
    let mut i: usize = 0;
    while i < cells.len()
        invariant
            i <= cells@.len(),
            kind == SummaryKind::Checked || kind == SummaryKind::Unchecked || kind == SummaryKind::Empty || kind == SummaryKind::Filled,
            n == count_of(kind, cells@.take(i as int)),
            n <= i,
        decreases cells@.len() - i,
    {
        proof {
            assert(cells@.take(i + 1).drop_last() =~= cells@.take(i as int));
            assert(cells@.take(i + 1).last() == cells@[i as int]);
        }
        let c = cells[i];
        let hit = match kind {
            SummaryKind::Checked => c == CellKind::True,
            SummaryKind::Unchecked => c == CellKind::False,
            SummaryKind::Empty => c == CellKind::Null || c == CellKind::EmptyText,
            _ => !(c == CellKind::Null || c == CellKind::EmptyText),
        };
        if hit {
            n = n + 1;
        }
        i = i + 1;
    }
    proof {
        assert(cells@.take(cells@.len() as int) == cells@);
    }
    Some(n)
}

proof fn lemma_count_le(kind: SummaryKind, cells: Seq<CellKind>)
    ensures
        count_of(kind, cells) <= cells.len(),
    decreases cells.len(),
{
    if cells.len() > 0 {
        lemma_count_le(kind, cells.drop_last());
    }
}

/// The earliest (or latest) of a column's dates, in milliseconds; `None`
/// when the column holds none.
pub fn extreme_date(dates: &Vec<i64>, latest: bool) -> (r: Option<i64>)
    ensures
        dates@.len() == 0 <==> r is None,
        match r {
            Some(d) => dates@.contains(d) && forall|i: int|
                0 <= i < dates@.len() ==> if latest {
                    #[trigger] dates@[i] <= d
                } else {
                    d <= dates@[i]
                },
            None => true,
        },
{
    if dates.len() == 0 {
        return None;
    }
    let mut best = dates[0];
    let mut i: usize = 1;
    while i < dates.len()
        invariant
            1 <= i <= dates@.len(),
            dates@.contains(best),
            forall|k: int| 0 <= k < i ==> if latest {
                #[trigger] dates@[k] <= best
            } else {
                best <= dates@[k]
            },
        decreases dates@.len() - i,
    {
        let d = dates[i];
        if (latest && d > best) || (!latest && d < best) {
            best = d;
        }
        i = i + 1;
    }
    Some(best)
}

} // verus!
