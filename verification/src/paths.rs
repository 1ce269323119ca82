//! Expansion of `~`, `$VAR` and `${VAR}` in configured paths.
use vstd::prelude::*;
use crate::console::{lemma_utf8_size_prefix, utf8_size, width_of};
use crate::text::{chars_of, is_ascii_alnum, is_ascii_alphanumeric, string_of, sub_vec};

verus! {

/// Length of the UTF-8 sequence whose lead byte is `b`; 1 for a byte that
/// cannot lead a sequence.
pub open spec fn utf8_len(b: u8) -> nat {
    if b < 0x80 {
        1
    } else if 0xc0 <= b < 0xe0 {
        2
    } else if 0xe0 <= b < 0xf0 {
        3
    } else if 0xf0 <= b < 0xf8 {
        4
    } else {
        1
    }
}

/// Length of the UTF-8 sequence whose lead byte is `b`. Falls back to 1 for
/// invalid lead bytes.
pub fn utf8_len_leading_byte(b: u8) -> (r: usize)
    ensures
        r == utf8_len(b),
{
    let r: usize = if b < 0x80 {
        1
    } else if b >> 5 == 0b110 {
        2
    } else if b >> 4 == 0b1110 {
        3
    } else if b >> 3 == 0b11110 {
        4
    } else {
        1
    };
    assert((b >> 5 == 0b110u8) == (0xc0 <= b < 0xe0)) by (bit_vector);
    assert((b >> 4 == 0b1110u8) == (0xe0 <= b < 0xf0)) by (bit_vector);
    assert((b >> 3 == 0b11110u8) == (0xf0 <= b < 0xf8)) by (bit_vector);
    r
}

/// Number of leading variable-name characters (ASCII letters, digits, `'_'`)
/// of `s[i..]`.
pub open spec fn name_chars_from(s: Seq<char>, i: int) -> nat
    decreases s.len() - i,
{
    if 0 <= i < s.len() && (is_ascii_alnum(s[i]) || s[i] == '_') {
        1 + name_chars_from(s, i + 1)
    } else {
        0
    }
}

/// Index of the first `'}'` of `s[i..]`, relative to `i`, if any.
pub open spec fn close_brace_from(s: Seq<char>, i: int) -> Option<nat>
    decreases s.len() - i,
{
    if i < 0 || i >= s.len() {
        None
    } else if s[i] == '}' {
        Some(0)
    } else {
        match close_brace_from(s, i + 1) {
            Some(k) => Some(k + 1),
            None => None,
        }
    }
}

/// The variable reference at the start of `s`: its name, the number of
/// characters it spans, and whether it was braced. `$NAME` takes the
/// longest run of name characters (which may be empty); `${NAME}` takes
/// everything up to the first `'}'`. Anything else, and a `${` without its
/// `'}'`, is no reference: `("", 0, false)`.
pub open spec fn var_ref(s: Seq<char>) -> (Seq<char>, nat, bool) {
    if s.len() < 2 || s[0] != '$' {
        (seq![], 0, false)
    } else if s[1] == '{' {
        match close_brace_from(s, 2) {
            Some(k) => (s.subrange(2, 2 + k as int), k + 3, true),
            None => (seq![], 0, false),
        }
    } else {
        let end = 1 + name_chars_from(s, 1);
        (s.subrange(1, end as int), end, false)
    }
}

/// The number of bytes, in UTF-8, of the variable reference at the start
/// of `s`.
pub open spec fn var_ref_bytes(s: Seq<char>) -> nat {
    utf8_size(s.take(var_ref(s).1 as int))
}

/// A run of variable-name characters stays within the text.
pub proof fn lemma_name_chars_bound(s: Seq<char>, i: int)
    requires
        0 <= i <= s.len(),
    ensures
        i + name_chars_from(s, i) <= s.len(),
    decreases s.len() - i,
{
    if i < s.len() && (is_ascii_alnum(s[i]) || s[i] == '_') {
        lemma_name_chars_bound(s, i + 1);
    }
}

/// A closing brace found lies within the text.
pub proof fn lemma_close_brace_bound(s: Seq<char>, i: int)
    requires
        0 <= i,
    ensures
        close_brace_from(s, i) matches Some(k) ==> i + k < s.len() && s[i + k] == '}',
    decreases s.len() - i,
{
    if 0 <= i < s.len() && s[i] != '}' {
        lemma_close_brace_bound(s, i + 1);
    }
}

/// Parses `$VAR` or `${VAR}` at the start of `s`. Returns the name, the
/// number of bytes consumed, and whether the reference was braced.
pub fn parse_var(s: &str) -> (r: (String, usize, bool))
    requires
        utf8_size(s@) <= usize::MAX,
    ensures
        r.0@ == var_ref(s@).0,
        r.1 == var_ref_bytes(s@),
        r.2 == var_ref(s@).2,
{
    let v = chars_of(s);
    let (name, n, braced) = parse_var_chars(&v, 0);
    assert(v@.skip(0) =~= v@);
    let mut size: usize = 0;
    let mut i: usize = 0;
    while i < n
        invariant
            v@ == s@,
            n <= v@.len(),
            i <= n,
            size == utf8_size(v@.take(i as int)),
            utf8_size(v@) <= usize::MAX,
        decreases n - i,
    {
        proof {
            assert(v@.take(i + 1).drop_last() == v@.take(i as int));
            lemma_utf8_size_prefix(v@, i + 1);
        }
        size = size + width_of(v[i]);
        i = i + 1;
    }
    (string_of(&name), size, braced)
}

fn parse_var_chars(v: &Vec<char>, i: usize) -> (r: (Vec<char>, usize, bool))
    requires
        i <= v@.len(),
    ensures
        (r.0@, r.1 as nat, r.2) == var_ref(v@.skip(i as int)),
        r.1 <= v@.len() - i,
{
    let ghost s = v@.skip(i as int);
    if v.len() - i < 2 || v[i] != '$' {
        return (Vec::new(), 0, false);
    }
    if v[i + 1] == '{' {
        let mut k = i + 2;
        proof {
            lemma_close_brace_bound(s, 2);
        }
        while k < v.len() && v[k] != '}'
            invariant
                i + 2 <= k <= v@.len(),
                s == v@.skip(i as int),
                close_brace_from(s, 2) == match close_brace_from(s, (k - i) as int) {
                    Some(m) => Some((m + (k - i - 2)) as nat),
                    None => None,
                },
            decreases v.len() - k,
        {
            k = k + 1;
        }
        if k == v.len() {
            return (Vec::new(), 0, false);
        }
        let name = sub_vec(v, i + 2, k);
        assert(name@ =~= s.subrange(2, (k - i) as int));
        (name, k - i + 1, true)
    } else {
        let mut end = i + 1;
        proof {
            lemma_name_chars_bound(s, 1);
        }
        while end < v.len() && (is_ascii_alphanumeric(v[end]) || v[end] == '_')
            invariant
                i + 1 <= end <= v@.len(),
                s == v@.skip(i as int),
                1 + name_chars_from(s, 1) == (end - i) + name_chars_from(s, (end - i) as int),
            decreases v.len() - end,
        {
            end = end + 1;
        }
        let name = sub_vec(v, i + 1, end);
        assert(name@ =~= s.subrange(1, (end - i) as int));
        (name, end - i, false)
    }
}

/// The value of `name` among the variables `env`: the first binding of it.
pub open spec fn env_lookup(env: Seq<(Seq<char>, Seq<char>)>, name: Seq<char>) -> Option<
    Seq<char>,
>
    decreases env.len(),
{
    if env.len() == 0 {
        None
    } else if env[0].0 == name {
        Some(env[0].1)
    } else {
        env_lookup(env.drop_first(), name)
    }
}

/// Environment entries as values.
pub open spec fn env_view(env: Seq<(String, String)>) -> Seq<(Seq<char>, Seq<char>)> {
    env.map_values(|p: (String, String)| (p.0@, p.1@))
}

/// A path with its leading `~` replaced by the home directory, when one is
/// known.
pub open spec fn tilde_expanded(input: Seq<char>, home: Option<Seq<char>>) -> Seq<char> {
    if input.len() > 0 && input[0] == '~' && home is Some {
        home->0 + input.drop_first()
    } else {
        input
    }
}

/// What a reference to `name` becomes: the variable's value, or, when
/// `env` does not bind it, the reference as written.
pub open spec fn ref_text(env: Seq<(Seq<char>, Seq<char>)>, name: Seq<char>, braced: bool) -> Seq<
    char,
> {
    match env_lookup(env, name) {
        Some(v) => v,
        None => if braced {
            seq!['$', '{'] + name + seq!['}']
        } else {
            seq!['$'] + name
        },
    }
}

/// `s[i..]` with every variable reference replaced by the variable's value,
/// or, for an unknown variable, by the reference as written.
pub open spec fn expand_vars_from(s: Seq<char>, i: int, env: Seq<(Seq<char>, Seq<char>)>) -> Seq<
    char,
>
    decreases s.len() - i,
{
    if i < 0 || i >= s.len() {
        seq![]
    } else {
        let (name, n, braced) = var_ref(s.skip(i));
        if s[i] == '$' && name.len() > 0 && n > 0 && i + n <= s.len() {
            ref_text(env, name, braced) + expand_vars_from(s, i + n, env)
        } else {
            seq![s[i]] + expand_vars_from(s, i + 1, env)
        }
    }
}

/// From index `i` on, every reference whose name `env` does not bind is
/// copied as written.
proof fn lemma_unknown_kept_from(s: Seq<char>, env: Seq<(Seq<char>, Seq<char>)>, i: int)
    requires
        0 <= i <= s.len(),
        forall|j: int| 0 <= j < s.len() ==> env_lookup(env, #[trigger] var_ref(s.skip(j)).0) is None,
    ensures
        expand_vars_from(s, i, env) == s.skip(i),
    decreases s.len() - i,
{
    if i < s.len() {
        let t = s.skip(i);
        let (name, n, braced) = var_ref(t);
        if s[i] == '$' && name.len() > 0 && n > 0 && i + n <= s.len() {
            lemma_unknown_kept_from(s, env, i + n);
            assert(env_lookup(env, var_ref(s.skip(i)).0) is None);
            if braced {
                lemma_close_brace_bound(t, 2);
                assert(seq!['$', '{'] + name + seq!['}'] =~= t.take(n as int));
            } else {
                assert(seq!['$'] + name =~= t.take(n as int));
            }
            assert(t.take(n as int) + s.skip(i + n) =~= t);
        } else {
            lemma_unknown_kept_from(s, env, i + 1);
            assert(seq![s[i]] + s.skip(i + 1) =~= t);
        }
    } else {
        assert(s.skip(i) =~= Seq::<char>::empty());
    }
}

/// Variables that are not set are left as written: when no `$NAME` or
/// `${NAME}` reference of a text names a variable that `env` binds, the
/// expansion of the text is the text itself.
pub proof fn unknown_variables_kept(s: Seq<char>, env: Seq<(Seq<char>, Seq<char>)>)
    requires
        forall|j: int| 0 <= j < s.len() ==> env_lookup(env, #[trigger] var_ref(s.skip(j)).0) is None,
    ensures
        expand_vars_from(s, 0, env) == s,
{
    lemma_unknown_kept_from(s, env, 0);
    assert(s.skip(0) =~= s);
}

/// A character that may stand in an unbraced variable name: an ASCII
/// letter or digit, or `'_'`.
pub open spec fn is_name_char(c: char) -> bool {
    ('a' <= c && c <= 'z') || ('A' <= c && c <= 'Z') || ('0' <= c && c <= '9') || c == '_'
}

/// Expanding from index `k + j` of `s` is expanding from index `j` of what
/// follows index `k`.
proof fn lemma_expand_shift(s: Seq<char>, k: int, j: int, env: Seq<(Seq<char>, Seq<char>)>)
    requires
        0 <= k <= s.len(),
        0 <= j,
    ensures
        expand_vars_from(s, k + j, env) == expand_vars_from(s.skip(k), j, env),
    decreases s.len() - (k + j),
{
    let t = s.skip(k);
    if k + j < s.len() {
        assert(s.skip(k + j) =~= t.skip(j));
        assert(s[k + j] == t[j]);
        let (name, n, braced) = var_ref(s.skip(k + j));
        if s[k + j] == '$' && name.len() > 0 && n > 0 && k + j + n <= s.len() {
            lemma_expand_shift(s, k, j + n, env);
        } else {
            lemma_expand_shift(s, k, j + 1, env);
        }
    }
}

/// The run of name characters of `"$" + name + rest` is `name`.
proof fn lemma_name_run(name: Seq<char>, rest: Seq<char>, i: int)
    requires
        1 <= i <= name.len() + 1,
        forall|q: int| 0 <= q < name.len() ==> is_name_char(#[trigger] name[q]),
        rest.len() == 0 || !is_name_char(rest[0]),
    ensures
        name_chars_from(seq!['$'] + name + rest, i) == name.len() + 1 - i,
    decreases name.len() + 1 - i,
{
    let s = seq!['$'] + name + rest;
    if i <= name.len() {
        assert(s[i] == name[i - 1]);
        lemma_name_run(name, rest, i + 1);
    } else if rest.len() > 0 {
        assert(s[i] == rest[0]);
    }
}

/// A set variable named by its unbraced reference is replaced by its value:
/// when `env` binds `name` (ASCII letters, digits and `'_'`) to `v`,
/// `"$" + name` followed by a text that does not go on with a name
/// character expands to `v` followed by the expansion of that text.
pub proof fn set_variable_expands(
    name: Seq<char>,
    v: Seq<char>,
    rest: Seq<char>,
    env: Seq<(Seq<char>, Seq<char>)>,
)
    requires
        name.len() > 0,
        forall|q: int| 0 <= q < name.len() ==> is_name_char(#[trigger] name[q]),
        rest.len() == 0 || !is_name_char(rest[0]),
        env_lookup(env, name) == Some(v),
    ensures
        expand_vars_from(seq!['$'] + name + rest, 0, env) == v + expand_vars_from(rest, 0, env),
{
    let s = seq!['$'] + name + rest;
    lemma_name_run(name, rest, 1);
    assert(s.skip(0) =~= s);
    assert(s[1] == name[0]);
    assert(is_name_char(name[0]));
    let e: int = name.len() as int + 1;
    assert(s.subrange(1, e) =~= name);
    assert(var_ref(s) == (name, (1 + name.len()) as nat, false));
    lemma_expand_shift(s, e, 0, env);
    assert(s.skip(e) =~= rest);
}

/// The first `'}'` after `"${" + name` is the one that closes it, when
/// `name` holds none.
proof fn lemma_brace_run(name: Seq<char>, rest: Seq<char>, i: int)
    requires
        2 <= i <= name.len() + 2,
        forall|q: int| 0 <= q < name.len() ==> #[trigger] name[q] != '}',
    ensures
        close_brace_from(seq!['$', '{'] + name + seq!['}'] + rest, i) == Some((name.len() + 2 - i) as nat),
    decreases name.len() + 2 - i,
{
    let s = seq!['$', '{'] + name + seq!['}'] + rest;
    if i < name.len() + 2 {
        assert(s[i] == name[i - 2]);
        lemma_brace_run(name, rest, i + 1);
    } else {
        assert(s[i] == '}');
    }
}

/// A set variable named by its braced reference is replaced by its value:
/// when `env` binds a non-empty `name` holding no `'}'` to `v`,
/// `"${" + name + "}"` followed by any text expands to `v` followed by the
/// expansion of that text.
pub proof fn set_braced_variable_expands(
    name: Seq<char>,
    v: Seq<char>,
    rest: Seq<char>,
    env: Seq<(Seq<char>, Seq<char>)>,
)
    requires
        name.len() > 0,
        forall|q: int| 0 <= q < name.len() ==> #[trigger] name[q] != '}',
        env_lookup(env, name) == Some(v),
    ensures
        expand_vars_from(seq!['$', '{'] + name + seq!['}'] + rest, 0, env) == v + expand_vars_from(rest, 0, env),
{
    let s = seq!['$', '{'] + name + seq!['}'] + rest;
    lemma_brace_run(name, rest, 2);
    assert(s.skip(0) =~= s);
    let e: int = name.len() as int + 3;
    assert(s.subrange(2, e - 1) =~= name);
    assert(var_ref(s) == (name, (name.len() + 3) as nat, true));
    lemma_expand_shift(s, e, 0, env);
    assert(s.skip(e) =~= rest);
}

/// The expansion of a configured path.
pub open spec fn expanded_path(
    input: Seq<char>,
    home: Option<Seq<char>>,
    env: Seq<(Seq<char>, Seq<char>)>,
) -> Seq<char> {
    expand_vars_from(tilde_expanded(input, home), 0, env)
}

fn reference_text(env: &Vec<(String, String)>, name: &Vec<char>, braced: bool) -> (t: Vec<char>)
    ensures
        t@ == ref_text(env_view(env@), name@, braced),
{
    let name_s = string_of(name);
    match lookup_var(env, &name_s) {
        Some(val) => chars_of(val.as_str()),
        None => {
            let mut t: Vec<char> = Vec::new();
            t.push('$');
            if braced {
                t.push('{');
            }
            let mut j: usize = 0;
            while j < name.len()
                invariant
                    j <= name@.len(),
                    t@ == (if braced {
                        seq!['$', '{']
                    } else {
                        seq!['$']
                    }) + name@.subrange(0, j as int),
                decreases name.len() - j,
            {
                t.push(name[j]);
                j = j + 1;
            }
            if braced {
                t.push('}');
            }
            assert(t@ =~= if braced {
                seq!['$', '{'] + name@ + seq!['}']
            } else {
                seq!['$'] + name@
            });
            t
        },
    }
}

fn lookup_var(env: &Vec<(String, String)>, name: &String) -> (r: Option<String>)
    ensures
        match r {
            Some(v) => env_lookup(env_view(env@), name@) == Some(v@),
            None => env_lookup(env_view(env@), name@) is None,
        },
{
    let mut k: usize = 0;
    assert(env_view(env@).skip(0) =~= env_view(env@));
    while k < env.len()
        invariant
            k <= env@.len(),
            env_lookup(env_view(env@), name@) == env_lookup(env_view(env@).skip(k as int), name@),
        decreases env.len() - k,
    {
        let ghost rest = env_view(env@).skip(k as int);
        assert(rest[0] == (env@[k as int].0@, env@[k as int].1@));
        assert(rest.drop_first() =~= env_view(env@).skip(k + 1));
        if env[k].0 == *name {
            return Some(env[k].1.clone());
        }
        k = k + 1;
    }
    None
}

/// Expands a leading `~` (when `home` is known) and then every `$VAR` and
/// `${VAR}` reference, looking variables up in `env`. A reference to a
/// variable that `env` does not bind is kept as written. Every other
/// character is copied.
pub fn expand_path_with(input: &str, home: Option<&str>, env: &Vec<(String, String)>) -> (r:
    String)
    ensures
        r@ == expanded_path(
            input@,
            match home {
                Some(h) => Some(h@),
                None => None,
            },
            env_view(env@),
        ),
{
    let v0 = chars_of(input);
    let s: Vec<char> = if v0.len() > 0 && v0[0] == '~' {
        match home {
            Some(h) => {
                let mut hv = chars_of(h);
                let mut i: usize = 1;
                let ghost hh = hv@;
                while i < v0.len()
                    invariant
                        1 <= i <= v0@.len(),
                        hv@ == hh + v0@.subrange(1, i as int),
                    decreases v0.len() - i,
                {
                    hv.push(v0[i]);
                    i = i + 1;
                }
                assert(hv@ =~= hh + v0@.drop_first());
                hv
            },
            None => v0,
        }
    } else {
        v0
    };
    let ghost sv = s@;
    let ghost ev = env_view(env@);
    let mut out: Vec<char> = Vec::new();
    let mut i: usize = 0;
    while i < s.len()
        invariant
            sv == s@,
            ev == env_view(env@),
            i <= s@.len(),
            expand_vars_from(sv, 0, ev) == out@ + expand_vars_from(sv, i as int, ev),
        decreases s.len() - i,
    {
        let (name, n, braced) = parse_var_chars(&s, i);
        if s[i] == '$' && name.len() > 0 && n > 0 {
            let ghost before = out@;
            let text = reference_text(env, &name, braced);
            let mut j: usize = 0;
            while j < text.len()
                invariant
                    j <= text@.len(),
                    out@ == before + text@.subrange(0, j as int),
                decreases text.len() - j,
            {
                out.push(text[j]);
                j = j + 1;
            }
            assert(out@ =~= before + text@);
            assert(expand_vars_from(sv, i as int, ev) == text@ + expand_vars_from(sv, i + n, ev));
            assert(before + (text@ + expand_vars_from(sv, i + n, ev)) =~= out@ + expand_vars_from(
                sv,
                i + n,
                ev,
            ));
            i = i + n;
        } else {
            let ghost before = out@;
            assert(expand_vars_from(sv, i as int, ev) == seq![sv[i as int]] + expand_vars_from(sv, i + 1, ev));
            out.push(s[i]);
            assert(before + (seq![sv[i as int]] + expand_vars_from(sv, i + 1, ev)) =~= out@
                + expand_vars_from(sv, i + 1, ev));
            i = i + 1;
        }
    }
    assert(out@ + Seq::<char>::empty() =~= out@);
    string_of(&out)
}

/// What `std::path::Path::parent` gives for a path on the platform the
/// crate is built for: the path without its last component, or `None` for
/// a root or an empty path.
pub uninterp spec fn path_parent(p: Seq<char>) -> Option<Seq<char>>;

/// What `std::path::Path::join` gives for a base path and a relative path,
/// on the platform the crate is built for.
pub uninterp spec fn path_joined(base: Seq<char>, rel: Seq<char>) -> Seq<char>;

/// Calls `std::path::Path::parent`. Trusted: the result is the value named
/// `path_parent`.
#[verifier::external_body]
pub(crate) fn parent_of(p: &str) -> (r: Option<String>)
    ensures
        match r {
            Some(s) => path_parent(p@) == Some(s@),
            None => path_parent(p@) is None,
        },
{
    std::path::Path::new(p).parent().map(|q| q.to_string_lossy().into_owned())
}

/// Calls `std::path::Path::join`. Trusted: the result is the value named
/// `path_joined`.
#[verifier::external_body]
pub(crate) fn join_path(base: &str, rel: &str) -> (r: String)
    ensures
        r@ == path_joined(base@, rel@),
{
    std::path::Path::new(base).join(rel).to_string_lossy().into_owned()
}

/// What `std::path::Path::file_stem` gives for a path on the platform the
/// crate is built for: its file name less the last extension, or `None`
/// when it has no file name.
pub uninterp spec fn path_file_stem(p: Seq<char>) -> Option<Seq<char>>;

/// Calls `std::path::Path::file_stem`. Trusted: the result is the value
/// named `path_file_stem`.
#[verifier::external_body]
pub(crate) fn file_stem_of(p: &str) -> (r: Option<String>)
    ensures
        match r {
            Some(s) => path_file_stem(p@) == Some(s@),
            None => path_file_stem(p@) is None,
        },
{
    std::path::Path::new(p).file_stem().map(|q| q.to_string_lossy().into_owned())
}

} // verus!
