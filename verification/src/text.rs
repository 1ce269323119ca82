//! Character-level text helpers shared by the parsers of the crate.
//!
//! Text is handled as `Vec<char>` inside the parsers, so that the contracts
//! can speak of `Seq<char>` directly; strings cross the boundary through
//! `chars_of` and `string_of`.
use vstd::prelude::*;

verus! {

/// `String::push` appends one character.
pub assume_specification[ String::push ](s: &mut String, ch: char)
    ensures
        final(s)@ == old(s)@.push(ch),
;

/// The Unicode `White_Space` property, which `char::is_whitespace` tests.
pub open spec fn is_ws(c: char) -> bool {
    ||| ('\u{9}' <= c && c <= '\u{d}')
    ||| c == ' '
    ||| c == '\u{85}'
    ||| c == '\u{a0}'
    ||| c == '\u{1680}'
    ||| ('\u{2000}' <= c && c <= '\u{200a}')
    ||| c == '\u{2028}'
    ||| c == '\u{2029}'
    ||| c == '\u{202f}'
    ||| c == '\u{205f}'
    ||| c == '\u{3000}'
}

/// Whether `c` is Unicode white space (what `char::is_whitespace` answers).
pub fn is_whitespace(c: char) -> (r: bool)
    ensures
        r == is_ws(c),
{
    ('\u{9}' <= c && c <= '\u{d}') || c == ' ' || c == '\u{85}' || c == '\u{a0}' || c
        == '\u{1680}' || ('\u{2000}' <= c && c <= '\u{200a}') || c == '\u{2028}' || c
        == '\u{2029}' || c == '\u{202f}' || c == '\u{205f}' || c == '\u{3000}'
}

/// An ASCII digit.
pub open spec fn is_digit(c: char) -> bool {
    '0' <= c && c <= '9'
}

/// `char::is_ascii_digit`.
pub fn is_ascii_digit(c: char) -> (r: bool)
    ensures
        r == is_digit(c),
{
    '0' <= c && c <= '9'
}

/// An ASCII letter or digit.
pub open spec fn is_ascii_alnum(c: char) -> bool {
    is_digit(c) || ('a' <= c && c <= 'z') || ('A' <= c && c <= 'Z')
}

/// `char::is_ascii_alphanumeric`.
pub fn is_ascii_alphanumeric(c: char) -> (r: bool)
    ensures
        r == is_ascii_alnum(c),
{
    ('0' <= c && c <= '9') || ('a' <= c && c <= 'z') || ('A' <= c && c <= 'Z')
}

/// The Unicode `Alphabetic` property of a character, as `char::is_alphabetic`
/// reports it.
pub uninterp spec fn unicode_alphabetic(c: char) -> bool;

/// The Unicode `Alphabetic` or `Numeric` property of a character, as
/// `char::is_alphanumeric` reports it.
pub uninterp spec fn unicode_alphanumeric(c: char) -> bool;

/// Calls `char::is_alphabetic`. Trusted: the result is `unicode_alphabetic(c)`,
/// which holds of every ASCII letter and of no other ASCII character.
#[verifier::external_body]
pub(crate) fn is_alphabetic(c: char) -> (r: bool)
    ensures
        r == unicode_alphabetic(c),
        (c as u32) < 128 ==> (r <==> (('a' <= c && c <= 'z') || ('A' <= c && c <= 'Z'))),
{
    c.is_alphabetic()
}

/// Calls `char::is_alphanumeric`. Trusted: the result is
/// `unicode_alphanumeric(c)`, which on ASCII characters is exactly the ASCII
/// letters and digits.
#[verifier::external_body]
pub(crate) fn is_alphanumeric(c: char) -> (r: bool)
    ensures
        r == unicode_alphanumeric(c),
        (c as u32) < 128 ==> (r <==> is_ascii_alnum(c)),
{
    c.is_alphanumeric()
}

/// The characters of a string slice, in order.
pub fn chars_of(s: &str) -> (v: Vec<char>)
    ensures
        v@ == s@,
{
    let n = s.unicode_len();
    let mut v: Vec<char> = Vec::new();
    let mut i: usize = 0;
    while i < n
        invariant
            n == s@.len(),
            i <= n,
            v@ == s@.subrange(0, i as int),
        decreases n - i,
    {
        v.push(s.get_char(i));
        i = i + 1;
    }
    v
}

/// A string holding exactly the characters `v`.
pub fn string_of(v: &[char]) -> (s: String)
    ensures
        s@ == v@,
{
    let mut s = String::new();
    let mut i: usize = 0;
    while i < v.len()
        invariant
            i <= v.len(),
            s@ == v@.subrange(0, i as int),
        decreases v.len() - i,
    {
        s.push(v[i]);
        i = i + 1;
    }
    s
}

/// Whether the characters `v` spell the literal `lit`.
pub fn eq_lit(v: &[char], lit: &str) -> (r: bool)
    ensures
        r == (v@ == lit@),
{
    let n = lit.unicode_len();
    if v.len() != n {
        return false;
    }
    let mut i: usize = 0;
    while i < n
        invariant
            n == lit@.len(),
            n == v@.len(),
            i <= n,
            forall|j: int| 0 <= j < i ==> v@[j] == lit@[j],
        decreases n - i,
    {
        if v[i] != lit.get_char(i) {
            return false;
        }
        i = i + 1;
    }
    assert(v@ =~= lit@);
    true
}


/// `s` with its leading white space removed (`str::trim_start`).
pub open spec fn trim_start_seq(s: Seq<char>) -> Seq<char>
    decreases s.len(),
{
    if s.len() > 0 && is_ws(s[0]) {
        trim_start_seq(s.drop_first())
    } else {
        s
    }
}

/// `s` with its trailing white space removed (`str::trim_end`).
pub open spec fn trim_end_seq(s: Seq<char>) -> Seq<char>
    decreases s.len(),
{
    if s.len() > 0 && is_ws(s.last()) {
        trim_end_seq(s.drop_last())
    } else {
        s
    }
}

/// `s` with leading and trailing white space removed (`str::trim`).
pub open spec fn trim_seq(s: Seq<char>) -> Seq<char> {
    trim_end_seq(trim_start_seq(s))
}

/// Whether `s` begins with `p`.
pub open spec fn starts_with(s: Seq<char>, p: Seq<char>) -> bool {
    p.len() <= s.len() && s.subrange(0, p.len() as int) == p
}

/// Number of leading white-space characters of `s`.
pub open spec fn ws_prefix_len(s: Seq<char>) -> nat
    decreases s.len(),
{
    if s.len() > 0 && is_ws(s[0]) {
        1 + ws_prefix_len(s.drop_first())
    } else {
        0
    }
}

/// Trimming the start skips the leading white space.
pub proof fn lemma_trim_start_skip(s: Seq<char>)
    ensures
        ws_prefix_len(s) <= s.len(),
        trim_start_seq(s) == s.skip(ws_prefix_len(s) as int),
        forall|j: int| 0 <= j < ws_prefix_len(s) ==> is_ws(#[trigger] s[j]),
        ws_prefix_len(s) < s.len() ==> !is_ws(s[ws_prefix_len(s) as int]),
    decreases s.len(),
{
    if s.len() > 0 && is_ws(s[0]) {
        lemma_trim_start_skip(s.drop_first());
        assert forall|j: int| 0 <= j < ws_prefix_len(s) implies is_ws(#[trigger] s[j]) by {
            if j > 0 {
                assert(s[j] == s.drop_first()[j - 1]);
            }
        }
        assert(s.drop_first().skip(ws_prefix_len(s.drop_first()) as int) =~= s.skip(
            ws_prefix_len(s) as int,
        ));
    } else {
        assert(s.skip(0) =~= s);
    }
}

/// Number of trailing white-space characters of `s`.
pub open spec fn ws_suffix_len(s: Seq<char>) -> nat
    decreases s.len(),
{
    if s.len() > 0 && is_ws(s.last()) {
        1 + ws_suffix_len(s.drop_last())
    } else {
        0
    }
}

/// Trimming the end keeps all but the trailing white space.
pub proof fn lemma_trim_end_take(s: Seq<char>)
    ensures
        ws_suffix_len(s) <= s.len(),
        trim_end_seq(s) == s.take(s.len() - ws_suffix_len(s)),
        forall|j: int| s.len() - ws_suffix_len(s) <= j < s.len() ==> is_ws(#[trigger] s[j]),
        ws_suffix_len(s) < s.len() ==> !is_ws(s[s.len() - ws_suffix_len(s) - 1]),
    decreases s.len(),
{
    if s.len() > 0 && is_ws(s.last()) {
        lemma_trim_end_take(s.drop_last());
        assert forall|j: int|
            s.len() - ws_suffix_len(s) <= j < s.len() implies is_ws(#[trigger] s[j]) by {
            if j < s.len() - 1 {
                assert(s[j] == s.drop_last()[j]);
            }
        }
        assert(s.drop_last().take(s.drop_last().len() - ws_suffix_len(s.drop_last())) =~= s.take(
            s.len() - ws_suffix_len(s),
        ));
    } else {
        assert(s.take(s.len() as int) =~= s);
    }
}

/// Index of the first character of `s[from..]` that is not white space, or
/// `s.len()`.
pub fn skip_ws(s: &[char], from: usize) -> (k: usize)
    requires
        from <= s@.len(),
    ensures
        from <= k <= s@.len(),
        k - from == ws_prefix_len(s@.skip(from as int)),
{
    let mut k = from;
    proof {
        lemma_trim_start_skip(s@.skip(from as int));
    }
    while k < s.len() && is_whitespace(s[k])
        invariant
            from <= k <= s@.len(),
            k - from <= ws_prefix_len(s@.skip(from as int)),
            ws_prefix_len(s@.skip(from as int)) <= s@.len() - from,
            forall|j: int|
                0 <= j < ws_prefix_len(s@.skip(from as int)) ==> is_ws(
                    #[trigger] s@.skip(from as int)[j],
                ),
            ws_prefix_len(s@.skip(from as int)) < s@.len() - from ==> !is_ws(
                s@.skip(from as int)[ws_prefix_len(s@.skip(from as int)) as int],
            ),
        decreases s.len() - k,
    {
        k = k + 1;
    }
    if k < s.len() {
        assert(s@.skip(from as int)[k - from] == s@[k as int]);
    }
    k
}

/// Index just past the last character of `s[from..to]` that is not white
/// space, or `from`.
pub fn skip_ws_back(s: &[char], from: usize, to: usize) -> (k: usize)
    requires
        from <= to <= s@.len(),
    ensures
        from <= k <= to,
        to - k == ws_suffix_len(s@.subrange(from as int, to as int)),
{
    let ghost w = s@.subrange(from as int, to as int);
    proof {
        lemma_trim_end_take(w);
    }
    let mut k = to;
    while k > from && is_whitespace(s[k - 1])
        invariant
            from <= k <= to,
            to <= s@.len(),
            w == s@.subrange(from as int, to as int),
            to - k <= ws_suffix_len(w),
            ws_suffix_len(w) <= w.len(),
            forall|j: int| w.len() - ws_suffix_len(w) <= j < w.len() ==> is_ws(#[trigger] w[j]),
            ws_suffix_len(w) < w.len() ==> !is_ws(w[w.len() - ws_suffix_len(w) - 1]),
        decreases k,
    {
        assert(w[k - 1 - from] == s@[k - 1]);
        k = k - 1;
    }
    if k > from {
        assert(w[k - 1 - from] == s@[k - 1]);
    }
    k
}

/// The characters of `s[from..to]` without leading and trailing white space.
pub fn trimmed_range(s: &[char], from: usize, to: usize) -> (r: Vec<char>)
    requires
        from <= to <= s@.len(),
    ensures
        r@ == trim_seq(s@.subrange(from as int, to as int)),
{
    let ghost w = s@.subrange(from as int, to as int);
    let a = skip_ws(s, from);
    proof {
        lemma_trim_start_skip(w);
        assert(w =~= s@.skip(from as int).take(to - from));
        lemma_ws_prefix_take(s@.skip(from as int), (to - from) as nat);
    }
    let a = if a > to { to } else { a };
    let b = skip_ws_back(s, a, to);
    proof {
        assert(trim_start_seq(w) =~= s@.subrange(a as int, to as int));
        lemma_trim_end_take(s@.subrange(a as int, to as int));
        assert(s@.subrange(a as int, to as int).take(b - a) =~= s@.subrange(a as int, b as int));
    }
    sub_vec(s, a, b)
}

/// The leading white space of a prefix.
pub proof fn lemma_ws_prefix_take(s: Seq<char>, n: nat)
    requires
        n <= s.len(),
    ensures
        ws_prefix_len(s.take(n as int)) == if ws_prefix_len(s) < n {
            ws_prefix_len(s)
        } else {
            n
        },
    decreases n,
{
    if n > 0 {
        assert(s.take(n as int)[0] == s[0]);
        if is_ws(s[0]) {
            assert(s.take(n as int).drop_first() =~= s.drop_first().take(n - 1));
            lemma_ws_prefix_take(s.drop_first(), (n - 1) as nat);
        }
    }
}

/// A copy of `s[from..to]`.
pub fn sub_vec(s: &[char], from: usize, to: usize) -> (r: Vec<char>)
    requires
        from <= to <= s@.len(),
    ensures
        r@ == s@.subrange(from as int, to as int),
{
    let mut r: Vec<char> = Vec::new();
    let mut i = from;
    while i < to
        invariant
            from <= i <= to <= s@.len(),
            r@ == s@.subrange(from as int, i as int),
        decreases to - i,
    {
        r.push(s[i]);
        i = i + 1;
    }
    r
}

/// Whether `s[from..]` starts with the literal `lit`.
pub fn starts_with_lit(s: &[char], from: usize, lit: &str) -> (r: bool)
    requires
        from <= s@.len(),
    ensures
        r == starts_with(s@.skip(from as int), lit@),
{
    let n = lit.unicode_len();
    if s.len() - from < n {
        return false;
    }
    let mut i: usize = 0;
    while i < n
        invariant
            n == lit@.len(),
            from + n <= s.len(),
            i <= n,
            forall|j: int| 0 <= j < i ==> s@[from + j] == lit@[j],
        decreases n - i,
    {
        if s[from + i] != lit.get_char(i) {
            assert(s@.skip(from as int).subrange(0, n as int)[i as int] == s@[from + i]);
            return false;
        }
        i = i + 1;
    }
    assert(s@.skip(from as int).subrange(0, n as int) =~= lit@);
    true
}


/// Index of the first `'\n'` of `s`, or `s.len()`.
pub open spec fn nl_index(s: Seq<char>) -> nat
    decreases s.len(),
{
    if s.len() == 0 {
        0
    } else if s[0] == '\n' {
        0
    } else {
        1 + nl_index(s.drop_first())
    }
}

/// A line without the `'\r'` of a `"\r\n"` line ending.
pub open spec fn strip_cr(l: Seq<char>) -> Seq<char> {
    if l.len() > 0 && l.last() == '\r' {
        l.drop_last()
    } else {
        l
    }
}

/// The lines of `s`, as `str::lines` yields them: split at `'\n'`, a `'\r'`
/// just before the `'\n'` dropped, and no empty line after a final `'\n'`.
pub open spec fn lines_seq(s: Seq<char>) -> Seq<Seq<char>>
    decreases s.len(),
{
    if s.len() == 0 {
        seq![]
    } else {
        let k = nl_index(s);
        if k >= s.len() {
            seq![s]
        } else {
            seq![strip_cr(s.take(k as int))] + lines_seq(s.skip(k as int + 1))
        }
    }
}

/// The first line break of a text is at `k` when `k` is a line break (or the end) and none comes before.
pub proof fn lemma_nl_index(t: Seq<char>, k: nat)
    requires
        k <= t.len(),
        forall|j: int| 0 <= j < k ==> t[j] != '\n',
        k == t.len() || t[k as int] == '\n',
    ensures
        nl_index(t) == k,
    decreases k,
{
    if k > 0 {
        assert(t[0] != '\n');
        assert forall|j: int| 0 <= j < k - 1 implies t.drop_first()[j] != '\n' by {
            assert(t.drop_first()[j] == t[j + 1]);
        }
        if k < t.len() {
            assert(t.drop_first()[k - 1] == t[k as int]);
        }
        lemma_nl_index(t.drop_first(), (k - 1) as nat);
    }
}

/// The character sequences held by a vector of character vectors.
pub open spec fn views(r: Seq<Vec<char>>) -> Seq<Seq<char>> {
    r.map_values(|v: Vec<char>| v@)
}

/// The lines of `s` (`str::lines`), each as its characters.
pub fn split_lines(s: &[char]) -> (r: Vec<Vec<char>>)
    ensures
        views(r@) == lines_seq(s@),
{
    let mut r: Vec<Vec<char>> = Vec::new();
    let mut start: usize = 0;
    let mut i: usize = 0;
    let n = s.len();
    assert(s@.skip(0) =~= s@);
    while i < n
        invariant
            n == s@.len(),
            start <= i <= n,
            lines_seq(s@) == views(r@) + lines_seq(s@.skip(start as int)),
            forall|j: int| start <= j < i ==> s@[j] != '\n',
        decreases n - i,
    {
        if s[i] == '\n' {
            let ghost t = s@.skip(start as int);
            proof {
                assert forall|j: int| 0 <= j < i - start implies t[j] != '\n' by {
                    assert(t[j] == s@[start + j]);
                }
                lemma_nl_index(t, (i - start) as nat);
                assert(t.skip(i - start + 1) =~= s@.skip(i + 1));
                assert(t.take(i - start) =~= s@.subrange(start as int, i as int));
            }
            let mut line = sub_vec(s, start, i);
            if line.len() > 0 && line[line.len() - 1] == '\r' {
                line.pop();
            }
            let ghost before = views(r@);
            r.push(line);
            proof {
                assert(views(r@) =~= before.push(strip_cr(t.take(i - start))));
                assert(lines_seq(t) == seq![strip_cr(t.take(i - start))] + lines_seq(
                    s@.skip(i + 1),
                ));
                assert(lines_seq(s@) =~= views(r@) + lines_seq(s@.skip(i + 1)));
            }
            start = i + 1;
        }
        i = i + 1;
    }
    let ghost t = s@.skip(start as int);
    if start < n {
        proof {
            assert forall|j: int| 0 <= j < n - start implies t[j] != '\n' by {
                assert(t[j] == s@[start + j]);
            }
            lemma_nl_index(t, (n - start) as nat);
            assert(t =~= s@.subrange(start as int, n as int));
        }
        let line = sub_vec(s, start, n);
        let ghost before = views(r@);
        r.push(line);
        proof {
            assert(views(r@) =~= before.push(t));
            assert(lines_seq(s@) =~= views(r@));
        }
    } else {
        proof {
            assert(lines_seq(s@) =~= views(r@));
        }
    }
    r
}


/// The Unicode lowercase mapping of a string, as `str::to_lowercase`
/// computes it.
pub uninterp spec fn unicode_lowercase(s: Seq<char>) -> Seq<char>;

/// ASCII lowercase of one character.
pub open spec fn ascii_lower_char(c: char) -> char {
    if 'A' <= c && c <= 'Z' {
        ((c as u32) + 32) as char
    } else {
        c
    }
}

/// ASCII lowercase of a string: `'A'..='Z'` mapped to `'a'..='z'`.
pub open spec fn ascii_lower(s: Seq<char>) -> Seq<char> {
    s.map_values(|c: char| ascii_lower_char(c))
}

/// Every character is ASCII.
pub open spec fn all_ascii(s: Seq<char>) -> bool {
    forall|i: int| 0 <= i < s.len() ==> (#[trigger] s[i] as u32) < 128
}

/// Calls `str::to_lowercase`. Trusted: the result is the Unicode lowercase
/// mapping `unicode_lowercase(s@)`; on a string of ASCII characters it maps
/// `'A'..='Z'` to `'a'..='z'` and keeps every other character. What it does
/// to other characters is left unsaid.
#[verifier::external_body]
pub(crate) fn to_lowercase(s: &str) -> (r: String)
    ensures
        r@ == unicode_lowercase(s@),
        all_ascii(s@) ==> r@ == ascii_lower(s@),
{
    s.to_lowercase()
}

/// The Unicode uppercase mapping of a text, which `str::to_uppercase`
/// computes.
pub uninterp spec fn unicode_uppercase(s: Seq<char>) -> Seq<char>;

/// ASCII uppercase of one character.
pub open spec fn ascii_upper_char(c: char) -> char {
    if 'a' <= c && c <= 'z' {
        ((c as u32) - 32) as char
    } else {
        c
    }
}

/// ASCII uppercase of a string: `'a'..='z'` mapped to `'A'..='Z'`.
pub open spec fn ascii_upper(s: Seq<char>) -> Seq<char> {
    s.map_values(|c: char| ascii_upper_char(c))
}

/// Calls `str::to_uppercase`. Trusted: the result is the Unicode uppercase
/// mapping `unicode_uppercase(s@)`; on a string of ASCII characters it maps
/// `'a'..='z'` to `'A'..='Z'` and keeps every other character. What it does
/// to other characters is left unsaid.
#[verifier::external_body]
pub(crate) fn to_uppercase(s: &str) -> (r: String)
    ensures
        r@ == unicode_uppercase(s@),
        all_ascii(s@) ==> r@ == ascii_upper(s@),
{
    s.to_uppercase()
}

/// `s` followed by `t`.
pub fn concat_str(s: &str, t: &str) -> (r: String)
    ensures
        r@ == s@ + t@,
{
    let mut r = String::from_str(s);
    r.append(t);
    r
}

/// Whether two strings hold the same characters.
pub fn str_eq(a: &str, b: &str) -> (r: bool)
    ensures
        r == (a@ == b@),
{
    let v = chars_of(a);
    eq_lit(v.as_slice(), b)
}

} // verus!
