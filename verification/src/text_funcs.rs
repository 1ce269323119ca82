//! The text functions of the formula language of `.base` views, on plain
//! strings: `contains`, `replace`, `split`, `join`, `lower`, `upper` and
//! `title`. (The formula evaluator turns its arguments into strings first;
//! it is not part of this library, since formula values carry floats.)
use vstd::prelude::*;
use crate::status_line::{replace_all, replaced};
use crate::themes::string_views;
use crate::text::{
    all_ascii, ascii_lower, ascii_upper, chars_of, concat_str, is_whitespace, is_ws, starts_with_lit, string_of, sub_vec, to_lowercase,
    to_uppercase, unicode_lowercase, unicode_uppercase, views,
};

verus! {

/// Whether `p` occurs in `s` at index `i`.
pub open spec fn occurs_at(s: Seq<char>, p: Seq<char>, i: int) -> bool {
    0 <= i && i + p.len() <= s.len() && s.subrange(i, i + p.len() as int) == p
}

/// Whether `p` occurs anywhere in `s` (the empty text occurs everywhere).
pub open spec fn contains_seq(s: Seq<char>, p: Seq<char>) -> bool {
    exists|i: int| occurs_at(s, p, i)
}

/// `contains(hay, needle)`: whether `needle` occurs in `hay`.
pub fn contains_text(hay: &str, needle: &str) -> (r: bool)
    ensures
        r == contains_seq(hay@, needle@),
{
    let h = chars_of(hay);
    let n = chars_of(needle).len();
    if n > h.len() {
        proof {
            assert forall|i: int| !occurs_at(hay@, needle@, i) by {}
        }
        return false;
    }
    let last = h.len() - n;
    let mut i: usize = 0;
    loop
        invariant
            h@ == hay@,
            n == needle@.len(),
            last == h@.len() - n,
            i <= last,
            forall|j: int| 0 <= j < i ==> !occurs_at(hay@, needle@, j),
        decreases last - i,
    {
        proof {
            assert(h@.skip(i as int).subrange(0, n as int) =~= h@.subrange(i as int, i + n));
        }
        if starts_with_lit(h.as_slice(), i, needle) {
            proof {
                assert(occurs_at(hay@, needle@, i as int));
            }
            return true;
        }
        if i == last {
            proof {
                assert forall|j: int| !occurs_at(hay@, needle@, j) by {
                    if 0 <= j && j < i {
                    }
                }
            }
            return false;
        }
        i = i + 1;
    }
}

/// `t` before, between and after the characters of `s`: what replacing
/// the empty text gives.
pub open spec fn interleaved(s: Seq<char>, t: Seq<char>) -> Seq<char>
    decreases s.len(),
{
    if s.len() == 0 {
        t
    } else {
        t + seq![s[0]] + interleaved(s.skip(1), t)
    }
}

/// `s` with `p` replaced by `t`, as `str::replace` does: every occurrence,
/// from the left and not overlapping; the empty pattern matches before,
/// between and after the characters.
pub open spec fn replace_seq(s: Seq<char>, p: Seq<char>, t: Seq<char>) -> Seq<char> {
    if p.len() == 0 {
        interleaved(s, t)
    } else {
        replaced(s, p, t)
    }
}

/// `replace(s, from, to)`.
pub fn replace_text(s: &str, from: &str, to: &str) -> (r: String)
    ensures
        r@ == replace_seq(s@, from@, to@),
{
    if chars_of(from).len() > 0 {
        return replace_all(s, from, to);
    }
    let cs = chars_of(s);
    let ts = chars_of(to);
    let mut out: Vec<char> = Vec::new();
    let mut i: usize = 0;
    proof {
        assert(cs@.skip(0) =~= cs@);
    }
    while i < cs.len()
        invariant
            cs@ == s@,
            ts@ == to@,
            i <= cs@.len(),
            out@ + interleaved(cs@.skip(i as int), ts@) == interleaved(s@, to@),
        decreases cs@.len() - i,
    {
        let ghost before = out@;
        let ghost rest = cs@.skip(i as int);
        push_all(&mut out, &ts);
        out.push(cs[i]);
        proof {
            assert(rest.skip(1) =~= cs@.skip(i + 1));
            assert(before + (ts@ + seq![rest[0]] + interleaved(rest.skip(1), ts@)) =~= out@
                + interleaved(cs@.skip(i + 1), ts@));
        }
        i = i + 1;
    }
    proof {
        assert(cs@.skip(i as int).len() == 0);
    }
    push_all(&mut out, &ts);
    string_of(&out)
}

/// Appends the characters `t`.
fn push_all(out: &mut Vec<char>, t: &Vec<char>)
    ensures
        final(out)@ == old(out)@ + t@,
{
    let mut k: usize = 0;
    while k < t.len()
        invariant
            k <= t@.len(),
            out@ == old(out)@ + t@.take(k as int),
        decreases t@.len() - k,
    {
        out.push(t[k]);
        proof {
            assert(out@ =~= old(out)@ + t@.take(k + 1));
        }
        k = k + 1;
    }
    proof {
        assert(t@.take(t@.len() as int) =~= t@);
    }
}

/// The texts `parts` with `sep` between each two.
pub open spec fn join_seq(parts: Seq<Seq<char>>, sep: Seq<char>) -> Seq<char>
    decreases parts.len(),
{
    if parts.len() == 0 {
        seq![]
    } else if parts.len() == 1 {
        parts[0]
    } else {
        join_seq(parts.drop_last(), sep) + sep + parts.last()
    }
}

/// The separator of `join`: the one given, else `", "`.
pub open spec fn join_sep(sep: Option<&str>) -> Seq<char> {
    match sep {
        Some(s) => s@,
        None => ", "@,
    }
}

/// `join(list, sep)`: the items of the list with the separator between
/// each two; `", "` when no separator is given.
pub fn join_text(parts: &Vec<String>, sep: Option<&str>) -> (r: String)
    ensures
        r@ == join_seq(string_views(parts@), join_sep(sep)),
{
    let sep_chars = match sep {
        Some(t) => chars_of(t),
        None => chars_of(", "),
    };
    let ghost ps = string_views(parts@);
    let mut out: Vec<char> = Vec::new();
    let mut i: usize = 0;
    while i < parts.len()
        invariant
            sep_chars@ == join_sep(sep),
            ps == string_views(parts@),
            i <= parts@.len(),
            out@ == join_seq(ps.take(i as int), sep_chars@),
        decreases parts@.len() - i,
    {
        let ghost before = out@;
        if i > 0 {
            push_all(&mut out, &sep_chars);
        }
        let w = chars_of(parts[i].as_str());
        push_all(&mut out, &w);
        proof {
            assert(ps.take(i + 1).drop_last() =~= ps.take(i as int));
            assert(ps.take(i + 1).last() == parts@[i as int]@);
            if i == 0 {
                assert(out@ =~= ps.take(1)[0]);
            } else {
                assert(out@ =~= before + sep_chars@ + ps.take(i + 1).last());
            }
        }
        i = i + 1;
    }
    proof {
        assert(ps.take(parts@.len() as int) =~= ps);
    }
    string_of(&out)
}

/// The parts of `s[a..]` cut at each occurrence of `p` (not empty),
/// looking for the next one from index `i`: the occurrences are taken from
/// the left and do not overlap, and the part after the last one is kept,
/// empty or not.
pub open spec fn split_from(s: Seq<char>, p: Seq<char>, a: int, i: int) -> Seq<Seq<char>>
    decreases s.len() - i,
{
    if p.len() == 0 || i < 0 || i + p.len() > s.len() {
        seq![s.subrange(a, s.len() as int)]
    } else if s.subrange(i, i + p.len() as int) == p {
        seq![s.subrange(a, i)] + split_from(s, p, i + p.len(), i + p.len())
    } else {
        split_from(s, p, a, i + 1)
    }
}

/// `s` cut at each `p`, as `str::split` cuts it: the empty pattern cuts at
/// every character boundary, so that the parts are `""`, each character,
/// and `""`.
pub open spec fn split_seq(s: Seq<char>, p: Seq<char>) -> Seq<Seq<char>> {
    if p.len() == 0 {
        seq![seq![]] + s.map_values(|c: char| seq![c]) + seq![seq![]]
    } else {
        split_from(s, p, 0, 0)
    }
}

/// `split(s, sep)`: the parts of `s` between the occurrences of `sep`.
pub fn split_text(s: &str, sep: &str) -> (r: Vec<String>)
    ensures
        string_views(r@) == split_seq(s@, sep@),
{
    let cs = chars_of(s);
    let plen = chars_of(sep).len();
    let mut parts: Vec<String> = Vec::new();
    if plen == 0 {
        parts.push(String::new());
        let mut i: usize = 0;
        while i < cs.len()
            invariant
                cs@ == s@,
                i <= cs@.len(),
                string_views(parts@) == seq![seq![]] + cs@.take(i as int).map_values(
                    |c: char| seq![c],
                ),
            decreases cs@.len() - i,
        {
            let one = sub_vec(cs.as_slice(), i, i + 1);
            let ghost before = string_views(parts@);
            parts.push(string_of(&one));
            proof {
                assert(one@ =~= seq![cs@[i as int]]);
                assert(cs@.take(i + 1).map_values(|c: char| seq![c]) =~= cs@.take(i as int).map_values(
                    |c: char| seq![c],
                ).push(seq![cs@[i as int]]));
                assert(string_views(parts@) =~= before.push(one@));
            }
            i = i + 1;
        }
        let ghost before = string_views(parts@);
        parts.push(String::new());
        proof {
            assert(cs@.take(cs@.len() as int) =~= cs@);
            assert(string_views(parts@) =~= before.push(seq![]));
        }
        return parts;
    }
    if plen > cs.len() {
        let ghost before = string_views(parts@);
        parts.push(string_of(&cs));
        proof {
            assert(cs@.subrange(0, cs@.len() as int) =~= cs@);
            assert(string_views(parts@) =~= seq![cs@]);
        }
        return parts;
    }
    let last = cs.len() - plen;
    let mut a: usize = 0;
    let mut i: usize = 0;
    while i <= last
        invariant
            cs@ == s@,
            plen == sep@.len(),
            plen > 0,
            last == cs@.len() - plen,
            cs@.len() <= usize::MAX,
            a <= i <= cs@.len(),
            string_views(parts@) + split_from(cs@, sep@, a as int, i as int) == split_from(
                cs@,
                sep@,
                0,
                0,
            ),
        decreases cs@.len() - i,
    {
        let ghost before = string_views(parts@);
        proof {
            assert(cs@.skip(i as int).subrange(0, plen as int) =~= cs@.subrange(
                i as int,
                i + plen,
            ));
        }
        if starts_with_lit(cs.as_slice(), i, sep) {
            let piece = sub_vec(cs.as_slice(), a, i);
            parts.push(string_of(&piece));
            proof {
                assert(string_views(parts@) =~= before.push(piece@));
                assert(before + split_from(cs@, sep@, a as int, i as int) =~= string_views(parts@)
                    + split_from(cs@, sep@, i + plen, i + plen));
            }
            i = i + plen;
            a = i;
        } else {
            i = i + 1;
        }
    }
    let ghost before = string_views(parts@);
    let piece = sub_vec(cs.as_slice(), a, cs.len());
    parts.push(string_of(&piece));
    proof {
        assert(string_views(parts@) =~= before.push(piece@));
        assert(before + split_from(cs@, sep@, a as int, i as int) =~= string_views(parts@));
    }
    parts
}

/// Joining a list that starts with `x`: `x`, then the separator and the
/// rest joined, when there is a rest.
pub proof fn lemma_join_cons(x: Seq<char>, rest: Seq<Seq<char>>, sep: Seq<char>)
    ensures
        join_seq(seq![x] + rest, sep) == if rest.len() == 0 {
            x
        } else {
            x + sep + join_seq(rest, sep)
        },
    decreases rest.len(),
{
    let l = seq![x] + rest;
    if rest.len() == 0 {
        assert(l =~= seq![x]);
    } else if rest.len() == 1 {
        assert(l.drop_last() =~= seq![x]);
        assert(join_seq(seq![x], sep) == x);
        assert(l.last() == rest[0]);
        assert(join_seq(rest, sep) == rest[0]);
    } else {
        assert(l.drop_last() =~= seq![x] + rest.drop_last());
        assert(l.last() == rest.last());
        assert(join_seq(rest, sep) == join_seq(rest.drop_last(), sep) + sep + rest.last());
        lemma_join_cons(x, rest.drop_last(), sep);
        assert(x + sep + join_seq(rest.drop_last(), sep) + sep + rest.last() =~= x + sep + (join_seq(
            rest.drop_last(),
            sep,
        ) + sep + rest.last()));
    }
}

/// The parts of a split joined again give the text they were cut from.
proof fn lemma_split_from_join(s: Seq<char>, p: Seq<char>, a: int, i: int)
    requires
        p.len() > 0,
        0 <= a <= i <= s.len(),
    ensures
        split_from(s, p, a, i).len() >= 1,
        join_seq(split_from(s, p, a, i), p) == s.subrange(a, s.len() as int),
    decreases s.len() - i,
{
    if i + p.len() > s.len() {
    } else if s.subrange(i, i + p.len() as int) == p {
        let j = i + p.len();
        lemma_split_from_join(s, p, j, j);
        lemma_join_cons(s.subrange(a, i), split_from(s, p, j, j), p);
        assert(s.subrange(a, i) + p + s.subrange(j, s.len() as int) =~= s.subrange(
            a,
            s.len() as int,
        ));
    } else {
        lemma_split_from_join(s, p, a, i + 1);
    }
}

/// Joining the one-character texts of `s`, and an empty text after them,
/// with no separator gives `s`.
proof fn lemma_join_chars(s: Seq<char>)
    ensures
        join_seq(s.map_values(|c: char| seq![c]) + seq![seq![]], seq![]) == s,
    decreases s.len(),
{
    let e: Seq<char> = seq![];
    if s.len() == 0 {
        assert(s.map_values(|c: char| seq![c]) + seq![e] =~= seq![e]);
    } else {
        let rest = s.skip(1).map_values(|c: char| seq![c]) + seq![e];
        assert(s.map_values(|c: char| seq![c]) + seq![e] =~= seq![seq![s[0]]] + rest);
        lemma_join_cons(seq![s[0]], rest, e);
        lemma_join_chars(s.skip(1));
        assert(seq![s[0]] + e + s.skip(1) =~= s);
    }
}

/// Splitting a text and joining the parts with the same separator gives
/// the text back.
pub proof fn split_join_round_trip(s: Seq<char>, sep: Seq<char>)
    ensures
        join_seq(split_seq(s, sep), sep) == s,
{
    if sep.len() == 0 {
        let e: Seq<char> = seq![];
        let rest = s.map_values(|c: char| seq![c]) + seq![e];
        assert(split_seq(s, sep) =~= seq![e] + rest);
        lemma_join_cons(e, rest, sep);
        lemma_join_chars(s);
        assert(sep =~= e);
        assert(e + e + s =~= s);
    } else {
        lemma_split_from_join(s, sep, 0, 0);
        assert(s.subrange(0, s.len() as int) =~= s);
    }
}

/// The whitespace-separated words of `s[i..]`, where `start` is the index
/// at which the word being read began, if one is.
pub open spec fn words_from(s: Seq<char>, start: Option<int>, i: int) -> Seq<Seq<char>>
    decreases s.len() - i,
{
    if i < 0 || i >= s.len() {
        match start {
            Some(a) => seq![s.subrange(a, s.len() as int)],
            None => seq![],
        }
    } else if is_ws(s[i]) {
        match start {
            Some(a) => seq![s.subrange(a, i)] + words_from(s, None, i + 1),
            None => words_from(s, None, i + 1),
        }
    } else {
        words_from(
            s,
            if start is Some {
                start
            } else {
                Some(i)
            },
            i + 1,
        )
    }
}

/// The words of `s`: its maximal runs of characters that are not white
/// space, as `str::split_whitespace` gives them.
pub open spec fn words(s: Seq<char>) -> Seq<Seq<char>> {
    words_from(s, None, 0)
}

/// A word with its first character in uppercase.
pub open spec fn capitalized(w: Seq<char>) -> Seq<char> {
    if w.len() == 0 {
        seq![]
    } else {
        unicode_uppercase(seq![w[0]]) + w.skip(1)
    }
}

/// The title case of `s`: its words, each capitalized, with one space
/// between each two.
pub open spec fn title_seq(s: Seq<char>) -> Seq<char> {
    join_seq(words(s).map_values(|w: Seq<char>| capitalized(w)), " "@)
}

/// An optional index as an integer.
pub open spec fn opt_int(a: Option<usize>) -> Option<int> {
    match a {
        Some(k) => Some(k as int),
        None => None,
    }
}

/// The whitespace-separated words of `s`.
fn words_of(s: &Vec<char>) -> (r: Vec<Vec<char>>)
    ensures
        views(r@) == words(s@),
{
    let mut r: Vec<Vec<char>> = Vec::new();
    let mut start: Option<usize> = None;
    let mut i: usize = 0;
    while i < s.len()
        invariant
            i <= s@.len(),
            start matches Some(a) ==> a < i,
            views(r@) + words_from(s@, opt_int(start), i as int) == words(s@),
        decreases s@.len() - i,
    {
        let ghost before = views(r@);
        if is_whitespace(s[i]) {
            match start {
                Some(a) => {
                    let w = sub_vec(s.as_slice(), a, i);
                    r.push(w);
                    proof {
                        assert(views(r@) =~= before.push(w@));
                        assert(before + words_from(s@, Some(a as int), i as int) =~= views(r@)
                            + words_from(s@, None, i + 1));
                    }
                },
                None => {},
            }
            start = None;
        } else if start.is_none() {
            start = Some(i);
        }
        i = i + 1;
    }
    match start {
        Some(a) => {
            let ghost before = views(r@);
            let w = sub_vec(s.as_slice(), a, s.len());
            r.push(w);
            proof {
                assert(views(r@) =~= before.push(w@));
            }
        },
        None => {},
    }
    r
}

/// A word with its first character in uppercase.
fn capitalize(w: &Vec<char>) -> (r: String)
    ensures
        r@ == capitalized(w@),
{
    if w.len() == 0 {
        return String::new();
    }
    let first = string_of(&sub_vec(w.as_slice(), 0, 1));
    let up = to_uppercase(first.as_str());
    let rest = string_of(&sub_vec(w.as_slice(), 1, w.len()));
    proof {
        assert(w@.subrange(0, 1) =~= seq![w@[0]]);
        assert(w@.subrange(1, w@.len() as int) =~= w@.skip(1));
    }
    concat_str(up.as_str(), rest.as_str())
}

/// `title(s)`: the words of `s`, each with its first character in
/// uppercase, joined by single spaces.
pub fn title_text(s: &str) -> (r: String)
    ensures
        r@ == title_seq(s@),
{
    let cs = chars_of(s);
    let ws = words_of(&cs);
    let ghost wv = views(ws@);
    let mut caps: Vec<String> = Vec::new();
    let mut k: usize = 0;
    while k < ws.len()
        invariant
            wv == views(ws@),
            k <= ws@.len(),
            string_views(caps@) == wv.take(k as int).map_values(|w: Seq<char>| capitalized(w)),
        decreases ws@.len() - k,
    {
        let ghost before = string_views(caps@);
        let c = capitalize(&ws[k]);
        caps.push(c);
        proof {
            assert(string_views(caps@) =~= before.push(c@));
            assert(wv.take(k + 1).map_values(|w: Seq<char>| capitalized(w)) =~= wv.take(
                k as int,
            ).map_values(|w: Seq<char>| capitalized(w)).push(capitalized(wv[k as int])));
        }
        k = k + 1;
    }
    proof {
        assert(wv.take(ws@.len() as int) =~= wv);
    }
    join_text(&caps, Some(" "))
}

/// `lower(s)`: the Unicode lowercase of `s`.
pub fn lower_text(s: &str) -> (r: String)
    ensures
        r@ == unicode_lowercase(s@),
        all_ascii(s@) ==> r@ == ascii_lower(s@),
{
    to_lowercase(s)
}

/// `upper(s)`: the Unicode uppercase of `s`.
pub fn upper_text(s: &str) -> (r: String)
    ensures
        r@ == unicode_uppercase(s@),
        all_ascii(s@) ==> r@ == ascii_upper(s@),
{
    to_uppercase(s)
}

} // verus!
