//! The graph view's status line and border title: format strings whose
//! `{placeholders}` are replaced by the values of the moment.
use vstd::prelude::*;
use crate::debug_log::{decimal, usize_to_decimal};
use crate::text::{chars_of, starts_with, starts_with_lit, string_of};

verus! {

/// `s` with every occurrence of `p` replaced by `t`, scanning from the left
/// and not overlapping, as `str::replace` does for a pattern that is not
/// empty.
pub open spec fn replaced(s: Seq<char>, p: Seq<char>, t: Seq<char>) -> Seq<char>
    decreases s.len(),
{
    if p.len() == 0 || s.len() == 0 {
        s
    } else if starts_with(s, p) {
        t + replaced(s.skip(p.len() as int), p, t)
    } else {
        seq![s[0]] + replaced(s.skip(1), p, t)
    }
}

/// `s` with every `p` replaced by `t`; see `replaced`.
pub fn replace_all(s: &str, p: &str, t: &str) -> (r: String)
    requires
        p@.len() > 0,
    ensures
        r@ == replaced(s@, p@, t@),
{
    let cs = chars_of(s);
    let ts = chars_of(t);
    let plen = chars_of(p).len();
    let mut out: Vec<char> = Vec::new();
    let mut i: usize = 0;
    proof {
        assert(cs@.skip(0) =~= s@);
        assert(out@ + replaced(cs@.skip(0), p@, t@) =~= replaced(s@, p@, t@));
    }
    while i < cs.len()
        invariant
            cs@ == s@,
            ts@ == t@,
            plen == p@.len(),
            plen > 0,
            i <= cs@.len(),
            out@ + replaced(cs@.skip(i as int), p@, t@) == replaced(s@, p@, t@),
        decreases cs@.len() - i,
    {
        let ghost rest = cs@.skip(i as int);
        if starts_with_lit(cs.as_slice(), i, p) {
            let mut k: usize = 0;
            let ghost before = out@;
            while k < ts.len()
                invariant
                    k <= ts@.len(),
                    out@ == before + ts@.take(k as int),
                decreases ts@.len() - k,
            {
                out.push(ts[k]);
                proof {
                    assert(out@ =~= before + ts@.take(k + 1));
                }
                k = k + 1;
            }
            proof {
                assert(ts@.take(ts@.len() as int) =~= ts@);
                assert(rest.skip(plen as int) =~= cs@.skip(i + plen));
                assert(before + (t@ + replaced(rest.skip(plen as int), p@, t@)) =~= out@ + replaced(cs@.skip(i + plen), p@, t@));
            }
            i = i + plen;
        } else {
            let ghost before = out@;
            out.push(cs[i]);
            proof {
                assert(rest.skip(1) =~= cs@.skip(i + 1));
                assert(rest[0] == cs@[i as int]);
                assert(before + (seq![rest[0]] + replaced(rest.skip(1), p@, t@)) =~= out@ + replaced(cs@.skip(i + 1), p@, t@));
            }
            i = i + 1;
        }
    }
    proof {
        assert(cs@.skip(i as int) =~= Seq::<char>::empty());
        assert(out@ + Seq::<char>::empty() =~= out@);
    }
    string_of(out.as_slice())
}

/// The border title with `{cwd}` replaced by the name of the working
/// directory.
pub fn expand_border_title(title: &str, cwd_name: &str) -> (r: String)
    ensures
        r@ == replaced(title@, "{cwd}"@, cwd_name@),
{
    proof {
        reveal_strlit("{cwd}");
    }
    replace_all(title, "{cwd}", cwd_name)
}

/// The status line format used when the configuration gives none.
pub open spec fn default_status_format() -> Seq<char> {
    "Files: {files} | Links: {links} | Selected: {selected}"@
}

/// The status line: the format (or the default one) with `{files}`,
/// `{links}`, `{selected}` (`none` when nothing is selected), `{date}`,
/// `{time}`, `{size}` and `{ratio}` replaced in that order.
pub open spec fn status_text(
    format: Option<Seq<char>>,
    files: nat,
    links: nat,
    selected: Option<Seq<char>>,
    date: Seq<char>,
    time: Seq<char>,
    size: Seq<char>,
    ratio: Seq<char>,
) -> Seq<char> {
    let f0 = match format {
        Some(f) => f,
        None => default_status_format(),
    };
    let f1 = replaced(f0, "{files}"@, decimal(files));
    let f2 = replaced(f1, "{links}"@, decimal(links));
    let f3 = replaced(f2, "{selected}"@, match selected {
        Some(s) => s,
        None => "none"@,
    });
    let f4 = replaced(f3, "{date}"@, date);
    let f5 = replaced(f4, "{time}"@, time);
    let f6 = replaced(f5, "{size}"@, size);
    replaced(f6, "{ratio}"@, ratio)
}

/// The status line of the graph view; see `status_text`. The caller
/// formats the date, the time, the viewport's size (`NN%`) and its ratio
/// (`N.Nx`).
pub fn expand_status(
    format: Option<&str>,
    files: usize,
    links: usize,
    selected: Option<&str>,
    date: &str,
    time: &str,
    size: &str,
    ratio: &str,
) -> (r: String)
    ensures
        r@ == status_text(
            match format {
                Some(f) => Some(f@),
                None => None,
            },
            files as nat,
            links as nat,
            match selected {
                Some(s) => Some(s@),
                None => None,
            },
            date@,
            time@,
            size@,
            ratio@,
        ),
{
    proof {
        reveal_strlit("{files}");
        reveal_strlit("{links}");
        reveal_strlit("{selected}");
        reveal_strlit("{date}");
        reveal_strlit("{time}");
        reveal_strlit("{size}");
        reveal_strlit("{ratio}");
    }
    let f0 = match format {
        Some(f) => String::from_str(f),
        None => String::from_str("Files: {files} | Links: {links} | Selected: {selected}"),
    };
    let nf = usize_to_decimal(files);
    let f1 = replace_all(f0.as_str(), "{files}", nf.as_str());
    let nl = usize_to_decimal(links);
    let f2 = replace_all(f1.as_str(), "{links}", nl.as_str());
    let sel = match selected {
        Some(s) => s,
        None => "none",
    };
    let f3 = replace_all(f2.as_str(), "{selected}", sel);
    let f4 = replace_all(f3.as_str(), "{date}", date);
    let f5 = replace_all(f4.as_str(), "{time}", time);
    let f6 = replace_all(f5.as_str(), "{size}", size);
    replace_all(f6.as_str(), "{ratio}", ratio)
}

} // verus!
