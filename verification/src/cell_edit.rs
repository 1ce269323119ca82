//! Editing a cell of a base view: which cells can be edited, and what an
//! edited text does to the note's front matter.
use vstd::prelude::*;
use crate::text::{chars_of, string_of, str_eq, starts_with, trim_seq, trimmed_range, to_lowercase, unicode_lowercase};

verus! {

/// Whether `s` ends with `p`.
pub open spec fn ends_with(s: Seq<char>, p: Seq<char>) -> bool {
    p.len() <= s.len() && s.skip(s.len() - p.len()) == p
}

fn has_prefix(s: &str, p: &str) -> (r: bool)
    ensures
        r == starts_with(s@, p@),
{
    let a = chars_of(s);
    let b = chars_of(p);
    if b.len() > a.len() {
        return false;
    }
    let mut i: usize = 0;
    while i < b.len()
        invariant
            a@ == s@,
            b@ == p@,
            b@.len() <= a@.len(),
            i <= b@.len(),
            a@.take(i as int) == b@.take(i as int),
        decreases b@.len() - i,
    {
        if a[i] != b[i] {
            proof {
                assert(s@.take(p@.len() as int)[i as int] != p@[i as int]);
            }
            return false;
        }
        proof {
            assert(a@.take(i + 1) =~= b@.take(i + 1));
        }
        i = i + 1;
    }
    proof {
        assert(b@.take(b@.len() as int) == b@);
    }
    true
}

fn has_suffix(s: &str, p: &str) -> (r: bool)
    ensures
        r == ends_with(s@, p@),
{
    let a = chars_of(s);
    let b = chars_of(p);
    if b.len() > a.len() {
        return false;
    }
    let off = a.len() - b.len();
    let mut i: usize = 0;
    while i < b.len()
        invariant
            a@ == s@,
            b@ == p@,
            off + b@.len() == a@.len(),
            a@.len() == a.len(),
            i <= b@.len(),
            a@.subrange(off as int, off + i) == b@.take(i as int),
        decreases b@.len() - i,
    {
        if a[off + i] != b[i] {
            proof {
                assert(s@.skip(off as int)[i as int] != p@[i as int]);
            }
            return false;
        }
        proof {
            assert(a@.subrange(off as int, off + i + 1) =~= b@.take(i + 1));
        }
        i = i + 1;
    }
    proof {
        assert(b@.take(b@.len() as int) == b@);
        assert(a@.skip(off as int) =~= a@.subrange(off as int, off + b@.len()));
    }
    true
}

/// Why a cell cannot be edited in place: computed columns (`file.` and
/// `formula.` keys) never can, nor can cells of encrypted notes.
pub open spec fn refusal(col_key: Seq<char>, row_id: Seq<char>) -> Option<Seq<char>> {
    if starts_with(col_key, "file."@) || starts_with(col_key, "formula."@) {
        Some("Cannot edit this cell"@)
    } else if ends_with(row_id, ".clin"@) {
        Some("Cannot edit encrypted note inline; decrypt first."@)
    } else {
        None
    }
}

/// The message that refuses an edit of the cell in column `col_key` of the
/// note `row_id`, or `None` when it can be edited.
pub fn edit_refusal(col_key: &str, row_id: &str) -> (r: Option<&'static str>)
    ensures
        match r {
            Some(m) => refusal(col_key@, row_id@) == Some(m@),
            None => refusal(col_key@, row_id@) is None,
        },
{
    if has_prefix(col_key, "file.") || has_prefix(col_key, "formula.") {
        Some("Cannot edit this cell")
    } else if has_suffix(row_id, ".clin") {
        Some("Cannot edit encrypted note inline; decrypt first.")
    } else {
        None
    }
}

/// The fields of `s` between commas, as `str::split(',')` gives them:
/// one more than there are commas.
pub open spec fn comma_fields(s: Seq<char>) -> Seq<Seq<char>>
    decreases s.len(),
{
    if s.len() == 0 {
        seq![Seq::empty()]
    } else {
        let prev = comma_fields(s.drop_last());
        if s.last() == ',' {
            prev.push(Seq::empty())
        } else {
            prev.drop_last().push(prev.last().push(s.last()))
        }
    }
}

/// The fields trimmed of white space, the empty ones left out.
pub open spec fn nonempty_trimmed(fields: Seq<Seq<char>>) -> Seq<Seq<char>>
    decreases fields.len(),
{
    if fields.len() == 0 {
        Seq::empty()
    } else {
        let rest = nonempty_trimmed(fields.drop_last());
        let t = trim_seq(fields.last());
        if t.len() > 0 {
            rest.push(t)
        } else {
            rest
        }
    }
}

/// The items of a comma-separated list: each field trimmed, the empty ones
/// left out.
pub open spec fn list_items_of(s: Seq<char>) -> Seq<Seq<char>> {
    nonempty_trimmed(comma_fields(s))
}

proof fn lemma_comma_fields_len(s: Seq<char>)
    ensures
        comma_fields(s).len() >= 1,
    decreases s.len(),
{
    if s.len() > 0 {
        lemma_comma_fields_len(s.drop_last());
    }
}

/// The strings' characters.
pub open spec fn string_views(v: Seq<String>) -> Seq<Seq<char>> {
    v.map_values(|s: String| s@)
}

/// The items of a comma-separated list; see `list_items_of`.
pub fn list_items(s: &str) -> (r: Vec<String>)
    ensures
        string_views(r@) == list_items_of(s@),
{
    let cs = chars_of(s);
    let mut out: Vec<String> = Vec::new();
    let mut start: usize = 0;
    let mut i: usize = 0;
    proof {
        assert(cs@.take(0) =~= Seq::<char>::empty());
        assert(comma_fields(cs@.take(0)).drop_last() =~= Seq::<Seq<char>>::empty());
        assert(cs@.subrange(0, 0) =~= Seq::<char>::empty());
    }
    while i < cs.len()
        invariant
            cs@ == s@,
            start <= i <= cs@.len(),
            string_views(out@) == nonempty_trimmed(comma_fields(cs@.take(i as int)).drop_last()),
            comma_fields(cs@.take(i as int)).last() == cs@.subrange(start as int, i as int),
            comma_fields(cs@.take(i as int)).len() >= 1,
        decreases cs@.len() - i,
    {
        let ghost prev = comma_fields(cs@.take(i as int));
        proof {
            assert(cs@.take(i + 1).drop_last() =~= cs@.take(i as int));
            assert(cs@.take(i + 1).last() == cs@[i as int]);
        }
        if cs[i] == ',' {
            let t = trimmed_range(cs.as_slice(), start, i);
            let ghost before = out@;
            if t.len() > 0 {
                out.push(string_of(t.as_slice()));
            }
            proof {
                assert(comma_fields(cs@.take(i + 1)) == prev.push(Seq::<char>::empty()));
                assert(prev.push(Seq::<char>::empty()).drop_last() =~= prev);
                assert(prev.drop_last().push(prev.last()) =~= prev);
                assert(string_views(out@) =~= nonempty_trimmed(prev));
                assert(cs@.subrange(i + 1, i + 1) =~= Seq::<char>::empty());
            }
            start = i + 1;
        } else {
            proof {
                assert(comma_fields(cs@.take(i + 1)) == prev.drop_last().push(prev.last().push(cs@[i as int])));
                assert(prev.drop_last().push(prev.last().push(cs@[i as int])).drop_last() =~= prev.drop_last());
                assert(cs@.subrange(start as int, i + 1) =~= cs@.subrange(start as int, i as int).push(cs@[i as int]));
            }
        }
        i = i + 1;
    }
    let t = trimmed_range(cs.as_slice(), start, cs.len());
    let ghost before = out@;
    if t.len() > 0 {
        out.push(string_of(t.as_slice()));
    }
    proof {
        let f = comma_fields(cs@.take(cs@.len() as int));
        assert(cs@.take(cs@.len() as int) =~= s@);
        assert(f.drop_last().push(f.last()) =~= f);
        assert(string_views(out@) =~= nonempty_trimmed(f));
    }
    out
}

/// Whether an edited text means "true": it is `true` in any case, with
/// white space around it.
pub open spec fn is_true_text_of(s: Seq<char>) -> bool {
    unicode_lowercase(trim_seq(s)) == "true"@
}

/// Whether an edited text means "true"; see `is_true_text_of`.
pub fn is_true_text(s: &str) -> (r: bool)
    ensures
        r == is_true_text_of(s@),
{
    let cs = chars_of(s);
    let t = trimmed_range(cs.as_slice(), 0, cs.len());
    proof {
        assert(cs@.subrange(0, cs@.len() as int) =~= s@);
    }
    let ts = string_of(t.as_slice());
    let lower = to_lowercase(ts.as_str());
    str_eq(lower.as_str(), "true")
}

/// The kind of value a cell of a front-matter property held before it was
/// edited.
#[derive(Debug, Clone, Copy, PartialEq, Eq, Structural)]
pub enum CellValueKind {
    Number,
    Bool,
    List,
    Other,
}

/// What an edited cell writes into the note's front matter.
#[derive(Debug, Clone, PartialEq, Eq)]
pub enum FrontmatterEdit {
    Title(String),
    Tags(Vec<String>),
    Pinned(bool),
    Links(Vec<String>),
    /// The text of the new update time, which the caller parses; an
    /// unreadable time clears it.
    UpdatedAt(String),
    OriginalExt(String),
    /// A numeric property: the caller stores the number the text reads as,
    /// or the text itself when it reads as none.
    ExtraNumber(String, String),
    ExtraBool(String, bool),
    ExtraList(String, Vec<String>),
    ExtraText(String, String),
}

/// The edit of property `prop` to the text `new_text`: the known
/// properties by name (tags and links as comma-separated lists, `pinned`
/// as a truth value), any other by the kind of value it held.
pub open spec fn edit_of(prop: Seq<char>, new_text: Seq<char>, held: Option<CellValueKind>, e: FrontmatterEdit) -> bool {
    if prop == "title"@ {
        e matches FrontmatterEdit::Title(t) && t@ == new_text
    } else if prop == "tags"@ {
        e matches FrontmatterEdit::Tags(v) && string_views(v@) == list_items_of(new_text)
    } else if prop == "pinned"@ {
        e == FrontmatterEdit::Pinned(is_true_text_of(new_text))
    } else if prop == "links"@ {
        e matches FrontmatterEdit::Links(v) && string_views(v@) == list_items_of(new_text)
    } else if prop == "updated_at"@ {
        e matches FrontmatterEdit::UpdatedAt(t) && t@ == new_text
    } else if prop == "original_ext"@ {
        e matches FrontmatterEdit::OriginalExt(t) && t@ == new_text
    } else {
        match held {
            Some(CellValueKind::Number) => e matches FrontmatterEdit::ExtraNumber(p, t) && p@ == prop && t@
                == new_text,
            Some(CellValueKind::Bool) => e matches FrontmatterEdit::ExtraBool(p, b) && p@ == prop && b
                == is_true_text_of(new_text),
            Some(CellValueKind::List) => e matches FrontmatterEdit::ExtraList(p, v) && p@ == prop
                && string_views(v@) == list_items_of(new_text),
            _ => e matches FrontmatterEdit::ExtraText(p, t) && p@ == prop && t@ == new_text,
        }
    }
}

/// What committing the text `new_text` into the cell of property `prop`
/// writes into the front matter; `held` is the kind of value the cell
/// held.
pub fn frontmatter_edit(prop: &str, new_text: &str, held: Option<CellValueKind>) -> (r: FrontmatterEdit)
    ensures
        edit_of(prop@, new_text@, held, r),
{
    if str_eq(prop, "title") {
        FrontmatterEdit::Title(String::from_str(new_text))
    } else if str_eq(prop, "tags") {
        FrontmatterEdit::Tags(list_items(new_text))
    } else if str_eq(prop, "pinned") {
        FrontmatterEdit::Pinned(is_true_text(new_text))
    } else if str_eq(prop, "links") {
        FrontmatterEdit::Links(list_items(new_text))
    } else if str_eq(prop, "updated_at") {
        FrontmatterEdit::UpdatedAt(String::from_str(new_text))
    } else if str_eq(prop, "original_ext") {
        FrontmatterEdit::OriginalExt(String::from_str(new_text))
    } else {
        match held {
            Some(CellValueKind::Number) => FrontmatterEdit::ExtraNumber(String::from_str(prop), String::from_str(new_text)),
            Some(CellValueKind::Bool) => FrontmatterEdit::ExtraBool(String::from_str(prop), is_true_text(new_text)),
            Some(CellValueKind::List) => FrontmatterEdit::ExtraList(String::from_str(prop), list_items(new_text)),
            _ => FrontmatterEdit::ExtraText(String::from_str(prop), String::from_str(new_text)),
        }
    }
}

} // verus!
