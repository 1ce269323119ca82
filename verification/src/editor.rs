//! Bookkeeping of the note editor: focus and sidebar states, the document
//! change record, text normalization, and the preview scheduler.
use vstd::prelude::*;
use std::ops::Range;
use crate::text::{chars_of, string_of};

verus! {

/// Which part of the editor has the keyboard.
#[derive(Debug, Clone, Copy, PartialEq, Eq, Structural)]
pub enum EditFocus {
    Title,
    Body,
    Sidebar,
}

/// What the editor sidebar shows.
#[derive(Debug, Clone, Copy, PartialEq, Eq, Structural, Default)]
pub enum EditSidebar {
    #[default]
    Hidden,
    Outline,
    Links,
}

/// A link or backlink of the open note.
#[derive(Debug, Clone, PartialEq, Eq)]
pub struct LinkItem {
    pub id: String,
    pub title: String,
    pub is_backlink: bool,
}

/// Autosave state of the open note.
#[derive(Debug, Clone, Copy, PartialEq, Eq, Structural, Default)]
pub enum AutosaveStatus {
    #[default]
    Saved,
    Unsaved,
    RecentlySaved,
}

/// A cursor position in the document.
#[derive(Clone, Copy, Debug, Default, PartialEq, Eq, Structural)]
pub struct TextPosition {
    pub row: usize,
    pub col: usize,
}

/// What an edit did.
#[derive(Clone, Copy, Debug, Default, PartialEq, Eq, Structural)]
pub struct EditEffect {
    pub content_changed: bool,
    pub cursor_changed: bool,
}

/// The lines a pending change touched: lines `old` of the previous text
/// became lines `new`; or the whole document.
#[derive(Debug, PartialEq, Eq)]
pub enum DocumentChange {
    Lines { old: Range<usize>, new: Range<usize> },
    Full,
}

/// The model of a change.
pub enum ChangeV {
    Lines { old: (usize, usize), new: (usize, usize) },
    Full,
}

/// A document change as values.
pub open spec fn change_view(c: DocumentChange) -> ChangeV {
    match c {
        DocumentChange::Lines { old, new } => ChangeV::Lines {
            old: (old.start, old.end),
            new: (new.start, new.end),
        },
        DocumentChange::Full => ChangeV::Full,
    }
}

/// One change record standing for two changes in sequence: the first when
/// there was none before; `Full` when either was full; otherwise the old
/// range of the first with the new range of the second.
pub open spec fn composed(previous: Option<ChangeV>, next: ChangeV) -> ChangeV {
    match (previous, next) {
        (None, n) => n,
        (Some(ChangeV::Full), _) => ChangeV::Full,
        (_, ChangeV::Full) => ChangeV::Full,
        (Some(ChangeV::Lines { old, .. }), ChangeV::Lines { new, .. }) => ChangeV::Lines { old, new },
    }
}

/// Merges a pending change record with a new one.
pub fn compose_change(previous: Option<DocumentChange>, next: DocumentChange) -> (r: DocumentChange)
    ensures
        change_view(r) == composed(
            match previous {
                Some(p) => Some(change_view(p)),
                None => None,
            },
            change_view(next),
        ),
{
    match (previous, next) {
        (None, next) => next,
        (Some(DocumentChange::Full), _) => DocumentChange::Full,
        (_, DocumentChange::Full) => DocumentChange::Full,
        (Some(DocumentChange::Lines { old, .. }), DocumentChange::Lines { new, .. }) => {
            DocumentChange::Lines { old, new }
        },
    }
}

/// Composing is associative: merging three changes gives one record
/// whichever two are merged first.
pub proof fn compose_associative(a: Option<ChangeV>, b: ChangeV, c: ChangeV)
    ensures
        composed(Some(composed(a, b)), c) == composed(
            match a {
                Some(x) => Some(x),
                None => None,
            },
            composed(Some(b), c),
        ),
{
}


/// `a + b`, or `usize::MAX` when that does not fit.
pub open spec fn sat_add(a: usize, b: usize) -> usize {
    if a + b > usize::MAX {
        usize::MAX
    } else {
        (a + b) as usize
    }
}

/// `a - b`, or 0 when that is negative.
pub open spec fn sat_sub(a: usize, b: usize) -> usize {
    if a < b {
        0
    } else {
        (a - b) as usize
    }
}

/// The lines an edit touched. Before the edit, the selection (its first
/// and last rows) or else the cursor row marks the lines it could remove;
/// after it, the line count tells how many lines replaced them.
pub open spec fn edited_lines(
    cursor_row: usize,
    selection_rows: Option<(usize, usize)>,
    lines_before: usize,
    lines_after: usize,
) -> ChangeV {
    let (start, old_end) = match selection_rows {
        Some((s, e)) => (s, sat_add(e, 1)),
        None => (cursor_row, sat_add(cursor_row, 1)),
    };
    let removed = sat_sub(old_end, start);
    let preserved = sat_sub(lines_before, removed);
    let added = sat_sub(lines_after, preserved);
    ChangeV::Lines { old: (start, old_end), new: (start, sat_add(start, added)) }
}

/// The change record of an edit that changed the content.
pub fn edited_lines_change(
    cursor_row: usize,
    selection_rows: Option<(usize, usize)>,
    lines_before: usize,
    lines_after: usize,
) -> (r: DocumentChange)
    ensures
        change_view(r) == edited_lines(cursor_row, selection_rows, lines_before, lines_after),
{
    let (start, old_end) = match selection_rows {
        Some((s, e)) => (s, e.saturating_add(1)),
        None => (cursor_row, cursor_row.saturating_add(1)),
    };
    let removed = old_end.saturating_sub(start);
    let preserved = lines_before.saturating_sub(removed);
    let added = lines_after.saturating_sub(preserved);
    DocumentChange::Lines { old: start..old_end, new: start..start.saturating_add(added) }
}

/// The revision counter and the pending change record of a document.
pub struct ChangeLog {
    pub revision: u64,
    pub change: Option<DocumentChange>,
}

/// The view of an optional change.
pub open spec fn opt_change_view(c: Option<DocumentChange>) -> Option<ChangeV> {
    match c {
        Some(x) => Some(change_view(x)),
        None => None,
    }
}

impl ChangeLog {
    /// A freshly loaded document: revision 0, everything to redraw.
    pub fn new() -> (r: ChangeLog)
        ensures
            r.revision == 0,
            opt_change_view(r.change) == Some(ChangeV::Full),
    {
        ChangeLog { revision: 0, change: Some(DocumentChange::Full) }
    }

    /// Records a change: the revision moves on (wrapping), and the change is
    /// merged into the pending record.
    pub fn record_change(&mut self, change: DocumentChange)
        ensures
            final(self).revision == if old(self).revision == u64::MAX {
                0
            } else {
                (old(self).revision + 1) as u64
            },
            opt_change_view(final(self).change) == Some(
                composed(opt_change_view(old(self).change), change_view(change)),
            ),
    {
        self.revision = self.revision.wrapping_add(1);
        let prev = self.change.take();
        self.change = Some(compose_change(prev, change));
    }

    /// Hands out the pending change record and clears it.
    pub fn take_change(&mut self) -> (r: Option<DocumentChange>)
        ensures
            opt_change_view(r) == opt_change_view(old(self).change),
            final(self).change is None,
            final(self).revision == old(self).revision,
    {
        self.change.take()
    }
}

// ---------------------------------------------------------------------------
// Normalization
// ---------------------------------------------------------------------------

/// `s` with every `"\r\n"` replaced by `"\n"` (`str::replace`, scanning left
/// to right).
pub open spec fn crlf_to_lf(s: Seq<char>) -> Seq<char>
    decreases s.len(),
{
    if s.len() == 0 {
        seq![]
    } else if s.len() >= 2 && s[0] == '\r' && s[1] == '\n' {
        seq!['\n'] + crlf_to_lf(s.skip(2))
    } else {
        seq![s[0]] + crlf_to_lf(s.drop_first())
    }
}

/// `s` without its trailing `'\n'` characters.
pub open spec fn trim_trailing_nl(s: Seq<char>) -> Seq<char>
    decreases s.len(),
{
    if s.len() > 0 && s.last() == '\n' {
        trim_trailing_nl(s.drop_last())
    } else {
        s
    }
}

/// The text an editor document holds for `content`: CRLF line endings
/// turned into LF, trailing line breaks removed.
pub open spec fn normalized(content: Seq<char>) -> Seq<char> {
    trim_trailing_nl(crlf_to_lf(content))
}

/// `content` with `"\r\n"` turned into `"\n"` and trailing `'\n'` removed.
pub fn normalize_content(content: &str) -> (r: String)
    ensures
        r@ == normalized(content@),
{
    let s = chars_of(content);
    let mut out: Vec<char> = Vec::new();
    let mut i: usize = 0;
    assert(s@.skip(0) =~= s@);
    while i < s.len()
        invariant
            i <= s@.len(),
            crlf_to_lf(s@) == out@ + crlf_to_lf(s@.skip(i as int)),
        decreases s.len() - i,
    {
        let ghost before = out@;
        let ghost rest = s@.skip(i as int);
        if i + 1 < s.len() && s[i] == '\r' && s[i + 1] == '\n' {
            out.push('\n');
            assert(rest.skip(2) =~= s@.skip(i + 2));
            assert(before + (seq!['\n'] + crlf_to_lf(rest.skip(2))) =~= out@ + crlf_to_lf(
                s@.skip(i + 2),
            ));
            i = i + 2;
        } else {
            out.push(s[i]);
            assert(rest.drop_first() =~= s@.skip(i + 1));
            assert(before + (seq![s@[i as int]] + crlf_to_lf(rest.drop_first())) =~= out@
                + crlf_to_lf(s@.skip(i + 1)));
            i = i + 1;
        }
    }
    assert(out@ + Seq::<char>::empty() =~= out@);
    while out.len() > 0 && out[out.len() - 1] == '\n'
        invariant
            trim_trailing_nl(out@) == normalized(content@),
        decreases out.len(),
    {
        let ghost before = out@;
        out.pop();
        assert(out@ =~= before.drop_last());
    }
    string_of(&out)
}

// ---------------------------------------------------------------------------
// Preview scheduling
// ---------------------------------------------------------------------------

/// Defers preview rebuilds until typing pauses. Times are milliseconds on
/// a monotonic clock.
pub struct EditorPreviewScheduler {
    pub pending_revision: Option<u64>,
    pub deadline_ms: Option<u64>,
    pub layout_ewma_ms: u64,
}

/// The pause the scheduler waits for: twice the smoothed layout time,
/// kept between 150 and 750 milliseconds.
pub open spec fn preview_delay(ewma: u64) -> u64 {
    let d = if ewma as int * 2 > u64::MAX as int {
        u64::MAX
    } else {
        (ewma * 2) as u64
    };
    if d < 150 {
        150
    } else if d > 750 {
        750
    } else {
        d
    }
}

impl EditorPreviewScheduler {
    /// Nothing pending, with a smoothed layout time of 75 milliseconds.
    pub fn new() -> (r: EditorPreviewScheduler)
        ensures
            r.pending_revision is None,
            r.deadline_ms is None,
            r.layout_ewma_ms == 75,
    {
        EditorPreviewScheduler { pending_revision: None, deadline_ms: None, layout_ewma_ms: 75 }
    }

    /// Asks for a preview of `revision` once the pause after `now_ms` has
    /// passed; a later request replaces an earlier one.
    pub fn schedule(&mut self, revision: u64, now_ms: u64)
        requires
            now_ms <= u64::MAX - 750,
        ensures
            final(self).pending_revision == Some(revision),
            final(self).deadline_ms == Some((now_ms + preview_delay(old(self).layout_ewma_ms)) as u64),
            final(self).layout_ewma_ms == old(self).layout_ewma_ms,
    {
        let doubled = if self.layout_ewma_ms > u64::MAX / 2 {
            u64::MAX
        } else {
            self.layout_ewma_ms * 2
        };
        let delay = if doubled < 150 {
            150
        } else if doubled > 750 {
            750
        } else {
            doubled
        };
        self.pending_revision = Some(revision);
        self.deadline_ms = Some(now_ms + delay);
    }

    /// Whether a scheduled preview is due at `now_ms`.
    pub fn due(&self, now_ms: u64) -> (r: bool)
        ensures
            r == (self.deadline_ms matches Some(d) && now_ms >= d),
    {
        match self.deadline_ms {
            Some(d) => now_ms >= d,
            None => false,
        }
    }

    /// Forgets the scheduled preview.
    pub fn clear(&mut self)
        ensures
            final(self).pending_revision is None,
            final(self).deadline_ms is None,
            final(self).layout_ewma_ms == old(self).layout_ewma_ms,
    {
        self.pending_revision = None;
        self.deadline_ms = None;
    }
}

/// A scheduled preview is never due before the shortest pause has passed,
/// and always due once the longest one has.
pub proof fn preview_due_window(ewma: u64, now: u64, later: u64)
    requires
        now <= u64::MAX - 750,
    ensures
        150 <= preview_delay(ewma) <= 750,
        later < now + 150 ==> later < now + preview_delay(ewma),
        later >= now + 750 ==> later >= now + preview_delay(ewma),
{
}

} // verus!
