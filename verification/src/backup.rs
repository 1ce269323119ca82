//! The backup view: git status records, the settings focus ring, the layout
//! of the status list, and the bookkeeping done when the status is refreshed
//! or the settings are saved.
use vstd::prelude::*;
use crate::config_types::IconMode;
use crate::debug_log::{decimal, usize_to_decimal};
use crate::text::{str_eq, trim_seq, trimmed_range, chars_of, concat_str, string_of};

verus! {

/// How a file changed.
#[derive(Debug, Clone, Copy, PartialEq, Eq, Structural)]
pub enum FileChangeType {
    Added,
    Modified,
    Deleted,
    Renamed,
}

/// A changed file and how it changed.
pub struct FileStatus {
    pub path: String,
    pub status: FileChangeType,
}

/// The state of the working tree: staged, unstaged and untracked files, the
/// branch, and how far it is ahead of and behind its upstream.
pub struct GitStatus {
    pub staged: Vec<FileStatus>,
    pub unstaged: Vec<FileStatus>,
    pub untracked: Vec<String>,
    pub branch: String,
    pub ahead: usize,
    pub behind: usize,
}

/// What the repository reports of one path: whether it is new, modified,
/// deleted or renamed in the index (staged) and in the working tree.
#[derive(Debug, Clone, Copy, PartialEq, Eq, Structural)]
pub struct StatusFlags {
    pub index_new: bool,
    pub index_modified: bool,
    pub index_deleted: bool,
    pub index_renamed: bool,
    pub wt_new: bool,
    pub wt_modified: bool,
    pub wt_deleted: bool,
    pub wt_renamed: bool,
}

/// How a file changed, on the staged side or in the working tree: the
/// first of new, modified, deleted, renamed that holds, else modified.
pub open spec fn change_type(f: StatusFlags, is_staged: bool) -> FileChangeType {
    if is_staged {
        if f.index_new {
            FileChangeType::Added
        } else if f.index_modified {
            FileChangeType::Modified
        } else if f.index_deleted {
            FileChangeType::Deleted
        } else if f.index_renamed {
            FileChangeType::Renamed
        } else {
            FileChangeType::Modified
        }
    } else {
        if f.wt_new {
            FileChangeType::Added
        } else if f.wt_modified {
            FileChangeType::Modified
        } else if f.wt_deleted {
            FileChangeType::Deleted
        } else if f.wt_renamed {
            FileChangeType::Renamed
        } else {
            FileChangeType::Modified
        }
    }
}

/// How a file changed; see `change_type`.
pub fn map_status(status: StatusFlags, is_staged: bool) -> (r: FileChangeType)
    ensures
        r == change_type(status, is_staged),
{
    if is_staged {
        if status.index_new {
            FileChangeType::Added
        } else if status.index_modified {
            FileChangeType::Modified
        } else if status.index_deleted {
            FileChangeType::Deleted
        } else if status.index_renamed {
            FileChangeType::Renamed
        } else {
            FileChangeType::Modified
        }
    } else {
        if status.wt_new {
            FileChangeType::Added
        } else if status.wt_modified {
            FileChangeType::Modified
        } else if status.wt_deleted {
            FileChangeType::Deleted
        } else if status.wt_renamed {
            FileChangeType::Renamed
        } else {
            FileChangeType::Modified
        }
    }
}

/// A path has a staged change.
pub open spec fn is_staged_change(f: StatusFlags) -> bool {
    f.index_new || f.index_modified || f.index_deleted || f.index_renamed
}

/// A tracked path has a change in the working tree.
pub open spec fn is_unstaged_change(f: StatusFlags) -> bool {
    f.wt_modified || f.wt_deleted || f.wt_renamed
}

/// The staged (or unstaged) changes among `entries`, in order, each with
/// how it changed.
pub open spec fn changes_of(entries: Seq<(Seq<char>, StatusFlags)>, staged: bool) -> Seq<(Seq<char>, FileChangeType)>
    decreases entries.len(),
{
    if entries.len() == 0 {
        Seq::empty()
    } else {
        let rest = changes_of(entries.drop_last(), staged);
        let (p, f) = entries.last();
        if (staged && is_staged_change(f)) || (!staged && is_unstaged_change(f)) {
            rest.push((p, change_type(f, staged)))
        } else {
            rest
        }
    }
}

/// How a working-tree change shows: the first of new, modified, deleted and
/// renamed that is set.
pub open spec fn worktree_kind(f: StatusFlags) -> FileChangeType {
    if f.wt_new {
        FileChangeType::Added
    } else if f.wt_modified {
        FileChangeType::Modified
    } else if f.wt_deleted {
        FileChangeType::Deleted
    } else {
        FileChangeType::Renamed
    }
}

/// How a staged change shows: the first of new, modified, deleted and
/// renamed that is set in the index.
pub open spec fn index_kind(f: StatusFlags) -> FileChangeType {
    if f.index_new {
        FileChangeType::Added
    } else if f.index_modified {
        FileChangeType::Modified
    } else if f.index_deleted {
        FileChangeType::Deleted
    } else {
        FileChangeType::Renamed
    }
}

/// The unstaged list holds exactly the paths whose working tree is
/// modified, deleted or renamed, each shown by its first set flag (a
/// working-tree deletion shows as deleted); the staged list holds exactly
/// the paths with a new, modified, deleted or renamed index entry, likewise.
pub proof fn changes_listed(entries: Seq<(Seq<char>, StatusFlags)>)
    ensures
        forall|i: int|
            #![trigger entries[i]]
            0 <= i < entries.len() && (entries[i].1.wt_modified || entries[i].1.wt_deleted
                || entries[i].1.wt_renamed) ==> changes_of(entries, false).contains(
                (entries[i].0, worktree_kind(entries[i].1)),
            ),
        forall|j: int|
            #![trigger changes_of(entries, false)[j]]
            0 <= j < changes_of(entries, false).len() ==> exists|i: int|
                #![trigger entries[i]]
                0 <= i < entries.len() && (entries[i].1.wt_modified || entries[i].1.wt_deleted
                    || entries[i].1.wt_renamed) && changes_of(entries, false)[j] == (
                    entries[i].0,
                    worktree_kind(entries[i].1),
                ),
        forall|i: int|
            #![trigger entries[i]]
            0 <= i < entries.len() && (entries[i].1.index_new || entries[i].1.index_modified
                || entries[i].1.index_deleted || entries[i].1.index_renamed) ==> changes_of(
                entries,
                true,
            ).contains((entries[i].0, index_kind(entries[i].1))),
        forall|j: int|
            #![trigger changes_of(entries, true)[j]]
            0 <= j < changes_of(entries, true).len() ==> exists|i: int|
                #![trigger entries[i]]
                0 <= i < entries.len() && (entries[i].1.index_new || entries[i].1.index_modified
                    || entries[i].1.index_deleted || entries[i].1.index_renamed) && changes_of(
                    entries,
                    true,
                )[j] == (entries[i].0, index_kind(entries[i].1)),
    decreases entries.len(),
{
    if entries.len() > 0 {
        let pre = entries.drop_last();
        changes_listed(pre);
        let n = entries.len() - 1;
        assert forall|i: int| 0 <= i < n implies #[trigger] entries[i] == pre[i] by {}
        let u0 = changes_of(pre, false);
        let s0 = changes_of(pre, true);
        let u = changes_of(entries, false);
        let st = changes_of(entries, true);
        assert forall|i: int|
            #![trigger entries[i]]
            0 <= i < entries.len() && (entries[i].1.wt_modified || entries[i].1.wt_deleted
                || entries[i].1.wt_renamed) implies u.contains((entries[i].0, worktree_kind(entries[i].1))) by {
            if i < n {
                assert(pre[i] == entries[i]);
                let k = choose|k: int| 0 <= k < u0.len() && u0[k] == (pre[i].0, worktree_kind(pre[i].1));
                assert(u[k] == u0[k]);
            } else {
                assert(u[u.len() - 1] == (entries[i].0, worktree_kind(entries[i].1)));
            }
        }
        assert forall|j: int| #![trigger u[j]] 0 <= j < u.len() implies exists|i: int|
            #![trigger entries[i]]
            0 <= i < entries.len() && (entries[i].1.wt_modified || entries[i].1.wt_deleted
                || entries[i].1.wt_renamed) && u[j] == (entries[i].0, worktree_kind(entries[i].1)) by {
            if j < u0.len() {
                assert(u[j] == u0[j]);
                let i = choose|i: int|
                    #![trigger pre[i]]
                    0 <= i < pre.len() && (pre[i].1.wt_modified || pre[i].1.wt_deleted
                        || pre[i].1.wt_renamed) && u0[j] == (pre[i].0, worktree_kind(pre[i].1));
                assert(entries[i] == pre[i]);
            } else {
                assert(entries[n] == entries.last());
            }
        }
        assert forall|i: int|
            #![trigger entries[i]]
            0 <= i < entries.len() && (entries[i].1.index_new || entries[i].1.index_modified
                || entries[i].1.index_deleted || entries[i].1.index_renamed) implies st.contains(
                (entries[i].0, index_kind(entries[i].1)),
            ) by {
            if i < n {
                assert(pre[i] == entries[i]);
                let k = choose|k: int| 0 <= k < s0.len() && s0[k] == (pre[i].0, index_kind(pre[i].1));
                assert(st[k] == s0[k]);
            } else {
                assert(st[st.len() - 1] == (entries[i].0, index_kind(entries[i].1)));
            }
        }
        assert forall|j: int| #![trigger st[j]] 0 <= j < st.len() implies exists|i: int|
            #![trigger entries[i]]
            0 <= i < entries.len() && (entries[i].1.index_new || entries[i].1.index_modified
                || entries[i].1.index_deleted || entries[i].1.index_renamed) && st[j] == (
                entries[i].0,
                index_kind(entries[i].1),
            ) by {
            if j < s0.len() {
                assert(st[j] == s0[j]);
                let i = choose|i: int|
                    #![trigger pre[i]]
                    0 <= i < pre.len() && (pre[i].1.index_new || pre[i].1.index_modified
                        || pre[i].1.index_deleted || pre[i].1.index_renamed) && s0[j] == (
                        pre[i].0,
                        index_kind(pre[i].1),
                    );
                assert(entries[i] == pre[i]);
            } else {
                assert(entries[n] == entries.last());
            }
        }
    }
}

/// The untracked paths among `entries`, in order.
pub open spec fn untracked_of(entries: Seq<(Seq<char>, StatusFlags)>) -> Seq<Seq<char>>
    decreases entries.len(),
{
    if entries.len() == 0 {
        Seq::empty()
    } else {
        let rest = untracked_of(entries.drop_last());
        if entries.last().1.wt_new {
            rest.push(entries.last().0)
        } else {
            rest
        }
    }
}

/// Every path that is new in the working tree is in the untracked list.
pub proof fn untracked_listed(entries: Seq<(Seq<char>, StatusFlags)>)
    ensures
        forall|i: int|
            #![trigger entries[i]]
            0 <= i < entries.len() && entries[i].1.wt_new ==> untracked_of(entries).contains(entries[i].0),
    decreases entries.len(),
{
    if entries.len() > 0 {
        let pre = entries.drop_last();
        untracked_listed(pre);
        let n = entries.len() - 1;
        let u0 = untracked_of(pre);
        assert forall|i: int|
            #![trigger entries[i]]
            0 <= i < entries.len() && entries[i].1.wt_new implies untracked_of(entries).contains(entries[i].0) by {
            if i < n {
                assert(pre[i] == entries[i]);
                let k = choose|k: int| 0 <= k < u0.len() && u0[k] == pre[i].0;
                assert(untracked_of(entries)[k] == u0[k]);
            } else {
                assert(untracked_of(entries)[untracked_of(entries).len() - 1] == entries[i].0);
            }
        }
    }
}

/// The entries as values.
pub open spec fn entry_views(entries: Seq<(String, StatusFlags)>) -> Seq<(Seq<char>, StatusFlags)> {
    entries.map_values(|e: (String, StatusFlags)| (e.0@, e.1))
}

/// File statuses as values.
pub open spec fn file_status_views(v: Seq<FileStatus>) -> Seq<(Seq<char>, FileChangeType)> {
    v.map_values(|f: FileStatus| (f.path@, f.status))
}

/// Paths as values.
pub open spec fn path_views(v: Seq<String>) -> Seq<Seq<char>> {
    v.map_values(|p: String| p@)
}

/// Sorts what the repository reports, path by path, into the staged, the
/// unstaged and the untracked files; a path may stand in more than one.
pub fn classify_statuses(entries: &Vec<(String, StatusFlags)>, branch: String, ahead: usize, behind: usize) -> (r: GitStatus)
    ensures
        file_status_views(r.staged@) == changes_of(entry_views(entries@), true),
        file_status_views(r.unstaged@) == changes_of(entry_views(entries@), false),
        path_views(r.untracked@) == untracked_of(entry_views(entries@)),
        r.branch@ == branch@,
        r.ahead == ahead,
        r.behind == behind,
{
    let ghost ev = entry_views(entries@);
    let mut staged: Vec<FileStatus> = Vec::new();
    let mut unstaged: Vec<FileStatus> = Vec::new();
    let mut untracked: Vec<String> = Vec::new();
    let mut i: usize = 0;
    while i < entries.len()
        invariant
            i <= entries@.len(),
            ev == entry_views(entries@),
            file_status_views(staged@) == changes_of(ev.take(i as int), true),
            file_status_views(unstaged@) == changes_of(ev.take(i as int), false),
            path_views(untracked@) == untracked_of(ev.take(i as int)),
        decreases entries@.len() - i,
    {
        let path = &entries[i].0;
        let f = entries[i].1;
        proof {
            assert(ev.take(i + 1).drop_last() == ev.take(i as int));
            assert(ev.take(i + 1).last() == (path@, f));
        }
        let ghost s0 = staged@;
        let ghost u0 = unstaged@;
        let ghost t0 = untracked@;
        if f.index_new || f.index_modified || f.index_deleted || f.index_renamed {
            staged.push(FileStatus { path: path.clone(), status: map_status(f, true) });
        }
        if f.wt_modified || f.wt_deleted || f.wt_renamed {
            unstaged.push(FileStatus { path: path.clone(), status: map_status(f, false) });
        }
        if f.wt_new {
            untracked.push(path.clone());
        }
        proof {
            assert(file_status_views(staged@) =~= changes_of(ev.take(i + 1), true));
            assert(file_status_views(unstaged@) =~= changes_of(ev.take(i + 1), false));
            assert(path_views(untracked@) =~= untracked_of(ev.take(i + 1)));
        }
        i = i + 1;
    }
    proof {
        assert(ev.take(entries@.len() as int) == ev);
    }
    GitStatus { staged, unstaged, untracked, branch, ahead, behind }
}

/// One commit of the history.
pub struct CommitInfo {
    pub id: String,
    pub message: String,
    pub time: u64,
    pub author: String,
}

/// Line counts of a changed file.
pub struct FileDiff {
    pub path: String,
    pub additions: usize,
    pub deletions: usize,
}

/// The text fields of the backup view.
#[derive(Debug, Clone, Copy, PartialEq, Eq, Structural)]
pub enum BackupTextField {
    CommitMessage,
    RemoteUrl,
    RemoteName,
}

/// The two sections of the backup view.
#[derive(Debug, Clone, Copy, PartialEq, Eq, Structural)]
pub enum BackupSection {
    Status,
    History,
}

/// What keys do in the backup view.
#[derive(Debug, Clone, Copy, PartialEq, Eq, Structural)]
pub enum BackupInputMode {
    Normal,
    EditCommitMessage,
    EditSettings,
    EditSettingsField,
}

/// What a key in the backup view asks of the screen around it.
#[derive(Debug, Clone, Copy, PartialEq, Eq, Structural)]
pub enum InputResult {
    Nothing,
    Back,
    Refresh,
    Help,
}

/// The focusable fields of the backup settings, in focus order.
#[derive(Debug, Clone, Copy, PartialEq, Eq, Structural)]
pub enum SettingsField {
    Enabled,
    BackupOnSave,
    BackupOnQuit,
    AutoPush,
    RemoteUrl,
    RemoteName,
    SaveButton,
}

/// A job for the background backup worker: `Auto` jobs are debounced,
/// `Flush` jobs run at once. Each carries the commit message.
pub enum BackupJob {
    Auto(String),
    Flush(String),
}

/// Position of a field in the focus order.
pub open spec fn field_position(f: SettingsField) -> int {
    match f {
        SettingsField::Enabled => 0,
        SettingsField::BackupOnSave => 1,
        SettingsField::BackupOnQuit => 2,
        SettingsField::AutoPush => 3,
        SettingsField::RemoteUrl => 4,
        SettingsField::RemoteName => 5,
        SettingsField::SaveButton => 6,
    }
}

/// The number of focusable settings fields.
pub open spec fn field_count() -> int {
    7
}

impl SettingsField {
    /// The field after this one in focus order, wrapping from the save
    /// button back to the first field.
    pub fn next(self) -> (r: SettingsField)
        ensures
            field_position(r) == (field_position(self) + 1) % field_count(),
    {
        match self {
            SettingsField::Enabled => SettingsField::BackupOnSave,
            SettingsField::BackupOnSave => SettingsField::BackupOnQuit,
            SettingsField::BackupOnQuit => SettingsField::AutoPush,
            SettingsField::AutoPush => SettingsField::RemoteUrl,
            SettingsField::RemoteUrl => SettingsField::RemoteName,
            SettingsField::RemoteName => SettingsField::SaveButton,
            SettingsField::SaveButton => SettingsField::Enabled,
        }
    }

    /// The field before this one in focus order, wrapping from the first
    /// field to the save button.
    pub fn prev(self) -> (r: SettingsField)
        ensures
            field_position(r) == (field_position(self) + field_count() - 1) % field_count(),
    {
        match self {
            SettingsField::Enabled => SettingsField::SaveButton,
            SettingsField::BackupOnSave => SettingsField::Enabled,
            SettingsField::BackupOnQuit => SettingsField::BackupOnSave,
            SettingsField::AutoPush => SettingsField::BackupOnQuit,
            SettingsField::RemoteUrl => SettingsField::AutoPush,
            SettingsField::RemoteName => SettingsField::RemoteUrl,
            SettingsField::SaveButton => SettingsField::RemoteName,
        }
    }
}

/// Two fields at the same position are the same field.
pub proof fn field_position_injective(a: SettingsField, b: SettingsField)
    requires
        field_position(a) == field_position(b),
    ensures
        a == b,
{
}

/// Moving the focus forward and then back, or back and then forward, leaves
/// it where it was.
pub proof fn settings_focus_round_trip(f: SettingsField, a: SettingsField, b: SettingsField)
    requires
        field_position(a) == (field_position(f) + 1) % field_count(),
        field_position(b) == (field_position(f) + field_count() - 1) % field_count(),
    ensures
        (field_position(a) + field_count() - 1) % field_count() == field_position(f),
        (field_position(b) + 1) % field_count() == field_position(f),
{
}

/// The glyph of an icon in the chosen glyph set: the Nerd Font glyph, the
/// Unicode glyph, or nothing when icons are off.
pub fn get_icon(nerd: &'static str, unicode: &'static str, mode: IconMode) -> (r: &'static str)
    ensures
        mode == IconMode::Nerd ==> r@ == nerd@,
        mode == IconMode::Unicode ==> r@ == unicode@,
        mode == IconMode::Off ==> r@ == Seq::<char>::empty(),
{
    match mode {
        IconMode::Nerd => nerd,
        IconMode::Unicode => unicode,
        IconMode::Off => {
            let e = "";
            proof {
                reveal_strlit("");
            }
            e
        },
    }
}

/// The label and glyph of each tab of the backup view, in section order.
pub fn backup_tabs(icon_mode: IconMode) -> (r: [(&'static str, &'static str); 2])
    ensures
        r[0].0@ == "Status"@,
        r[1].0@ == "History"@,
        icon_mode == IconMode::Nerd ==> r[0].1@ == "\u{f0e4}"@ && r[1].1@ == "\u{f1da}"@,
        icon_mode == IconMode::Unicode ==> r[0].1@ == "\u{1f680}"@ && r[1].1@ == "\u{1f552}"@,
        icon_mode == IconMode::Off ==> r[0].1@.len() == 0 && r[1].1@.len() == 0,
{
    [
        ("Status", get_icon("\u{f0e4}", "\u{1f680}", icon_mode)),
        ("History", get_icon("\u{f1da}", "\u{1f552}", icon_mode)),
    ]
}

/// The status list, line by line: a header, the staged files (or one line
/// saying there are none), an empty line, a header, then the unstaged and
/// untracked files (or one line saying there are none). The file lines are
/// numbered across both groups. This is the file number shown on `line`
/// when the three groups hold `staged`, `unstaged` and `untracked` files.
pub open spec fn file_at_line(staged: nat, unstaged: nat, untracked: nat, line: nat) -> Option<nat> {
    let staged_block: nat = if staged == 0 { 1 } else { staged };
    let second_start: nat = staged_block + 3;
    if 1 <= line && line < 1 + staged {
        Some((line - 1) as nat)
    } else if second_start <= line && line < second_start + unstaged + untracked {
        Some((staged + line - second_start) as nat)
    } else {
        None
    }
}

/// The line on which file number `file` is shown.
pub open spec fn line_of_file(staged: nat, file: nat) -> nat {
    if file < staged {
        1 + file
    } else if staged == 0 {
        4 + file
    } else {
        3 + file
    }
}

/// The file shown on line `line_idx` of the status list, if the status
/// section is shown and a status was read; `None` on headers, placeholders,
/// the empty line and past the end.
pub fn file_index_at_rendered_line(
    section: BackupSection,
    status: &Option<GitStatus>,
    line_idx: usize,
) -> (r: Option<usize>)
    ensures
        r == (match status {
            Some(st) => if section == BackupSection::Status {
                match file_at_line(
                    st.staged@.len(),
                    st.unstaged@.len(),
                    st.untracked@.len(),
                    line_idx as nat,
                ) {
                    Some(i) => Some(i as usize),
                    None => None,
                }
            } else {
                None
            },
            None => None,
        }),
{
    if section != BackupSection::Status {
        return None;
    }
    let st = match status {
        Some(st) => st,
        None => return None,
    };
    let s = st.staged.len();
    let u = st.unstaged.len();
    let t = st.untracked.len();
    if line_idx == 0 {
        return None;
    }
    let k = line_idx - 1;
    if k < s {
        return Some(k);
    }
    let block = if s == 0 { 1 } else { s };
    if k < block {
        return None;
    }
    let k2 = k - block;
    if k2 < 2 {
        return None;
    }
    let j = k2 - 2;
    if j < u || j - u < t {
        Some(s + j)
    } else {
        None
    }
}

/// The line of the status list that shows file number `file_idx`; 0 when
/// no status was read.
pub fn rendered_index_for_file(status: &Option<GitStatus>, file_idx: usize) -> (r: usize)
    requires
        file_idx < usize::MAX - 3,
    ensures
        r == (match status {
            Some(st) => line_of_file(st.staged@.len(), file_idx as nat),
            None => 0,
        }),
{
    match status {
        None => 0,
        Some(st) => {
            let s_len = st.staged.len();
            if file_idx < s_len {
                1 + file_idx
            } else if s_len == 0 {
                4 + file_idx
            } else {
                3 + file_idx
            }
        },
    }
}

/// Every file of the list is found again on the line it is shown on, and
/// the line a file is found on is the line it is shown on.
pub proof fn status_lines_round_trip(staged: nat, unstaged: nat, untracked: nat, file: nat, line: nat)
    ensures
        file < staged + unstaged + untracked ==> file_at_line(
            staged,
            unstaged,
            untracked,
            line_of_file(staged, file),
        ) == Some(file),
        file_at_line(staged, unstaged, untracked, line) == Some(file) ==> line_of_file(staged, file)
            == line,
{
}

/// The paths of a status in list order: staged, unstaged, untracked.
pub open spec fn status_paths(st: &GitStatus) -> Seq<Seq<char>> {
    st.staged@.map_values(|f: FileStatus| f.path@) + st.unstaged@.map_values(
        |f: FileStatus| f.path@,
    ) + st.untracked@.map_values(|p: String| p@)
}

/// The views of a list of strings.
pub open spec fn string_views(v: Seq<String>) -> Seq<Seq<char>> {
    v.map_values(|p: String| p@)
}

/// The files that can be selected in the status list, in list order.
pub fn selectable_files(st: &GitStatus) -> (r: Vec<String>)
    ensures
        string_views(r@) == status_paths(st),
{
    let mut files: Vec<String> = Vec::new();
    let mut i: usize = 0;
    while i < st.staged.len()
        invariant
            i <= st.staged@.len(),
            string_views(files@) == st.staged@.subrange(0, i as int).map_values(
                |f: FileStatus| f.path@,
            ),
        decreases st.staged@.len() - i,
    {
        let ghost before = files@;
        files.push(st.staged[i].path.clone());
        proof {
            assert(string_views(files@) =~= string_views(before).push(st.staged@[i as int].path@));
            assert(st.staged@.subrange(0, i + 1).map_values(|f: FileStatus| f.path@) =~= st.staged@.subrange(
                0,
                i as int,
            ).map_values(|f: FileStatus| f.path@).push(st.staged@[i as int].path@));
        }
        i = i + 1;
    }
    proof {
        assert(st.staged@.subrange(0, st.staged@.len() as int) == st.staged@);
    }
    let ghost first = string_views(files@);
    let mut j: usize = 0;
    while j < st.unstaged.len()
        invariant
            j <= st.unstaged@.len(),
            first == st.staged@.map_values(|f: FileStatus| f.path@),
            string_views(files@) == first + st.unstaged@.subrange(0, j as int).map_values(
                |f: FileStatus| f.path@,
            ),
        decreases st.unstaged@.len() - j,
    {
        let ghost before = files@;
        files.push(st.unstaged[j].path.clone());
        proof {
            assert(string_views(files@) =~= string_views(before).push(st.unstaged@[j as int].path@));
            assert(st.unstaged@.subrange(0, j + 1).map_values(|f: FileStatus| f.path@) =~= st.unstaged@.subrange(
                0,
                j as int,
            ).map_values(|f: FileStatus| f.path@).push(st.unstaged@[j as int].path@));
        }
        j = j + 1;
    }
    proof {
        assert(st.unstaged@.subrange(0, st.unstaged@.len() as int) == st.unstaged@);
    }
    let ghost second = string_views(files@);
    let mut k: usize = 0;
    while k < st.untracked.len()
        invariant
            k <= st.untracked@.len(),
            second == st.staged@.map_values(|f: FileStatus| f.path@) + st.unstaged@.map_values(
                |f: FileStatus| f.path@,
            ),
            string_views(files@) == second + st.untracked@.subrange(0, k as int).map_values(
                |p: String| p@,
            ),
        decreases st.untracked@.len() - k,
    {
        let ghost before = files@;
        files.push(st.untracked[k].clone());
        proof {
            assert(string_views(files@) =~= string_views(before).push(st.untracked@[k as int]@));
            assert(st.untracked@.subrange(0, k + 1).map_values(|p: String| p@) =~= st.untracked@.subrange(
                0,
                k as int,
            ).map_values(|p: String| p@).push(st.untracked@[k as int]@));
        }
        k = k + 1;
    }
    proof {
        assert(st.untracked@.subrange(0, st.untracked@.len() as int) == st.untracked@);
    }
    files
}

/// The first position of `x` in `v`, if it occurs.
pub open spec fn first_position(v: Seq<Seq<char>>, x: Seq<char>) -> Option<nat>
    decreases v.len(),
{
    if v.len() == 0 {
        None
    } else if v[0] == x {
        Some(0)
    } else {
        match first_position(v.skip(1), x) {
            Some(i) => Some(i + 1),
            None => None,
        }
    }
}

/// `first_position` finds the first occurrence, and finds none only where
/// there is none.
pub proof fn lemma_first_position(v: Seq<Seq<char>>, x: Seq<char>)
    ensures
        first_position(v, x) matches Some(i) ==> i < v.len() && v[i as int] == x && forall|q: int|
            0 <= q < i ==> v[q] != x,
        first_position(v, x) is None ==> forall|q: int| 0 <= q < v.len() ==> v[q] != x,
    decreases v.len(),
{
    if v.len() > 0 && v[0] != x {
        lemma_first_position(v.skip(1), x);
        assert forall|q: int| 1 <= q < v.len() implies v[q] == v.skip(1)[q - 1] by {}
    }
}

/// The selection after the file list was read again: the selected file
/// stays selected where it now stands; a selected file that is gone, or no
/// selection, gives way to the first file. Returns the selected file, its
/// index, and whether its diff must be loaded again. With nothing selected
/// and no files, the index stays `current_index`.
pub open spec fn reselection(
    selected: Option<Seq<char>>,
    current_index: nat,
    files: Seq<Seq<char>>,
) -> (Option<Seq<char>>, nat, bool) {
    match selected {
        Some(f) => match first_position(files, f) {
            Some(pos) => (Some(f), pos, false),
            None => if files.len() > 0 {
                (Some(files[0]), 0, true)
            } else {
                (None, 0, true)
            },
        },
        None => if files.len() > 0 {
            (Some(files[0]), 0, true)
        } else {
            (None, current_index, false)
        },
    }
}

/// The view of an optional string.
pub open spec fn opt_view(o: Option<String>) -> Option<Seq<char>> {
    match o {
        Some(s) => Some(s@),
        None => None,
    }
}

/// The position of the first entry of `files` equal to `x`.
pub fn position_of(files: &Vec<String>, x: &str) -> (r: Option<usize>)
    ensures
        r == (match first_position(string_views(files@), x@) {
            Some(i) => Some(i as usize),
            None => None,
        }),
{
    let ghost v = string_views(files@);
    proof {
        lemma_first_position(v, x@);
    }
    let mut i: usize = 0;
    while i < files.len()
        invariant
            v == string_views(files@),
            i <= files@.len(),
            forall|q: int| 0 <= q < i ==> v[q] != x@,
            first_position(v, x@) matches Some(k) ==> k < v.len() && v[k as int] == x@ && forall|
                q: int,
            | 0 <= q < k ==> v[q] != x@,
            first_position(v, x@) is None ==> forall|q: int| 0 <= q < v.len() ==> v[q] != x@,
        decreases files@.len() - i,
    {
        if str_eq(files[i].as_str(), x) {
            proof {
                assert(v[i as int] == x@);
                match first_position(v, x@) {
                    Some(k) => {
                        if k < i {
                        } else if k > i {
                            assert(v[i as int] != x@);
                        }
                    },
                    None => {},
                }
            }
            return Some(i);
        }
        i = i + 1;
    }
    proof {
        match first_position(v, x@) {
            Some(k) => {
                assert(v[k as int] == x@);
            },
            None => {},
        }
    }
    None
}

/// The selection after the status was read again; see `reselection`.
pub fn reselect(selected: &Option<String>, current_index: usize, files: &Vec<String>) -> (r: (
    Option<String>,
    usize,
    bool,
))
    ensures
        (opt_view(r.0), r.1 as nat, r.2) == reselection(
            opt_view(*selected),
            current_index as nat,
            string_views(files@),
        ),
{
    proof {
        if files@.len() > 0 {
            assert(string_views(files@)[0] == files@[0]@);
        }
        match selected {
            Some(f) => {
                lemma_first_position(string_views(files@), f@);
                assert(string_views(files@).len() == files.len());
            },
            None => {},
        }
    }
    match selected {
        Some(f) => match position_of(files, f.as_str()) {
            Some(pos) => {
                let g = f.clone();
                (Some(g), pos, false)
            },
            None => {
                if files.len() > 0 {
                    (Some(files[0].clone()), 0, true)
                } else {
                    (None, 0, true)
                }
            },
        },
        None => {
            if files.len() > 0 {
                (Some(files[0].clone()), 0, true)
            } else {
                (None, current_index, false)
            }
        },
    }
}

/// The remote settings as they are saved: the URL, trimmed, or none when it
/// is blank; the remote name, trimmed, or `origin` when it is blank.
pub fn saved_remote(url_text: &str, name_text: &str) -> (r: (Option<String>, String))
    ensures
        trim_seq(url_text@).len() == 0 ==> r.0 is None,
        trim_seq(url_text@).len() > 0 ==> (r.0 matches Some(u) && u@ == trim_seq(url_text@)),
        trim_seq(name_text@).len() == 0 ==> r.1@ == "origin"@,
        trim_seq(name_text@).len() > 0 ==> r.1@ == trim_seq(name_text@),
{
    let u = chars_of(url_text);
    let ut = trimmed_range(u.as_slice(), 0, u.len());
    let n = chars_of(name_text);
    let nt = trimmed_range(n.as_slice(), 0, n.len());
    proof {
        assert(u@.subrange(0, u@.len() as int) == u@);
        assert(n@.subrange(0, n@.len() as int) == n@);
    }
    let url = if ut.len() == 0 {
        None
    } else {
        Some(string_of(ut.as_slice()))
    };
    let name = if nt.len() == 0 {
        String::from_str("origin")
    } else {
        string_of(nt.as_slice())
    };
    (url, name)
}


// ---------------------------------------------------------------------------
// The backup worker
// ---------------------------------------------------------------------------

/// How long `Auto` jobs are collected before one backup runs for them, in
/// milliseconds.
pub const DEBOUNCE_MS: u64 = 2000;

/// Where the backup worker stands between jobs.
pub enum WorkerState {
    /// Waiting for a job.
    Idle,
    /// Collecting `Auto` jobs until the deadline; `message` is that of the
    /// latest one.
    Debouncing { message: String, deadline_ms: u64 },
    /// A `Flush` arrived: the jobs already queued are dropped, then its
    /// message is committed.
    Draining { message: String },
}

/// What the worker learned from its queue.
pub enum WorkerEvent {
    /// A job arrived.
    Received(BackupJob),
    /// The debounce deadline passed with no job.
    TimedOut,
    /// Nothing more is queued right now.
    QueueEmpty,
    /// Every sender is gone.
    Disconnected,
}

/// What the worker does after an event.
pub enum WorkerAction {
    Nothing,
    /// Commit with this message.
    Run(String),
    /// Commit with this message, then shut down.
    RunThenStop(String),
    /// Shut down.
    Stop,
}

/// How the worker waits in a state.
#[derive(Debug, Clone, Copy, PartialEq, Eq, Structural)]
pub enum WorkerWait {
    /// Block until a job arrives or the queue closes.
    Block,
    /// Wait at most this many milliseconds for a job.
    For(u64),
    /// The debounce deadline has passed already.
    Expired,
    /// Take whatever is queued without waiting.
    Poll,
}

/// The models of the worker's states, events and actions, messages as
/// character sequences.
pub enum WorkerStateV {
    Idle,
    Debouncing { message: Seq<char>, deadline_ms: u64 },
    Draining { message: Seq<char> },
}

/// A worker action as values.
pub enum WorkerActionV {
    Nothing,
    Run(Seq<char>),
    RunThenStop(Seq<char>),
    Stop,
}

/// The worker state as values.
pub open spec fn worker_state_view(s: WorkerState) -> WorkerStateV {
    match s {
        WorkerState::Idle => WorkerStateV::Idle,
        WorkerState::Debouncing { message, deadline_ms } => WorkerStateV::Debouncing {
            message: message@,
            deadline_ms,
        },
        WorkerState::Draining { message } => WorkerStateV::Draining { message: message@ },
    }
}

/// The worker action as values.
pub open spec fn worker_action_view(a: WorkerAction) -> WorkerActionV {
    match a {
        WorkerAction::Nothing => WorkerActionV::Nothing,
        WorkerAction::Run(m) => WorkerActionV::Run(m@),
        WorkerAction::RunThenStop(m) => WorkerActionV::RunThenStop(m@),
        WorkerAction::Stop => WorkerActionV::Stop,
    }
}

/// `now + DEBOUNCE_MS`, saturating.
pub open spec fn debounce_deadline(now_ms: u64) -> u64 {
    if now_ms > u64::MAX - DEBOUNCE_MS {
        u64::MAX
    } else {
        (now_ms + DEBOUNCE_MS) as u64
    }
}

/// One step of the worker. A `Flush` drops the jobs queued before it and
/// commits its message at once; an `Auto` job starts or continues a
/// debounce window, whose deadline is set by the first job and whose
/// message is that of the latest; when the window closes, or the queue
/// closes while it is open, that message is committed.
pub open spec fn worker_transition(s: WorkerStateV, e: WorkerEvent, now_ms: u64) -> (
    WorkerStateV,
    WorkerActionV,
) {
    match s {
        WorkerStateV::Idle => match e {
            WorkerEvent::Received(BackupJob::Flush(m)) => (
                WorkerStateV::Draining { message: m@ },
                WorkerActionV::Nothing,
            ),
            WorkerEvent::Received(BackupJob::Auto(m)) => (
                WorkerStateV::Debouncing { message: m@, deadline_ms: debounce_deadline(now_ms) },
                WorkerActionV::Nothing,
            ),
            WorkerEvent::Disconnected => (WorkerStateV::Idle, WorkerActionV::Stop),
            _ => (WorkerStateV::Idle, WorkerActionV::Nothing),
        },
        WorkerStateV::Debouncing { message, deadline_ms } => match e {
            WorkerEvent::Received(BackupJob::Auto(m)) => (
                WorkerStateV::Debouncing { message: m@, deadline_ms },
                WorkerActionV::Nothing,
            ),
            WorkerEvent::Received(BackupJob::Flush(m)) => (
                WorkerStateV::Draining { message: m@ },
                WorkerActionV::Nothing,
            ),
            WorkerEvent::Disconnected => (WorkerStateV::Idle, WorkerActionV::RunThenStop(message)),
            _ => (WorkerStateV::Idle, WorkerActionV::Run(message)),
        },
        WorkerStateV::Draining { message } => match e {
            WorkerEvent::Received(_) => (
                WorkerStateV::Draining { message },
                WorkerActionV::Nothing,
            ),
            _ => (WorkerStateV::Idle, WorkerActionV::Run(message)),
        },
    }
}

/// One step of the backup worker: the state after `event` at `now_ms`, and
/// what to do.
pub fn worker_step(state: WorkerState, event: WorkerEvent, now_ms: u64) -> (r: (
    WorkerState,
    WorkerAction,
))
    ensures
        (worker_state_view(r.0), worker_action_view(r.1)) == worker_transition(
            worker_state_view(state),
            event,
            now_ms,
        ),
{
    let deadline = if now_ms > u64::MAX - DEBOUNCE_MS {
        u64::MAX
    } else {
        now_ms + DEBOUNCE_MS
    };
    match state {
        WorkerState::Idle => match event {
            WorkerEvent::Received(BackupJob::Flush(m)) => (
                WorkerState::Draining { message: m },
                WorkerAction::Nothing,
            ),
            WorkerEvent::Received(BackupJob::Auto(m)) => (
                WorkerState::Debouncing { message: m, deadline_ms: deadline },
                WorkerAction::Nothing,
            ),
            WorkerEvent::Disconnected => (WorkerState::Idle, WorkerAction::Stop),
            _ => (WorkerState::Idle, WorkerAction::Nothing),
        },
        WorkerState::Debouncing { message, deadline_ms } => match event {
            WorkerEvent::Received(BackupJob::Auto(m)) => (
                WorkerState::Debouncing { message: m, deadline_ms },
                WorkerAction::Nothing,
            ),
            WorkerEvent::Received(BackupJob::Flush(m)) => (
                WorkerState::Draining { message: m },
                WorkerAction::Nothing,
            ),
            WorkerEvent::Disconnected => (WorkerState::Idle, WorkerAction::RunThenStop(message)),
            _ => (WorkerState::Idle, WorkerAction::Run(message)),
        },
        WorkerState::Draining { message } => match event {
            WorkerEvent::Received(_) => (WorkerState::Draining { message }, WorkerAction::Nothing),
            _ => (WorkerState::Idle, WorkerAction::Run(message)),
        },
    }
}

/// How the worker waits in a state at `now_ms`.
pub fn worker_wait(state: &WorkerState, now_ms: u64) -> (r: WorkerWait)
    ensures
        r == match worker_state_view(*state) {
            WorkerStateV::Idle => WorkerWait::Block,
            WorkerStateV::Debouncing { deadline_ms, .. } => if now_ms >= deadline_ms {
                WorkerWait::Expired
            } else {
                WorkerWait::For((deadline_ms - now_ms) as u64)
            },
            WorkerStateV::Draining { .. } => WorkerWait::Poll,
        },
{
    match state {
        WorkerState::Idle => WorkerWait::Block,
        WorkerState::Debouncing { deadline_ms, .. } => {
            if now_ms >= *deadline_ms {
                WorkerWait::Expired
            } else {
                WorkerWait::For(*deadline_ms - now_ms)
            }
        },
        WorkerState::Draining { .. } => WorkerWait::Poll,
    }
}

/// The worker never holds more than one pending message, and it is always
/// committed: from any state with a pending message, both the queue
/// running dry and the queue closing commit it; closing an idle worker just
/// stops it.
pub proof fn worker_never_drops_pending(m: Seq<char>, d: u64, now: u64)
    ensures
        worker_transition(WorkerStateV::Debouncing { message: m, deadline_ms: d }, WorkerEvent::TimedOut, now).1
            == WorkerActionV::Run(m),
        worker_transition(
            WorkerStateV::Debouncing { message: m, deadline_ms: d },
            WorkerEvent::Disconnected,
            now,
        ).1 == WorkerActionV::RunThenStop(m),
        worker_transition(WorkerStateV::Draining { message: m }, WorkerEvent::QueueEmpty, now).1
            == WorkerActionV::Run(m),
        worker_transition(WorkerStateV::Draining { message: m }, WorkerEvent::Disconnected, now).1
            == WorkerActionV::Run(m),
        worker_transition(WorkerStateV::Idle, WorkerEvent::Disconnected, now).1
            == WorkerActionV::Stop,
{
}

/// Later `Auto` jobs replace the pending message but do not move the
/// deadline, so a stream of saves still commits within one window of the
/// first.
pub proof fn debounce_keeps_first_deadline(m: Seq<char>, d: u64, job: String, now: u64)
    ensures
        worker_transition(
            WorkerStateV::Debouncing { message: m, deadline_ms: d },
            WorkerEvent::Received(BackupJob::Auto(job)),
            now,
        ).0 == (WorkerStateV::Debouncing { message: job@, deadline_ms: d }),
{
}

/// The mark shown before a staged file.
pub open spec fn staged_mark(c: FileChangeType) -> Seq<char> {
    match c {
        FileChangeType::Added => "+"@,
        FileChangeType::Modified => "M"@,
        FileChangeType::Deleted => "D"@,
        FileChangeType::Renamed => "R"@,
    }
}

/// The mark shown before an unstaged file.
pub open spec fn unstaged_mark(c: FileChangeType) -> Seq<char> {
    match c {
        FileChangeType::Deleted => "D"@,
        _ => "M"@,
    }
}

/// The line of a changed file: two spaces, its mark, a space, its path.
pub open spec fn file_line(f: FileStatus, staged: bool) -> Seq<char> {
    "  "@ + (if staged {
        staged_mark(f.status)
    } else {
        unstaged_mark(f.status)
    }) + " "@ + f.path@
}

/// The line of an untracked file.
pub open spec fn untracked_line(p: String) -> Seq<char> {
    "  ? "@ + p@
}

/// The text of the status list, line by line (see `file_at_line` for its
/// layout).
pub open spec fn status_lines(st: &GitStatus) -> Seq<Seq<char>> {
    let s = st.staged@;
    let u = st.unstaged@;
    let t = st.untracked@;
    seq!["Staged ("@ + decimal(s.len()) + "):"@] + (if s.len() == 0 {
        seq!["  No staged changes"@]
    } else {
        s.map_values(|f: FileStatus| file_line(f, true))
    }) + seq![seq![], "Unstaged ("@ + decimal(u.len()) + "):"@] + (if u.len() + t.len() == 0 {
        seq!["  No unstaged changes"@]
    } else {
        u.map_values(|f: FileStatus| file_line(f, false)) + t.map_values(|p: String| untracked_line(p))
    })
}

/// The mark of a changed file.
fn mark_of(c: FileChangeType, staged: bool) -> (r: &'static str)
    ensures
        r@ == if staged {
            staged_mark(c)
        } else {
            unstaged_mark(c)
        },
{
    if staged {
        match c {
            FileChangeType::Added => "+",
            FileChangeType::Modified => "M",
            FileChangeType::Deleted => "D",
            FileChangeType::Renamed => "R",
        }
    } else {
        match c {
            FileChangeType::Deleted => "D",
            _ => "M",
        }
    }
}

/// Appends the lines of the changed files `files`.
fn push_file_lines(lines: &mut Vec<String>, files: &Vec<FileStatus>, staged: bool)
    ensures
        string_views(final(lines)@) == string_views(old(lines)@) + files@.map_values(
            |f: FileStatus| file_line(f, staged),
        ),
{
    let mut i: usize = 0;
    while i < files.len()
        invariant
            i <= files@.len(),
            string_views(lines@) == string_views(old(lines)@) + files@.take(i as int).map_values(
                |f: FileStatus| file_line(f, staged),
            ),
        decreases files@.len() - i,
    {
        let ghost before = string_views(lines@);
        let head = concat_str("  ", mark_of(files[i].status, staged));
        let head = concat_str(head.as_str(), " ");
        let line = concat_str(head.as_str(), files[i].path.as_str());
        lines.push(line);
        proof {
            assert(string_views(lines@) =~= before.push(line@));
            assert(files@.take(i + 1).map_values(|f: FileStatus| file_line(f, staged)) =~= files@.take(
                i as int,
            ).map_values(|f: FileStatus| file_line(f, staged)).push(file_line(files@[i as int], staged)));
        }
        i = i + 1;
    }
    proof {
        assert(files@.take(files@.len() as int) =~= files@);
    }
}

/// The text of the status list of the backup view, line by line.
pub fn status_list_lines(st: &GitStatus) -> (r: Vec<String>)
    ensures
        string_views(r@) == status_lines(st),
{
    let ghost sv = st.staged@;
    let ghost uv = st.unstaged@;
    let ghost tv = st.untracked@;
    let ghost first_part = if sv.len() == 0 {
        seq!["  No staged changes"@]
    } else {
        sv.map_values(|f: FileStatus| file_line(f, true))
    };
    let ghost second_part = if uv.len() + tv.len() == 0 {
        seq!["  No unstaged changes"@]
    } else {
        uv.map_values(|f: FileStatus| file_line(f, false)) + tv.map_values(|p: String| untracked_line(p))
    };
    let mut lines: Vec<String> = Vec::new();
    let n = usize_to_decimal(st.staged.len());
    let head = concat_str("Staged (", n.as_str());
    let h1 = concat_str(head.as_str(), "):");
    lines.push(h1);
    proof {
        assert(string_views(lines@) =~= seq![h1@]);
    }
    if st.staged.len() == 0 {
        let p = String::from_str("  No staged changes");
        lines.push(p);
        proof {
            assert(string_views(lines@) =~= seq![h1@] + first_part);
        }
    } else {
        push_file_lines(&mut lines, &st.staged, true);
    }
    let ghost after_first = string_views(lines@);
    assert(after_first == seq![h1@] + first_part);
    lines.push(String::new());
    let n = usize_to_decimal(st.unstaged.len());
    let head = concat_str("Unstaged (", n.as_str());
    let h2 = concat_str(head.as_str(), "):");
    lines.push(h2);
    proof {
        assert(string_views(lines@) =~= after_first + seq![seq![], h2@]);
    }
    let ghost mid = string_views(lines@);
    if st.unstaged.len() == 0 && st.untracked.len() == 0 {
        let p = String::from_str("  No unstaged changes");
        lines.push(p);
        proof {
            assert(string_views(lines@) =~= mid + second_part);
        }
    } else {
        push_file_lines(&mut lines, &st.unstaged, false);
        let ghost mid2 = string_views(lines@);
        let mut k: usize = 0;
        while k < st.untracked.len()
            invariant
                k <= st.untracked@.len(),
                string_views(lines@) == mid2 + st.untracked@.take(k as int).map_values(
                    |p: String| untracked_line(p),
                ),
            decreases st.untracked@.len() - k,
        {
            let ghost before = string_views(lines@);
            let line = concat_str("  ? ", st.untracked[k].as_str());
            lines.push(line);
            proof {
                assert(string_views(lines@) =~= before.push(line@));
                assert(st.untracked@.take(k + 1).map_values(|p: String| untracked_line(p)) =~= st.untracked@.take(
                    k as int,
                ).map_values(|p: String| untracked_line(p)).push(untracked_line(st.untracked@[k as int])));
            }
            k = k + 1;
        }
        proof {
            assert(st.untracked@.take(st.untracked@.len() as int) =~= st.untracked@);
            assert(string_views(lines@) =~= mid + second_part);
        }
    }
    proof {
        assert(string_views(lines@) =~= status_lines(st));
    }
    lines
}

/// Each line of the status list that selects a file shows that file: the
/// line exists and, after its two spaces, mark and space, holds the file's
/// path.
pub proof fn status_line_shows_its_file(st: &GitStatus, line: nat, file: nat)
    requires
        file_at_line(st.staged@.len(), st.unstaged@.len(), st.untracked@.len(), line) == Some(file),
    ensures
        line < status_lines(st).len(),
        status_lines(st)[line as int].skip(4) == status_paths(st)[file as int],
{
    reveal_strlit("  ");
    reveal_strlit(" ");
    reveal_strlit("  ? ");
    reveal_strlit("+");
    reveal_strlit("M");
    reveal_strlit("D");
    reveal_strlit("R");
    let s = st.staged@;
    let u = st.unstaged@;
    let t = st.untracked@;
    let lines = status_lines(st);
    let paths = status_paths(st);
    if file < s.len() {
        let f = s[file as int];
        assert(lines[line as int] == file_line(f, true));
        assert(paths[file as int] == f.path@);
        assert(file_line(f, true).skip(4) =~= f.path@);
    } else if file < s.len() + u.len() {
        let f = u[file - s.len()];
        assert(lines[line as int] == file_line(f, false));
        assert(paths[file as int] == f.path@);
        assert(file_line(f, false).skip(4) =~= f.path@);
    } else {
        let p = t[file - s.len() - u.len()];
        assert(lines[line as int] == untracked_line(p));
        assert(paths[file as int] == p@);
        assert(untracked_line(p).skip(4) =~= p@);
    }
}

} // verus!
