//! What a mouse event does in the backup view: a step from the view's state
//! and the event to the next state and the action the screen around it
//! takes (loading a diff, saving the settings). The geometry that comes from
//! the terminal layout (which tab, popup or settings row is under the
//! pointer, and how wide the file list is beside a diff) is measured by the
//! caller and handed in.
use vstd::prelude::*;
use crate::backup::{file_at_line, BackupInputMode, BackupSection, InputResult, SettingsField};

verus! {

/// The kinds of mouse event the backup view reacts to.
#[derive(Debug, Clone, Copy, PartialEq, Eq, Structural)]
pub enum MouseKind {
    LeftDown,
    ScrollDown,
    ScrollUp,
    Other,
}

/// A rectangle of terminal cells, as the layout gives it: its corner and
/// size fit the coordinate type.
#[derive(Debug, Clone, Copy, PartialEq, Eq, Structural)]
pub struct Area {
    pub x: u16,
    pub y: u16,
    pub width: u16,
    pub height: u16,
}

/// What the layout says lies under the pointer.
#[derive(Debug, Clone, Copy, PartialEq, Eq)]
pub struct MouseHits {
    /// The tab of the title bar under the pointer, if any.
    pub tab: Option<usize>,
    /// The width of the file list: the whole view, or its left part when a
    /// diff is shown beside it.
    pub list_width: u16,
    /// Whether the pointer is inside the commit message prompt.
    pub inside_prompt: bool,
    /// Whether the pointer is inside the settings popup.
    pub inside_settings: bool,
    /// The settings row under the pointer, if any.
    pub settings_field: Option<SettingsField>,
}

/// The part of the backup view's state that mouse events read and change.
#[derive(Debug, Clone, Copy, PartialEq, Eq)]
pub struct BackupViewState {
    pub section: BackupSection,
    pub input_mode: BackupInputMode,
    pub settings_open: bool,
    pub enabled: bool,
    pub backup_on_save: bool,
    pub backup_on_quit: bool,
    pub auto_push: bool,
    pub focused_field: SettingsField,
    pub selected_index: usize,
    pub selected_commit_index: usize,
    /// How far the file list is scrolled.
    pub scroll: u16,
    pub diff_scroll: u16,
    /// The numbers of staged, unstaged and untracked files, when a status
    /// was read; the selectable files are these, in that order.
    pub status_counts: Option<(usize, usize, usize)>,
    /// The number of commits listed.
    pub commits: usize,
    /// Where the view was last drawn, if it was.
    pub area: Option<Area>,
}

/// What the screen around the view does after the event.
#[derive(Debug, Clone, Copy, PartialEq, Eq, Structural)]
pub enum BackupMouseAction {
    /// Nothing.
    Nothing,
    /// Select file number `i` of the list and load its diff.
    SelectFile(usize),
    /// Load the diff of the selected commit.
    LoadCommitDiff,
    /// Save the settings and refresh the view.
    SaveSettings,
}

/// The number of selectable files.
pub open spec fn selectable_count(st: BackupViewState) -> int {
    match st.status_counts {
        Some((s, u, t)) => s + u + t,
        None => 0,
    }
}

/// The states the step is defined on: the file count fits a `usize`, the
/// selections are below `usize::MAX`, and the drawn area fits the
/// coordinate type (as a layout rectangle does).
pub open spec fn view_ok(st: BackupViewState) -> bool {
    &&& selectable_count(st) <= usize::MAX
    &&& st.selected_index < usize::MAX
    &&& st.selected_commit_index < usize::MAX
    &&& (st.area matches Some(a) ==> a.x + a.width <= u16::MAX && a.y + a.height <= u16::MAX)
}

/// The events the step is defined on: the list is no wider than the area;
/// a click that reaches the list test does not hit an area of no rows at
/// the top of the screen, where the bottom edge `y + height - 1` is below 0;
/// and the wheel turned up over the file list does not select a file past
/// its end (the file selected is then looked up in the list).
pub open spec fn event_ok(st: BackupViewState, kind: MouseKind, col: u16, row: u16, hits: MouseHits) -> bool {
    match st.area {
        Some(a) => {
            &&& hits.list_width <= a.width
            &&& !(kind == MouseKind::LeftDown && !st.settings_open && row != a.y && a.x <= col && col
                < a.x + hits.list_width && row > a.y && a.y + a.height == 0)
            &&& (kind == MouseKind::ScrollUp && !st.settings_open && col < a.x + hits.list_width
                && st.section != BackupSection::History && selectable_count(st) > 0) ==> sat_sub(
                st.selected_index as int,
                1,
            ) < selectable_count(st)
        },
        None => true,
    }
}

/// A click in the settings popup.
pub open spec fn settings_click(st: BackupViewState, field: SettingsField) -> (
    BackupViewState,
    BackupMouseAction,
) {
    let s = BackupViewState { focused_field: field, ..st };
    match field {
        SettingsField::Enabled => (BackupViewState { enabled: !st.enabled, ..s }, BackupMouseAction::Nothing),
        SettingsField::BackupOnSave => (
            BackupViewState { backup_on_save: !st.backup_on_save, ..s },
            BackupMouseAction::Nothing,
        ),
        SettingsField::BackupOnQuit => (
            BackupViewState { backup_on_quit: !st.backup_on_quit, ..s },
            BackupMouseAction::Nothing,
        ),
        SettingsField::AutoPush => (BackupViewState { auto_push: !st.auto_push, ..s }, BackupMouseAction::Nothing),
        SettingsField::RemoteUrl | SettingsField::RemoteName => (
            BackupViewState { input_mode: BackupInputMode::EditSettingsField, ..s },
            BackupMouseAction::Nothing,
        ),
        SettingsField::SaveButton => (
            BackupViewState { input_mode: BackupInputMode::Normal, settings_open: false, ..s },
            BackupMouseAction::SaveSettings,
        ),
    }
}

/// `a - b`, or 0 when `b` is larger.
pub open spec fn sat_sub(a: int, b: int) -> int {
    if a >= b {
        a - b
    } else {
        0
    }
}

/// `a + b`, or `max` when that is larger.
pub open spec fn sat_add(a: int, b: int, max: int) -> int {
    if a + b <= max {
        a + b
    } else {
        max
    }
}

/// A left click in the view below its title row.
pub open spec fn list_click(st: BackupViewState, a: Area, col: u16, row: u16, list_width: u16) -> (
    BackupViewState,
    BackupMouseAction,
) {
    let nothing = (st, BackupMouseAction::Nothing);
    if a.x <= col && col < a.x + list_width && row > a.y && row < a.y + a.height - 1 {
        let item = sat_sub(sat_sub(row as int, a.y as int), 2);
        if st.section == BackupSection::Status {
            let line = sat_add(item, st.scroll as int, u16::MAX as int);
            match st.status_counts {
                Some((s, u, t)) => match file_at_line(s as nat, u as nat, t as nat, line as nat) {
                    Some(f) => (
                        BackupViewState { selected_index: f as usize, ..st },
                        BackupMouseAction::SelectFile(f as usize),
                    ),
                    None => nothing,
                },
                None => nothing,
            }
        } else if item > 0 && item - 1 < st.commits {
            (
                BackupViewState { selected_commit_index: (item - 1) as usize, ..st },
                BackupMouseAction::LoadCommitDiff,
            )
        } else {
            nothing
        }
    } else {
        nothing
    }
}

/// A turn of the wheel: `down` one step down, else one step up.
pub open spec fn wheel(st: BackupViewState, col: u16, hits: MouseHits, down: bool) -> (
    BackupViewState,
    BackupMouseAction,
) {
    let over_list = match st.area {
        Some(a) => col < a.x + hits.list_width,
        None => false,
    };
    if over_list {
        if st.section == BackupSection::History {
            if st.commits > 0 {
                let i = if down {
                    if st.selected_commit_index + 1 <= st.commits - 1 {
                        st.selected_commit_index + 1
                    } else {
                        st.commits - 1
                    }
                } else {
                    sat_sub(st.selected_commit_index as int, 1)
                };
                (BackupViewState { selected_commit_index: i as usize, ..st }, BackupMouseAction::LoadCommitDiff)
            } else {
                (st, BackupMouseAction::Nothing)
            }
        } else if selectable_count(st) > 0 {
            let i = if down {
                if st.selected_index + 1 <= selectable_count(st) - 1 {
                    st.selected_index + 1
                } else {
                    selectable_count(st) - 1
                }
            } else {
                sat_sub(st.selected_index as int, 1)
            };
            (BackupViewState { selected_index: i as usize, ..st }, BackupMouseAction::SelectFile(i as usize))
        } else {
            (st, BackupMouseAction::Nothing)
        }
    } else {
        let d = if down {
            sat_add(st.diff_scroll as int, 3, u16::MAX as int)
        } else {
            sat_sub(st.diff_scroll as int, 3)
        };
        (BackupViewState { diff_scroll: d as u16, ..st }, BackupMouseAction::Nothing)
    }
}

/// What a mouse event of kind `kind` at column `col` and row `row` does:
/// - with the settings popup open, a left click outside it closes it; one
///   on a row focuses that row and toggles it, starts editing it, or (the
///   save button) closes the popup and saves;
/// - while a commit message is typed, a left click outside the prompt ends
///   typing;
/// - a left click on the title row switches to the tab under it (the second
///   tab is the history); one on a line of the file list selects the file
///   shown there, one on a commit of the history selects that commit;
/// - the wheel moves the selection over the list, one step, staying in the
///   list, and scrolls the diff three lines elsewhere.
pub open spec fn mouse_transition(
    st: BackupViewState,
    kind: MouseKind,
    col: u16,
    row: u16,
    hits: MouseHits,
) -> (BackupViewState, BackupMouseAction) {
    let nothing = (st, BackupMouseAction::Nothing);
    if st.settings_open {
        match st.area {
            None => nothing,
            Some(_) => if kind == MouseKind::LeftDown && !hits.inside_settings {
                (
                    BackupViewState { settings_open: false, input_mode: BackupInputMode::Normal, ..st },
                    BackupMouseAction::Nothing,
                )
            } else if kind != MouseKind::LeftDown {
                nothing
            } else {
                match hits.settings_field {
                    Some(f) => settings_click(st, f),
                    None => nothing,
                }
            },
        }
    } else if st.input_mode == BackupInputMode::EditCommitMessage && kind == MouseKind::LeftDown
        && st.area is Some && !hits.inside_prompt {
        (BackupViewState { input_mode: BackupInputMode::Normal, ..st }, BackupMouseAction::Nothing)
    } else {
        match kind {
            MouseKind::LeftDown => match st.area {
                Some(a) => if row == a.y {
                    match hits.tab {
                        Some(i) => (
                            BackupViewState {
                                section: if i == 1 {
                                    BackupSection::History
                                } else {
                                    BackupSection::Status
                                },
                                ..st
                            },
                            BackupMouseAction::Nothing,
                        ),
                        None => nothing,
                    }
                } else {
                    list_click(st, a, col, row, hits.list_width)
                },
                None => nothing,
            },
            MouseKind::ScrollDown => wheel(st, col, hits, true),
            MouseKind::ScrollUp => wheel(st, col, hits, false),
            MouseKind::Other => nothing,
        }
    }
}

/// What the view answers to the event once the action is taken: a refresh
/// after the settings are saved, nothing otherwise.
pub open spec fn mouse_result(action: BackupMouseAction) -> InputResult {
    if action == BackupMouseAction::SaveSettings {
        InputResult::Refresh
    } else {
        InputResult::Nothing
    }
}

/// The answer of the view to a mouse event whose action was `action`.
pub fn mouse_result_of(action: BackupMouseAction) -> (r: InputResult)
    ensures
        r == mouse_result(action),
{
    match action {
        BackupMouseAction::SaveSettings => InputResult::Refresh,
        _ => InputResult::Nothing,
    }
}

fn settings_click_exec(st: &BackupViewState, field: SettingsField) -> (r: (BackupViewState, BackupMouseAction))
    ensures
        r == settings_click(*st, field),
{
    let mut s = *st;
    s.focused_field = field;
    match field {
        SettingsField::Enabled => {
            s.enabled = !st.enabled;
            (s, BackupMouseAction::Nothing)
        },
        SettingsField::BackupOnSave => {
            s.backup_on_save = !st.backup_on_save;
            (s, BackupMouseAction::Nothing)
        },
        SettingsField::BackupOnQuit => {
            s.backup_on_quit = !st.backup_on_quit;
            (s, BackupMouseAction::Nothing)
        },
        SettingsField::AutoPush => {
            s.auto_push = !st.auto_push;
            (s, BackupMouseAction::Nothing)
        },
        SettingsField::RemoteUrl | SettingsField::RemoteName => {
            s.input_mode = BackupInputMode::EditSettingsField;
            (s, BackupMouseAction::Nothing)
        },
        SettingsField::SaveButton => {
            s.input_mode = BackupInputMode::Normal;
            s.settings_open = false;
            (s, BackupMouseAction::SaveSettings)
        },
    }
}

fn list_click_exec(st: &BackupViewState, a: Area, col: u16, row: u16, list_width: u16) -> (r: (
    BackupViewState,
    BackupMouseAction,
))
    requires
        view_ok(*st),
        st.area == Some(a),
        list_width <= a.width,
        !(a.x <= col && col < a.x + list_width && row > a.y && a.y + a.height == 0),
    ensures
        r == list_click(*st, a, col, row, list_width),
        r.1 matches BackupMouseAction::SelectFile(f) ==> f < selectable_count(*st)
            && r.0.selected_index == f,
{
    if a.x <= col && col < a.x + list_width && row > a.y && row < a.y + a.height - 1 {
        let item: u16 = row.saturating_sub(a.y).saturating_sub(2);
        if st.section == BackupSection::Status {
            let line: u16 = item.saturating_add(st.scroll);
            match st.status_counts {
                Some((s, u, t)) => {
                    let r = pick_line(s, u, t, line as usize);
                    match r {
                        Some(f) => {
                            let mut n = *st;
                            n.selected_index = f;
                            (n, BackupMouseAction::SelectFile(f))
                        },
                        None => (*st, BackupMouseAction::Nothing),
                    }
                },
                None => (*st, BackupMouseAction::Nothing),
            }
        } else if item > 0 && ((item - 1) as usize) < st.commits {
            let mut n = *st;
            n.selected_commit_index = (item - 1) as usize;
            (n, BackupMouseAction::LoadCommitDiff)
        } else {
            (*st, BackupMouseAction::Nothing)
        }
    } else {
        (*st, BackupMouseAction::Nothing)
    }
}

/// `file_at_line` on counts whose sum fits a `usize`.
fn pick_line(s: usize, u: usize, t: usize, line: usize) -> (r: Option<usize>)
    requires
        s + u + t <= usize::MAX,
    ensures
        r == match file_at_line(s as nat, u as nat, t as nat, line as nat) {
            Some(f) => Some(f as usize),
            None => None,
        },
        r matches Some(f) ==> f < s + u + t,
{
    if line == 0 {
        return None;
    }
    let k = line - 1;
    if k < s {
        return Some(k);
    }
    let block: usize = if s == 0 { 1 } else { s };
    if k < block {
        return None;
    }
    let k2 = k - block;
    if k2 < 2 {
        return None;
    }
    let j = k2 - 2;
    if j < u + t {
        Some(s + j)
    } else {
        None
    }
}

fn wheel_exec(st: &BackupViewState, col: u16, hits: MouseHits, down: bool) -> (r: (
    BackupViewState,
    BackupMouseAction,
))
    requires
        view_ok(*st),
        st.area matches Some(a) ==> hits.list_width <= a.width,
        !st.settings_open,
        !down ==> event_ok(*st, MouseKind::ScrollUp, col, 0, hits),
    ensures
        r == wheel(*st, col, hits, down),
        r.1 matches BackupMouseAction::SelectFile(f) ==> f < selectable_count(*st)
            && r.0.selected_index == f,
{
    let over_list = match st.area {
        Some(a) => col < a.x + hits.list_width,
        None => false,
    };
    let mut n = *st;
    if over_list {
        if st.section == BackupSection::History {
            if st.commits > 0 {
                let i = if down {
                    if st.selected_commit_index + 1 <= st.commits - 1 {
                        st.selected_commit_index + 1
                    } else {
                        st.commits - 1
                    }
                } else {
                    st.selected_commit_index.saturating_sub(1)
                };
                n.selected_commit_index = i;
                (n, BackupMouseAction::LoadCommitDiff)
            } else {
                (n, BackupMouseAction::Nothing)
            }
        } else {
            let count: usize = match st.status_counts {
                Some((s, u, t)) => s + u + t,
                None => 0,
            };
            if count > 0 {
                let i = if down {
                    if st.selected_index + 1 <= count - 1 {
                        st.selected_index + 1
                    } else {
                        count - 1
                    }
                } else {
                    st.selected_index.saturating_sub(1)
                };
                n.selected_index = i;
                (n, BackupMouseAction::SelectFile(i))
            } else {
                (n, BackupMouseAction::Nothing)
            }
        }
    } else {
        n.diff_scroll = if down {
            st.diff_scroll.saturating_add(3)
        } else {
            st.diff_scroll.saturating_sub(3)
        };
        (n, BackupMouseAction::Nothing)
    }
}

/// The backup view's answer to a mouse event; see `mouse_transition`.
pub fn backup_mouse_step(
    st: &BackupViewState,
    kind: MouseKind,
    col: u16,
    row: u16,
    hits: MouseHits,
) -> (r: (BackupViewState, BackupMouseAction))
    requires
        view_ok(*st),
        event_ok(*st, kind, col, row, hits),
    ensures
        r == mouse_transition(*st, kind, col, row, hits),
        view_ok(r.0),
        r.1 matches BackupMouseAction::SelectFile(f) ==> f < selectable_count(*st)
            && r.0.selected_index == f,
{
    let nothing = (*st, BackupMouseAction::Nothing);
    if st.settings_open {
        match st.area {
            None => nothing,
            Some(_) => if kind == MouseKind::LeftDown && !hits.inside_settings {
                let mut n = *st;
                n.settings_open = false;
                n.input_mode = BackupInputMode::Normal;
                (n, BackupMouseAction::Nothing)
            } else if kind != MouseKind::LeftDown {
                nothing
            } else {
                match hits.settings_field {
                    Some(f) => settings_click_exec(st, f),
                    None => nothing,
                }
            },
        }
    } else if st.input_mode == BackupInputMode::EditCommitMessage && kind == MouseKind::LeftDown
        && st.area.is_some() && !hits.inside_prompt {
        let mut n = *st;
        n.input_mode = BackupInputMode::Normal;
        (n, BackupMouseAction::Nothing)
    } else {
        match kind {
            MouseKind::LeftDown => match st.area {
                Some(a) => if row == a.y {
                    match hits.tab {
                        Some(i) => {
                            let mut n = *st;
                            n.section = if i == 1 {
                                BackupSection::History
                            } else {
                                BackupSection::Status
                            };
                            (n, BackupMouseAction::Nothing)
                        },
                        None => nothing,
                    }
                } else {
                    list_click_exec(st, a, col, row, hits.list_width)
                },
                None => nothing,
            },
            MouseKind::ScrollDown => wheel_exec(st, col, hits, true),
            MouseKind::ScrollUp => wheel_exec(st, col, hits, false),
            MouseKind::Other => nothing,
        }
    }
}

} // verus!
