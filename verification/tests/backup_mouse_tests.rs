use clin::backup::{BackupInputMode, BackupSection, InputResult, SettingsField};
use clin::backup_mouse::{
    backup_mouse_step, mouse_result_of, Area, BackupMouseAction, BackupViewState, MouseHits, MouseKind,
};

fn view() -> BackupViewState {
    BackupViewState {
        section: BackupSection::Status,
        input_mode: BackupInputMode::Normal,
        settings_open: false,
        enabled: true,
        backup_on_save: false,
        backup_on_quit: false,
        auto_push: false,
        focused_field: SettingsField::Enabled,
        selected_index: 0,
        selected_commit_index: 0,
        scroll: 0,
        diff_scroll: 5,
        status_counts: Some((1, 2, 1)),
        commits: 3,
        area: Some(Area { x: 0, y: 0, width: 80, height: 24 }),
    }
}

fn hits() -> MouseHits {
    MouseHits { tab: None, list_width: 80, inside_prompt: true, inside_settings: true, settings_field: None }
}

#[test]
fn clicking_a_file_line_selects_that_file() {
    // Row 3 is list line 1, the staged file.
    let (s, a) = backup_mouse_step(&view(), MouseKind::LeftDown, 5, 3, hits());
    assert_eq!(a, BackupMouseAction::SelectFile(0));
    assert_eq!(s.selected_index, 0);
    // Row 6 is list line 4, the first unstaged file (number 1).
    let (s, a) = backup_mouse_step(&view(), MouseKind::LeftDown, 5, 6, hits());
    assert_eq!(a, BackupMouseAction::SelectFile(1));
    assert_eq!(s.selected_index, 1);
    // Row 4 is the blank line: nothing.
    let (s, a) = backup_mouse_step(&view(), MouseKind::LeftDown, 5, 4, hits());
    assert_eq!(a, BackupMouseAction::Nothing);
    assert_eq!(s, view());
    // The last row of the area is its border.
    let (_, a) = backup_mouse_step(&view(), MouseKind::LeftDown, 5, 23, hits());
    assert_eq!(a, BackupMouseAction::Nothing);
}

#[test]
fn clicking_the_title_row_switches_tabs() {
    let mut h = hits();
    h.tab = Some(1);
    let (s, a) = backup_mouse_step(&view(), MouseKind::LeftDown, 40, 0, h);
    assert_eq!(s.section, BackupSection::History);
    assert_eq!(a, BackupMouseAction::Nothing);
    h.tab = Some(0);
    let (s, _) = backup_mouse_step(&s, MouseKind::LeftDown, 40, 0, h);
    assert_eq!(s.section, BackupSection::Status);
}

#[test]
fn clicking_a_commit_selects_it() {
    let mut v = view();
    v.section = BackupSection::History;
    let (s, a) = backup_mouse_step(&v, MouseKind::LeftDown, 5, 4, hits());
    assert_eq!(a, BackupMouseAction::LoadCommitDiff);
    assert_eq!(s.selected_commit_index, 1);
    let (_, a) = backup_mouse_step(&v, MouseKind::LeftDown, 5, 2, hits());
    assert_eq!(a, BackupMouseAction::Nothing);
    let (_, a) = backup_mouse_step(&v, MouseKind::LeftDown, 5, 6, hits());
    assert_eq!(a, BackupMouseAction::Nothing);
}

#[test]
fn the_wheel_moves_the_selection_within_the_list() {
    let mut v = view();
    v.selected_index = 3;
    let (s, a) = backup_mouse_step(&v, MouseKind::ScrollDown, 5, 5, hits());
    assert_eq!(s.selected_index, 3);
    assert_eq!(a, BackupMouseAction::SelectFile(3));
    let (s, a) = backup_mouse_step(&v, MouseKind::ScrollUp, 5, 5, hits());
    assert_eq!(s.selected_index, 2);
    assert_eq!(a, BackupMouseAction::SelectFile(2));
    let mut h = hits();
    h.list_width = 34;
    let (s, a) = backup_mouse_step(&v, MouseKind::ScrollDown, 50, 5, h);
    assert_eq!(s.diff_scroll, 8);
    assert_eq!(a, BackupMouseAction::Nothing);
    let (s, _) = backup_mouse_step(&v, MouseKind::ScrollUp, 50, 5, h);
    assert_eq!(s.diff_scroll, 2);
    v.area = None;
    v.diff_scroll = u16::MAX;
    let (s, _) = backup_mouse_step(&v, MouseKind::ScrollDown, 0, 0, h);
    assert_eq!(s.diff_scroll, u16::MAX);
}

#[test]
fn settings_clicks_toggle_edit_and_save() {
    let mut v = view();
    v.settings_open = true;
    let mut h = hits();
    h.settings_field = Some(SettingsField::AutoPush);
    let (s, a) = backup_mouse_step(&v, MouseKind::LeftDown, 10, 10, h);
    assert!(s.auto_push);
    assert_eq!(s.focused_field, SettingsField::AutoPush);
    assert_eq!(mouse_result_of(a), InputResult::Nothing);
    h.settings_field = Some(SettingsField::RemoteUrl);
    let (s, _) = backup_mouse_step(&v, MouseKind::LeftDown, 10, 10, h);
    assert_eq!(s.input_mode, BackupInputMode::EditSettingsField);
    h.settings_field = Some(SettingsField::SaveButton);
    let (s, a) = backup_mouse_step(&v, MouseKind::LeftDown, 10, 10, h);
    assert!(!s.settings_open);
    assert_eq!(a, BackupMouseAction::SaveSettings);
    assert_eq!(mouse_result_of(a), InputResult::Refresh);
    h.inside_settings = false;
    let (s, a) = backup_mouse_step(&v, MouseKind::LeftDown, 0, 0, h);
    assert!(!s.settings_open);
    assert_eq!(a, BackupMouseAction::Nothing);
    let (s, _) = backup_mouse_step(&v, MouseKind::ScrollDown, 0, 0, h);
    assert_eq!(s, v);
}

#[test]
fn a_click_outside_the_prompt_ends_typing() {
    let mut v = view();
    v.input_mode = BackupInputMode::EditCommitMessage;
    let mut h = hits();
    h.inside_prompt = false;
    let (s, a) = backup_mouse_step(&v, MouseKind::LeftDown, 5, 3, h);
    assert_eq!(s.input_mode, BackupInputMode::Normal);
    assert_eq!(s.selected_index, 0);
    assert_eq!(a, BackupMouseAction::Nothing);
    let (s, a) = backup_mouse_step(&v, MouseKind::LeftDown, 5, 6, hits());
    assert_eq!(s.input_mode, BackupInputMode::EditCommitMessage);
    assert_eq!(a, BackupMouseAction::SelectFile(1));
}
