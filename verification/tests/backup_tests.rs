use clin::backup::{
    backup_tabs, status_list_lines, file_index_at_rendered_line, rendered_index_for_file, reselect, saved_remote,
    selectable_files, BackupSection, FileChangeType, FileStatus, GitStatus, SettingsField,
    classify_statuses, map_status, StatusFlags,
};
use clin::config_types::IconMode;

fn status(staged: &[&str], unstaged: &[&str], untracked: &[&str]) -> GitStatus {
    GitStatus {
        staged: staged
            .iter()
            .map(|p| FileStatus { path: p.to_string(), status: FileChangeType::Modified })
            .collect(),
        unstaged: unstaged
            .iter()
            .map(|p| FileStatus { path: p.to_string(), status: FileChangeType::Added })
            .collect(),
        untracked: untracked.iter().map(|p| p.to_string()).collect(),
        branch: "main".to_string(),
        ahead: 0,
        behind: 0,
    }
}

#[test]
fn settings_focus_cycles_both_ways() {
    let all = [
        SettingsField::Enabled,
        SettingsField::BackupOnSave,
        SettingsField::BackupOnQuit,
        SettingsField::AutoPush,
        SettingsField::RemoteUrl,
        SettingsField::RemoteName,
        SettingsField::SaveButton,
    ];
    for i in 0..all.len() {
        assert_eq!(all[i].next(), all[(i + 1) % all.len()]);
        assert_eq!(all[i].next().prev(), all[i]);
        assert_eq!(all[i].prev().next(), all[i]);
    }
    assert_eq!(SettingsField::Enabled.prev(), SettingsField::SaveButton);
}

#[test]
fn status_list_lines_map_to_files() {
    let st = Some(status(&["a"], &["b"], &["c"]));
    // 0 header, 1 a, 2 blank, 3 header, 4 b, 5 c
    let got: Vec<Option<usize>> =
        (0..7).map(|l| file_index_at_rendered_line(BackupSection::Status, &st, l)).collect();
    assert_eq!(got, vec![None, Some(0), None, None, Some(1), Some(2), None]);
    for f in 0..3 {
        let line = rendered_index_for_file(&st, f);
        assert_eq!(file_index_at_rendered_line(BackupSection::Status, &st, line), Some(f));
    }
    assert_eq!(file_index_at_rendered_line(BackupSection::History, &st, 1), None);
    assert_eq!(rendered_index_for_file(&None, 3), 0);
}

#[test]
fn status_list_without_staged_files() {
    let st = Some(status(&[], &["b"], &[]));
    // 0 header, 1 "no staged", 2 blank, 3 header, 4 b
    assert_eq!(file_index_at_rendered_line(BackupSection::Status, &st, 1), None);
    assert_eq!(file_index_at_rendered_line(BackupSection::Status, &st, 4), Some(0));
    assert_eq!(rendered_index_for_file(&st, 0), 4);
}

#[test]
fn reselection_after_refresh() {
    let st = status(&["a"], &["b"], &["c"]);
    let files = selectable_files(&st);
    assert_eq!(files, vec!["a", "b", "c"]);
    assert_eq!(reselect(&Some("c".to_string()), 0, &files), (Some("c".to_string()), 2, false));
    assert_eq!(reselect(&Some("gone".to_string()), 2, &files), (Some("a".to_string()), 0, true));
    assert_eq!(reselect(&None, 5, &files), (Some("a".to_string()), 0, true));
    assert_eq!(reselect(&None, 5, &Vec::new()), (None, 5, false));
    assert_eq!(reselect(&Some("x".to_string()), 5, &Vec::new()), (None, 0, true));
}

#[test]
fn remote_settings_are_trimmed() {
    assert_eq!(saved_remote("  ", ""), (None, "origin".to_string()));
    assert_eq!(
        saved_remote(" git@host:repo ", " upstream "),
        (Some("git@host:repo".to_string()), "upstream".to_string())
    );
}

#[test]
fn backup_tab_glyphs() {
    assert_eq!(backup_tabs(IconMode::Nerd), [("Status", "\u{f0e4}"), ("History", "\u{f1da}")]);
    assert_eq!(backup_tabs(IconMode::Unicode)[1], ("History", "\u{1f552}"));
    assert_eq!(backup_tabs(IconMode::Off)[0], ("Status", ""));
}

fn flags() -> StatusFlags {
    StatusFlags {
        index_new: false,
        index_modified: false,
        index_deleted: false,
        index_renamed: false,
        wt_new: false,
        wt_modified: false,
        wt_deleted: false,
        wt_renamed: false,
    }
}

#[test]
fn map_status_prefers_new_then_modified() {
    let mut f = flags();
    assert!(matches!(map_status(f, true), FileChangeType::Modified));
    f.index_renamed = true;
    assert!(matches!(map_status(f, true), FileChangeType::Renamed));
    f.index_deleted = true;
    assert!(matches!(map_status(f, true), FileChangeType::Deleted));
    f.index_new = true;
    assert!(matches!(map_status(f, true), FileChangeType::Added));
    assert!(matches!(map_status(f, false), FileChangeType::Modified));
    f.wt_deleted = true;
    assert!(matches!(map_status(f, false), FileChangeType::Deleted));
}

#[test]
fn classify_statuses_sorts_paths() {
    let mut staged_new = flags();
    staged_new.index_new = true;
    let mut both = flags();
    both.index_modified = true;
    both.wt_modified = true;
    let mut untracked = flags();
    untracked.wt_new = true;
    let entries = vec![
        ("a.md".to_string(), staged_new),
        ("b.md".to_string(), both),
        ("c.md".to_string(), untracked),
        ("d.md".to_string(), flags()),
    ];
    let s = classify_statuses(&entries, "main".to_string(), 2, 1);
    let staged: Vec<(&str, FileChangeType)> = s.staged.iter().map(|f| (f.path.as_str(), f.status)).collect();
    assert_eq!(staged, vec![("a.md", FileChangeType::Added), ("b.md", FileChangeType::Modified)]);
    let unstaged: Vec<&str> = s.unstaged.iter().map(|f| f.path.as_str()).collect();
    assert_eq!(unstaged, vec!["b.md"]);
    assert_eq!(s.untracked, vec!["c.md".to_string()]);
    assert_eq!(s.branch, "main");
    assert_eq!((s.ahead, s.behind), (2, 1));
}

#[test]
fn status_list_lines_match_the_file_index() {
    let st = status(&["a.md"], &["b.md", "c.md"], &["d.md"]);
    let lines = status_list_lines(&st);
    assert_eq!(
        lines,
        vec![
            "Staged (1):".to_string(),
            "  M a.md".to_string(),
            String::new(),
            "Unstaged (2):".to_string(),
            "  M b.md".to_string(),
            "  M c.md".to_string(),
            "  ? d.md".to_string(),
        ]
    );
    let some = Some(st);
    for (line, text) in lines.iter().enumerate() {
        match file_index_at_rendered_line(BackupSection::Status, &some, line) {
            Some(f) => assert_eq!(&text[4..], selectable_files(some.as_ref().unwrap())[f]),
            None => assert!(!text.starts_with("  ") || text.starts_with("  No")),
        }
    }
}

#[test]
fn empty_status_list_shows_placeholders() {
    let mut st = status(&[], &[], &[]);
    assert_eq!(
        status_list_lines(&st),
        vec![
            "Staged (0):".to_string(),
            "  No staged changes".to_string(),
            String::new(),
            "Unstaged (0):".to_string(),
            "  No unstaged changes".to_string(),
        ]
    );
    st.staged.push(FileStatus { path: "n.md".to_string(), status: FileChangeType::Added });
    st.unstaged.push(FileStatus { path: "x.md".to_string(), status: FileChangeType::Deleted });
    st.unstaged.push(FileStatus { path: "y.md".to_string(), status: FileChangeType::Renamed });
    let lines = status_list_lines(&st);
    assert_eq!(lines[1], "  + n.md");
    assert_eq!(lines[4], "  D x.md");
    assert_eq!(lines[5], "  M y.md");
}
