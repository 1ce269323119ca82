use clin::editor::{
    compose_change, edited_lines_change, normalize_content, ChangeLog, DocumentChange,
    EditorPreviewScheduler,
};

#[test]
fn changes_compose() {
    let a = DocumentChange::Lines { old: 1..2, new: 1..3 };
    let b = DocumentChange::Lines { old: 5..6, new: 5..9 };
    assert_eq!(compose_change(Some(a), b), DocumentChange::Lines { old: 1..2, new: 5..9 });
    assert_eq!(
        compose_change(Some(DocumentChange::Full), DocumentChange::Lines { old: 0..1, new: 0..1 }),
        DocumentChange::Full
    );
    assert_eq!(compose_change(None, DocumentChange::Full), DocumentChange::Full);
}

#[test]
fn edits_mark_their_lines() {
    // Cursor on row 3, no selection, one line became two.
    assert_eq!(edited_lines_change(3, None, 10, 11), DocumentChange::Lines { old: 3..4, new: 3..5 });
    // Rows 2..=4 selected and cut to nothing.
    assert_eq!(
        edited_lines_change(0, Some((2, 4)), 10, 8),
        DocumentChange::Lines { old: 2..5, new: 2..3 }
    );
    assert_eq!(
        edited_lines_change(usize::MAX, None, 1, 1),
        DocumentChange::Lines { old: usize::MAX..usize::MAX, new: usize::MAX..usize::MAX }
    );
}

#[test]
fn change_log_counts_revisions() {
    let mut log = ChangeLog::new();
    assert_eq!(log.revision, 0);
    assert_eq!(log.take_change(), Some(DocumentChange::Full));
    assert_eq!(log.take_change(), None);
    log.record_change(DocumentChange::Lines { old: 0..1, new: 0..2 });
    log.record_change(DocumentChange::Lines { old: 4..5, new: 4..4 });
    assert_eq!(log.revision, 2);
    assert_eq!(log.take_change(), Some(DocumentChange::Lines { old: 0..1, new: 4..4 }));
    log.revision = u64::MAX;
    log.record_change(DocumentChange::Full);
    assert_eq!(log.revision, 0);
}

#[test]
fn content_is_normalized() {
    assert_eq!(normalize_content("a\r\nb\n\n"), "a\nb");
    assert_eq!(normalize_content(""), "");
    assert_eq!(normalize_content("x\r"), "x\r");
}

#[test]
fn preview_waits_for_its_delay() {
    let mut s = EditorPreviewScheduler::new();
    assert!(!s.due(0));
    s.schedule(1, 1000);
    assert!(!s.due(1000));
    assert!(s.due(10_000));
    s.clear();
    assert!(!s.due(10_000));
}
