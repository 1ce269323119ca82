use clin::history::{DrawHistory, MAX_HISTORY};

#[test]
fn history_caps_at_twenty_and_record_clears_redo() {
    let mut h = DrawHistory::new(0u64);
    for index in 1..=21u64 {
        let previous = h.data;
        h.data = 1000 + index;
        h.record_undo_state(previous);
    }
    assert_eq!(h.undo_stack.len(), MAX_HISTORY);
    assert_eq!(MAX_HISTORY, 20);
    // the oldest drawing (0) was dropped
    assert_eq!(h.undo_stack[0], 1001);
    assert_eq!(*h.undo_stack.last().unwrap(), 1020);

    assert!(h.undo());
    assert_eq!(h.data, 1020);
    assert_eq!(h.redo_stack, vec![1021]);

    let previous = h.data;
    h.data = 777;
    h.record_undo_state(previous);
    assert!(h.redo_stack.is_empty());
    assert!(!h.redo());
}

#[test]
fn undo_and_redo_on_empty_history_do_nothing() {
    let mut h = DrawHistory::new(5u64);
    assert!(!h.undo());
    assert!(!h.redo());
    assert_eq!(h.data, 5);
    assert!(h.undo_stack.is_empty());
    assert!(h.redo_stack.is_empty());
}

#[test]
fn redo_after_undo_restores() {
    let mut h = DrawHistory::new(1u64);
    h.data = 2;
    h.record_undo_state(1);
    h.data = 3;
    h.record_undo_state(2);
    assert!(h.undo());
    assert_eq!(h.data, 2);
    assert!(h.undo());
    assert_eq!(h.data, 1);
    assert!(!h.undo());
    assert!(h.redo());
    assert!(h.redo());
    assert_eq!(h.data, 3);
    assert_eq!(h.undo_stack, vec![1, 2]);
    assert!(h.redo_stack.is_empty());
}
