use clin::debug_log::{dump_name, is_dump_file, is_sensitive_path, child_path, DebugBuffer, LogLevel, stamp_from_clock};

#[test]
fn test_log_level_padding() {
    let level_str = |lvl| {
        let s = match lvl {
            LogLevel::Error => "[ERROR]",
            LogLevel::Warn => "[WARN ]",
            LogLevel::Info => "[INFO ]",
            LogLevel::Debug => "[DEBUG]",
        };
        s.to_string()
    };
    assert_eq!(level_str(LogLevel::Error), "[ERROR]");
    assert_eq!(level_str(LogLevel::Warn), "[WARN ]");
    assert_eq!(level_str(LogLevel::Info), "[INFO ]");
    assert_eq!(level_str(LogLevel::Debug), "[DEBUG]");
}

#[test]
fn padded_levels_match_dump_format() {
    assert_eq!(LogLevel::Error.padded(), "[ERROR]");
    assert_eq!(LogLevel::Warn.padded(), "[WARN ]");
    assert_eq!(LogLevel::Info.padded(), "[INFO ]");
    assert_eq!(LogLevel::Debug.padded(), "[DEBUG]");
    assert_eq!(LogLevel::Warn.as_str(), "WARN");
}

#[test]
fn test_buffer_wrap() {
    let mut buf = DebugBuffer::new(5, "/tmp/clin-data");

    for i in 0..7 {
        buf.log(LogLevel::Info, "test", format!("entry {i}"));
    }
    // After 7 pushes in 5-slot buffer: entries 0,1 dropped, 2..6 kept.
    assert_eq!(buf.entries().len(), 5);
    assert!(buf.entries()[0].message.contains("entry 2"));
    assert!(buf.entries()[4].message.contains("entry 6"));
}

#[test]
fn test_empty_buffer_dump() {
    let buf = DebugBuffer::new(5, "/tmp/clin-data");
    let out = buf.render_entries(&Vec::new());
    assert!(out.contains("-- Ring buffer entries (5 max, 0 present) --"));
}

#[test]
fn test_large_message() {
    let mut buf = DebugBuffer::new(5, "/tmp/clin-data");
    let big = "A".repeat(10_240);
    buf.log(LogLevel::Info, "test", big.clone());
    let out = buf.render_entries(&vec!["2024-01-01T00:00:00.000".to_string()]);
    assert!(out.contains(&big));
}

#[test]
fn test_unicode_message() {
    let mut buf = DebugBuffer::new(5, "/tmp/clin-data");
    // Emoji, CJK, and combining marks.
    let msg = "Hello \u{1f600} \u{4e2d}\u{6587} caff\u{e8} na\u{307}e".to_string();
    buf.log(LogLevel::Info, "test", msg.clone());
    let out = buf.render_entries(&vec!["t".to_string()]);
    assert!(out.contains(&msg));
}

#[test]
fn entry_lines_have_exact_layout() {
    let mut buf = DebugBuffer::new(3, "/data");
    buf.log(LogLevel::Warn, "storage", "disk full".to_string());
    let out = buf.render_entries(&vec!["T1".to_string()]);
    assert_eq!(
        out,
        "-- Ring buffer entries (3 max, 1 present) --\n[T1] [WARN ] [storage] disk full\n"
    );
    assert_eq!(buf.dump_dir(), "/data/debug");
    assert_eq!(buf.max_size(), 3);
}

#[test]
fn dump_names_count_up() {
    let mut buf = DebugBuffer::new(3, "/data");
    assert_eq!(buf.next_dump_name("20240101"), "clin-debug-20240101.log");
    assert_eq!(buf.next_dump_name("20240101"), "clin-debug-20240101-1.log");
    assert_eq!(dump_name("x", 12), "clin-debug-x-12.log");
    assert!(is_dump_file("clin-debug-x-12.log"));
    assert!(!is_dump_file("notes.log"));
}

#[test]
fn config_paths_and_sensitivity() {
    assert_eq!(child_path("", "core"), "core");
    assert_eq!(child_path("core", "storage_path"), "core.storage_path");
    assert!(is_sensitive_path("core.storage_path"));
    assert!(is_sensitive_path("backup.remote_url"));
    assert!(!is_sensitive_path("ui.theme"));
}

#[test]
fn test_dump_rotation() {
    let keep = 10;
    let n_writes = keep + 3;
    let mut files: Vec<(String, Option<u128>)> = Vec::new();
    for i in 0..n_writes {
        files.push((format!("clin-debug-20240101T0000{:02}.log", i), Some(1_000 + i as u128)));
    }
    files.push(("notes.txt".to_string(), Some(1)));
    let pruned = clin::debug_log::dumps_to_prune(&files, keep);
    // The three oldest dumps go; the ten newest and the other file stay.
    assert_eq!(
        pruned,
        vec![
            "clin-debug-20240101T000000.log".to_string(),
            "clin-debug-20240101T000001.log".to_string(),
            "clin-debug-20240101T000002.log".to_string(),
        ]
    );
}

#[test]
fn pruning_breaks_time_ties_by_name_and_puts_unknown_times_last() {
    let files = vec![
        ("clin-debug-b.log".to_string(), Some(5)),
        ("clin-debug-a.log".to_string(), Some(5)),
        ("clin-debug-c.log".to_string(), None),
    ];
    assert_eq!(clin::debug_log::dumps_to_prune(&files, 1), vec!["clin-debug-a.log", "clin-debug-c.log"]);
    assert!(clin::debug_log::dumps_to_prune(&files, 3).is_empty());
}

#[test]
fn clock_readings_become_time_stamps() {
    assert_eq!(stamp_from_clock(Some(1_700_000_000_123)), 1_700_000_000_123);
    assert_eq!(stamp_from_clock(None), 0);
    assert_eq!(stamp_from_clock(Some(u128::MAX)), i64::MAX);
    assert_eq!(stamp_from_clock(Some(i64::MAX as u128)), i64::MAX);
}
