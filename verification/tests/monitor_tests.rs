use clipboard_history::monitor::{ClipboardMonitor, MonitorOutcome, MAX_ENTRY_BYTES};

#[test]
fn records_new_text_once() {
    let mut m = ClipboardMonitor::new();
    let a = "hello".to_string();
    assert!(m.is_new(&a));
    assert_eq!(m.observe(&a, false), MonitorOutcome::Record);
    assert!(!m.is_new(&a));
    assert_eq!(m.observe(&a, false), MonitorOutcome::Unchanged);
    assert_eq!(m.observe(&a, true), MonitorOutcome::Unchanged);
}

#[test]
fn skips_own_paste() {
    let mut m = ClipboardMonitor::new();
    let a = "pasted".to_string();
    assert_eq!(m.observe(&a, true), MonitorOutcome::SkippedOwnPaste);
    assert_eq!(m.observe(&a, false), MonitorOutcome::Unchanged);
    let b = "next".to_string();
    assert_eq!(m.observe(&b, false), MonitorOutcome::Record);
}

#[test]
fn rejects_too_large() {
    let mut m = ClipboardMonitor::new();
    let big = "x".repeat(MAX_ENTRY_BYTES + 1);
    assert_eq!(m.observe(&big, false), MonitorOutcome::TooLarge);
    assert_eq!(m.observe(&big, false), MonitorOutcome::Unchanged);
    let fits = "y".repeat(MAX_ENTRY_BYTES);
    assert_eq!(m.observe(&fits, false), MonitorOutcome::Record);
}

#[test]
fn size_is_counted_in_bytes() {
    let mut m = ClipboardMonitor::new();
    // 65537 two-byte characters: fewer characters than the limit, more bytes.
    let wide = "\u{e9}".repeat(MAX_ENTRY_BYTES / 2 + 1);
    assert_eq!(m.observe(&wide, false), MonitorOutcome::TooLarge);
}

#[test]
fn empty_text_is_neither_recorded_nor_remembered() {
    let mut m = ClipboardMonitor::new();
    let a = "a".to_string();
    assert_eq!(m.observe(&a, false), MonitorOutcome::Record);
    let empty = String::new();
    assert_eq!(m.observe(&empty, false), MonitorOutcome::Empty);
    assert_eq!(m.observe(&empty, false), MonitorOutcome::Empty);
    assert!(!m.is_new(&a));
}

#[test]
fn monitor_constants() {
    assert_eq!(MAX_ENTRY_BYTES, 131072);
}
