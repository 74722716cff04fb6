use clipboard_history::history::{
    format_list_line, list_line, ClipboardEntry, ClipboardHistory, MAX_HISTORY_SIZE,
};
use clipboard_history::time::Timestamp;

fn at(secs: i64) -> Timestamp {
    Timestamp::from_parts(secs, 0).unwrap()
}

fn contents(h: &ClipboardHistory) -> Vec<String> {
    h.entries().iter().map(|e| e.content.clone()).collect()
}

#[test]
fn add_puts_newest_first() {
    let mut h = ClipboardHistory::default();
    h.add_at("one".to_string(), at(1), MAX_HISTORY_SIZE);
    h.add_at("two".to_string(), at(2), MAX_HISTORY_SIZE);
    assert_eq!(contents(&h), vec!["two", "one"]);
    assert_eq!(h.entries()[0].timestamp.secs(), 2);
    assert_eq!(h.entries()[1].timestamp.secs(), 1);
}

#[test]
fn add_skips_duplicate_of_most_recent() {
    let mut h = ClipboardHistory::default();
    h.add_at("same".to_string(), at(1), 10);
    h.add_at("same".to_string(), at(2), 10);
    assert_eq!(h.len(), 1);
    assert_eq!(h.entries()[0].timestamp.secs(), 1);
}

#[test]
fn add_allows_older_duplicate() {
    let mut h = ClipboardHistory::default();
    h.add_at("a".to_string(), at(1), 10);
    h.add_at("b".to_string(), at(2), 10);
    h.add_at("a".to_string(), at(3), 10);
    assert_eq!(contents(&h), vec!["a", "b", "a"]);
}

#[test]
fn add_trims_to_max_size() {
    let mut h = ClipboardHistory::default();
    for i in 0..15 {
        h.add_at(format!("entry {}", i), at(i), MAX_HISTORY_SIZE);
    }
    assert_eq!(h.len(), MAX_HISTORY_SIZE);
    assert_eq!(h.entries()[0].content, "entry 14");
    assert_eq!(h.entries()[9].content, "entry 5");
}

#[test]
fn add_with_zero_room_empties_history() {
    let mut h = ClipboardHistory::default();
    h.add_at("a".to_string(), at(1), 10);
    h.add_at("b".to_string(), at(2), 0);
    assert!(h.is_empty());
}

#[test]
fn add_duplicate_keeps_oversized_history() {
    let entries: Vec<ClipboardEntry> = (0..5)
        .map(|i| ClipboardEntry { content: format!("x{}", i), timestamp: at(i) })
        .collect();
    let mut h = ClipboardHistory::from_entries(entries);
    h.add_at("x0".to_string(), at(9), 2);
    assert_eq!(h.len(), 5);
    h.add_at("new".to_string(), at(9), 2);
    assert_eq!(contents(&h), vec!["new", "x0"]);
}

#[test]
fn add_stamps_with_present_time() {
    let mut h = ClipboardHistory::default();
    h.add("now".to_string(), 10);
    assert_eq!(h.len(), 1);
    assert!(h.entries()[0].timestamp.secs() > 1_600_000_000);
    assert!(h.entries()[0].timestamp.nanos() < 1_000_000_000);
}

#[test]
fn get_and_clear() {
    let mut h = ClipboardHistory::default();
    h.add_at("a".to_string(), at(1), 10);
    h.add_at("b".to_string(), at(2), 10);
    assert_eq!(h.get(0).unwrap().content, "b");
    assert_eq!(h.get(1).unwrap().content, "a");
    assert!(h.get(2).is_none());
    h.clear();
    assert!(h.is_empty());
    assert!(h.get(0).is_none());
}

#[test]
fn timestamp_text_and_range() {
    let t = Timestamp::from_parts(1431648000, 0).unwrap();
    assert_eq!(t.text(), "2015-05-15 00:00:00");
    assert!(Timestamp::from_parts(0, 2_000_000_000).is_none());
    assert!(Timestamp::from_parts(i64::MAX, 0).is_none());
    let leap = Timestamp::from_parts(1483228799, 1_500_000_000).unwrap();
    assert_eq!(leap.text(), "2016-12-31 23:59:60");
}

#[test]
fn list_line_format() {
    let line = format_list_line(3, "2024-01-02 03:04:05", "hello\nworld");
    assert_eq!(line, "[3] 2024-01-02 03:04:05 (11 bytes) - hello\u{23CE}world");
}

#[test]
fn list_line_counts_bytes_and_cuts_preview() {
    let long = "\u{00e9}".repeat(70);
    let line = format_list_line(0, "T", &long);
    let expected = format!("[0] T (140 bytes) - {}...", "\u{00e9}".repeat(60));
    assert_eq!(line, expected);
}

#[test]
fn list_line_of_entry() {
    let e = ClipboardEntry { content: "abc".to_string(), timestamp: at(1431648000) };
    assert_eq!(list_line(12, &e), "[12] 2015-05-15 00:00:00 (3 bytes) - abc");
}

#[test]
fn list_lines_honours_count() {
    let mut h = ClipboardHistory::default();
    h.add_at("a".to_string(), at(0), 10);
    h.add_at("b".to_string(), at(60), 10);
    h.add_at("c".to_string(), at(3600), 10);
    let all = h.list_lines(None);
    assert_eq!(all.len(), 3);
    assert_eq!(all[0], "[0] 1970-01-01 01:00:00 (1 bytes) - c");
    assert_eq!(all[2], "[2] 1970-01-01 00:00:00 (1 bytes) - a");
    assert_eq!(h.list_lines(Some(2)).len(), 2);
    assert_eq!(h.list_lines(Some(9)).len(), 3);
    assert!(h.list_lines(Some(0)).is_empty());
}

#[test]
fn add_never_puts_equal_neighbours() {
    let mut h = ClipboardHistory::default();
    for (i, text) in ["a", "a", "b", "b", "a", "c", "c"].iter().enumerate() {
        h.add_at(text.to_string(), at(i as i64), MAX_HISTORY_SIZE);
    }
    let c = contents(&h);
    assert_eq!(c, vec!["c", "a", "b", "a"]);
    for w in c.windows(2) {
        assert_ne!(w[0], w[1]);
    }
}

#[test]
fn add_keeps_order_of_older_entries() {
    let mut h = ClipboardHistory::default();
    for i in 0..4 {
        h.add_at(format!("{}", i), at(i), 3);
    }
    h.add_at("new".to_string(), at(9), 3);
    assert_eq!(contents(&h), vec!["new", "3", "2"]);
}

#[test]
fn add_of_repeated_text_keeps_first_stamp() {
    let mut h = ClipboardHistory::default();
    h.add_at("same".to_string(), at(5), 10);
    h.add("same".to_string(), 10);
    assert_eq!(h.len(), 1);
    assert_eq!(h.entries()[0].timestamp.secs(), 5);
}
