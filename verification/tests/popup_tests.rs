use clipboard_history::history::ClipboardHistory;
use clipboard_history::popup::{
    display_number_of, entry_label, popup_entries, select_by_keys, ClipboardPopup, DaemonPopup,
    EntryResponse, HotkeyOutcome, PopupCommand, PopupInput,
};
use clipboard_history::time::Timestamp;

fn keys(ds: &[usize]) -> [bool; 10] {
    let mut k = [false; 10];
    for d in ds {
        k[*d] = true;
    }
    k
}

fn none(n: usize) -> Vec<EntryResponse> {
    vec![EntryResponse { clicked: false, double_clicked: false }; n]
}

fn strings(v: &[&str]) -> Vec<String> {
    v.iter().map(|s| s.to_string()).collect()
}

#[test]
fn display_numbers() {
    assert_eq!(display_number_of(0), 1);
    assert_eq!(display_number_of(8), 9);
    assert_eq!(display_number_of(9), 0);
    assert_eq!(display_number_of(10), 11);
}

#[test]
fn labels() {
    assert_eq!(entry_label(0, "hi"), "[1] hi");
    assert_eq!(entry_label(9, "a\tb\nc\r"), "[0] a\u{2192}b\u{23CE}c");
    let long = "z".repeat(80);
    assert_eq!(entry_label(2, &long), format!("[3] {}...", "z".repeat(70)));
    assert_eq!(ClipboardPopup::truncate_display("x\ty", 70), "x\u{2192}y");
}

#[test]
fn number_keys_pick_entries() {
    assert_eq!(select_by_keys(&keys(&[1]), 5), Some(0));
    assert_eq!(select_by_keys(&keys(&[0]), 10), Some(9));
    assert_eq!(select_by_keys(&keys(&[0]), 9), None);
    assert_eq!(select_by_keys(&keys(&[6]), 5), None);
    assert_eq!(select_by_keys(&keys(&[]), 5), None);
    // Keys are taken 1..9 then 0; the last one down wins.
    assert_eq!(select_by_keys(&keys(&[2, 4]), 5), Some(3));
    assert_eq!(select_by_keys(&keys(&[0, 1]), 10), Some(9));
    assert_eq!(select_by_keys(&keys(&[0, 1]), 3), Some(0));
}

#[test]
fn popup_entries_are_most_recent_ten() {
    let mut h = ClipboardHistory::default();
    for i in 0..12 {
        h.add_at(format!("e{}", i), Timestamp::from_parts(i, 0).unwrap(), 20);
    }
    let shown = popup_entries(&h);
    assert_eq!(shown.len(), 10);
    assert_eq!(shown[0], "e11");
    assert_eq!(shown[9], "e2");
}

#[test]
fn popup_key_then_enter_pastes() {
    let mut p = ClipboardPopup::new(strings(&["a", "b", "c"]));
    let cmds = p.update(&PopupInput { digits: keys(&[2]), escape: false, enter: true, responses: none(3) });
    // Enter pastes the selection, then the selection left over is pasted too.
    assert_eq!(
        cmds,
        vec![PopupCommand::Paste(1), PopupCommand::Close, PopupCommand::Paste(1), PopupCommand::Close]
    );
    assert_eq!(p.entry(1).unwrap(), "b");
}

#[test]
fn popup_key_alone_pastes() {
    let mut p = ClipboardPopup::new(strings(&["a", "b"]));
    let cmds = p.update(&PopupInput { digits: keys(&[1]), escape: false, enter: false, responses: none(2) });
    assert_eq!(cmds, vec![PopupCommand::Paste(0), PopupCommand::Close]);
    let cmds = p.update(&PopupInput { digits: keys(&[]), escape: false, enter: true, responses: none(2) });
    assert!(cmds.is_empty());
}

#[test]
fn popup_escape_closes() {
    let mut p = ClipboardPopup::new(strings(&["a"]));
    let cmds = p.update(&PopupInput { digits: keys(&[]), escape: true, enter: false, responses: none(1) });
    assert_eq!(cmds, vec![PopupCommand::Close]);
}

#[test]
fn popup_clicks() {
    let mut p = ClipboardPopup::new(strings(&["a", "b", "c"]));
    let mut r = none(3);
    r[2].clicked = true;
    let cmds = p.update(&PopupInput { digits: keys(&[1]), escape: false, enter: false, responses: r });
    // A click overrides the number key.
    assert_eq!(cmds, vec![PopupCommand::Paste(2), PopupCommand::Close]);
    let mut r = none(3);
    r[1].double_clicked = true;
    let cmds = p.update(&PopupInput { digits: keys(&[]), escape: false, enter: false, responses: r });
    assert_eq!(cmds, vec![PopupCommand::Paste(1), PopupCommand::Close]);
}

#[test]
fn popup_labels() {
    let p = ClipboardPopup::new(strings(&["one", "two"]));
    assert_eq!(p.labels(), vec!["[1] one", "[2] two"]);
}

#[test]
fn daemon_popup_flow() {
    let mut h = ClipboardHistory::default();
    let mut d = DaemonPopup::new();
    assert_eq!(d.on_hotkey(true, &h), HotkeyOutcome::NoHistory);
    assert!(!d.is_open());
    h.add_at("first".to_string(), Timestamp::from_parts(1, 0).unwrap(), 10);
    h.add_at("second".to_string(), Timestamp::from_parts(2, 0).unwrap(), 10);
    assert_eq!(d.on_hotkey(false, &h), HotkeyOutcome::Ignored);
    assert_eq!(d.on_hotkey(true, &h), HotkeyOutcome::Opened);
    assert!(d.is_open());
    assert_eq!(d.labels(), vec!["[1] second", "[2] first"]);
    assert_eq!(d.on_hotkey(true, &h), HotkeyOutcome::Ignored);
    let keyed = d.on_keys(&keys(&[2]), false);
    assert_eq!(keyed, Some(1));
    assert!(d.is_open());
    let mut r = none(2);
    assert_eq!(d.picked_entry(keyed, &r), Some(1));
    r[0].double_clicked = true;
    assert_eq!(d.picked_entry(keyed, &r), Some(0));
    assert_eq!(d.paste_target(0).unwrap(), "second");
    assert!(d.paste_target(2).is_none());
    d.pasted();
    assert!(!d.is_open());
}

#[test]
fn daemon_popup_escape() {
    let mut h = ClipboardHistory::default();
    h.add_at("x".to_string(), Timestamp::from_parts(1, 0).unwrap(), 10);
    let mut d = DaemonPopup::new();
    d.on_hotkey(true, &h);
    assert_eq!(d.on_keys(&keys(&[1]), true), None);
    assert!(!d.is_open());
}

#[test]
fn shown_number_selects_its_entry() {
    for i in 0..10 {
        assert_eq!(select_by_keys(&keys(&[display_number_of(i)]), 10), Some(i));
    }
}
