use clipboard_history::pid::{lock_file_contents, parse_pid};

#[test]
fn parse_plain_pid() {
    assert_eq!(parse_pid("1234"), Some(1234));
    assert_eq!(parse_pid("0"), Some(0));
}

#[test]
fn parse_trims_whitespace() {
    assert_eq!(parse_pid("  42\n"), Some(42));
    assert_eq!(parse_pid("\t7\r\n"), Some(7));
    assert_eq!(parse_pid("\u{3000}99\u{a0}"), Some(99));
}

#[test]
fn parse_accepts_plus_sign() {
    assert_eq!(parse_pid("+5"), Some(5));
    assert_eq!(parse_pid("+"), None);
    assert_eq!(parse_pid("++5"), None);
    assert_eq!(parse_pid("-5"), None);
}

#[test]
fn parse_rejects_bad_text() {
    assert_eq!(parse_pid(""), None);
    assert_eq!(parse_pid("   "), None);
    assert_eq!(parse_pid("12a"), None);
    assert_eq!(parse_pid("1 2"), None);
    assert_eq!(parse_pid("\u{0661}"), None);
}

#[test]
fn parse_bounds() {
    assert_eq!(parse_pid("4294967295"), Some(u32::MAX));
    assert_eq!(parse_pid("4294967296"), None);
    assert_eq!(parse_pid("99999999999999999999x"), None);
    assert_eq!(parse_pid("00000000000000000000012"), Some(12));
}

#[test]
fn parse_agrees_with_std() {
    for s in ["1", " 17 ", "+3", "-3", "", "x", "4294967296", "\u{2028}8\u{85}", "0x10"] {
        assert_eq!(parse_pid(s), s.trim().parse::<u32>().ok(), "{:?}", s);
    }
}

#[test]
fn lock_file_round_trip() {
    for pid in [0u32, 1, 9, 10, 4321, u32::MAX] {
        let text = lock_file_contents(pid);
        assert_eq!(text, pid.to_string());
        assert_eq!(parse_pid(&text), Some(pid));
    }
}
