use lnxcast::text::{
    before, decimal_text, ends_with, holds_text, is_white_space, lines, push_hex_byte, same_text,
    starts_with, trim,
};

#[test]
fn decimal_text_agrees_with_std() {
    for n in [0u32, 7, 9, 10, 42, 99, 100, 7236, 65535, 1_000_000, u32::MAX] {
        assert_eq!(decimal_text(n), n.to_string());
    }
    assert_eq!(decimal_text(7236), "7236");
    assert_eq!(decimal_text(0), "0");
}

#[test]
fn hex_bytes_have_two_digits() {
    let mut text = String::from("x");
    for b in 0u8..=255 {
        let mut one = String::new();
        push_hex_byte(&mut one, b);
        assert_eq!(one, format!("{:02x}", b));
    }
    push_hex_byte(&mut text, 0x0a);
    assert_eq!(text, "x0a");
}

#[test]
fn white_space_agrees_with_std() {
    for code in 0u32..=0x10ffff {
        if let Some(c) = char::from_u32(code) {
            assert_eq!(is_white_space(c), c.is_whitespace(), "U+{:04X}", code);
        }
    }
}

#[test]
fn trim_agrees_with_std() {
    for s in ["", " ", "\t\n", "a", "  wlan0", "wlan0 \r", " a b ", "\u{3000}x\u{a0}", "é "] {
        assert_eq!(trim(s), s.trim());
    }
    assert_eq!(trim("  wlp2s0 "), "wlp2s0");
}

#[test]
fn lines_agree_with_std() {
    for s in [
        "", "\n", "a", "a\n", "a\nb", "a\r\nb\r\n", "a\r", "\r\n", "\n\n", "a\n\nb", "a\rb\n", "é\nü",
    ] {
        let expected: Vec<String> = s.lines().map(|l| l.to_owned()).collect();
        assert_eq!(lines(s), expected, "{:?}", s);
    }
}

#[test]
fn before_is_the_first_piece_of_split() {
    for s in ["", ":", "a:b:c", "abc", " wlan0: 0000", "é:x"] {
        assert_eq!(before(s, ':'), s.split(':').next().unwrap());
    }
}

#[test]
fn prefixes_and_suffixes_agree_with_std() {
    for s in ["", "w", "wl", "wlan0", "eth0", "x.pid", ".pid", "pid", "p2p-dev-wlan0"] {
        for p in ["", "wl", ".pid", "p2p-dev-", "wlan0"] {
            assert_eq!(starts_with(s, p), s.starts_with(p));
            assert_eq!(ends_with(s, p), s.ends_with(p));
            assert_eq!(same_text(s, p), s == p);
        }
    }
}

#[test]
fn lists_hold_their_texts() {
    let list = vec!["a".to_owned(), "b".to_owned()];
    assert!(holds_text(&list, "b"));
    assert!(!holds_text(&list, "c"));
    assert!(!holds_text(&Vec::new(), "a"));
}
