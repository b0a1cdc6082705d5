use coffer::numeric::{dec_i32_text, dec_text, hex2_text, millis_text, parse_text};
use coffer::platform::short_id;
use coffer::text::{contains_text, join_path, pad_left, pad_right, split_lines, split_words, trim_text};

#[test]
fn printed_numbers_are_read_back() {
    for n in [0u64, 7, 10, 999, 1000, u64::MAX] {
        assert_eq!(dec_text(n), n.to_string());
        assert_eq!(parse_text(&dec_text(n), 10, u64::MAX), Some(n));
    }
    for n in [0i32, -1, i32::MIN, i32::MAX] {
        assert_eq!(dec_i32_text(n), n.to_string());
    }
    assert_eq!(hex2_text(0xaf), "af");
    assert_eq!(hex2_text(5), "05");
}

#[test]
fn times_are_printed_like_durations() {
    assert_eq!(millis_text(0), "0ns");
    assert_eq!(millis_text(7), "7ms");
    assert_eq!(millis_text(2000), "2s");
    assert_eq!(millis_text(1500), "1.5s");
    assert_eq!(millis_text(61050), "61.05s");
    assert_eq!(millis_text(1001), "1.001s");
    for ms in [0u64, 1, 10, 999, 1000, 1010, 1100, 1234, 9999, 30000, 3_600_001, u64::MAX] {
        assert_eq!(millis_text(ms), format!("{:?}", std::time::Duration::from_millis(ms)));
    }
}

#[test]
fn numbers_are_read_within_their_limit() {
    assert_eq!(parse_text("256", 10, 255), None);
    assert_eq!(parse_text("255", 10, 255), Some(255));
    assert_eq!(parse_text("fF", 16, 1000), Some(255));
    assert_eq!(parse_text("", 10, 255), None);
    assert_eq!(parse_text("+7", 10, 255), Some(7));
    assert_eq!(parse_text("+", 10, 255), None);
    assert_eq!(parse_text("1 ", 10, 255), None);
    assert_eq!(parse_text("18446744073709551616", 10, u64::MAX), None);
}

#[test]
fn texts_are_taken_apart() {
    assert_eq!(trim_text(" \ta b\u{a0}\n"), "a b");
    assert_eq!(split_words("  a  b\tc "), vec!["a", "b", "c"]);
    assert_eq!(split_lines("a\r\nb\n\nc\n"), vec!["a", "b", "", "c"]);
    assert_eq!(split_lines("a\rb"), vec!["a\rb"]);
    assert!(split_lines("").is_empty());
    assert!(contains_text("HTTP/1.1 204", " 2"));
    assert!(!contains_text("HTTP/1.1", " 2"));
    assert!(contains_text("x", ""));
}

#[test]
fn texts_are_put_together() {
    assert_eq!(pad_right("é", 3), "é  ");
    assert_eq!(pad_left("12", 4), "  12");
    assert_eq!(pad_left("12345", 4), "12345");
    assert_eq!(join_path("/a", "b"), "/a/b");
    assert_eq!(join_path("/a/", "b"), "/a/b");
    assert_eq!(join_path("/a", "/b"), "/b");
    assert_eq!(join_path("", "b"), "b");
}

#[test]
fn short_identifiers_are_random() {
    let a = short_id();
    assert_eq!(a.len(), 8);
    assert!(a.chars().all(|c| c.is_ascii_digit() || ('a'..='f').contains(&c)));
    assert_ne!(a, short_id());
}
