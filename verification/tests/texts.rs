//! Text, numbers, order and encodings.

use nobase::clock::{
    timestamp, timestamp_of, to_signed, Moment, FIRST_SECOND, LAST_SECOND,
};
use nobase::command::{exit_code, is_set, shell_command};
use nobase::encoding::sha256_of;
use nobase::number::{
    parse_number, parse_or_zero, parse_u32_or_zero, to_decimal, to_hex, to_signed_decimal,
};
use nobase::order::{bytes_less, sort_order, SortKey};
use nobase::registry::Registry;
use nobase::split::{keep_nonempty, lines, remove_all, split, split_columns, split_words, Cut};
use nobase::text::{
    contains_text, same_text, starts_with, take_chars, trim, trim_end_char, trim_start_char, white,
};

#[test]
fn texts_compare() {
    assert!(same_text("é", "é"));
    assert!(!same_text("a", "ab"));
    assert!(!same_text("ab", "ac"));
    assert!(starts_with("docker0", "docker"));
    assert!(!starts_with("do", "docker"));
    assert!(starts_with("x", ""));
    assert!(contains_text("regular empty file", "empty"));
    assert!(!contains_text("regular", "directory"));
    assert!(contains_text("abc", ""));
}

#[test]
fn texts_are_trimmed() {
    assert_eq!(trim(" \t a b \n"), "a b");
    assert_eq!(trim("\u{a0}x\u{3000}"), "x");
    assert_eq!(trim("   "), "");
    assert_eq!(trim_end_char("http://x//", '/'), "http://x");
    assert_eq!(trim_start_char("//web", '/'), "web");
    assert_eq!(take_chars("0123456789abcdef", 12), "0123456789ab");
    assert_eq!(take_chars("abc", 12), "abc");
    for n in 0..0x3100u32 {
        if let Some(c) = char::from_u32(n) {
            assert_eq!(white(c), c.is_whitespace());
        }
    }
}

#[test]
fn texts_are_split_as_std_does() {
    let line = "-rw-r--r-- 1 root root 12 2026-01-01 10:00:00 +0000 a b";
    let ours = split(line, Cut::AtWhite, Some(9));
    let theirs: Vec<&str> = line.splitn(9, char::is_whitespace).collect();
    assert_eq!(ours, theirs);
    assert_eq!(split("a|b||", Cut::At('|'), None), vec!["a", "b", "", ""]);
    assert_eq!(split("", Cut::At('|'), None), vec![""]);
    assert_eq!(split_words("\tSpeed:  3200 MT/s "), vec!["Speed:", "3200", "MT/s"]);
    for text in ["", "a", "a\n", "a\r\nb", "\n\n", "a\rb\n\r\n"] {
        let theirs: Vec<&str> = text.lines().collect();
        assert_eq!(lines(text), theirs, "{text:?}");
    }
    let kept = keep_nonempty(vec!["".to_string(), "x".to_string(), "".to_string()]);
    assert_eq!(kept, vec!["x"]);
    assert_eq!(remove_all("wss://a/wss://b", "wss://"), "a/b");
    let (fields, rest) = split_columns("  a\t\tbc  d", 2).unwrap();
    assert_eq!((fields, rest.as_str()), (vec!["a".to_string(), "bc".to_string()], "  d"));
    assert_eq!(split_columns(" x", 0), Some((vec![], " x".to_string())));
    assert_eq!(split_columns("a b", 2), None);
    assert_eq!(split_columns("a  ", 2), None);
    assert_eq!(remove_all("aaa", "aa"), "a");
}

#[test]
fn numbers_are_written_and_read() {
    assert_eq!(to_decimal(0), "0");
    assert_eq!(to_decimal(u64::MAX), "18446744073709551615");
    assert_eq!(to_signed_decimal(-32003), "-32003");
    assert_eq!(to_signed_decimal(i32::MIN), "-2147483648");
    assert_eq!(parse_or_zero("18446744073709551615"), u64::MAX);
    assert_eq!(parse_or_zero("18446744073709551616"), 0);
    assert_eq!(parse_or_zero("+7"), 7);
    assert_eq!(parse_or_zero("-7"), 0);
    assert_eq!(parse_or_zero(""), 0);
    assert_eq!(parse_or_zero("+"), 0);
    assert_eq!(parse_or_zero("1 "), 0);
    assert_eq!(parse_u32_or_zero("4294967295"), u32::MAX);
    assert_eq!(parse_u32_or_zero("4294967296"), 0);
    assert_eq!(parse_number("0644", 8, u32::MAX as u64), Some(0o644));
    assert_eq!(parse_number("0689", 8, u32::MAX as u64), None);
    for n in [0u64, 1, 9, 10, 99, 12345, u64::MAX] {
        assert_eq!(parse_number(&to_decimal(n), 10, u64::MAX), Some(n));
    }
    assert_eq!(to_hex(&vec![0, 15, 16, 255]), "000f10ff");
    assert_ne!(to_hex(&vec![1, 2]), to_hex(&vec![2, 1]));
}

#[test]
fn signed_readings_of_unsigned_numbers() {
    assert_eq!(to_signed(5), 5);
    assert_eq!(to_signed(u64::MAX), -1);
    assert_eq!(to_signed(1 << 63), i64::MIN);
}

#[test]
fn bytes_are_ordered_as_std_does() {
    let samples: Vec<Vec<u8>> = vec![vec![], vec![0], vec![1], vec![1, 0], vec![1, 2], vec![255]];
    for a in &samples {
        for b in &samples {
            assert_eq!(bytes_less(a, b), a < b);
        }
    }
}

#[test]
fn sorting_is_stable_and_lets_leaders_lead() {
    let key = |leads: bool, k: &str| SortKey { leads, key: k.as_bytes().to_vec() };
    let keys = vec![key(false, "b"), key(true, "z"), key(false, "a"), key(false, "b"), key(true, "c")];
    assert_eq!(sort_order(&keys, 0, 5), vec![4, 1, 2, 0, 3]);
    assert_eq!(sort_order(&vec![], 0, 0), Vec::<usize>::new());
}

#[test]
fn digests_are_known_ones() {
    assert_eq!(
        sha256_of(&vec![]),
        "e3b0c44298fc1c149afbf4c8996fb92427ae41e4649b934ca495991b7852b855"
    );
    assert_eq!(
        sha256_of(&b"abc".to_vec()),
        "ba7816bf8f01cfea414140de5dae2223b00361a396177a9cb410ff61f20015ad"
    );
}

#[test]
fn moments_are_written() {
    assert_eq!(timestamp_of(Moment { secs: 0, nanos: 0 }), "1970-01-01T00:00:00+00:00");
    assert_eq!(
        timestamp_of(Moment { secs: 1577837400, nanos: 500_000_000 }),
        "2020-01-01T00:10:00.500+00:00"
    );
    assert_eq!(
        timestamp_of(Moment { secs: FIRST_SECOND, nanos: 0 }),
        "-262143-01-01T00:00:00+00:00"
    );
    assert_eq!(
        timestamp_of(Moment { secs: LAST_SECOND, nanos: 0 }),
        "+262142-12-31T23:59:59+00:00"
    );
    assert!(chrono::DateTime::from_timestamp(FIRST_SECOND - 1, 0).is_none());
    assert!(chrono::DateTime::from_timestamp(LAST_SECOND + 1, 0).is_none());
    let now = timestamp();
    assert!(chrono::DateTime::parse_from_rfc3339(&now).is_ok(), "{now}");
}

#[test]
fn registry_keeps_items_by_name() {
    let mut r: Registry<u32> = Registry::new();
    assert!(!r.contains("a"));
    assert_eq!(r.insert("a".to_string(), 1), None);
    assert_eq!(r.insert("b".to_string(), 2), None);
    assert_eq!(r.insert("c".to_string(), 3), None);
    assert_eq!(r.insert("a".to_string(), 4), Some(1));
    assert_eq!(r.get("a"), Some(&4));
    assert_eq!(r.remove("a"), Some(4));
    assert_eq!(r.remove("a"), None);
    assert_eq!(r.get("c"), Some(&3));
    if let Some(item) = r.get_mut("b") {
        *item = 7;
    }
    assert_eq!(r.get("b"), Some(&7));
    assert!(r.get_mut("zz").is_none());
}

#[test]
fn commands_are_put_together() {
    let plain = shell_command("ls /", false);
    assert_eq!(plain.program, "sh");
    assert_eq!(plain.args, vec!["-c", "ls /"]);
    let root = shell_command("ls /", true);
    assert_eq!(root.program, "sudo");
    assert_eq!(root.args, vec!["-n", "sh", "-c", "ls /"]);
    assert_eq!(exit_code(Some(3)), 3);
    assert_eq!(exit_code(None), -1);
    assert!(is_set(Some(true)));
    assert!(!is_set(Some(false)));
    assert!(!is_set(None));
}
