use deckwatch_plugin_aws::encode::{hex, url_encode};
use deckwatch_plugin_aws::number::{parse_i64, parse_u32, to_decimal, to_signed_decimal};
use deckwatch_plugin_aws::split::{nth_part, split, trim, words, Separator};
use deckwatch_plugin_aws::text::{
    between, contains, ends_with, join, same_text, starts_with, strip_prefix, strip_prefixes,
};
use deckwatch_plugin_aws::StringMap;

#[test]
fn texts_are_searched() {
    assert!(contains("abcab", "cab"));
    assert!(contains("", ""));
    assert!(!contains("ab", "abc"));
    assert!(starts_with("/p/", "/"));
    assert!(ends_with("q.fifo", ".fifo"));
    assert!(!ends_with("fifo", ".fifo"));
    assert!(same_text("é", "é"));
    assert!(!same_text("a", "b"));
    assert_eq!(strip_prefix("abc", "ab"), Some("c".to_string()));
    assert_eq!(strip_prefix("abc", "b"), None);
    assert_eq!(strip_prefixes("xxay", "x"), "ay");
    assert_eq!(between("a<b>c", "<", ">"), Some("b".to_string()));
}

#[test]
fn texts_are_split() {
    assert_eq!(split("a,,b", Separator::Char(',')), vec!["a", "", "b"]);
    assert_eq!(split("", Separator::Char(',')), vec![""]);
    assert_eq!(nth_part("a:b:c", Separator::Char(':'), 2), Some("c".to_string()));
    assert_eq!(nth_part("a:b:c", Separator::Char(':'), 3), None);
    assert_eq!(words(" a\t\tb\u{2003}c\n"), vec!["a", "b", "c"]);
    assert_eq!(trim("\u{a0} a b\u{3000}"), "a b");
    assert_eq!(trim(" \n"), "");
    assert_eq!(join(&vec!["a".to_string(), "b".to_string()], ";"), "a;b");
    assert_eq!(join(&vec![], ";"), "");
}

#[test]
fn splitting_and_joining_undo_each_other() {
    for s in ["", ",", "a,b", ",a,,b,"] {
        assert_eq!(join(&split(s, Separator::Char(',')), ","), s);
    }
}

#[test]
fn numbers_are_read_and_written() {
    assert_eq!(to_decimal(0), "0");
    assert_eq!(to_decimal(u64::MAX), "18446744073709551615");
    assert_eq!(to_signed_decimal(i64::MIN), "-9223372036854775808");
    assert_eq!(to_signed_decimal(12), "12");
    assert_eq!(parse_u32("4294967295"), Some(u32::MAX));
    assert_eq!(parse_u32("4294967296"), None);
    assert_eq!(parse_u32("+7"), Some(7));
    assert_eq!(parse_u32("-0"), None);
    assert_eq!(parse_u32("007"), Some(7));
    assert_eq!(parse_u32(""), None);
    assert_eq!(parse_u32("+"), None);
    assert_eq!(parse_u32(" 7"), None);
    assert_eq!(parse_u32("٣"), None);
    assert_eq!(parse_i64("-9223372036854775808"), Some(i64::MIN));
    assert_eq!(parse_i64("9223372036854775808"), None);
    assert_eq!(parse_i64("-"), None);
    assert_eq!(parse_i64("+-1"), None);
    assert_eq!(parse_i64("-0"), Some(0));
}

#[test]
fn numbers_agree_with_std() {
    for s in ["", "0", "-1", "+1", "12a", "99999999999", "--1", "+0", "1_0"] {
        assert_eq!(parse_u32(s), s.parse::<u32>().ok());
        assert_eq!(parse_i64(s), s.parse::<i64>().ok());
    }
}

#[test]
fn bytes_are_encoded() {
    assert_eq!(hex(&[0, 15, 255]), "000fff");
    assert_eq!(url_encode("aZ09-_.~"), "aZ09-_.~");
    assert_eq!(url_encode("a b/é+"), "a%20b%2F%C3%A9%2B");
    assert_eq!(url_encode(""), "");
}

#[test]
fn map_keeps_the_last_value() {
    let mut map = StringMap::new();
    assert!(map.is_empty());
    map.insert("k".to_string(), "1".to_string());
    map.insert("l".to_string(), "2".to_string());
    map.insert("k".to_string(), "3".to_string());
    assert_eq!(map.get("k").map(|v| v.as_str()), Some("3"));
    assert_eq!(map.get("m"), None);
    assert!(map.contains_key("l"));
    assert_eq!(map.entries().len(), 2);
}
