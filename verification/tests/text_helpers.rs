use prost_map::text::{decimal_text, find_char_from, ident_tail, parse_u32, same_text, trim_text};

#[test]
fn trim_removes_unicode_white_space() {
    assert_eq!(trim_text("  int32\t\n"), "int32");
    assert_eq!(trim_text("\u{3000}bool\u{a0}"), "bool");
    assert_eq!(trim_text("   "), "");
    assert_eq!(trim_text("a b"), "a b");
}

#[test]
fn same_text_compares_characters() {
    assert!(same_text("map", "map"));
    assert!(!same_text("map", "maps"));
    assert!(!same_text("map", "mAp"));
    assert!(same_text("", ""));
}

#[test]
fn parse_u32_follows_from_str() {
    assert_eq!(parse_u32("0"), Some(0));
    assert_eq!(parse_u32("42"), Some(42));
    assert_eq!(parse_u32("+7"), Some(7));
    assert_eq!(parse_u32("007"), Some(7));
    assert_eq!(parse_u32("4294967295"), Some(u32::MAX));
    assert_eq!(parse_u32("4294967296"), None);
    assert_eq!(parse_u32("99999999999999999999"), None);
    assert_eq!(parse_u32(""), None);
    assert_eq!(parse_u32("+"), None);
    assert_eq!(parse_u32("-1"), None);
    assert_eq!(parse_u32(" 1"), None);
    assert_eq!(parse_u32("1a"), None);
    for n in [0u32, 1, 9, 10, 99, 100, 12345, u32::MAX] {
        assert_eq!(parse_u32(&n.to_string()), n.to_string().parse::<u32>().ok());
    }
}

#[test]
fn decimal_text_writes_numbers() {
    assert_eq!(decimal_text(0), "0");
    assert_eq!(decimal_text(7), "7");
    assert_eq!(decimal_text(10), "10");
    assert_eq!(decimal_text(4294967295), "4294967295");
}

#[test]
fn decimal_text_reads_back() {
    for n in [0u32, 5, 10, 123, 65536, u32::MAX] {
        assert_eq!(parse_u32(&decimal_text(n)), Some(n));
    }
}

#[test]
fn find_char_from_finds_commas() {
    assert_eq!(find_char_from("a,b,c", ',', 0), 1);
    assert_eq!(find_char_from("a,b,c", ',', 2), 3);
    assert_eq!(find_char_from("a,b,c", ',', 4), 5);
    assert_eq!(find_char_from("é,x", ',', 0), 1);
}

#[test]
fn ident_tail_refuses_punctuation() {
    assert!(ident_tail("my_map2"));
    assert!(ident_tail("größe"));
    assert!(ident_tail(""));
    assert!(!ident_tail("r#type"));
    assert!(!ident_tail("a b"));
    assert!(!ident_tail("a\"b"));
    assert!(ident_tail("café_1"));
    assert!(!ident_tail("a€"));
}
