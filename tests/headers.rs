use spark_connect::headers::{parse_headers, Headers};
use spark_connect::text::{decimal_string, same_text, signed_decimal_string};

#[test]
fn empty_paths_give_no_headers() {
    assert!(parse_headers("").is_none());
    assert!(parse_headers("/").is_none());
    assert!(parse_headers("/;;").is_none());
}

#[test]
fn later_key_wins() {
    let h = parse_headers("/;k=1;k=2").unwrap();
    assert_eq!(h.len(), 1);
    assert_eq!(h.get("k").unwrap(), "2");
}

#[test]
fn segment_without_equals_has_empty_value() {
    let h = parse_headers("/;alone").unwrap();
    assert_eq!(h.get("alone").unwrap(), "");
}

#[test]
fn value_keeps_later_equals() {
    let h = parse_headers("/;q=a=b").unwrap();
    assert_eq!(h.get("q").unwrap(), "a=b");
}

#[test]
fn headers_insert_and_remove() {
    let mut h = Headers::new();
    assert!(h.is_empty());
    h.insert("a".to_string(), "1".to_string());
    h.insert("b".to_string(), "2".to_string());
    h.insert("a".to_string(), "3".to_string());
    assert_eq!(h.len(), 2);
    assert_eq!(h.get("a").unwrap(), "3");
    assert_eq!(h.remove("a").unwrap(), "3");
    assert!(h.remove("a").is_none());
    assert_eq!(h.len(), 1);
    let (k, v) = h.pair_at(0);
    assert_eq!((k.as_str(), v.as_str()), ("b", "2"));
}

#[test]
fn decimal_rendering() {
    assert_eq!(decimal_string(0), "0");
    assert_eq!(decimal_string(15002), "15002");
    assert_eq!(decimal_string(u64::MAX), "18446744073709551615");
    assert_eq!(signed_decimal_string(-42), "-42");
    assert_eq!(signed_decimal_string(i64::MIN), "-9223372036854775808");
}

#[test]
fn text_comparison() {
    assert!(same_text("abc", "abc"));
    assert!(!same_text("abc", "abd"));
    assert!(!same_text("abc", "ab"));
}
