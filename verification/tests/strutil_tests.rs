use palm_counting_ai::strutil::is_blank;
use palm_counting_ai::strutil::parse_u64;
use palm_counting_ai::strutil::split_str;
use palm_counting_ai::strutil::str_eq;
use palm_counting_ai::strutil::trim;
use palm_counting_ai::strutil::u64_to_dec;

#[test]
fn decimal_rendering() {
    assert_eq!(u64_to_dec(0), "0");
    assert_eq!(u64_to_dec(7), "7");
    assert_eq!(u64_to_dec(1234567890), "1234567890");
    assert_eq!(u64_to_dec(u64::MAX), "18446744073709551615");
}

#[test]
fn decimal_parsing() {
    assert_eq!(parse_u64("0"), Some(0));
    assert_eq!(parse_u64("123"), Some(123));
    assert_eq!(parse_u64("18446744073709551615"), Some(u64::MAX));
    assert_eq!(parse_u64("18446744073709551616"), None);
    assert_eq!(parse_u64(""), None);
    assert_eq!(parse_u64("12a"), None);
    assert_eq!(parse_u64(" 12"), None);
}

#[test]
fn blank_detection() {
    assert!(is_blank(""));
    assert!(is_blank("   "));
    assert!(is_blank(" \t\r\n"));
    assert!(!is_blank(" a "));
    assert!(is_blank("\u{00a0}"), "no-break space is whitespace");
    assert!(is_blank("\u{2003}\u{3000}"), "em space and ideographic space are whitespace");
    assert!(!is_blank("\u{200b}"), "a zero-width space is not whitespace");
}

#[test]
fn trimming() {
    assert_eq!(trim("  hello  "), "hello");
    assert_eq!(trim("hello"), "hello");
    assert_eq!(trim("   "), "");
    assert_eq!(trim(""), "");
    assert_eq!(trim("\tx y\r\n"), "x y");
}

#[test]
fn splitting() {
    let p = split_str("a,b,,c", ',');
    assert_eq!(p, vec!["a", "b", "", "c"]);
    let q = split_str("one", ',');
    assert_eq!(q, vec!["one"]);
    let r = split_str("", ',');
    assert_eq!(r, vec![""]);
    let s = split_str(",x,", ',');
    assert_eq!(s, vec!["", "x", ""]);
}

#[test]
fn string_equality() {
    assert!(str_eq("abc", "abc"));
    assert!(!str_eq("abc", "abd"));
    assert!(!str_eq("abc", "abcd"));
    assert!(str_eq("", ""));
}
