use poll_count_bot::decimal::decimal_string;
use poll_count_bot::text::{bytes_eq, find_byte, str_eq, substring};

#[test]
fn substring_takes_the_bytes_of_the_range() {
    assert_eq!(substring("hello /count there", 6, 12), Some("/count"));
    assert_eq!(substring("abc", 0, 3), Some("abc"));
    assert_eq!(substring("abc", 1, 1), Some(""));
    assert_eq!(substring("abc", 3, 3), Some(""));
    assert_eq!(substring("", 0, 0), Some(""));
}

#[test]
fn substring_refuses_a_range_outside_the_text() {
    assert_eq!(substring("abc", 0, 4), None);
    assert_eq!(substring("abc", 4, 4), None);
    assert_eq!(substring("abc", 2, 1), None);
    assert_eq!(substring("", 0, 1), None);
}

#[test]
fn substring_refuses_a_range_that_cuts_a_character() {
    // "é" takes two bytes, "🤖" four.
    assert_eq!(substring("é/ping", 2, 7), Some("/ping"));
    assert_eq!(substring("é/ping", 1, 7), None);
    assert_eq!(substring("é/ping", 0, 1), None);
    assert_eq!(substring("🤖x", 0, 4), Some("🤖"));
    assert_eq!(substring("🤖x", 0, 3), None);
    assert_eq!(substring("🤖x", 2, 5), None);
    assert_eq!(substring("🤖x", 4, 5), Some("x"));
}

#[test]
fn strings_compare_by_content() {
    assert!(str_eq("", ""));
    assert!(str_eq("count", "count"));
    assert!(!str_eq("count", "counT"));
    assert!(!str_eq("count", "coun"));
    assert!(!str_eq("coun", "count"));
    assert!(str_eq("бот", "бот"));
    assert!(!str_eq("бот", "бох"));
    assert!(bytes_eq(&[1, 2, 3], &[1, 2, 3]));
    assert!(!bytes_eq(&[1, 2, 3], &[1, 2]));
    assert!(!bytes_eq(&[1, 2, 3], &[1, 2, 4]));
    assert!(bytes_eq(&[], &[]));
}

#[test]
fn find_byte_gives_the_first_place() {
    assert_eq!(find_byte(b"count@a@b", b'@'), 5);
    assert_eq!(find_byte(b"@", b'@'), 0);
    assert_eq!(find_byte(b"count", b'@'), 5);
    assert_eq!(find_byte(b"", b'@'), 0);
}

#[test]
fn numbers_are_written_in_decimal() {
    assert_eq!(decimal_string(0), "0");
    assert_eq!(decimal_string(7), "7");
    assert_eq!(decimal_string(9), "9");
    assert_eq!(decimal_string(10), "10");
    assert_eq!(decimal_string(99), "99");
    assert_eq!(decimal_string(100), "100");
    assert_eq!(decimal_string(1234567890), "1234567890");
    assert_eq!(decimal_string(4294967295), "4294967295");
}

#[test]
fn decimal_agrees_with_the_standard_library() {
    let mut n: u32 = 1;
    for _ in 0..40 {
        assert_eq!(decimal_string(n), format!("{}", n));
        assert_eq!(decimal_string(n - 1), format!("{}", n - 1));
        n = n.wrapping_mul(7).wrapping_add(3);
        if n == 0 {
            n = 1;
        }
    }
}
