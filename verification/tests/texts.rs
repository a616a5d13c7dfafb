use brp_relay::text::{chars_of, contains, integer_string, same_text};

#[test]
fn chars_are_those_of_the_string() {
    assert_eq!(chars_of(""), Vec::<char>::new());
    assert_eq!(chars_of("a+é✓"), vec!['a', '+', 'é', '✓']);
}

#[test]
fn contains_finds_a_pattern_anywhere() {
    assert!(contains("entity+watch", "+watch"));
    assert!(contains("+watch", "+watch"));
    assert!(contains("abc", "a"));
    assert!(contains("abc", "c"));
    assert!(contains("abc", "bc"));
    assert!(contains("aab", "ab"));
    assert!(contains("é✓é", "✓"));
}

#[test]
fn contains_finds_the_empty_pattern() {
    assert!(contains("", ""));
    assert!(contains("abc", ""));
}

#[test]
fn contains_misses_what_is_not_there() {
    assert!(!contains("", "a"));
    assert!(!contains("abc", "abcd"));
    assert!(!contains("abc", "ac"));
    assert!(!contains("abc", "cb"));
    assert!(!contains("+watc", "+watch"));
    assert!(!contains("e", "é"));
}

#[test]
fn same_text_compares_all_characters() {
    assert!(same_text("", ""));
    assert!(same_text("https:", "https:"));
    assert!(!same_text("https:", "https"));
    assert!(!same_text("https", "https:"));
    assert!(!same_text("https:", "httpz:"));
    assert!(!same_text("", "a"));
    assert!(same_text("é✓", "é✓"));
}

#[test]
fn integers_are_written_in_decimal() {
    assert_eq!(integer_string(0), "0");
    assert_eq!(integer_string(7), "7");
    assert_eq!(integer_string(10), "10");
    assert_eq!(integer_string(-1), "-1");
    assert_eq!(integer_string(-32700), "-32700");
    assert_eq!(integer_string(-32600), "-32600");
    assert_eq!(integer_string(-32603), "-32603");
    assert_eq!(integer_string(32767), "32767");
    assert_eq!(integer_string(-32768), "-32768");
    assert_eq!(integer_string(1000), "1000");
    assert_eq!(integer_string(-1090), "-1090");
}

#[test]
fn integers_are_written_as_rust_writes_them() {
    let mut i = i16::MIN;
    loop {
        assert_eq!(integer_string(i), i.to_string());
        if i > i16::MAX - 97 {
            break;
        }
        i += 97;
    }
}
