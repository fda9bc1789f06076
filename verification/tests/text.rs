use configurator::text::{chars_of, contains, decimal, hex, same_text};

#[test]
fn decimal_renders_without_leading_zeros() {
    assert_eq!(decimal(0), "0");
    assert_eq!(decimal(7), "7");
    assert_eq!(decimal(10), "10");
    assert_eq!(decimal(8332), "8332");
    assert_eq!(decimal(u64::MAX), "18446744073709551615");
}

#[test]
fn hex_pads_to_the_width_and_never_truncates() {
    assert_eq!(hex(0, 0), "0");
    assert_eq!(hex(0, 1), "0");
    assert_eq!(hex(0, 8), "00000000");
    assert_eq!(hex(255, 8), "000000ff");
    assert_eq!(hex(0xdead_beef, 8), "deadbeef");
    assert_eq!(hex(0x1_2345_6789, 8), "123456789");
    assert_eq!(hex(u64::MAX, 8), "ffffffffffffffff");
    assert_eq!(hex(0xabc, 2), "abc");
}

#[test]
fn contains_finds_a_substring_anywhere() {
    assert!(contains("waiting to start", "waiting to start"));
    assert!(contains("server is still waiting to start up", "waiting to start"));
    assert!(contains("xwaiting to start", "waiting to start"));
    assert!(!contains("waiting to star", "waiting to start"));
    assert!(!contains("", "waiting to start"));
    assert!(contains("abc", ""));
    assert!(contains("", ""));
    assert!(!contains("aab", "aba"));
    assert!(contains("aaab", "aab"));
    assert!(contains("héllo wörld", "wör"));
}

#[test]
fn same_text_compares_character_by_character() {
    assert!(same_text("", ""));
    assert!(same_text("abc.onion", "abc.onion"));
    assert!(!same_text("abc.onion", "abd.onion"));
    assert!(!same_text("abc", "abcd"));
    assert!(!same_text("abcd", "abc"));
}

#[test]
fn chars_of_lists_the_characters() {
    assert_eq!(chars_of("a✅b"), vec!['a', '✅', 'b']);
    assert_eq!(chars_of(""), Vec::<char>::new());
}
