use vault_provider::text::{
    decimal_text, join_from, kept, present, same, split_segments, trim, trim_prefixes, trim_slashes,
};

#[test]
fn decimal_numbers() {
    assert_eq!(decimal_text(0), "0");
    assert_eq!(decimal_text(7), "7");
    assert_eq!(decimal_text(10), "10");
    assert_eq!(decimal_text(8200), "8200");
    assert_eq!(decimal_text(u16::MAX), "65535");
}

#[test]
fn trimming_takes_white_space_off_both_ends() {
    assert_eq!(trim(" \t\r\n a b \u{a0}\u{2003}\u{3000}\n"), "a b");
    assert_eq!(trim("\u{85}\u{1680}x\u{2028}\u{205f}"), "x");
    assert_eq!(trim("\u{200b}x"), "\u{200b}x");
    assert_eq!(trim(""), "");
    assert_eq!(trim(" \n"), "");
}

#[test]
fn trimming_agrees_with_the_standard_library_on_every_character() {
    for code in 0..0x11_0000u32 {
        if let Some(c) = char::from_u32(code) {
            let text = format!("{}x{}", c, c);
            assert_eq!(trim(&text), text.trim(), "{:x}", code);
        }
    }
}

#[test]
fn slashes_are_taken_off_both_ends() {
    assert_eq!(trim_slashes("//a/b//"), "a/b");
    assert_eq!(trim_slashes("a"), "a");
    assert_eq!(trim_slashes("///"), "");
}

#[test]
fn prefixes_are_taken_off_repeatedly() {
    assert_eq!(trim_prefixes("https://https://h", "https://"), "h");
    assert_eq!(trim_prefixes("http://h", "https://"), "http://h");
    assert_eq!(trim_prefixes("ht", "https://"), "ht");
    assert_eq!(trim_prefixes("aab", "a"), "b");
}

#[test]
fn segments_are_never_empty() {
    assert_eq!(split_segments("/a//b/"), vec!["a".to_string(), "b".to_string()]);
    assert!(split_segments("///").is_empty());
    assert!(split_segments("").is_empty());
}

#[test]
fn joining_starts_where_it_is_told() {
    let parts = vec!["a".to_string(), "b".to_string(), "c".to_string()];
    assert_eq!(join_from(&parts, 0, "&"), "a&b&c");
    assert_eq!(join_from(&parts, 2, "&"), "c");
    assert_eq!(join_from(&parts, 3, "&"), "");
}

#[test]
fn presence_and_sameness() {
    assert_eq!(present(&Some(String::new())), None);
    assert_eq!(present(&None), None);
    assert_eq!(present(&Some("x".to_string())).as_deref(), Some("x"));
    assert_eq!(kept(Some(String::new())), None);
    assert_eq!(kept(None), None);
    assert_eq!(kept(Some("x".to_string())).as_deref(), Some("x"));
    assert!(same("a", "a"));
    assert!(!same("a", "A"));
    assert!(!same("a", "ab"));
}
