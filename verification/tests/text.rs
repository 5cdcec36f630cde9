use oxidase::text::{
    chars_eq, exec_contains, exec_starts_with, exec_trim, exec_trim_end, exec_trim_start,
    radix_chars, slice_chars,
};

fn chars_of(text: &str) -> Vec<char> {
    text.chars().collect()
}

fn s(v: &Vec<char>) -> String {
    v.iter().collect()
}

#[test]
fn chars_compare_by_content() {
    let v = chars_of("héllo ✓");
    assert!(chars_eq(&v, &chars_of("héllo ✓")));
    assert!(!chars_eq(&v, &chars_of("hello ✓")));
}

#[test]
fn trimming_follows_unicode_whitespace() {
    let v = chars_of("\u{3000} \t * doc\n\u{2028}");
    assert_eq!(s(&exec_trim(&v)), "* doc");
    assert_eq!(s(&exec_trim_start(&v)), "* doc\n\u{2028}");
    assert_eq!(s(&exec_trim_end(&v)), "\u{3000} \t * doc");
    assert_eq!(s(&exec_trim(&chars_of("   "))), "");
}

#[test]
fn search_in_text() {
    let hay = chars_of("// #[watcher(raf)] here");
    assert!(exec_contains(&hay, &chars_of("#[watcher(raf)]")));
    assert!(!exec_contains(&hay, &chars_of("#[watcher]")));
    assert!(exec_contains(&hay, &chars_of("")));
    assert!(exec_starts_with(&hay, &chars_of("//")));
    assert!(!exec_starts_with(&chars_of("/"), &chars_of("//")));
    assert_eq!(s(&slice_chars(&hay, 3, 5)), "#[");
}

#[test]
fn digits_in_a_radix() {
    assert_eq!(s(&radix_chars(0, 10)), "0");
    assert_eq!(s(&radix_chars(1234567890, 10)), "1234567890");
    assert_eq!(s(&radix_chars(255, 16)), "ff");
    assert_eq!(s(&radix_chars(u64::MAX, 16)), "ffffffffffffffff");
    assert_eq!(s(&radix_chars(5, 2)), "101");
}
