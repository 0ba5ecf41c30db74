use logi_vhid::text::{
    chars_of, code_point, contains, encode_utf16, hex_char_of, index_of_first, length_trimmed,
    matches_at, push_hex4, start_of_last_segment,
};

fn chars(text: &str) -> Vec<char> {
    text.chars().collect()
}

#[test]
fn characters_of_a_string() {
    assert_eq!(chars_of("a\u{e9}\u{1F600}"), vec!['a', '\u{e9}', '\u{1F600}']);
    assert_eq!(chars_of(""), Vec::<char>::new());
    assert_eq!(code_point('A'), 0x41);
    assert_eq!(code_point('\u{10FFFF}'), 0x10FFFF);
}

#[test]
fn substring_search() {
    assert!(contains(&chars("hello"), &chars("ell")));
    assert!(contains(&chars("hello"), &chars("hello")));
    assert!(contains(&chars("hello"), &chars("o")));
    assert!(contains(&chars("hello"), &chars("")));
    assert!(contains(&chars(""), &chars("")));
    assert!(!contains(&chars("hello"), &chars("hellos")));
    assert!(!contains(&chars("hello"), &chars("lle")));
    assert!(!contains(&chars(""), &chars("a")));
    assert!(contains(&chars("aaab"), &chars("aab")));
    assert!(matches_at(&chars("hello"), &chars("llo"), 2));
    assert!(!matches_at(&chars("hello"), &chars("llo"), 1));
}

#[test]
fn positions_in_a_string() {
    assert_eq!(index_of_first(&chars("ab\0cd\0"), '\0'), 2);
    assert_eq!(index_of_first(&chars("abcd"), '\0'), 4);
    assert_eq!(index_of_first(&chars(""), '\0'), 0);
    assert_eq!(start_of_last_segment(&chars("a\\b\\c"), 0, '\\'), 4);
    assert_eq!(start_of_last_segment(&chars("abc"), 0, '\\'), 0);
    assert_eq!(start_of_last_segment(&chars("abc\\"), 0, '\\'), 4);
    assert_eq!(start_of_last_segment(&chars("a&b\\c"), 4, '&'), 4);
    assert_eq!(start_of_last_segment(&chars("a&b\\c&d"), 4, '&'), 6);
    assert_eq!(length_trimmed(&chars("ab\0\0"), '\0'), 2);
    assert_eq!(length_trimmed(&chars("a\0b"), '\0'), 3);
    assert_eq!(length_trimmed(&chars("\0\0"), '\0'), 0);
}

#[test]
fn hexadecimal_digits_are_written_in_upper_case() {
    assert_eq!(hex_char_of(0), '0');
    assert_eq!(hex_char_of(9), '9');
    assert_eq!(hex_char_of(10), 'A');
    assert_eq!(hex_char_of(15), 'F');
    let mut out = vec!['x'];
    push_hex4(&mut out, 0xC232);
    assert_eq!(out, vec!['x', 'C', '2', '3', '2']);
    let mut zero = Vec::new();
    push_hex4(&mut zero, 0);
    assert_eq!(zero, vec!['0', '0', '0', '0']);
}

#[test]
fn utf16_code_units() {
    assert_eq!(encode_utf16(&chars("A\u{e9}")), vec![0x41, 0xE9]);
    assert_eq!(encode_utf16(&chars("\u{FFFF}")), vec![0xFFFF]);
    assert_eq!(encode_utf16(&chars("\u{10000}")), vec![0xD800, 0xDC00]);
    assert_eq!(encode_utf16(&chars("\u{1F600}")), vec![0xD83D, 0xDE00]);
    assert_eq!(encode_utf16(&chars("\u{10FFFF}")), vec![0xDBFF, 0xDFFF]);
    let text = "LGHUBDevice\\VID_046D&PID_C232 \u{6253}\u{1F600}";
    assert_eq!(encode_utf16(&chars(text)), text.encode_utf16().collect::<Vec<u16>>());
}
