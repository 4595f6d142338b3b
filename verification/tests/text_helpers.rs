use metadata_extractor::text::decode_text;
use metadata_extractor::text::render_u32;
use metadata_extractor::text::same_text;

#[test]
fn renders_zero() {
    assert_eq!(render_u32(0), "0");
}

#[test]
fn renders_single_digits() {
    assert_eq!(render_u32(7), "7");
    assert_eq!(render_u32(9), "9");
}

#[test]
fn renders_powers_of_ten() {
    assert_eq!(render_u32(10), "10");
    assert_eq!(render_u32(100), "100");
    assert_eq!(render_u32(1_000_000), "1000000");
}

#[test]
fn renders_largest_value() {
    assert_eq!(render_u32(u32::MAX), "4294967295");
}

#[test]
fn decodes_ascii_text() {
    assert_eq!(decode_text(&b"plain".to_vec()), Some("plain".to_string()));
}

#[test]
fn decodes_multibyte_text() {
    let bytes = "h\u{e9}llo \u{4e16}\u{754c}".as_bytes().to_vec();
    assert_eq!(decode_text(&bytes), Some("h\u{e9}llo \u{4e16}\u{754c}".to_string()));
}

#[test]
fn decodes_empty_bytes_as_empty_text() {
    assert_eq!(decode_text(&Vec::new()), Some(String::new()));
}

#[test]
fn rejects_bytes_that_are_not_utf8() {
    assert_eq!(decode_text(&vec![0x66, 0x6f, 0xff, 0x6f]), None);
    assert_eq!(decode_text(&vec![0xc3]), None);
}

#[test]
fn compares_texts_by_content() {
    assert!(same_text(&"Title".to_string(), "Title"));
    assert!(!same_text(&"Title".to_string(), "title"));
    assert!(!same_text(&"Title".to_string(), "Titles"));
    assert!(same_text(&String::new(), ""));
}
