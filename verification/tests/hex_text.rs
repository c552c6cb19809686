use password_vault::hex::{decode_hex, encode_hex};
use password_vault::text::texts_equal;

#[test]
fn encode_hex_writes_two_lower_case_digits_per_byte() {
    assert_eq!(encode_hex(&[]), "");
    assert_eq!(encode_hex(&[0x00]), "00");
    assert_eq!(encode_hex(&[0x00, 0xff, 0x1a, 0xb7, 0x09]), "00ff1ab709");
    assert_eq!(encode_hex(&[0xde, 0xad, 0xbe, 0xef]), "deadbeef");
}

#[test]
fn encode_hex_covers_every_byte_value() {
    let all: Vec<u8> = (0..=255u8).collect();
    let text = encode_hex(&all);
    assert_eq!(text.len(), 512);
    for (i, b) in all.iter().enumerate() {
        assert_eq!(&text[2 * i..2 * i + 2], format!("{:02x}", b));
    }
}

#[test]
fn decode_hex_reads_the_bytes_back() {
    assert_eq!(decode_hex(""), Some(vec![]));
    assert_eq!(decode_hex("00ff1ab709"), Some(vec![0x00, 0xff, 0x1a, 0xb7, 0x09]));
    assert_eq!(decode_hex("0123456789abcdef"), Some(vec![0x01, 0x23, 0x45, 0x67, 0x89, 0xab, 0xcd, 0xef]));
}

#[test]
fn decode_hex_undoes_encode_hex_for_every_byte() {
    let all: Vec<u8> = (0..=255u8).collect();
    assert_eq!(decode_hex(&encode_hex(&all)), Some(all));
}

#[test]
fn decode_hex_refuses_an_odd_length() {
    assert_eq!(decode_hex("0"), None);
    assert_eq!(decode_hex("abc"), None);
}

#[test]
fn decode_hex_refuses_upper_case_digits() {
    assert_eq!(decode_hex("AB"), None);
    assert_eq!(decode_hex("aB"), None);
    assert_eq!(decode_hex("0F"), None);
}

#[test]
fn decode_hex_refuses_other_characters() {
    assert_eq!(decode_hex("0g"), None);
    assert_eq!(decode_hex("g0"), None);
    assert_eq!(decode_hex("0 "), None);
    assert_eq!(decode_hex("0x"), None);
    assert_eq!(decode_hex("/0"), None);
    assert_eq!(decode_hex(":0"), None);
    assert_eq!(decode_hex("`0"), None);
    assert_eq!(decode_hex("-1"), None);
}

#[test]
fn decode_hex_refuses_text_that_is_not_ascii() {
    assert_eq!(decode_hex("é"), None);
    assert_eq!(decode_hex("0é0"), None);
    assert_eq!(decode_hex("ａｂ"), None);
}

#[test]
fn decode_hex_accepts_exactly_the_canonical_digits() {
    for c in 0u8..128 {
        let text: String = [c as char, '0'].iter().collect();
        let is_digit = c.is_ascii_digit() || (b'a'..=b'f').contains(&c);
        assert_eq!(decode_hex(&text).is_some(), is_digit, "character {}", c);
    }
}

#[test]
fn texts_equal_compares_characters() {
    assert!(texts_equal("", ""));
    assert!(texts_equal("password", "password"));
    assert!(!texts_equal("password", "Password"));
    assert!(!texts_equal("password", "passwor"));
    assert!(!texts_equal("note", "nota"));
    assert!(!texts_equal("", "x"));
    assert!(texts_equal("naïve ☃", "naïve ☃"));
    assert!(!texts_equal("naïve ☃", "naive ☃"));
}
