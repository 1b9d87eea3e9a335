use turnkey_rs::bytes::{bytes_to_hex, hex_to_bytes, HexError};
use turnkey_rs::json::push_json_string;
use turnkey_rs::text::{push_decimal, push_signed_decimal};

#[test]
fn hex_encodes_lower_case() {
    assert_eq!(bytes_to_hex(&[]), "");
    assert_eq!(bytes_to_hex(&[0x00, 0x0f, 0xab, 0xff, 0x10]), "000fabff10");
}

#[test]
fn hex_decodes_either_case() {
    assert_eq!(hex_to_bytes("").unwrap(), Vec::<u8>::new());
    assert_eq!(hex_to_bytes("DeadBEEF").unwrap(), vec![0xde, 0xad, 0xbe, 0xef]);
}

#[test]
fn hex_errors() {
    assert_eq!(hex_to_bytes("abc"), Err(HexError::OddLength));
    assert_eq!(hex_to_bytes("0g1z"), Err(HexError::InvalidHexCharacter { c: 'g', index: 1 }));
    assert_eq!(hex_to_bytes("00x0"), Err(HexError::InvalidHexCharacter { c: 'x', index: 2 }));
    assert_eq!(hex_to_bytes("é0"), Err(HexError::InvalidHexCharacter { c: 'é', index: 0 }));
}

#[test]
fn hex_round_trip() {
    let bytes: Vec<u8> = (0..=255u8).collect();
    assert_eq!(hex_to_bytes(&bytes_to_hex(&bytes)).unwrap(), bytes);
}

#[test]
fn decimal_rendering() {
    let mut s = String::new();
    push_decimal(&mut s, 0);
    s.push(' ');
    push_decimal(&mut s, 1234567890);
    s.push(' ');
    push_decimal(&mut s, u64::MAX);
    assert_eq!(s, "0 1234567890 18446744073709551615");
    let mut t = String::new();
    push_signed_decimal(&mut t, -42);
    t.push(' ');
    push_signed_decimal(&mut t, i64::MIN);
    t.push(' ');
    push_signed_decimal(&mut t, 7);
    assert_eq!(t, "-42 -9223372036854775808 7");
}

#[test]
fn json_strings_escape_like_serde_json() {
    for text in ["plain", "quote \" and \\ backslash", "tab\tnew\nline\r", "\u{8}\u{c}\u{1}\u{1f}\u{7f}", "ünïcödé ✓"] {
        let mut out = String::new();
        push_json_string(&mut out, text);
        assert_eq!(out, serde_json::to_string(text).unwrap());
    }
}

#[test]
fn distinct_texts_give_distinct_json() {
    let texts = ["a\\nb", "a\nb", "a\\\nb", "\"", "\\\"", "\u{1}", "\\u0001"];
    let mut seen = Vec::new();
    for text in texts {
        let mut out = String::new();
        push_json_string(&mut out, text);
        assert!(!seen.contains(&out), "{}", out);
        seen.push(out);
    }
}
