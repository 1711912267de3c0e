use menfis::file_io::{decode_bytes, encode_text, TextEncoding};

#[test]
fn decodes_utf8_without_falling_back() {
    let bytes = "こんにちは、menfis".as_bytes();
    let (text, encoding) = decode_bytes(bytes);
    assert_eq!(text, "こんにちは、menfis");
    assert_eq!(encoding, TextEncoding::Utf8);
}

#[test]
fn decodes_shift_jis_when_not_valid_utf8() {
    let (sjis_bytes, _, had_errors) = encoding_rs::SHIFT_JIS.encode("軽快に動く");
    assert!(!had_errors);
    // Shift_JIS bytes are (barring coincidence) not valid UTF-8, so the
    // fallback applies.
    assert!(std::str::from_utf8(&sjis_bytes).is_err());

    let (text, encoding) = decode_bytes(&sjis_bytes);
    assert_eq!(text, "軽快に動く");
    assert_eq!(encoding, TextEncoding::ShiftJis);
}

#[test]
fn encode_decode_roundtrip_shift_jis() {
    let original = "日本語のテキストファイル";
    let bytes = encode_text(original, TextEncoding::ShiftJis);
    let (decoded, encoding) = decode_bytes(&bytes);
    assert_eq!(decoded, original);
    assert_eq!(encoding, TextEncoding::ShiftJis);
}

#[test]
fn encode_utf8_gives_the_text_bytes() {
    let original = "menfisで日本語";
    assert_eq!(encode_text(original, TextEncoding::Utf8), original.as_bytes().to_vec());
}

#[test]
fn encode_shift_jis_gives_shift_jis_bytes() {
    // "あ" is 0x82 0xA0 in Shift_JIS.
    assert_eq!(encode_text("aあ", TextEncoding::ShiftJis), vec![0x61, 0x82, 0xA0]);
}

#[test]
fn utf8_roundtrip() {
    let original = "line one\nline two — 二行目";
    let bytes = encode_text(original, TextEncoding::Utf8);
    let (decoded, encoding) = decode_bytes(&bytes);
    assert_eq!(decoded, original);
    assert_eq!(encoding, TextEncoding::Utf8);
}

#[test]
fn utf8_bom_is_dropped() {
    let bytes = [0xEF, 0xBB, 0xBF, b'h', b'i'];
    let (text, encoding) = decode_bytes(&bytes);
    assert_eq!(text, "hi");
    assert_eq!(encoding, TextEncoding::Utf8);
}

#[test]
fn utf16_with_bom_goes_to_the_shift_jis_path() {
    // UTF-16LE byte order mark, then "hi": not UTF-8, so the Shift_JIS
    // decoder takes it, and its byte order mark sniffing reads UTF-16.
    let bytes = [0xFF, 0xFE, b'h', 0x00, b'i', 0x00];
    let (text, encoding) = decode_bytes(&bytes);
    assert_eq!(text, "hi");
    assert_eq!(encoding, TextEncoding::ShiftJis);
    let (text, encoding) = decode_bytes(&[0xFF, 0xFE, 0x61, 0x00]);
    assert_eq!(text, "a");
    assert_eq!(encoding, TextEncoding::ShiftJis);
}

#[test]
fn utf16_big_endian_with_bom_goes_to_the_shift_jis_path() {
    let (text, encoding) = decode_bytes(&[0xFE, 0xFF, 0x00, 0x61]);
    assert_eq!(text, "a");
    assert_eq!(encoding, TextEncoding::ShiftJis);
}

#[test]
fn encode_shift_jis_of_ascii_gives_the_text_bytes() {
    assert_eq!(encode_text("plain ascii\n", TextEncoding::ShiftJis), b"plain ascii\n".to_vec());
}

#[test]
fn empty_bytes_are_empty_utf8() {
    let (text, encoding) = decode_bytes(&[]);
    assert_eq!(text, "");
    assert_eq!(encoding, TextEncoding::Utf8);
}
