//! Turning a file's bytes into text and text back into bytes.
//!
//! Bytes that are valid UTF-8 are read as UTF-8; anything else is taken to be
//! a legacy Japanese file and read as Shift_JIS. Decoding and encoding are the
//! `encoding_rs` crate's.
use vstd::prelude::*;
use vstd::utf8::{decode_utf8, encode_utf8, is_ascii_chars, valid_utf8};

verus! {

/// The text encodings that the editor reads and writes.
#[derive(Clone, Copy, PartialEq, Eq, Structural, Debug)]
pub enum TextEncoding {
    Utf8,
    ShiftJis,
}

/// What `encoding_rs`'s `Encoding::decode` gives for `bytes` with
/// `encoding`: the text, and whether malformed sequences were replaced.
pub uninterp spec fn decoded(encoding: TextEncoding, bytes: Seq<u8>) -> (Seq<char>, bool);

/// What `encoding_rs`'s `Encoding::encode` gives for `text` with `encoding`.
pub uninterp spec fn encoded(encoding: TextEncoding, text: Seq<char>) -> Seq<u8>;

/// The bytes start with a UTF-16 byte order mark (little or big endian).
pub open spec fn starts_with_utf16_bom(bytes: Seq<u8>) -> bool {
    bytes.len() >= 2 && ((bytes[0] == 0xFF && bytes[1] == 0xFE) || (bytes[0] == 0xFE && bytes[1]
        == 0xFF))
}

/// The bytes start with the UTF-8 byte order mark.
pub open spec fn starts_with_utf8_bom(bytes: Seq<u8>) -> bool {
    bytes.len() >= 3 && bytes[0] == 0xEF && bytes[1] == 0xBB && bytes[2] == 0xBF
}

/// The bytes without a leading UTF-8 byte order mark.
pub open spec fn without_utf8_bom(bytes: Seq<u8>) -> Seq<u8> {
    if starts_with_utf8_bom(bytes) {
        bytes.skip(3)
    } else {
        bytes
    }
}

/// `Encoding::decode` of `encoding_rs`, on `UTF_8` or `SHIFT_JIS`.
///
/// The result is named by `decoded`. The call sniffs a byte order mark
/// first: bytes that start with a UTF-8 one are decoded as UTF-8 without it,
/// whatever the encoding asked for. So where the bytes start with no UTF-16
/// mark and UTF-8 is what is decoded, the contract says what comes out:
/// malformed sequences were met exactly when the bytes (without the mark)
/// are not valid UTF-8, and valid bytes give their chars. What Shift_JIS
/// decoding gives, and what UTF-16 decoding gives after a UTF-16 mark, is
/// left to the name.
#[verifier::external_body]
fn encoding_decode(encoding: TextEncoding, bytes: &[u8]) -> (decoded_text: (String, bool))
    ensures
        (decoded_text.0@, decoded_text.1) == decoded(encoding, bytes@),
        !starts_with_utf16_bom(bytes@) && (encoding == TextEncoding::Utf8 || starts_with_utf8_bom(
            bytes@,
        )) ==> {
            &&& decoded_text.1 == !valid_utf8(without_utf8_bom(bytes@))
            &&& valid_utf8(without_utf8_bom(bytes@)) ==> decoded_text.0@ == decode_utf8(
                without_utf8_bom(bytes@),
            )
        },
{
    let encoding = match encoding {
        TextEncoding::Utf8 => encoding_rs::UTF_8,
        TextEncoding::ShiftJis => encoding_rs::SHIFT_JIS,
    };
    let (text, _, had_errors) = encoding.decode(bytes);
    (text.into_owned(), had_errors)
}

/// `Encoding::encode` of `encoding_rs`, on `UTF_8` or `SHIFT_JIS`.
///
/// The result is named by `encoded`; for UTF-8, and for Shift_JIS on ASCII
/// text, it is the text's own UTF-8 bytes (the call hands them back
/// borrowed). What Shift_JIS gives for other text (unmappable chars become
/// numeric character references) is left to the name.
#[verifier::external_body]
fn encoding_encode(encoding: TextEncoding, text: &str) -> (bytes: Vec<u8>)
    ensures
        bytes@ == encoded(encoding, text@),
        encoding == TextEncoding::Utf8 || is_ascii_chars(text@) ==> bytes@ == encode_utf8(text@),
{
    let encoding = match encoding {
        TextEncoding::Utf8 => encoding_rs::UTF_8,
        TextEncoding::ShiftJis => encoding_rs::SHIFT_JIS,
    };
    let (bytes, _, _) = encoding.encode(text);
    bytes.into_owned()
}

/// What a file's bytes read as: valid UTF-8 is read as UTF-8 (without a
/// leading byte order mark); anything else (a UTF-16 file with a byte order
/// mark, a legacy Japanese file) goes to the Shift_JIS decoder.
pub open spec fn read_text(bytes: Seq<u8>) -> (Seq<char>, TextEncoding) {
    if valid_utf8(bytes) {
        (decode_utf8(without_utf8_bom(bytes)), TextEncoding::Utf8)
    } else {
        (decoded(TextEncoding::ShiftJis, bytes).0, TextEncoding::ShiftJis)
    }
}

/// Bytes with a leading UTF-8 byte order mark are valid UTF-8 exactly when
/// the bytes after it are; bytes with a UTF-16 byte order mark never are.
pub proof fn lemma_byte_order_marks_and_utf8(bytes: Seq<u8>)
    ensures
        valid_utf8(bytes) <==> valid_utf8(without_utf8_bom(bytes)),
        starts_with_utf16_bom(bytes) ==> !valid_utf8(bytes),
{
    if starts_with_utf8_bom(bytes) {
        assert(vstd::utf8::codepoint_width_3(0xEFu8, 0xBBu8, 0xBFu8) == 0xFEFFu32)
            by (bit_vector);
        assert(vstd::utf8::valid_first_scalar(bytes));
        assert(vstd::utf8::pop_first_scalar(bytes) =~= bytes.skip(3));
    }
}

/// Decodes a file's bytes. Valid UTF-8 is taken as UTF-8; anything else
/// (UTF-16 with a byte order mark, or a legacy Japanese file) is decoded as
/// Shift_JIS, whose decoder reads UTF-16 after a byte order mark as such.
pub fn decode_bytes(bytes: &[u8]) -> (result: (String, TextEncoding))
    ensures
        (result.0@, result.1) == read_text(bytes@),
        result.0@ == decoded(result.1, bytes@).0,
{
    proof {
        lemma_byte_order_marks_and_utf8(bytes@);
    }
    let (text, had_errors) = encoding_decode(TextEncoding::Utf8, bytes);
    // UTF-8 decoding reads UTF-16 after its byte order mark without errors;
    // such bytes are no UTF-8, so they go on to Shift_JIS.
    let utf16_marked = bytes.len() >= 2 && ((bytes[0] == 0xFF && bytes[1] == 0xFE) || (bytes[0]
        == 0xFE && bytes[1] == 0xFF));
    if !had_errors && !utf16_marked {
        return (text, TextEncoding::Utf8);
    }
    let (text, _) = encoding_decode(TextEncoding::ShiftJis, bytes);
    (text, TextEncoding::ShiftJis)
}

/// Encodes text into bytes of `encoding`. UTF-8 gives the text's own bytes,
/// and so does Shift_JIS for ASCII text.
pub fn encode_text(text: &str, encoding: TextEncoding) -> (bytes: Vec<u8>)
    ensures
        bytes@ == encoded(encoding, text@),
        encoding == TextEncoding::Utf8 || is_ascii_chars(text@) ==> bytes@ == encode_utf8(text@),
{
    encoding_encode(encoding, text)
}

/// Text written as UTF-8 is read back as UTF-8 and unchanged, unless it
/// starts with U+FEFF (which reads as a byte order mark).
pub proof fn law_utf8_text_reads_back(text: Seq<char>)
    requires
        text.len() == 0 || text[0] != '\u{feff}',
    ensures
        read_text(encode_utf8(text)) == (text, TextEncoding::Utf8),
{
    broadcast use vstd::utf8::encode_utf8_valid_utf8, vstd::utf8::encode_utf8_decode_utf8;

    if text.len() > 0 {
        let b = encode_utf8(text);
        vstd::utf8::encode_utf8_first_scalar(text);
        if starts_with_utf8_bom(b) {
            assert(vstd::utf8::codepoint_width_3(0xEFu8, 0xBBu8, 0xBFu8) == 0xFEFFu32)
                by (bit_vector);
            assert(text[0] as u32 == 0xFEFFu32);
            assert(('\u{feff}' as u32) == 0xFEFFu32);
            vstd::utf8::char_u32_cast(text[0], 0xFEFFu32);
            vstd::utf8::char_u32_cast('\u{feff}', 0xFEFFu32);
        }
    }
}

/// Text written as Shift_JIS is read back as Shift_JIS and unchanged
/// whenever its bytes are not valid UTF-8 and the Shift_JIS decoder gives the
/// text back from them; text whose Shift_JIS bytes are valid UTF-8 (ASCII
/// text, say) reads back as UTF-8.
pub proof fn law_shift_jis_text_reads_back(text: Seq<char>)
    ensures
        !valid_utf8(encoded(TextEncoding::ShiftJis, text)) && decoded(
            TextEncoding::ShiftJis,
            encoded(TextEncoding::ShiftJis, text),
        ).0 == text ==> read_text(encoded(TextEncoding::ShiftJis, text)) == (
            text,
            TextEncoding::ShiftJis,
        ),
        valid_utf8(encoded(TextEncoding::ShiftJis, text)) ==> read_text(
            encoded(TextEncoding::ShiftJis, text),
        ).1 == TextEncoding::Utf8,
{
}

} // verus!
