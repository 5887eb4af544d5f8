use speech_sdk::c_string::from_c_buffer;
use speech_sdk::c_string::to_c_string;
use speech_sdk::error::Error;

#[test]
fn to_c_string_appends_the_terminator() {
    assert_eq!(to_c_string("abc"), Ok(vec![b'a', b'b', b'c', 0]));
    assert_eq!(to_c_string(""), Ok(vec![0]));
}

#[test]
fn to_c_string_keeps_non_ascii_text_as_utf8() {
    assert_eq!(to_c_string("é"), Ok(vec![0xC3, 0xA9, 0]));
    assert_eq!(to_c_string("日本"), Ok(vec![0xE6, 0x97, 0xA5, 0xE6, 0x9C, 0xAC, 0]));
    assert_eq!(to_c_string("😀"), Ok(vec![0xF0, 0x9F, 0x98, 0x80, 0]));
}

#[test]
fn to_c_string_refuses_an_embedded_zero() {
    assert_eq!(to_c_string("a\0b"), Err(Error::InvalidArgument));
    assert_eq!(to_c_string("\0"), Err(Error::InvalidArgument));
    assert_eq!(to_c_string("abc\0"), Err(Error::InvalidArgument));
}

#[test]
fn from_c_buffer_reads_up_to_the_first_terminator() {
    assert_eq!(from_c_buffer(&[b'h', b'i', 0]), Ok("hi".to_string()));
    assert_eq!(from_c_buffer(&[b'h', b'i', 0, b'x', 0, 0xFF]), Ok("hi".to_string()));
    assert_eq!(from_c_buffer(&[0]), Ok(String::new()));
    assert_eq!(from_c_buffer(&[0, b'a']), Ok(String::new()));
}

#[test]
fn from_c_buffer_decodes_utf8() {
    assert_eq!(from_c_buffer(&[0xC3, 0xA9, 0]), Ok("é".to_string()));
    assert_eq!(from_c_buffer(&[0xF0, 0x9F, 0x98, 0x80, b'!', 0, 7]), Ok("😀!".to_string()));
}

#[test]
fn from_c_buffer_needs_a_terminator() {
    assert_eq!(from_c_buffer(&[]), Err(Error::SizeConversionError));
    assert_eq!(from_c_buffer(&[b'a', b'b']), Err(Error::SizeConversionError));
    assert_eq!(from_c_buffer(&[0xFF, 0xFE]), Err(Error::SizeConversionError));
}

#[test]
fn from_c_buffer_rejects_bytes_that_are_not_utf8() {
    assert_eq!(from_c_buffer(&[0xFF, 0]), Err(Error::EncodingError));
    assert_eq!(from_c_buffer(&[b'a', 0xC3, 0]), Err(Error::EncodingError));
    assert_eq!(from_c_buffer(&[0xED, 0xA0, 0x80, 0]), Err(Error::EncodingError));
    assert_eq!(from_c_buffer(&[0xC0, 0x80, 0]), Err(Error::EncodingError));
    assert_eq!(from_c_buffer(&[0xF4, 0x90, 0x80, 0x80, 0]), Err(Error::EncodingError));
    assert_eq!(from_c_buffer(&[0xF8, 0x88, 0x80, 0x80, 0x80, 0]), Err(Error::EncodingError));
    assert_eq!(from_c_buffer(&[0xE2, 0x82, 0]), Err(Error::EncodingError));
}

#[test]
fn from_c_buffer_accepts_the_ends_of_each_encoding_width() {
    assert_eq!(from_c_buffer(&[0x7F, 0]), Ok("\u{7f}".to_string()));
    assert_eq!(from_c_buffer(&[0xC2, 0x80, 0]), Ok("\u{80}".to_string()));
    assert_eq!(from_c_buffer(&[0xDF, 0xBF, 0]), Ok("\u{7ff}".to_string()));
    assert_eq!(from_c_buffer(&[0xE0, 0xA0, 0x80, 0]), Ok("\u{800}".to_string()));
    assert_eq!(from_c_buffer(&[0xED, 0x9F, 0xBF, 0]), Ok("\u{d7ff}".to_string()));
    assert_eq!(from_c_buffer(&[0xEE, 0x80, 0x80, 0]), Ok("\u{e000}".to_string()));
    assert_eq!(from_c_buffer(&[0xF0, 0x90, 0x80, 0x80, 0]), Ok("\u{10000}".to_string()));
    assert_eq!(from_c_buffer(&[0xF4, 0x8F, 0xBF, 0xBF, 0]), Ok("\u{10ffff}".to_string()));
}

#[test]
fn text_written_and_read_back_is_unchanged() {
    for text in ["", "plain ascii", "naïve café", "語 and 😀 mixed", "\u{7f}\u{80}\u{7ff}\u{800}\u{ffff}\u{10000}\u{10ffff}"] {
        let mut buf = to_c_string(text).unwrap();
        assert_eq!(from_c_buffer(&buf), Ok(text.to_string()));
        buf.extend_from_slice(&[b'j', 0, 0xFF, b'k']);
        assert_eq!(from_c_buffer(&buf), Ok(text.to_string()));
    }
}
