use wire_runtime::fixed::Fixed;
use wire_runtime::ids::{GlobalName, ObjectId};
use wire_runtime::parser::{MsgParser, MsgParserError};

fn le_word(w: u32) -> Vec<u8> {
    w.to_le_bytes().to_vec()
}

fn string_payload(text: &str) -> Vec<u8> {
    let bytes = text.as_bytes();
    let len = (bytes.len() + 1) as u32;
    let cap = ((len as usize) + 3) & !3;
    let mut out = le_word(len);
    out.extend_from_slice(bytes);
    while out.len() < 4 + cap {
        out.push(0);
    }
    out
}

#[test]
fn int_reads_little_endian_words() {
    let mut data = le_word(0x0102_0304);
    data.extend_from_slice(&le_word(0xFFFF_FFFF));
    let mut p = MsgParser::new(data, Vec::new());
    assert_eq!(p.int32(), Ok(0x0102_0304));
    assert_eq!(p.int32(), Ok(-1));
    assert_eq!(p.int32(), Err(MsgParserError::UnexpectedEof));
}

#[test]
fn uint_object_global_fixed_share_the_word_format() {
    let mut data = le_word(7);
    data.extend_from_slice(&le_word(0));
    data.extend_from_slice(&le_word(9));
    data.extend_from_slice(&le_word(384));
    let mut p = MsgParser::new(data, Vec::new());
    assert_eq!(p.uint(), Ok(7));
    let o = p.object().unwrap();
    assert_eq!(o, ObjectId::from_raw(0));
    assert!(o.is_none());
    assert_eq!(p.global(), Ok(GlobalName::from_raw(9)));
    // 384 / 256 = 1.5 in the 8-bit fixed-point form
    assert_eq!(p.fixed(), Ok(Fixed::from_raw(384)));
}

#[test]
fn truncated_word_fails_with_eof_and_keeps_cursor() {
    let data = vec![1u8, 2, 3];
    let mut p = MsgParser::new(data, Vec::new());
    assert_eq!(p.uint(), Err(MsgParserError::UnexpectedEof));
    assert_eq!(p.eof(), Err(MsgParserError::TrailingData));
}

#[test]
fn string_round_trips_utf8_text() {
    let mut p = MsgParser::new(string_payload("hello"), Vec::new());
    assert_eq!(p.string().unwrap(), "hello");
    assert_eq!(p.eof(), Ok(()));

    let mut p = MsgParser::new(string_payload("grün"), Vec::new());
    assert_eq!(p.string().unwrap(), "grün");
    assert_eq!(p.eof(), Ok(()));
}

#[test]
fn string_of_length_zero_is_the_empty_string_error() {
    let mut p = MsgParser::new(le_word(0), Vec::new());
    assert_eq!(p.string(), Err(MsgParserError::EmptyString));
}

#[test]
fn string_longer_than_the_buffer_is_eof() {
    // Length word says 9 bytes (padded to 12) but only 4 bytes follow.
    let mut data = le_word(9);
    data.extend_from_slice(&le_word(0x6161_6161));
    let mut p = MsgParser::new(data, Vec::new());
    assert_eq!(p.string(), Err(MsgParserError::UnexpectedEof));
}

#[test]
fn string_with_invalid_utf8_is_rejected() {
    let mut data = le_word(3);
    data.extend_from_slice(&[0xFF, 0xFE, 0x00, 0x00]);
    let mut p = MsgParser::new(data, Vec::new());
    assert_eq!(p.string(), Err(MsgParserError::NonUtf8));
}

#[test]
fn fd_pulls_handles_in_order_and_fails_when_exhausted() {
    let mut p = MsgParser::new(Vec::new(), vec![5, 9]);
    assert_eq!(p.fd(), Ok(5));
    assert_eq!(p.fd(), Ok(9));
    assert_eq!(p.fd(), Err(MsgParserError::MissingFd));
}

#[test]
fn eof_requires_exact_consumption() {
    let mut p = MsgParser::new(le_word(1), Vec::new());
    assert_eq!(p.eof(), Err(MsgParserError::TrailingData));
    assert_eq!(p.uint(), Ok(1));
    assert_eq!(p.eof(), Ok(()));
}

#[test]
fn header_words_split_into_id_opcode_and_length() {
    let h = wire_runtime::wire::parse_header(7, (12 << 16) | 3);
    assert_eq!(h.id, 7);
    assert_eq!(h.opcode, 3);
    assert_eq!(h.len, 12);
}
