use opcode_gate::hex::{hex_to_bytes, FormatError};

#[test]
fn digit_pairs_become_bytes() {
    assert_eq!(hex_to_bytes("60016002"), Ok(vec![0x60, 0x01, 0x60, 0x02]));
    assert_eq!(hex_to_bytes("00ff"), Ok(vec![0x00, 0xff]));
    assert_eq!(hex_to_bytes("aAbBcCdDeEfF"), Ok(vec![0xaa, 0xbb, 0xcc, 0xdd, 0xee, 0xff]));
}

#[test]
fn leading_marker_is_tolerated() {
    assert_eq!(hex_to_bytes("0x60"), Ok(vec![0x60]));
    assert_eq!(hex_to_bytes("0X60"), Ok(vec![0x60]));
    assert_eq!(hex_to_bytes("0x"), Ok(vec![]));
}

#[test]
fn empty_text_is_empty_bytecode() {
    assert_eq!(hex_to_bytes(""), Ok(vec![]));
}

#[test]
fn odd_digit_count_is_a_format_error() {
    assert_eq!(hex_to_bytes("123"), Err(FormatError::OddLength));
    assert_eq!(hex_to_bytes("0x1"), Err(FormatError::OddLength));
}

#[test]
fn non_hex_characters_are_a_format_error() {
    assert_eq!(hex_to_bytes("zz"), Err(FormatError::NotHex));
    assert_eq!(hex_to_bytes("6g"), Err(FormatError::NotHex));
    assert_eq!(hex_to_bytes("éé"), Err(FormatError::NotHex));
}

#[test]
fn marker_digits_alone_are_plain_digits() {
    assert_eq!(hex_to_bytes("00"), Ok(vec![0x00]));
    assert_eq!(hex_to_bytes("0061"), Ok(vec![0x00, 0x61]));
}
