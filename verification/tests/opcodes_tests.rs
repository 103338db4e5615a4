use opcode_gate::opcodes::{name_of, push_length};

#[test]
fn test_opcode_to_string() {
    let opcode_string = name_of(0x01);
    assert_eq!(opcode_string, "ADD");
}

#[test]
fn names_of_known_codes_are_stable() {
    assert_eq!(name_of(0x00), "STOP");
    assert_eq!(name_of(0x20), "SHA3");
    assert_eq!(name_of(0x5f), "PUSH0");
    assert_eq!(name_of(0x60), "PUSH1");
    assert_eq!(name_of(0x7f), "PUSH32");
    assert_eq!(name_of(0xa4), "LOG4");
    assert_eq!(name_of(0xfd), "REVERT");
    assert_eq!(name_of(0xff), "SELFDESTRUCT");
}

#[test]
fn undefined_codes_are_named_invalid() {
    assert_eq!(name_of(0x0c), "INVALID");
    assert_eq!(name_of(0x21), "INVALID");
    assert_eq!(name_of(0xfe), "INVALID");
}

#[test]
fn push_length_covers_exactly_the_push_codes() {
    assert_eq!(push_length(0x5f), 0);
    assert_eq!(push_length(0x60), 1);
    assert_eq!(push_length(0x61), 2);
    assert_eq!(push_length(0x7f), 32);
    assert_eq!(push_length(0x80), 0);
    assert_eq!(push_length(0x00), 0);
    assert_eq!(push_length(0xff), 0);
}
