use opcode_gate::decoder::{decode, DecodeError, Instruction};

#[test]
fn non_push_stream_gives_one_instruction_per_byte() {
    let bytes = vec![0x01u8, 0x00, 0x50, 0xff];
    let insts = decode(&bytes).unwrap();
    assert_eq!(insts.len(), 4);
    for (j, inst) in insts.iter().enumerate() {
        assert_eq!(inst.offset, j);
        assert_eq!(inst.code, bytes[j]);
        assert_eq!(inst.operand, None);
    }
}

#[test]
fn push_takes_its_declared_operand_verbatim() {
    let bytes = vec![0x60u8, 0xaa, 0x01];
    let insts = decode(&bytes).unwrap();
    assert_eq!(insts.len(), 2);
    assert_eq!(
        insts[0],
        Instruction { offset: 0, code: 0x60, operand: Some(vec![0xaa]) }
    );
    assert_eq!(insts[1], Instruction { offset: 2, code: 0x01, operand: None });
}

#[test]
fn push32_takes_thirty_two_operand_bytes() {
    let mut bytes = vec![0x7fu8];
    let operand: Vec<u8> = (0u8..32).collect();
    bytes.extend_from_slice(&operand);
    bytes.push(0x00);
    let insts = decode(&bytes).unwrap();
    assert_eq!(insts.len(), 2);
    assert_eq!(insts[0].operand, Some(operand));
    assert_eq!(insts[1].offset, 33);
}

#[test]
fn push_zero_consumes_no_operand() {
    let bytes = vec![0x5fu8, 0x01];
    let insts = decode(&bytes).unwrap();
    assert_eq!(insts.len(), 2);
    assert_eq!(insts[0].operand, None);
    assert_eq!(insts[1].offset, 1);
}

#[test]
fn truncated_push_fails_with_its_offset_and_code() {
    assert_eq!(decode(&[0x60u8]), Err(DecodeError { offset: 0, code: 0x60 }));
    assert_eq!(
        decode(&[0x00u8, 0x62, 0x01, 0x02]),
        Err(DecodeError { offset: 1, code: 0x62 })
    );
}

#[test]
fn truncation_anywhere_yields_no_instructions() {
    let bytes = vec![0x01u8, 0x01, 0x61, 0xaa];
    assert!(decode(&bytes).is_err());
}

#[test]
fn empty_stream_decodes_to_nothing() {
    assert_eq!(decode(&[]), Ok(vec![]));
}

#[test]
fn decoding_twice_yields_identical_sequences() {
    let bytes = vec![0x60u8, 0x01, 0x61, 0x02, 0x03, 0xff, 0x0c];
    let first = decode(&bytes);
    let second = decode(&bytes);
    assert_eq!(first, second);
    let truncated = vec![0x7fu8, 0x00];
    assert_eq!(decode(&truncated), decode(&truncated));
}
