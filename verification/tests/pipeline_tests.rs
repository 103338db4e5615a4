use opcode_gate::decoder::DecodeError;
use opcode_gate::extract::{validate_json, Document, ExtractError};
use opcode_gate::hex::FormatError;
use opcode_gate::pipeline::{run_gate, GateError};

fn artifact(hex: &str) -> Document {
    Document::Object(vec![(
        "bytecode".to_string(),
        Document::Object(vec![(
            "object".to_string(),
            Document::Str(hex.to_string()),
        )]),
    )])
}

fn deny(v: &[&str]) -> Vec<String> {
    v.iter().map(|s| s.to_string()).collect()
}

#[test]
fn test_illegal_upcodes() {
    let data = artifact("608060405260043610610104c576000357c0");
    let bytecode = validate_json(data).unwrap();
    assert_eq!(bytecode, "608060405260043610610104c576000357c0");
}

#[test]
fn push_only_bytecode_is_accepted() {
    let data = artifact("60016002");
    assert_eq!(run_gate(data, &deny(&["SELFDESTRUCT"])), Ok(()));
}

#[test]
fn selfdestruct_byte_is_rejected_by_the_default_denylist() {
    let data = artifact("ff");
    assert_eq!(
        run_gate(data, &deny(&["SELFDESTRUCT"])),
        Err(GateError::Forbidden(deny(&["SELFDESTRUCT"])))
    );
}

#[test]
fn lone_push_opcode_is_rejected_before_any_scan() {
    let data = artifact("60");
    assert_eq!(
        run_gate(data, &deny(&["SELFDESTRUCT"])),
        Err(GateError::Decode(DecodeError { offset: 0, code: 0x60 }))
    );
}

#[test]
fn missing_keys_are_reported_per_level() {
    let empty = Document::Object(vec![]);
    assert_eq!(
        run_gate(empty, &deny(&["SELFDESTRUCT"])),
        Err(GateError::Extract(ExtractError::MissingBytecode))
    );
    let no_object = Document::Object(vec![(
        "bytecode".to_string(),
        Document::Object(vec![]),
    )]);
    assert_eq!(
        run_gate(no_object, &deny(&["SELFDESTRUCT"])),
        Err(GateError::Extract(ExtractError::MissingObject))
    );
}

#[test]
fn malformed_hex_is_a_format_error() {
    assert_eq!(
        run_gate(artifact("6"), &deny(&["SELFDESTRUCT"])),
        Err(GateError::Format(FormatError::OddLength))
    );
    assert_eq!(
        run_gate(artifact("qq"), &deny(&["SELFDESTRUCT"])),
        Err(GateError::Format(FormatError::NotHex))
    );
}

#[test]
fn forbidden_names_come_deduplicated_in_stream_order() {
    let data = artifact("ff01ff01");
    assert_eq!(
        run_gate(data, &deny(&["ADD", "SELFDESTRUCT"])),
        Err(GateError::Forbidden(deny(&["SELFDESTRUCT", "ADD"])))
    );
}

#[test]
fn prefixed_bytecode_is_tolerated() {
    assert_eq!(run_gate(artifact("0x6001"), &deny(&["SELFDESTRUCT"])), Ok(()));
}
