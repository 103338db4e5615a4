use opcode_gate::extract::{Document, ExtractError, validate_json};

fn artifact(object_value: Document) -> Document {
    Document::Object(vec![(
        "bytecode".to_string(),
        Document::Object(vec![("object".to_string(), object_value)]),
    )])
}

#[test]
fn test_validate_json() {
    let data = artifact(Document::Str(
        "608060405260043610610104c576000357c0".to_string(),
    ));
    let bytecode = validate_json(data).unwrap();
    assert_eq!(bytecode, "608060405260043610610104c576000357c0");
}

#[test]
fn empty_document_reports_bytecode_missing() {
    let data = Document::Object(vec![]);
    assert_eq!(validate_json(data), Err(ExtractError::MissingBytecode));
}

#[test]
fn non_object_document_reports_bytecode_missing() {
    assert_eq!(
        validate_json(Document::Other),
        Err(ExtractError::MissingBytecode)
    );
}

#[test]
fn empty_bytecode_object_reports_object_missing() {
    let data = Document::Object(vec![("bytecode".to_string(), Document::Object(vec![]))]);
    assert_eq!(validate_json(data), Err(ExtractError::MissingObject));
}

#[test]
fn string_bytecode_value_reports_object_missing() {
    let data = Document::Object(vec![("bytecode".to_string(), Document::Str("60".to_string()))]);
    assert_eq!(validate_json(data), Err(ExtractError::MissingObject));
}

#[test]
fn present_keys_yield_the_leaf_string() {
    let data = artifact(Document::Str("60".to_string()));
    assert_eq!(validate_json(data), Ok("60".to_string()));
}

#[test]
fn non_string_leaf_is_a_format_error() {
    let data = artifact(Document::Object(vec![]));
    assert_eq!(validate_json(data), Err(ExtractError::NotAString));
    let data = artifact(Document::Other);
    assert_eq!(validate_json(data), Err(ExtractError::NotAString));
}

#[test]
fn first_field_with_a_name_wins() {
    let data = Document::Object(vec![
        ("other".to_string(), Document::Other),
        (
            "bytecode".to_string(),
            Document::Object(vec![
                ("object".to_string(), Document::Str("ff".to_string())),
                ("object".to_string(), Document::Str("00".to_string())),
            ]),
        ),
    ]);
    assert_eq!(validate_json(data), Ok("ff".to_string()));
}

#[test]
fn error_messages_name_the_absent_key() {
    assert_eq!(
        ExtractError::MissingBytecode.message(),
        "The key `bytecode` does not exist"
    );
    assert_eq!(
        ExtractError::MissingObject.message(),
        "The child key `object` does not exist"
    );
    assert_eq!(
        ExtractError::NotAString.message(),
        "The key `object` does not hold a string"
    );
}
