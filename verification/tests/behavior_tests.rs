use delta_markdown::delta::{parse_delta_to_markdown, DeltaErrorKind, DeltaParseError};

#[test]
fn plain_inserts_concatenate() -> Result<(), DeltaParseError> {
    let doc = "{ \"ops\": [{ \"insert\": \"a\\n\" }, { \"insert\": \"b\\n\" }] }";
    assert_eq!(parse_delta_to_markdown(doc)?, String::from("a\nb\n"));

    let three = "{ \"ops\": [{ \"insert\": \"x\" }, { \"insert\": \"y\" }, { \"insert\": \"z\" }] }";
    assert_eq!(parse_delta_to_markdown(three)?, String::from("xyz"));

    let empty_ops = "{ \"ops\": [] }";
    assert_eq!(parse_delta_to_markdown(empty_ops)?, String::from(""));

    Ok(())
}

#[test]
fn op_without_insert_is_skipped() -> Result<(), DeltaParseError> {
    let doc = "{ \"ops\": [{ \"retain\": 5 }, { \"insert\": \"a\" }] }";
    assert_eq!(parse_delta_to_markdown(doc)?, String::from("a"));
    Ok(())
}

#[test]
fn header_four_prefixes_four_hashes() -> Result<(), DeltaParseError> {
    let doc = "{ \"ops\": [{ \"insert\": \"t\\n\", \"attributes\": { \"header\": 4 } }] }";
    assert_eq!(parse_delta_to_markdown(doc)?, String::from("#### t\n"));
    Ok(())
}

#[test]
fn header_five_and_above_is_a_no_op() -> Result<(), DeltaParseError> {
    let five = "{ \"ops\": [{ \"insert\": \"t\\n\", \"attributes\": { \"header\": 5 } }] }";
    assert_eq!(parse_delta_to_markdown(five)?, String::from("t\n"));

    let nine = "{ \"ops\": [{ \"insert\": \"t\\n\", \"attributes\": { \"header\": 9 } }] }";
    assert_eq!(parse_delta_to_markdown(nine)?, String::from("t\n"));

    Ok(())
}

#[test]
fn header_zero_prefixes_only_a_space() -> Result<(), DeltaParseError> {
    let doc = "{ \"ops\": [{ \"insert\": \"t\", \"attributes\": { \"header\": 0 } }] }";
    assert_eq!(parse_delta_to_markdown(doc)?, String::from(" t"));
    Ok(())
}

#[test]
fn line_rule_rewrites_only_the_last_line() -> Result<(), DeltaParseError> {
    let doc = "{ \"ops\": [{ \"insert\": \"a\\nb\" }, \
               { \"insert\": \"\\n\", \"attributes\": { \"bold\": true } }] }";
    assert_eq!(parse_delta_to_markdown(doc)?, String::from("a**b\n**"));

    let three_lines = "{ \"ops\": [{ \"insert\": \"x\\ny\\nz\" }, \
                       { \"insert\": \"\\n\", \"attributes\": { \"header\": 1 } }] }";
    assert_eq!(parse_delta_to_markdown(three_lines)?, String::from("x\ny# z\n"));

    Ok(())
}

#[test]
fn line_rule_on_empty_accumulator_is_a_no_op() -> Result<(), DeltaParseError> {
    let doc = "{ \"ops\": [{ \"insert\": \"\\n\", \"attributes\": { \"bold\": true } }] }";
    assert_eq!(parse_delta_to_markdown(doc)?, String::from(""));
    Ok(())
}

#[test]
fn insert_object_without_image_is_incorrect_type() {
    let doc = "{ \"ops\": [{ \"insert\": { \"video\": \"v\" } }, { \"insert\": \"a\" }] }";
    let e = parse_delta_to_markdown(doc).unwrap_err();
    assert_eq!(e.kind, DeltaErrorKind::IncorrectInsertOpType);
}

#[test]
fn syntax_error_on_malformed_json() {
    let e = parse_delta_to_markdown("{ \"ops\": ").unwrap_err();
    assert_eq!(e.kind, DeltaErrorKind::Syntax);
    assert!(e
        .message()
        .starts_with("Error while parsing delta from string: "));
}

#[test]
fn root_not_an_object_is_no_ops_field() {
    let e = parse_delta_to_markdown("[1, 2]").unwrap_err();
    assert_eq!(e.kind, DeltaErrorKind::NoOpsField);
    assert_eq!(e.message(), "No ops field found in delta JSON root");

    let e = parse_delta_to_markdown("42").unwrap_err();
    assert_eq!(e.kind, DeltaErrorKind::NoOpsField);
}

#[test]
fn malformed_root_structure_errors() {
    let e = parse_delta_to_markdown("{}").unwrap_err();
    assert_eq!(e.kind, DeltaErrorKind::MalformedRootStructure);

    let e = parse_delta_to_markdown("{ \"ops\": \"not-an-array\" }").unwrap_err();
    assert_eq!(e.kind, DeltaErrorKind::MalformedRootStructure);
}

#[test]
fn malformed_operation_error() {
    let e = parse_delta_to_markdown("{ \"ops\": [5] }").unwrap_err();
    assert_eq!(e.kind, DeltaErrorKind::MalformedOperation);
    assert_eq!(e.message(), "Malformed op found while parsing delta: 5");
}

#[test]
fn malformed_insert_attributes_error() {
    let doc = "{ \"ops\": [{ \"insert\": \"x\", \"attributes\": 7 }] }";
    let e = parse_delta_to_markdown(doc).unwrap_err();
    assert_eq!(e.kind, DeltaErrorKind::MalformedInsertAttributes);
}

#[test]
fn incorrect_insert_op_type_error() {
    let doc = "{ \"ops\": [{ \"insert\": 5 }] }";
    let e = parse_delta_to_markdown(doc).unwrap_err();
    assert_eq!(e.kind, DeltaErrorKind::IncorrectInsertOpType);
}

#[test]
fn unimplemented_embedded_image_error() {
    let doc = "{ \"ops\": [{ \"insert\": { \"image\": \"key\" } }] }";
    let e = parse_delta_to_markdown(doc).unwrap_err();
    assert_eq!(e.kind, DeltaErrorKind::UnimplementedInsert);
}

#[test]
fn invalid_bold_attribute_type_error_names_bold() {
    let doc = "{ \"ops\": [{ \"insert\": \"x\", \"attributes\": { \"bold\": \"yes\" } }] }";
    let e = parse_delta_to_markdown(doc).unwrap_err();
    assert_eq!(e.kind, DeltaErrorKind::InvalidBoldAttributeType);
    assert_eq!(e.message(), "bold attribute must have type of bool: \"yes\"");
}

#[test]
fn invalid_italic_attribute_type_error() {
    let doc = "{ \"ops\": [{ \"insert\": \"x\", \"attributes\": { \"italic\": 1 } }] }";
    let e = parse_delta_to_markdown(doc).unwrap_err();
    assert_eq!(e.kind, DeltaErrorKind::InvalidItalicAttributeType);
}

#[test]
fn invalid_code_attribute_type_error() {
    let doc = "{ \"ops\": [{ \"insert\": \"x\", \"attributes\": { \"code-block\": \"x\" } }] }";
    let e = parse_delta_to_markdown(doc).unwrap_err();
    assert_eq!(e.kind, DeltaErrorKind::InvalidCodeAttributeType);

    // a false code-block does not shield a bad bold value
    let doc = "{ \"ops\": [{ \"insert\": \"x\", \"attributes\": \
               { \"code-block\": false, \"bold\": \"yes\" } }] }";
    let e = parse_delta_to_markdown(doc).unwrap_err();
    assert_eq!(e.kind, DeltaErrorKind::InvalidBoldAttributeType);
}

#[test]
fn invalid_header_attribute_type_error() {
    let boolean = "{ \"ops\": [{ \"insert\": \"x\", \"attributes\": { \"header\": true } }] }";
    let e = parse_delta_to_markdown(boolean).unwrap_err();
    assert_eq!(e.kind, DeltaErrorKind::InvalidHeaderAttributeType);

    let negative = "{ \"ops\": [{ \"insert\": \"x\", \"attributes\": { \"header\": -1 } }] }";
    let e = parse_delta_to_markdown(negative).unwrap_err();
    assert_eq!(e.kind, DeltaErrorKind::InvalidHeaderAttributeType);
    assert_eq!(
        e.message(),
        "header attribute must have type of positive integer: -1"
    );

    let fractional = "{ \"ops\": [{ \"insert\": \"x\", \"attributes\": { \"header\": 1.5 } }] }";
    let e = parse_delta_to_markdown(fractional).unwrap_err();
    assert_eq!(e.kind, DeltaErrorKind::InvalidHeaderAttributeType);
    assert_eq!(
        e.message(),
        "header attribute must have type of positive integer: 1.5"
    );
}

#[test]
fn unrecognized_attribute_keys_are_ignored() -> Result<(), DeltaParseError> {
    let doc = "{ \"ops\": [{ \"insert\": \"x\", \"attributes\": \
               { \"underline\": true, \"bold\": true } }] }";
    assert_eq!(parse_delta_to_markdown(doc)?, String::from("**x**"));
    Ok(())
}

#[test]
fn failure_returns_no_partial_text() {
    // the first op would contribute text, the second fails: the whole
    // conversion fails with the second op's error and nothing else
    let doc = "{ \"ops\": [{ \"insert\": \"kept?\" }, { \"insert\": 5 }] }";
    let e = parse_delta_to_markdown(doc).unwrap_err();
    assert_eq!(e.kind, DeltaErrorKind::IncorrectInsertOpType);
}
