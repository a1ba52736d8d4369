use tetra_entities::cc_bs::CcBsSubentity;

#[test]
fn external_subscriber_number_supports_16_digits() {
    let number = "1234567890123456";
    let field = CcBsSubentity::encode_external_subscriber_number(number).expect("field should be generated");
    assert_eq!(field.len, 64);
    assert_eq!(CcBsSubentity::decode_external_subscriber_number(&field), number);
}

#[test]
fn external_subscriber_number_supports_24_digits() {
    let number = "123456789012345678901234";
    let field = CcBsSubentity::encode_external_subscriber_number(number).expect("field should be generated");
    assert_eq!(field.len, 96);
    assert_eq!(CcBsSubentity::decode_external_subscriber_number(&field), number);
}

#[test]
fn external_subscriber_number_supports_32_digits() {
    let number = "12345678901234567890123456789012";
    let field = CcBsSubentity::encode_external_subscriber_number(number).expect("field should be generated");
    assert_eq!(field.len, 128);
    assert_eq!(CcBsSubentity::decode_external_subscriber_number(&field), number);
}

#[test]
fn external_subscriber_number_truncates_above_32_digits() {
    let number = "123456789012345678901234567890123";
    let field = CcBsSubentity::encode_external_subscriber_number(number).expect("field should be generated");
    assert_eq!(field.len, 128);
    assert_eq!(
        CcBsSubentity::decode_external_subscriber_number(&field),
        "12345678901234567890123456789012"
    );
}
