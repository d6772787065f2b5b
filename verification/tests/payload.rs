use sqlx_transparent_json_decode::{
    decode_json, try_decode_json, ColumnType, FrameError, JSONB_ARRAY_OID, JSONB_OID,
    JSONB_VERSION, JSON_ARRAY_OID, JSON_OID,
};

const TEXT: &[u8] = br#"{"s":"abc","i":123}"#;

fn jsonb(text: &[u8]) -> Vec<u8> {
    let mut bytes = vec![1u8];
    bytes.extend_from_slice(text);
    bytes
}

#[test]
fn identifiers_are_the_wire_constants() {
    assert_eq!(JSON_OID, 114);
    assert_eq!(JSON_ARRAY_OID, 199);
    assert_eq!(JSONB_OID, 3802);
    assert_eq!(JSONB_ARRAY_OID, 3807);
    assert_eq!(JSONB_VERSION, 1);
}

#[test]
fn jsonb_header_is_stripped() {
    let bytes = jsonb(TEXT);
    assert_eq!(decode_json(ColumnType::Oid(JSONB_OID), &bytes), TEXT);
    assert_eq!(try_decode_json(ColumnType::Oid(3802), &bytes), Ok(TEXT));
}

#[test]
fn json_payload_is_returned_whole() {
    assert_eq!(decode_json(ColumnType::Oid(JSON_OID), TEXT), TEXT);
    assert_eq!(try_decode_json(ColumnType::Oid(114), TEXT), Ok(TEXT));
}

#[test]
fn json_payload_that_starts_with_the_version_byte_keeps_it() {
    let bytes = jsonb(TEXT);
    assert_eq!(decode_json(ColumnType::Oid(JSON_OID), &bytes), &bytes[..]);
    let other = [2u8, b'1'];
    assert_eq!(try_decode_json(ColumnType::Oid(JSON_OID), &other), Ok(&other[..]));
}

#[test]
fn other_column_types_carry_no_header() {
    let bytes = jsonb(TEXT);
    for oid in [0u32, 25, 199, 3801, 3803, 3807, u32::MAX] {
        assert_eq!(try_decode_json(ColumnType::Oid(oid), &bytes), Ok(&bytes[..]));
        assert_eq!(decode_json(ColumnType::Oid(oid), TEXT), TEXT);
    }
}

#[test]
fn unresolved_type_is_read_as_jsonb() {
    let bytes = jsonb(TEXT);
    assert_eq!(decode_json(ColumnType::Unresolved, &bytes), TEXT);
    assert_eq!(
        try_decode_json(ColumnType::Unresolved, TEXT),
        Err(FrameError::UnsupportedVersion(b'{'))
    );
}

#[test]
fn payload_borrows_from_the_buffer() {
    let bytes = jsonb(TEXT);
    let payload = decode_json(ColumnType::Oid(JSONB_OID), &bytes);
    assert_eq!(payload.as_ptr(), bytes[1..].as_ptr());
    assert_eq!(payload.len(), bytes.len() - 1);
    let whole = decode_json(ColumnType::Oid(JSON_OID), &bytes);
    assert_eq!(whole.as_ptr(), bytes.as_ptr());
}

#[test]
fn version_two_is_rejected() {
    let mut bytes = vec![0x02u8];
    bytes.extend_from_slice(TEXT);
    assert_eq!(
        try_decode_json(ColumnType::Oid(JSONB_OID), &bytes),
        Err(FrameError::UnsupportedVersion(2))
    );
}

#[test]
fn every_version_but_one_is_rejected() {
    for version in 0u8..=255 {
        let mut bytes = vec![version];
        bytes.extend_from_slice(TEXT);
        let got = try_decode_json(ColumnType::Oid(JSONB_OID), &bytes);
        if version == 1 {
            assert_eq!(got, Ok(TEXT));
        } else {
            assert_eq!(got, Err(FrameError::UnsupportedVersion(version)));
        }
    }
}

#[test]
fn empty_jsonb_value_has_no_version() {
    assert_eq!(
        try_decode_json(ColumnType::Oid(JSONB_OID), &[]),
        Err(FrameError::MissingVersion)
    );
}

#[test]
fn empty_json_value_is_empty_text() {
    let empty: &[u8] = &[];
    assert_eq!(try_decode_json(ColumnType::Oid(JSON_OID), empty), Ok(empty));
    assert_eq!(decode_json(ColumnType::Oid(JSON_OID), empty), empty);
}

#[test]
fn jsonb_value_of_the_version_byte_alone_is_empty_text() {
    let empty: &[u8] = &[];
    assert_eq!(decode_json(ColumnType::Oid(JSONB_OID), &[1]), empty);
    assert_eq!(try_decode_json(ColumnType::Oid(JSONB_OID), &[1]), Ok(empty));
}

#[test]
fn only_the_first_version_byte_is_taken() {
    assert_eq!(decode_json(ColumnType::Oid(JSONB_OID), &[1, 1, b'7']), &[1, b'7']);
}
