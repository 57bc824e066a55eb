use gopro_ble::catalog::{lookup, DecodePolicy, FieldName};
use gopro_ble::reader::{
    decode, read_field, text_or_unavailable, FieldReadError, FieldValue, ReadError,
};

#[test]
fn text_decodes_utf8() {
    let v = decode(DecodePolicy::Text, &b"HERO9 Black".to_vec());
    assert_eq!(v, FieldValue::Text("HERO9 Black".to_string()));
    let v = decode(DecodePolicy::Text, &"caf\u{e9}".as_bytes().to_vec());
    assert_eq!(v, FieldValue::Text("caf\u{e9}".to_string()));
}

#[test]
fn text_of_no_bytes_is_empty() {
    assert_eq!(decode(DecodePolicy::Text, &vec![]), FieldValue::Text(String::new()));
}

#[test]
fn invalid_utf8_is_not_available() {
    assert_eq!(decode(DecodePolicy::Text, &vec![0xff, 0xfe, 0x41]), FieldValue::NotAvailable);
    assert_eq!(decode(DecodePolicy::Text, &vec![0xc3]), FieldValue::NotAvailable);
}

#[test]
fn text_or_unavailable_maps_both_cases() {
    assert_eq!(text_or_unavailable(Some("x".to_string())), FieldValue::Text("x".to_string()));
    assert_eq!(text_or_unavailable(None), FieldValue::NotAvailable);
}

#[test]
fn unsigned_byte() {
    assert_eq!(decode(DecodePolicy::Unsigned8, &vec![87]), FieldValue::Unsigned(87));
    assert_eq!(decode(DecodePolicy::Unsigned8, &vec![255]), FieldValue::Unsigned(255));
    assert_eq!(decode(DecodePolicy::Unsigned8, &vec![]), FieldValue::NotAvailable);
    assert_eq!(decode(DecodePolicy::Unsigned8, &vec![1, 2]), FieldValue::NotAvailable);
}

#[test]
fn signed_byte() {
    assert_eq!(decode(DecodePolicy::Signed8, &vec![0xf6]), FieldValue::Signed(-10));
    assert_eq!(decode(DecodePolicy::Signed8, &vec![0x80]), FieldValue::Signed(-128));
    assert_eq!(decode(DecodePolicy::Signed8, &vec![0x7f]), FieldValue::Signed(127));
    assert_eq!(decode(DecodePolicy::Signed8, &vec![4, 0]), FieldValue::NotAvailable);
}

#[test]
fn opaque_bytes_are_kept() {
    assert_eq!(decode(DecodePolicy::Opaque, &vec![0, 0xff, 3]), FieldValue::Raw(vec![0, 0xff, 3]));
    assert_eq!(decode(DecodePolicy::Opaque, &vec![]), FieldValue::Raw(vec![]));
}

#[test]
fn read_field_decodes_per_descriptor() {
    let d = lookup(FieldName::BatteryLevel);
    assert_eq!(read_field(&d, &Ok(vec![42])), Ok(FieldValue::Unsigned(42)));
    let d = lookup(FieldName::SerialNumber);
    assert_eq!(read_field(&d, &Ok(b"C3441".to_vec())), Ok(FieldValue::Text("C3441".to_string())));
}

#[test]
fn read_field_reports_transport_failure() {
    let d = lookup(FieldName::WifiPassword);
    assert_eq!(
        read_field(&d, &Err(ReadError::TimedOut)),
        Err(FieldReadError { field: FieldName::WifiPassword, cause: ReadError::TimedOut })
    );
    assert_eq!(
        read_field(&d, &Err(ReadError::AttributeNotFound)),
        Err(FieldReadError { field: FieldName::WifiPassword, cause: ReadError::AttributeNotFound })
    );
}
