use connector_service::ids::ValidationError;
use connector_service::lineage::LineageIds;
use connector_service::pii::{
    Email, EmailStrategy, EncryptionStrategy, IpAddress, ParsingError, UpiVpaMaskingStrategy,
};

#[test]
fn lineage_reads_pairs_last_value_wins() {
    let ids = LineageIds::new("ucs", "trace_id=123&span_id=456&trace_id=789").unwrap();
    assert_eq!(ids.prefix, "ucs");
    assert_eq!(
        ids.inner_raw(),
        &vec![("trace_id".to_string(), "789".to_string()), ("span_id".to_string(), "456".to_string())]
    );
}

#[test]
fn lineage_decodes_percent_escapes() {
    let ids = LineageIds::new("p", "a=x%20y&b=1+2").unwrap();
    assert_eq!(ids.inner_raw()[0], ("a".to_string(), "x y".to_string()));
    assert_eq!(ids.inner_raw()[1], ("b".to_string(), "1 2".to_string()));
}

#[test]
fn lineage_inner_prefixes_keys_with_comma() {
    let ids = LineageIds::new("ucs", "trace_id=123").unwrap();
    assert_eq!(ids.inner(), vec![("ucs,trace_id".to_string(), "123".to_string())]);
    let owned = ids.to_owned();
    assert_eq!(owned.prefix, "ucs");
    assert_eq!(owned.inner_raw(), ids.inner_raw());
}

#[test]
fn lineage_empty() {
    let ids = LineageIds::empty("x");
    assert!(ids.inner_raw().is_empty());
    assert!(ids.inner().is_empty());
    let parsed = LineageIds::new("x", "").unwrap();
    assert!(parsed.inner_raw().is_empty());
}

#[test]
fn email_accepts_addresses_and_redacted() {
    assert_eq!(Email::from_str("test@example.com").unwrap().expose(), "test@example.com");
    assert_eq!(Email::from_str("Redacted").unwrap().0, "Redacted");
    assert_eq!(Email::from_str("a@bc").unwrap().0, "a@bc");
}

#[test]
fn email_refuses_short_or_without_at() {
    match Email::from_str("a@b") {
        Err(ValidationError::InvalidValue { message }) => assert_eq!(message, "Invalid email address format"),
        _ => panic!("three bytes are too short"),
    }
    assert!(Email::from_str("example.com").is_err());
    assert!(matches!(Email::try_from("nope".to_string()), Err(ParsingError::EmailParsingError)));
    assert_eq!(Email::try_from("x@y.z".to_string()).unwrap().0, "x@y.z");
}

#[test]
fn email_masking() {
    assert_eq!(EmailStrategy::fmt("john@example.com", "alloc::string::String"), "****@example.com");
    assert_eq!(EmailStrategy::fmt("jöhn@x", "alloc::string::String"), "*****@x");
    assert_eq!(EmailStrategy::fmt("no-at-sign", "alloc::string::String"), "*** alloc::string::String ***");
}

#[test]
fn upi_vpa_masking() {
    assert_eq!(UpiVpaMaskingStrategy::fmt("user123@okbank", "T"), "*******@okbank");
    assert_eq!(UpiVpaMaskingStrategy::fmt("@psp", "T"), "@psp");
    assert_eq!(UpiVpaMaskingStrategy::fmt("plain", "T"), "*** T ***");
}

#[test]
fn ip_address_masking() {
    assert_eq!(IpAddress::fmt("192.168.1.1", "T"), "192.**.**.**");
    assert_eq!(IpAddress::fmt("1.2.3", "T"), "*** T ***");
    assert_eq!(IpAddress::fmt("1.2.3.4.5", "T"), "*** T ***");
    assert_eq!(IpAddress::fmt("1..3.4", "T"), "*** T ***");
    assert_eq!(IpAddress::fmt("1.2.3.4567", "T"), "*** T ***");
}

#[test]
fn encrypted_data_masking() {
    assert_eq!(EncryptionStrategy::fmt(&[1u8, 2, 3]), "*** Encrypted data of length 3 bytes ***");
    assert_eq!(EncryptionStrategy::fmt(&[]), "*** Encrypted data of length 0 bytes ***");
}
