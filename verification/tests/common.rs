use connector_service::common_enums::{AttemptStatus, CardNetwork, Currency, PaymentMethodType};
use connector_service::consts::{ALPHABETS, ID_LENGTH};
use connector_service::ids::{
    ApiKeyId, CellId, ClientSecretId, CustomerId, GlobalEntity, GlobalId, GlobalPaymentMethodId,
    GlobalRefundId, LengthIdError, MerchantReferenceId, PaymentId, ValidationError,
};
use connector_service::text::{
    i128_to_decimal, i64_to_decimal, join, split_all_char, strip_prefix, trim, truncate_bytes, u64_to_decimal,
};

fn is_generated(id: &str, prefix: &str) -> bool {
    match id.strip_prefix(prefix).and_then(|rest| rest.strip_prefix('_')) {
        Some(suffix) => suffix.chars().count() == ID_LENGTH && suffix.chars().all(|c| ALPHABETS.contains(&c)),
        None => false,
    }
}

#[test]
fn currency_exponents_and_codes() {
    assert_eq!(Currency::USD.number_of_digits_after_decimal_point(), 2);
    assert_eq!(Currency::JPY.number_of_digits_after_decimal_point(), 0);
    assert_eq!(Currency::KWD.number_of_digits_after_decimal_point(), 3);
    assert_eq!(Currency::CLF.number_of_digits_after_decimal_point(), 4);
    assert!(Currency::JPY.is_zero_decimal_currency());
    assert!(!Currency::USD.is_zero_decimal_currency());
    assert_eq!(Currency::USD.iso_4217(), "840");
    assert_eq!(Currency::EUR.iso_4217(), "978");
    assert_eq!(Currency::ALL.iso_4217(), "008");
}

#[test]
fn attempt_status_terminality() {
    assert!(AttemptStatus::Charged.is_terminal_status());
    assert!(AttemptStatus::Failure.is_terminal_status());
    assert!(!AttemptStatus::Pending.is_terminal_status());
    assert!(!AttemptStatus::Authorized.is_terminal_status());
}

#[test]
fn payment_method_type_and_networks() {
    assert!(PaymentMethodType::Credit.should_check_for_customer_saved_payment_method_type());
    assert!(!PaymentMethodType::Ach.should_check_for_customer_saved_payment_method_type());
    assert_eq!(PaymentMethodType::Ach.to_display_name(), "Ach");
    assert!(CardNetwork::Visa.is_global_network());
    assert!(CardNetwork::Star.is_us_local_network());
    assert!(!CardNetwork::Visa.is_us_local_network());
}

#[test]
fn decimal_texts() {
    assert_eq!(u64_to_decimal(0), "0");
    assert_eq!(u64_to_decimal(18446744073709551615), "18446744073709551615");
    assert_eq!(i64_to_decimal(-42), "-42");
    assert_eq!(i64_to_decimal(i64::MIN), "-9223372036854775808");
    assert_eq!(i128_to_decimal(-170141183460469231731687303715884105728), "-170141183460469231731687303715884105728");
}

#[test]
fn text_helpers() {
    assert_eq!(trim("  a b \t"), "a b");
    assert_eq!(strip_prefix("sha512=ab", "sha512="), Some("ab".to_string()));
    assert_eq!(strip_prefix("sha256=ab", "sha512="), None);
    assert_eq!(join(&vec!["a".to_string(), "b".to_string(), "c".to_string()], ", "), "a, b, c");
    assert_eq!(split_all_char("a..b.", '.'), vec!["a", "", "b", ""]);
    assert_eq!(truncate_bytes("héllo".to_string(), 3), "hé");
}

#[test]
fn merchant_reference_ids_are_trimmed_and_bounded() {
    let id = MerchantReferenceId::from("  pay_123  ".to_string()).unwrap();
    assert_eq!(id.0 .0, "pay_123");
    assert!(matches!(MerchantReferenceId::from("   ".to_string()), Err(LengthIdError::MinLengthViolated(1))));
    let long = "x".repeat(65);
    assert!(matches!(MerchantReferenceId::from(long), Err(LengthIdError::MaxLengthViolated(64))));
    match PaymentId::try_from("".to_string()) {
        Err(ValidationError::IncorrectValueProvided { field_name }) => assert_eq!(field_name, "payment_id"),
        _ => panic!("an empty payment id is refused"),
    }
}

#[test]
fn payment_id_derived_texts() {
    let id = PaymentId::try_from("pay_1".to_string()).unwrap();
    assert_eq!(id.get_string_repr(), "pay_1");
    assert_eq!(id.get_attempt_id(3), "pay_1_3");
    assert_eq!(id.get_attempt_id(-1), "pay_1_-1");
    assert_eq!(id.get_hash_key_for_kv_store(), "pi_pay_1");
    assert_eq!(id.get_pm_auth_key(), "pm_auth_pay_1");
    assert_eq!(id.get_external_authentication_request_poll_id(), "external_authentication_pay_1");
    assert_eq!(PaymentId::get_irrelevant_id("refund").get_string_repr(), "irrelevant_payment_id_in_refund");
    assert!(is_generated(&id.generate_client_secret(), "pay_1_secret"));
    assert!(is_generated(PaymentId::default().get_string_repr(), "pay"));
    assert!(is_generated(PaymentId::generate_test_payment_id_for_sample_data().get_string_repr(), "test"));
}

#[test]
fn other_ids() {
    let cs = ClientSecretId::try_from("abc".to_string()).unwrap();
    assert_eq!(cs.generate_redis_key(), "cs_abc");
    assert!(is_generated(ApiKeyId::generate_key_id("dev").get_string_repr(), "dev"));
    assert_eq!(CustomerId::default().get_string_repr(), "cus_default");
}

#[test]
fn global_ids() {
    let cell = CellId::from_str("cell1").unwrap();
    assert!(CellId::from_str("cell12").is_err());
    let id = GlobalId::generate(&cell, GlobalEntity::Payment);
    let text = id.get_string_repr().to_string();
    assert!(text.starts_with("cell1_pay_"));
    assert_eq!(text.len(), "cell1_pay_".len() + 32);
    let again = GlobalId::from_string(text.clone()).unwrap();
    assert_eq!(again.get_string_repr(), text);
    assert!(GlobalId::from_string("short".to_string()).is_err());
    let pm = GlobalPaymentMethodId::generate(&cell).unwrap();
    assert!(pm.get_string_repr().starts_with("cell1_pm_"));
    let refund = GlobalRefundId::generate(&cell);
    assert!(refund.get_string_repr().starts_with("cell1_ref_"));
    match GlobalRefundId::try_from("x".to_string()) {
        Err(ValidationError::IncorrectValueProvided { field_name }) => assert_eq!(field_name, "refund_id"),
        _ => panic!("a short refund id is refused"),
    }
}

#[test]
fn generated_ids_read_back_as_they_are() {
    let generated = PaymentId::default();
    let text = generated.get_string_repr().to_string();
    let reread = PaymentId::try_from(text.clone()).unwrap();
    assert_eq!(reread.get_string_repr(), text);
    let padded = PaymentId::try_from(format!("  {text}\n")).unwrap();
    let again = PaymentId::try_from(padded.get_string_repr().to_string()).unwrap();
    assert_eq!(again.get_string_repr(), text);
}

#[test]
fn generated_global_ids_read_back_as_they_are() {
    let cell = CellId::from_str(" abcde ").unwrap();
    assert_eq!(cell.get_string_repr(), "abcde");
    for entity in [GlobalEntity::Customer, GlobalEntity::PaymentMethod, GlobalEntity::Token] {
        let id = GlobalId::generate(&cell, entity);
        let text = id.get_string_repr().to_string();
        assert_eq!(GlobalId::from_string(text.clone()).unwrap().get_string_repr(), text);
        let suffix = text.rsplit('_').next().unwrap();
        assert_eq!(suffix.len(), 32);
        assert!(suffix.chars().all(|c| c.is_ascii_digit() || ('a'..='f').contains(&c)));
    }
}

#[test]
fn whitespace_is_unicode_white_space() {
    assert_eq!(trim("\u{3000}\u{85}x\u{2009}\u{a0}"), "x");
    assert_eq!(trim("\u{200b}x"), "\u{200b}x");
}

#[test]
fn profile_acquirer_ids_order_by_text() {
    let a = connector_service::ids::ProfileAcquirerId::try_from("acq_a".to_string()).unwrap();
    let b = connector_service::ids::ProfileAcquirerId::try_from("acq_b".to_string()).unwrap();
    assert_eq!(a.cmp(&b), std::cmp::Ordering::Less);
    assert_eq!(b.partial_cmp(&a), Some(std::cmp::Ordering::Greater));
    assert_eq!(a.cmp(&a.clone()), std::cmp::Ordering::Equal);
}
