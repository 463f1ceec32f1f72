use connector_service::common_enums::{AuthenticationType, Currency, PaymentMethodType};
use connector_service::connectors::adyen::{AdyenPaymentMethod, AdyenPaymentRequest};
use connector_service::connectors::authorizedotnet::{
    convert_to_payments_response_data_or_error, AuthorizedotnetPaymentsResponse,
    AuthorizedotnetRepeatPaymentRequest, AuthorizedotnetTransactionResponseError, Operation, ResponseMessage,
    ResponseMessages, ResultCode, TransactionResponse,
};
use connector_service::connectors::fiserv::{parse_terminal_id, Fiserv, FiservRefundRequest};
use connector_service::ids::{AlphaNumericId, AlphaNumericIdError, PaymentId};
use connector_service::lineage::LineageIds;
use connector_service::router_data::{
    Card, ConnectorAuthType, ConnectorError, MandateReferenceId, PaymentMethodData, PaymentsAuthorizeData,
    Metadata, MetadataEntry, MetadataValue, RefundsData, RepeatPaymentData,
};

#[test]
fn alphanumeric_id_accepts_letters_digits_underscore_hyphen() {
    let id = AlphaNumericId::from("pay_123-X".to_string()).unwrap();
    assert_eq!(id.0, "pay_123-X");
}

#[test]
fn alphanumeric_id_names_first_invalid_character() {
    match AlphaNumericId::from("pay 123!".to_string()) {
        Err(AlphaNumericIdError(text, c)) => {
            assert_eq!(text, "pay 123!");
            assert_eq!(c, ' ');
        },
        Ok(_) => panic!("a space is not accepted"),
    }
    assert!(PaymentId::try_from("pay 123".to_string()).is_err());
    assert!(PaymentId::try_from("  pay_123  ".to_string()).is_ok());
}

#[test]
fn irrelevant_id_is_what_wrap_gives() {
    let id = PaymentId::get_irrelevant_id("capture");
    let wrapped = PaymentId::wrap("irrelevant_payment_id_in_capture".to_string()).unwrap();
    assert_eq!(id.get_string_repr(), wrapped.get_string_repr());
}

#[test]
fn lineage_of_empty_text_is_empty() {
    let ids = LineageIds::new("ucs", "").unwrap();
    let empty = LineageIds::empty("ucs");
    assert_eq!(ids.prefix, empty.prefix);
    assert!(ids.inner_raw().is_empty());
    assert!(empty.inner_raw().is_empty());
}

#[test]
fn iso_codes_are_three_distinct_digits() {
    let all = [Currency::USD, Currency::EUR, Currency::JPY, Currency::ALL, Currency::AED, Currency::INR];
    for c in all {
        let code = c.iso_4217();
        assert_eq!(code.len(), 3);
        assert!(code.bytes().all(|b| b.is_ascii_digit()));
    }
    assert_eq!(Currency::ALL.iso_4217(), "008");
    assert_ne!(Currency::USD.iso_4217(), Currency::EUR.iso_4217());
}

#[test]
fn zero_decimal_amount_written_as_is() {
    assert_eq!(Currency::JPY.zero_decimal_amount_text(1500), Some("1500".to_string()));
    assert_eq!(Currency::USD.zero_decimal_amount_text(1500), None);
}

#[test]
fn terminal_id_read_as_a_session_object() {
    assert_eq!(parse_terminal_id(r#"{"terminal_id":"10000001","other":1}"#), Some("10000001".to_string()));
    assert_eq!(parse_terminal_id(r#"["tid"]"#), Some("tid".to_string()));
    assert_eq!(parse_terminal_id(r#"["tid","x"]"#), None);
    assert_eq!(parse_terminal_id(r#"{"terminal_id":7}"#), None);
    assert_eq!(parse_terminal_id("not json"), None);
}

fn repeat_data(mandate: MandateReferenceId, reference: &str) -> RepeatPaymentData {
    RepeatPaymentData {
        connector_auth_type: ConnectorAuthType::BodyKey { api_key: "login".to_string(), key1: "key".to_string() },
        connector_request_reference_id: reference.to_string(),
        payment_id: "pay_1".to_string(),
        description: None,
        currency: Currency::USD,
        minor_amount: 500,
        mandate_reference: mandate,
        metadata: None,
    }
}

#[test]
fn repeat_payment_error_kinds() {
    let missing = AuthorizedotnetRepeatPaymentRequest::try_from(&repeat_data(MandateReferenceId::ConnectorMandateId(None), "ref"));
    assert!(matches!(missing, Err(ConnectorError::MissingRequiredField { field_name: "connector_mandate_id" })));
    let no_dash = AuthorizedotnetRepeatPaymentRequest::try_from(&repeat_data(
        MandateReferenceId::ConnectorMandateId(Some("12345".to_string())),
        "ref",
    ));
    assert!(matches!(
        no_dash,
        Err(ConnectorError::MissingRequiredField { field_name: "valid mandate_id format (should contain '-')" })
    ));
    let no_ref = AuthorizedotnetRepeatPaymentRequest::try_from(&repeat_data(
        MandateReferenceId::ConnectorMandateId(Some("1-2-3".to_string())),
        "",
    ));
    assert!(matches!(no_ref, Err(ConnectorError::MissingRequiredField { field_name: "connector_request_reference_id" })));
    match AuthorizedotnetRepeatPaymentRequest::try_from(&repeat_data(MandateReferenceId::NetworkTokenWithNTI, "ref")) {
        Err(ConnectorError::NotImplemented(m)) => assert_eq!(m, "Network token with NTI not supported for authorizedotnet"),
        _ => panic!("not implemented"),
    }
    assert!(AuthorizedotnetRepeatPaymentRequest::try_from(&repeat_data(
        MandateReferenceId::ConnectorMandateId(Some("1-2-3".to_string())),
        "ref",
    ))
    .is_ok());
}

#[test]
fn transaction_error_carries_raw_response() {
    let response = AuthorizedotnetPaymentsResponse {
        transaction_response: Some(TransactionResponse::AuthorizedotnetTransactionResponseError(
            AuthorizedotnetTransactionResponseError { supplemental_data_qualification_indicator: 0 },
        )),
        profile_response: None,
        messages: ResponseMessages {
            result_code: ResultCode::Error,
            message: vec![ResponseMessage { code: "E00027".to_string(), text: "declined".to_string() }],
        },
    };
    let outcome = convert_to_payments_response_data_or_error(
        &response,
        200,
        Operation::Authorize,
        None,
        Some("{\"raw\":1}".to_string()),
    );
    match outcome.response {
        Err(e) => assert_eq!(e.raw_connector_response, Some("{\"raw\":1}".to_string())),
        Ok(_) => panic!("an error answer"),
    }
}

fn adyen_authorize_data(customer_id: Option<String>, router_return_url: Option<String>) -> PaymentsAuthorizeData {
    PaymentsAuthorizeData {
        connector_auth_type: ConnectorAuthType::BodyKey { api_key: "API_KEY".to_string(), key1: "KEY1".to_string() },
        connector_request_reference_id: "conn_ref_123456789".to_string(),
        payment_id: "pay_abcdef123456".to_string(),
        merchant_id: "mer_default".to_string(),
        description: Some("Payment for order #12345".to_string()),
        customer_id,
        customer_name: None,
        email: Some("test@example.com".to_string()),
        currency: Currency::USD,
        minor_amount: 1000,
        payment_method_data: PaymentMethodData::Card(Card {
            card_number: "5123456789012346".to_string(),
            card_exp_month: "03".to_string(),
            card_exp_year: "2030".to_string(),
            card_cvc: "100".to_string(),
        }),
        payment_method_type: Some(PaymentMethodType::Credit),
        capture_method: None,
        setup_future_usage: None,
        off_session: None,
        has_mandate_reference: false,
        auth_type: AuthenticationType::ThreeDs,
        billing: None,
        metadata: None,
        router_return_url,
        webhook_url: None,
        statement_descriptor: None,
        merchant_order_reference_id: None,
        test_mode: None,
        connector_meta_data: None,
        browser_info: None,
        enrolled_for_3ds: true,
        access_token: None,
    }
}

#[test]
fn test_build_request_valid() {
    let item = adyen_authorize_data(Some("cus_123456789".to_string()), Some("www.google.com".to_string()));
    let req = AdyenPaymentRequest::try_from(&item).unwrap();
    assert_eq!(req.reference, "conn_ref_123456789");
    assert_eq!(req.amount.currency, Currency::USD);
    assert_eq!(req.amount.value, 1000);
    assert_eq!(req.merchant_account, "KEY1");
    assert!(matches!(req.payment_method, AdyenPaymentMethod::AdyenCard(_)));
    assert_eq!(req.return_url, "www.google.com");
    assert!(req.billing_address.is_none());
}

#[test]
fn test_build_request_missing() {
    let mut item = adyen_authorize_data(None, None);
    item.payment_method_data = PaymentMethodData::Card(Card {
        card_number: String::new(),
        card_exp_month: String::new(),
        card_exp_year: String::new(),
        card_cvc: String::new(),
    });
    item.minor_amount = 0;
    item.connector_request_reference_id = String::new();
    item.payment_id = String::new();
    let result = AdyenPaymentRequest::try_from(&item);
    assert!(result.is_err());
    assert!(matches!(result, Err(ConnectorError::MissingRequiredField { field_name: "customer_id" })));
}

fn fiserv_refund_data(metadata: Option<MetadataValue>) -> RefundsData {
    RefundsData {
        connector_auth_type: ConnectorAuthType::SignatureKey {
            api_key: "key".to_string(),
            key1: "merchant".to_string(),
            api_secret: "secret".to_string(),
        },
        refund_id: "r_1".to_string(),
        connector_transaction_id: "txn_1".to_string(),
        currency: Currency::EUR,
        minor_refund_amount: 250,
        reason: None,
        connector_metadata: metadata,
    }
}

#[test]
fn fiserv_refund_with_given_terminal() {
    let req = FiservRefundRequest::with_terminal(&fiserv_refund_data(None), "T-9".to_string()).unwrap();
    assert_eq!(req.merchant_details.terminal_id, Some("T-9".to_string()));
    assert_eq!(req.merchant_details.merchant_id, "merchant");
    assert_eq!(req.amount.total_minor, 250);
    let from_session = FiservRefundRequest::try_from(&fiserv_refund_data(Some(MetadataValue::Str(
        r#"["T-7"]"#.to_string(),
    ))))
    .unwrap();
    assert_eq!(from_session.merchant_details.terminal_id, Some("T-7".to_string()));
}

#[test]
fn metadata_refuses_a_repeated_key() {
    let entry = |k: &str| MetadataEntry { key: k.to_string(), value: MetadataValue::Bool(true) };
    assert!(Metadata::new(vec![entry("a"), entry("b"), entry("a")]).is_none());
    let m = Metadata::new(vec![entry("a"), entry("b")]).unwrap();
    assert_eq!(m.entries().len(), 2);
    assert_eq!(m.clone().entries().len(), 2);
}

#[test]
fn fiserv_headers_carry_a_v4_uuid_and_millisecond_time() {
    let auth = ConnectorAuthType::SignatureKey {
        api_key: "key".to_string(),
        key1: "merchant".to_string(),
        api_secret: "secret".to_string(),
    };
    let headers = Fiserv.build_headers(&auth, "{}").unwrap();
    let id = &headers.iter().find(|(k, _)| k == "Client-Request-Id").unwrap().1;
    let chars: Vec<char> = id.chars().collect();
    assert_eq!(chars.len(), 36);
    for (i, c) in chars.iter().enumerate() {
        if i == 8 || i == 13 || i == 18 || i == 23 {
            assert_eq!(*c, '-');
        } else {
            assert!(c.is_ascii_digit() || ('a'..='f').contains(c));
        }
    }
    assert_eq!(chars[14], '4');
    assert!(['8', '9', 'a', 'b'].contains(&chars[19]));
    let stamp: i128 = headers.iter().find(|(k, _)| k == "Timestamp").unwrap().1.parse().unwrap();
    assert!(stamp > 1_600_000_000_000);
}
