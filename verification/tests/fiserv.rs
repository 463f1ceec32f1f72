use connector_service::common_enums::{
    AttemptStatus, AuthenticationType, CaptureMethod, Currency, PaymentMethodType, RefundStatus,
};
use connector_service::connectors::fiserv::{
    get_card_expiry_year_4_digit_placeholder, payment_outcome, refund_outcome, Fiserv, FiservAuthType,
    FiservErrorDetails, FiservErrorResponse, FiservPaymentStatus, FiservPaymentsRequest, FiservSessionObject,
    GatewayResponse, PaymentFlowKind, Source, TransactionProcessingDetails,
};
use connector_service::router_data::{
    Card, ConnectorAuthType, ConnectorError, MetadataValue, PaymentMethodData, PaymentsAuthorizeData, ResponseId,
};

fn fiserv_authorize_data(
    payment_method_data: PaymentMethodData,
    minor_amount: i64,
    capture_method: Option<CaptureMethod>,
    merchant_account_id: &str,
    api_key: &str,
    api_secret: &str,
    terminal_id: &str,
) -> PaymentsAuthorizeData {
    let session = format!("{{\"terminal_id\":\"{}\"}}", terminal_id);
    PaymentsAuthorizeData {
        connector_auth_type: ConnectorAuthType::SignatureKey {
            api_key: api_key.to_string(),
            key1: merchant_account_id.to_string(),
            api_secret: api_secret.to_string(),
        },
        connector_request_reference_id: "test_conn_ref_id_fiserv".to_string(),
        payment_id: "test_payment_id".to_string(),
        merchant_id: "merchant".to_string(),
        description: None,
        customer_id: None,
        customer_name: None,
        email: None,
        currency: Currency::USD,
        minor_amount,
        payment_method_data,
        payment_method_type: Some(PaymentMethodType::Credit),
        capture_method,
        setup_future_usage: None,
        off_session: None,
        has_mandate_reference: false,
        auth_type: AuthenticationType::NoThreeDs,
        billing: None,
        metadata: None,
        router_return_url: None,
        webhook_url: None,
        statement_descriptor: None,
        merchant_order_reference_id: None,
        test_mode: Some(true),
        connector_meta_data: Some(MetadataValue::Str(session)),
        browser_info: None,
        enrolled_for_3ds: false,
        access_token: None,
    }
}

fn gateway(id: &str, state: FiservPaymentStatus, order_id: &str, transaction_id: &str) -> GatewayResponse {
    GatewayResponse {
        gateway_transaction_id: Some(id.to_string()),
        transaction_state: state,
        transaction_processing_details: TransactionProcessingDetails {
            order_id: order_id.to_string(),
            transaction_id: transaction_id.to_string(),
        },
    }
}

#[test]
fn test_test_authorize_request_build() {
    let card = Card {
        card_number: "4012888818888".to_string(),
        card_exp_month: "12".to_string(),
        card_exp_year: "2025".to_string(),
        card_cvc: "123".to_string(),
    };
    let item = fiserv_authorize_data(
        PaymentMethodData::Card(card),
        1500,
        Some(CaptureMethod::Automatic),
        "test_merchant_id_fiserv",
        "test_api_key_fiserv",
        "test_api_secret_fiserv",
        "test_terminal_id_fiserv",
    );
    let result = FiservPaymentsRequest::try_from(&item);
    assert!(result.is_ok(), "FiservPaymentsRequest transformation failed: {:?}", result.as_ref().err());
    let request = result.unwrap();
    assert_eq!(request.transaction_details.capture_flag, Some(true));
    // The amount is sent in major units: 1500 minor units of USD are 15.00.
    assert_eq!(request.amount.total_minor as f64 / 100.0, 15.00);
    assert_eq!(request.amount.currency, "USD");
    match &request.source {
        Source::PaymentCard { card } => {
            assert_eq!(card.card_data, "4012888818888");
            assert_eq!(card.expiration_month, "12");
            assert_eq!(card.expiration_year, "2025");
            assert_eq!(card.security_code, "123");
        },
        _ => panic!("expected a card source"),
    }
    assert_eq!(request.merchant_details.merchant_id, "test_merchant_id_fiserv");
    assert_eq!(request.merchant_details.terminal_id, Some("test_terminal_id_fiserv".to_string()));
}

#[test]
fn test_authorize_response_handling_success_authorized() {
    let g = gateway("FISERV_TXN_AUTH_SUCCESS_123", FiservPaymentStatus::Authorized, "test_order_id_fiserv", "PROC_TXN_AUTH_456");
    let outcome = payment_outcome(&g, PaymentFlowKind::Payment, 200);
    assert_eq!(outcome.status, AttemptStatus::Authorized);
    match outcome.response {
        Ok(data) => {
            match data.resource_id {
                ResponseId::ConnectorTransactionId(id) => assert_eq!(id, "FISERV_TXN_AUTH_SUCCESS_123"),
                _ => panic!("Unexpected resource_id variant"),
            }
            assert_eq!(data.connector_response_reference_id, Some("test_order_id_fiserv".to_string()));
        },
        Err(_) => panic!("Expected successful TransactionResponse"),
    }
}

#[test]
fn test_authorize_response_handling_success_captured() {
    let g = gateway("FISERV_TXN_CAPTURED_789", FiservPaymentStatus::Captured, "test_order_id_fiserv_capture", "PROC_TXN_CAPTURE_101");
    let outcome = payment_outcome(&g, PaymentFlowKind::Payment, 200);
    assert_eq!(outcome.status, AttemptStatus::Charged);
    match outcome.response {
        Ok(data) => {
            match data.resource_id {
                ResponseId::ConnectorTransactionId(id) => assert_eq!(id, "FISERV_TXN_CAPTURED_789"),
                _ => panic!("Unexpected resource_id variant"),
            }
            assert_eq!(data.connector_response_reference_id, Some("test_order_id_fiserv_capture".to_string()));
        },
        Err(_) => panic!("Expected successful TransactionResponse for capture"),
    }
}

#[test]
fn test_authorize_response_handling_failure_declined() {
    let g = gateway("FISERV_TXN_DECLINED_XYZ", FiservPaymentStatus::Declined, "test_order_id_fiserv_declined", "PROC_TXN_DECLINED_ABC");
    let outcome = payment_outcome(&g, PaymentFlowKind::Payment, 200);
    assert_eq!(outcome.status, AttemptStatus::Failure);
    match outcome.response {
        Err(err_resp) => {
            assert_eq!(err_resp.code, "PROC_TXN_DECLINED_ABC");
            assert_eq!(err_resp.message, "Payment status: Declined");
            assert_eq!(err_resp.reason, None);
            assert_eq!(err_resp.status_code, 200);
            assert_eq!(err_resp.connector_transaction_id, Some("FISERV_TXN_DECLINED_XYZ".to_string()));
        },
        Ok(_) => panic!("Expected ErrorResponse for declined transaction"),
    }
}

#[test]
fn test_authorize_get_error_response() {
    let response = FiservErrorResponse {
        error: Some(vec![FiservErrorDetails {
            error_type: "VALIDATION_ERROR".to_string(),
            code: Some("INVALID_FIELD_FORMAT".to_string()),
            message: "The format of the card number is incorrect.".to_string(),
            field: Some("source.paymentCard.card.cardData".to_string()),
        }]),
        details: None,
    };
    let error = Fiserv.build_error_response(&response, &b"{\"error\":[]}".to_vec(), 400);
    assert_eq!(error.raw_connector_response, Some("{\"error\":[]}".to_string()));
    assert_eq!(error.status_code, 400);
    assert_eq!(error.code, "INVALID_FIELD_FORMAT");
    assert_eq!(error.message, "The format of the card number is incorrect.");
    assert_eq!(error.reason, Some("source.paymentCard.card.cardData".to_string()));
}

#[test]
fn fiserv_error_response_without_details_uses_defaults() {
    let response = FiservErrorResponse { error: None, details: None };
    let error = Fiserv.build_error_response(&response, &vec![b'o', b'k', 0xff], 500);
    assert_eq!(error.raw_connector_response, Some("ok\u{FFFD}".to_string()));
    assert_eq!(error.code, "No error code");
    assert_eq!(error.message, "No error message");
    assert_eq!(error.reason, None);
}

#[test]
fn fiserv_voided_payment_is_an_error_but_void_is_not() {
    let g = gateway("G", FiservPaymentStatus::Voided, "O", "P");
    let payment = payment_outcome(&g, PaymentFlowKind::Payment, 200);
    assert_eq!(payment.status, AttemptStatus::Voided);
    assert!(payment.response.is_err());
    let void = payment_outcome(&g, PaymentFlowKind::Void, 200);
    assert_eq!(void.status, AttemptStatus::Voided);
    assert!(void.response.is_ok());
    let failed = payment_outcome(&gateway("G", FiservPaymentStatus::Failed, "O", "P"), PaymentFlowKind::Void, 201);
    match failed.response {
        Err(e) => assert_eq!(e.message, "Void status: Failed"),
        Ok(_) => panic!("a failed void is an error"),
    }
}

#[test]
fn fiserv_refund_outcome_follows_status() {
    let ok = refund_outcome(&gateway("R1", FiservPaymentStatus::Succeeded, "O", "P"), 200);
    assert_eq!(ok.status, RefundStatus::Success);
    let pending = refund_outcome(&gateway("R2", FiservPaymentStatus::Processing, "O", "P"), 200);
    assert_eq!(pending.status, RefundStatus::Pending);
    let failed = refund_outcome(&gateway("R3", FiservPaymentStatus::Declined, "O", "P"), 200);
    assert_eq!(failed.status, RefundStatus::Failure);
}

#[test]
fn fiserv_expiry_years() {
    assert_eq!(get_card_expiry_year_4_digit_placeholder(&"25".to_string()).unwrap(), "2025");
    assert_eq!(get_card_expiry_year_4_digit_placeholder(&"2031".to_string()).unwrap(), "2031");
    assert!(matches!(
        get_card_expiry_year_4_digit_placeholder(&"2x".to_string()),
        Err(ConnectorError::RequestEncodingFailed)
    ));
    assert!(get_card_expiry_year_4_digit_placeholder(&"202".to_string()).is_err());
}

#[test]
fn fiserv_missing_session_is_reported() {
    assert!(matches!(
        FiservSessionObject::try_from(&None),
        Err(ConnectorError::MissingRequiredField { field_name: "connector_meta_data (FiservSessionObject)" })
    ));
    assert!(matches!(
        FiservSessionObject::try_from(&Some(MetadataValue::Bool(true))),
        Err(ConnectorError::InvalidConnectorConfig { config: "FiservSessionObject in connector_meta_data was not a JSON string" })
    ));
    assert!(matches!(
        FiservSessionObject::try_from(&Some(MetadataValue::Str("not json".to_string()))),
        Err(ConnectorError::InvalidConnectorConfig { config: "Deserializing FiservSessionObject from connector_meta_data string" })
    ));
    let session = FiservSessionObject::try_from(&Some(MetadataValue::Str("{\"terminal_id\":\"T1\"}".to_string()))).unwrap();
    assert_eq!(session.terminal_id, "T1");
}

#[test]
fn fiserv_signature_is_hmac_sha256_in_base64() {
    let auth = FiservAuthType {
        api_key: "key".to_string(),
        merchant_account: "m".to_string(),
        api_secret: "secret".to_string(),
    };
    let signature = Fiserv.generate_authorization_signature(&auth, "cid", "{}", 1700000000000).unwrap();
    assert_eq!(signature, "1/qYrj5tAaIkbLiXZppwhhYWxeRGou0DU/KPcrOyJOg=");
}

#[test]
fn fiserv_signed_headers_in_order() {
    let auth = ConnectorAuthType::SignatureKey {
        api_key: "key".to_string(),
        key1: "m".to_string(),
        api_secret: "secret".to_string(),
    };
    let headers = Fiserv.build_headers_at(&auth, "{}", "cid", 1700000000000).unwrap();
    let names: Vec<&str> = headers.iter().map(|(k, _)| k.as_str()).collect();
    assert_eq!(names, vec!["Content-Type", "Client-Request-Id", "Timestamp", "Auth-Token-Type", "Authorization", "Api-Key"]);
    assert_eq!(headers[2].1, "1700000000000");
    assert_eq!(headers[4].1, "1/qYrj5tAaIkbLiXZppwhhYWxeRGou0DU/KPcrOyJOg=");
    assert_eq!(headers[5].1, "key");
    let generated = Fiserv.build_headers(&auth, "{}").unwrap();
    assert_eq!(generated.len(), 6);
    assert_eq!(generated[1].1.len(), 36);
}
