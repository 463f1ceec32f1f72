use connector_service::common_enums::{
    AttemptStatus, AuthenticationType, CaptureMethod, Currency, PaymentMethodType, RefundStatus,
};
use connector_service::connectors::elavon::{
    authorize_response, capture_response, refund_response, Elavon, ElavonCaptureRequest, ElavonFlatResponse,
    ElavonPaymentsRequest, ElavonPaymentsResponse, ElavonResponseError, ElavonResult, TransactionType,
};
use connector_service::router_data::{
    Card, ConnectorAuthType, ConnectorError, PaymentMethodData, PaymentsAuthorizeData, PaymentsCaptureData,
    ResponseId,
};

fn elavon_auth() -> ConnectorAuthType {
    ConnectorAuthType::SignatureKey {
        api_key: "test_account_id".to_string(),
        key1: "test_user_id".to_string(),
        api_secret: "test_pin".to_string(),
    }
}

fn elavon_authorize_data(payment_method_data: PaymentMethodData, minor_amount: i64) -> PaymentsAuthorizeData {
    PaymentsAuthorizeData {
        connector_auth_type: elavon_auth(),
        connector_request_reference_id: "test_connector_ref_id".to_string(),
        payment_id: "test_payment_id".to_string(),
        merchant_id: "merchant_test_account".to_string(),
        description: Some("Test Payment".to_string()),
        customer_id: Some("cust_123".to_string()),
        customer_name: Some("Test User".to_string()),
        email: Some("test@example.com".to_string()),
        currency: Currency::USD,
        minor_amount,
        payment_method_data,
        payment_method_type: Some(PaymentMethodType::Credit),
        capture_method: Some(CaptureMethod::Automatic),
        setup_future_usage: None,
        off_session: None,
        has_mandate_reference: false,
        auth_type: AuthenticationType::NoThreeDs,
        billing: None,
        metadata: None,
        router_return_url: Some("https://hyperswitch.io/complete".to_string()),
        webhook_url: Some("https://hyperswitch.io/webhook".to_string()),
        statement_descriptor: None,
        merchant_order_reference_id: None,
        test_mode: Some(true),
        connector_meta_data: None,
        browser_info: None,
        enrolled_for_3ds: false,
        access_token: None,
    }
}

fn empty_flat() -> ElavonFlatResponse {
    ElavonFlatResponse {
        error_code: None,
        error_message: None,
        error_name: None,
        ssl_result: None,
        ssl_txn_id: None,
        ssl_result_message: None,
        ssl_token: None,
        ssl_token_response: None,
        ssl_approval_code: None,
        ssl_transaction_type: None,
        ssl_cvv2_response: None,
        ssl_avs_response: None,
    }
}

#[test]
fn test_authorize_request_build() {
    let card = Card {
        card_number: "4012888818888".to_string(),
        card_exp_month: "12".to_string(),
        card_exp_year: "2025".to_string(),
        card_cvc: "123".to_string(),
    };
    let item = elavon_authorize_data(PaymentMethodData::Card(card), 1000);
    // 1000 minor units of USD are 10.00 in major units.
    let request = ElavonPaymentsRequest::try_from(&"10.00".to_string(), &item);
    assert!(request.is_ok());
    let ElavonPaymentsRequest::Card(card_request) = request.unwrap();
    assert_eq!(card_request.ssl_transaction_type, TransactionType::CcSale);
    assert_eq!(card_request.ssl_amount, "10.00");
    assert_eq!(card_request.ssl_card_number, "4012888818888");
    assert_eq!(card_request.ssl_exp_date, "1225");
    assert_eq!(card_request.ssl_account_id, "test_account_id");
    assert_eq!(card_request.ssl_user_id, "test_user_id");
    assert_eq!(card_request.ssl_pin, "test_pin");
    assert_eq!(card_request.ssl_invoice_number, Some("test_payment_id".to_string()));
}

#[test]
fn test_authorize_response_handling_success() {
    let mut flat = empty_flat();
    flat.ssl_result = Some("0".to_string());
    flat.ssl_result_message = Some("APPROVAL".to_string());
    flat.ssl_txn_id = Some("TEST_TXN_ID_SUCCESS".to_string());
    flat.ssl_cvv2_response = Some("M".to_string());
    flat.ssl_avs_response = Some("Y".to_string());
    flat.ssl_transaction_type = Some("ccsale".to_string());
    let response = ElavonPaymentsResponse::deserialize(&flat);
    assert!(response.is_ok());
    let (outcome, token) = authorize_response(&response.unwrap().result, 200);
    assert_eq!(outcome.status, AttemptStatus::Charged);
    assert!(token.is_none());
    match outcome.response {
        Ok(data) => match data.resource_id {
            ResponseId::ConnectorTransactionId(id) => assert_eq!(id, "TEST_TXN_ID_SUCCESS"),
            _ => panic!("Unexpected resource_id variant"),
        },
        Err(_) => panic!("Expected successful TransactionResponse"),
    }
}

#[test]
fn test_authorize_response_handling_failure() {
    let mut flat = empty_flat();
    flat.error_name = Some("DECLINED".to_string());
    flat.error_message = Some("Card Declined".to_string());
    flat.error_code = Some("101".to_string());
    let response = ElavonPaymentsResponse::deserialize(&flat);
    assert!(response.is_ok());
    let (outcome, _) = authorize_response(&response.unwrap().result, 200);
    assert_eq!(outcome.status, AttemptStatus::Failure);
    match outcome.response {
        Err(err_resp) => {
            assert_eq!(err_resp.code, "101");
            assert_eq!(err_resp.message, "Card Declined");
            assert_eq!(err_resp.reason, Some("DECLINED".to_string()));
        },
        Ok(_) => panic!("Expected ErrorResponse"),
    }
}

#[test]
fn elavon_manual_capture_is_auth_only() {
    let card = Card {
        card_number: "4012888818888".to_string(),
        card_exp_month: "3".to_string(),
        card_exp_year: "30".to_string(),
        card_cvc: "123".to_string(),
    };
    let mut item = elavon_authorize_data(PaymentMethodData::Card(card), 1000);
    item.capture_method = Some(CaptureMethod::Manual);
    let ElavonPaymentsRequest::Card(request) = ElavonPaymentsRequest::try_from(&"10.00".to_string(), &item).unwrap();
    assert_eq!(request.ssl_transaction_type, TransactionType::CcAuthOnly);
    assert_eq!(request.ssl_exp_date, "0330");
}

#[test]
fn elavon_wrong_credentials_are_refused() {
    let card = Card {
        card_number: "4012888818888".to_string(),
        card_exp_month: "12".to_string(),
        card_exp_year: "2025".to_string(),
        card_cvc: "123".to_string(),
    };
    let mut item = elavon_authorize_data(PaymentMethodData::Card(card), 1000);
    item.connector_auth_type = ConnectorAuthType::HeaderKey { api_key: "k".to_string() };
    let request = ElavonPaymentsRequest::try_from(&"10.00".to_string(), &item);
    assert!(matches!(request, Err(ConnectorError::FailedToObtainAuthType)));
}

#[test]
fn elavon_approval_without_transaction_id_is_refused() {
    let mut flat = empty_flat();
    flat.ssl_result = Some("0".to_string());
    flat.ssl_result_message = Some("APPROVAL".to_string());
    match ElavonPaymentsResponse::deserialize(&flat) {
        Err(ElavonResponseError::MissingField(field)) => assert_eq!(field, "ssl_txn_id"),
        _ => panic!("expected a missing field"),
    }
}

#[test]
fn elavon_empty_answer_is_undetermined() {
    let flat = empty_flat();
    assert!(matches!(ElavonPaymentsResponse::deserialize(&flat), Err(ElavonResponseError::Undetermined)));
}

#[test]
fn elavon_auth_only_answer_is_authorized() {
    let mut flat = empty_flat();
    flat.ssl_result = Some("0".to_string());
    flat.ssl_result_message = Some("APPROVAL".to_string());
    flat.ssl_txn_id = Some("T1".to_string());
    flat.ssl_transaction_type = Some("ccauthonly".to_string());
    flat.ssl_token = Some("tok".to_string());
    flat.ssl_token_response = Some("SUCCESS".to_string());
    let response = ElavonPaymentsResponse::deserialize(&flat).unwrap();
    let (outcome, token) = authorize_response(&response.result, 200);
    assert_eq!(outcome.status, AttemptStatus::Authorized);
    assert_eq!(token, Some("tok".to_string()));
}

#[test]
fn elavon_capture_request_and_answer() {
    let item = PaymentsCaptureData {
        connector_auth_type: elavon_auth(),
        connector_request_reference_id: "ref".to_string(),
        connector_transaction_id: ResponseId::ConnectorTransactionId("T9".to_string()),
        currency: Currency::USD,
        minor_amount_to_capture: 500,
        multiple_capture_reference: None,
        connector_meta_data: None,
        connector_metadata: None,
    };
    let request = ElavonCaptureRequest::try_from(&"5.00".to_string(), &item).unwrap();
    assert_eq!(request.ssl_transaction_type, TransactionType::CcComplete);
    assert_eq!(request.ssl_txn_id, "T9");
    assert_eq!(request.ssl_amount, "5.00");

    let mut flat = empty_flat();
    flat.ssl_result = Some("0".to_string());
    flat.ssl_result_message = Some("APPROVAL".to_string());
    flat.ssl_txn_id = Some("T9".to_string());
    flat.ssl_transaction_type = Some("cccomplete".to_string());
    let answer = ElavonPaymentsResponse::deserialize(&flat).unwrap();
    let outcome = capture_response(&answer.result, 200);
    assert_eq!(outcome.status, AttemptStatus::Charged);
}

#[test]
fn elavon_declined_refund_fails() {
    let mut flat = empty_flat();
    flat.ssl_result = Some("1".to_string());
    flat.ssl_result_message = Some("DECLINED".to_string());
    flat.ssl_txn_id = Some("R1".to_string());
    let answer = ElavonPaymentsResponse::deserialize(&flat).unwrap();
    match &answer.result {
        ElavonResult::Error(e) => {
            assert_eq!(e.error_code, Some("1".to_string()));
            assert_eq!(e.error_message, "DECLINED");
        },
        ElavonResult::Success(_) => panic!("a declined answer is an error"),
    }
    let outcome = refund_response(&answer.result, 200);
    assert_eq!(outcome.status, RefundStatus::Failure);
}

#[test]
fn elavon_error_path_responses() {
    let mut flat = empty_flat();
    flat.ssl_result = Some("0".to_string());
    flat.ssl_result_message = Some("APPROVAL \"ok\"".to_string());
    flat.ssl_txn_id = Some("T5".to_string());
    let approved = ElavonPaymentsResponse::deserialize(&flat).unwrap();
    let e = Elavon.build_error_response(&Some(approved), &vec![], 400);
    assert_eq!(e.message, "Received success response in error flow");
    assert_eq!(e.reason, Some("Unexpected success: \"APPROVAL \\\"ok\\\"\"".to_string()));
    assert_eq!(e.connector_transaction_id, Some("T5".to_string()));
    let unreadable = Elavon.build_error_response(&None, &b"<html>down</html>".to_vec(), 503);
    assert_eq!(unreadable.message, "Elavon server error");
    assert_eq!(unreadable.reason, Some("<html>down</html>".to_string()));
    let client = Elavon.build_error_response(&None, &vec![], 404);
    assert_eq!(client.message, "Elavon error response");
}
