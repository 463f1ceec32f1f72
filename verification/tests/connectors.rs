use connector_service::common_enums::{AttemptStatus, CaptureMethod, DisputeStage, DisputeStatus, RefundStatus};
use connector_service::connectors::adyen::{
    get_adyen_payment_status, get_adyen_webhook_event_type, get_dispute_stage_and_status, is_success_scenario,
    AdyenDisputeStatus, AdyenRedirectRequest, AdyenRedirectRequestTypes, AdyenStatus, WebhookEventCode,
};
use connector_service::connectors::adyen::{
    redirection_response_at, ActionType, AdyenRedirectAction, AdyenRedirectUrl, PaymentType, RedirectionResponse,
};
use connector_service::router_data::{ConnectorMetadata, Method};
use connector_service::connectors::airwallex::{Airwallex, AirwallexErrorResponse, AirwallexPaymentsResponse};
use connector_service::connectors::authorizedotnet::{
    get_event_type, get_the_truncate_id, process_refund_webhook, verify_webhook_source,
    AuthorizedotnetIncomingWebhookEventType,
};
use connector_service::connectors::bitpay::{payments_response, to_hyperswitch_status, Bitpay, BitpayPaymentsResponse};
use connector_service::connectors::checkout::{
    get_attempt_status_bal, get_attempt_status_cap, Balances, Checkout, CheckoutErrorResponse, CheckoutPaymentStatus,
};
use connector_service::connectors::fiuu::{parse_response, Fiuu};
use connector_service::router_data::{
    Card, ConnectorAuthType, ConnectorError, ConnectorWebhookSecrets, EventType, PaymentMethodData, RedirectForm,
    RequestDetails, ResponseId,
};

const HELLO_SHA512_UNDER_SECRET: &str = "DB1595AE88A62FD151EC1CBA81B98C39DF82DAAE7B4CB9820F446D5BF02F1DCFCA6683D88CAB3E273F5963AB8EC469A746B5B19086371239F67D1E5F99A79440";

#[test]
fn anet_webhook_signature_checks() {
    let secret = Some(ConnectorWebhookSecrets { secret: b"secret".to_vec() });
    let good = RequestDetails {
        headers: vec![("X-ANET-Signature".to_string(), format!("sha512={}", HELLO_SHA512_UNDER_SECRET))],
        body: b"hello".to_vec(),
    };
    assert_eq!(verify_webhook_source(&good, &secret).unwrap(), true);
    let lower = RequestDetails {
        headers: vec![("x-anet-signature".to_string(), format!("sha512={}", HELLO_SHA512_UNDER_SECRET.to_lowercase()))],
        body: b"hello".to_vec(),
    };
    assert_eq!(verify_webhook_source(&lower, &secret).unwrap(), true);
    let tampered = RequestDetails { headers: good.headers.clone(), body: b"hellO".to_vec() };
    assert_eq!(verify_webhook_source(&tampered, &secret).unwrap(), false);
    assert_eq!(verify_webhook_source(&good, &None).unwrap(), false);
    let no_prefix = RequestDetails {
        headers: vec![("X-ANET-Signature".to_string(), HELLO_SHA512_UNDER_SECRET.to_string())],
        body: b"hello".to_vec(),
    };
    assert_eq!(verify_webhook_source(&no_prefix, &secret).unwrap(), false);
    let not_hex = RequestDetails {
        headers: vec![("X-ANET-Signature".to_string(), "sha512=zz".to_string())],
        body: b"hello".to_vec(),
    };
    assert_eq!(verify_webhook_source(&not_hex, &secret).unwrap(), false);
    let no_header = RequestDetails { headers: vec![], body: b"hello".to_vec() };
    assert_eq!(verify_webhook_source(&no_header, &secret).unwrap(), false);
}

#[test]
fn anet_webhook_event_types() {
    assert!(matches!(get_event_type(AuthorizedotnetIncomingWebhookEventType::RefundCreated), Ok(EventType::Refund)));
    assert!(matches!(get_event_type(AuthorizedotnetIncomingWebhookEventType::AuthCapCreated), Ok(EventType::Payment)));
    assert!(matches!(
        get_event_type(AuthorizedotnetIncomingWebhookEventType::Unknown),
        Err(ConnectorError::WebhookEventTypeNotFound)
    ));
    let details = process_refund_webhook(&"60123".to_string());
    assert_eq!(details.connector_refund_id, Some("60123".to_string()));
    assert_eq!(details.status, RefundStatus::Success);
    assert_eq!(details.status_code, 200);
}

#[test]
fn anet_truncates_ids_by_bytes() {
    assert_eq!(get_the_truncate_id(Some("abcdef".to_string()), 3), Some("abc".to_string()));
    assert_eq!(get_the_truncate_id(Some("ab".to_string()), 3), Some("ab".to_string()));
    assert_eq!(get_the_truncate_id(None, 3), None);
}

#[test]
fn checkout_statuses() {
    assert_eq!(get_attempt_status_cap((CheckoutPaymentStatus::Authorized, Some(CaptureMethod::Automatic))), AttemptStatus::Pending);
    assert_eq!(get_attempt_status_cap((CheckoutPaymentStatus::Authorized, Some(CaptureMethod::Manual))), AttemptStatus::Authorized);
    assert_eq!(get_attempt_status_cap((CheckoutPaymentStatus::Captured, None)), AttemptStatus::Charged);
    assert_eq!(
        get_attempt_status_bal((CheckoutPaymentStatus::Authorized, Some(Balances { available_to_capture: 0 }))),
        AttemptStatus::Charged
    );
    assert_eq!(
        get_attempt_status_bal((CheckoutPaymentStatus::Authorized, Some(Balances { available_to_capture: 10 }))),
        AttemptStatus::Authorized
    );
    assert_eq!(CheckoutPaymentStatus::Declined.to_attempt_status(), AttemptStatus::Failure);
    assert_eq!(CheckoutPaymentStatus::PartiallyCaptured.to_attempt_status(), AttemptStatus::PartialCharged);
}

#[test]
fn checkout_error_response() {
    let with_codes = CheckoutErrorResponse {
        request_id: None,
        error_type: Some("request_invalid".to_string()),
        error_codes: Some(vec!["card_number_invalid".to_string(), "cvv_invalid".to_string()]),
    };
    let e = Checkout::new().build_error_response(&with_codes, 422);
    assert_eq!(e.code, "request_invalid");
    assert_eq!(e.message, "card_number_invalid, cvv_invalid");
    assert_eq!(e.status_code, 422);
    let bare = CheckoutErrorResponse { request_id: None, error_type: None, error_codes: None };
    let e = Checkout::new().build_error_response(&bare, 500);
    assert_eq!(e.code, "No error code");
    assert_eq!(e.message, "No error message");
}

#[test]
fn bitpay_statuses_and_redirect() {
    assert_eq!(to_hyperswitch_status("paid"), AttemptStatus::Charged);
    assert_eq!(to_hyperswitch_status("processing"), AttemptStatus::Pending);
    assert_eq!(to_hyperswitch_status("expired"), AttemptStatus::Failure);
    assert_eq!(to_hyperswitch_status("new"), AttemptStatus::Unresolved);
    let answer = BitpayPaymentsResponse {
        status: "new".to_string(),
        id: "inv_1".to_string(),
        url: Some("https://bitpay.com/i/inv_1".to_string()),
    };
    let outcome = payments_response(&answer, 200).unwrap();
    let data = outcome.response.unwrap();
    assert!(matches!(data.resource_id, ResponseId::ConnectorTransactionId(ref id) if id == "inv_1"));
    match data.redirection_data {
        Some(RedirectForm::Html { html_data }) => {
            assert_eq!(html_data, "<script>window.location.href = 'https://bitpay.com/i/inv_1';</script>")
        },
        _ => panic!("expected a redirect page"),
    }
    assert_eq!(Bitpay::new().get_url("https://test.bitpay.com"), "https://test.bitpay.com/invoices");
}

#[test]
fn airwallex_urls_and_checks() {
    let a = Airwallex::new();
    assert_eq!(a.payments_url("https://api-demo.airwallex.com"), "https://api-demo.airwallex.com/api/v1/pa/payments/create");
    assert_eq!(a.access_token_url("https://x"), "https://x/api/v1/authentication/login");
    let body = a
        .access_token_request_body(&ConnectorAuthType::BodyKey { api_key: "k".to_string(), key1: "client".to_string() })
        .unwrap();
    assert_eq!(body.client_id, "client");
    assert_eq!(body.api_key, "k");
    assert!(matches!(a.access_token_request_body(&ConnectorAuthType::NoKey), Err(ConnectorError::FailedToObtainAuthType)));
    assert!(a.validate_capture_method(Some(CaptureMethod::Manual)).is_ok());
    match a.validate_capture_method(Some(CaptureMethod::ManualMultiple)) {
        Err(ConnectorError::FlowNotSupported { flow, connector }) => {
            assert_eq!(flow, "ManualMultiple");
            assert_eq!(connector, "Airwallex");
        },
        _ => panic!("multiple captures are not supported"),
    }
    let card = PaymentMethodData::Card(Card {
        card_number: "4111111111111111".to_string(),
        card_exp_month: "01".to_string(),
        card_exp_year: "2030".to_string(),
        card_cvc: "111".to_string(),
    });
    assert!(a.validate_payment_method_fields(&card).is_ok());
}

#[test]
fn fiuu_lines_are_read_into_fields() {
    let fields = parse_response(b"status=00\r\ntranID=123\nnoise\nstatus=22\n").unwrap();
    assert_eq!(
        fields.fields,
        vec![("status".to_string(), "22".to_string()), ("tranID".to_string(), "123".to_string())]
    );
    assert_eq!(fields.miscellaneous, vec![("status".to_string(), "\"00\"".to_string())]);
    assert!(matches!(parse_response(&[0xff, 0xfe]), Err(ConnectorError::ResponseDeserializationFailed)));
}

#[test]
fn fiuu_status_answers_need_plain_text() {
    let plain = vec![("content-type".to_string(), "text/plain;charset=UTF-8".to_string())];
    let fields = Fiuu::read_psync_response(&plain, b"StatCode=00").unwrap();
    assert_eq!(fields.fields, vec![("StatCode".to_string(), "00".to_string())]);
    let json = vec![("content-type".to_string(), "application/json".to_string())];
    assert!(matches!(Fiuu::read_psync_response(&json, b"{}"), Err(ConnectorError::ResponseDeserializationFailed)));
    assert!(matches!(Fiuu::read_psync_response(&vec![], b"x=1"), Err(ConnectorError::ResponseHandlingFailed)));
}

#[test]
fn fiuu_urls() {
    let base = "https://sandbox.merchant.razer.com/";
    assert_eq!(
        Fiuu::authorize_url(base, Some(true), Some(false)),
        "https://sandbox.merchant.razer.com//RMS/API/Recurring/input_v7.php"
    );
    assert_eq!(
        Fiuu::authorize_url(base, None, None),
        "https://sandbox.merchant.razer.com/RMS/API/Direct/1.4.0/index.php"
    );
    assert_eq!(Fiuu::psync_url(base), "https://sandbox.merchant.razer.com/RMS/API/gate-query/index.php");
    assert_eq!(Fiuu::capture_url(base), "https://sandbox.merchant.razer.com/RMS/API/capstxn/index.php");
    assert_eq!(Fiuu::void_url(base), "https://sandbox.merchant.razer.com/RMS/API/refundAPI/refund.php");
    assert_eq!(Fiuu::refund_url(base), "https://sandbox.merchant.razer.com/RMS/API/refundAPI/index.php");
    assert_eq!(Fiuu::rsync_url(base), "https://sandbox.merchant.razer.com/RMS/API/refundAPI/q_by_txn.php");
}

#[test]
fn adyen_statuses_and_events() {
    assert_eq!(get_adyen_payment_status(true, AdyenStatus::Authorised, None), AttemptStatus::Authorized);
    assert_eq!(get_adyen_payment_status(false, AdyenStatus::Authorised, None), AttemptStatus::Charged);
    assert_eq!(get_adyen_payment_status(false, AdyenStatus::Refused, None), AttemptStatus::Failure);
    assert!(is_success_scenario("true"));
    assert!(!is_success_scenario("false"));
    assert_eq!(get_adyen_webhook_event_type(WebhookEventCode::Refund), EventType::Refund);
    assert_eq!(get_adyen_webhook_event_type(WebhookEventCode::Chargeback), EventType::Dispute);
    assert_eq!(
        get_dispute_stage_and_status(WebhookEventCode::NotificationOfChargeback, None),
        (DisputeStage::PreDispute, DisputeStatus::DisputeOpened)
    );
    assert_eq!(
        get_dispute_stage_and_status(WebhookEventCode::Chargeback, Some(AdyenDisputeStatus::Won)),
        (DisputeStage::Dispute, DisputeStatus::DisputeWon)
    );
}

#[test]
fn adyen_redirect_details() {
    let r = AdyenRedirectRequest::try_from(&Some("redirectResult=abc%3D%3D".to_string())).unwrap();
    match r.details {
        AdyenRedirectRequestTypes::AdyenRedirection(d) => assert_eq!(d.redirect_result, "abc=="),
        _ => panic!("a redirect result"),
    }
    let r = AdyenRedirectRequest::try_from(&Some("threeDSResult=xyz".to_string())).unwrap();
    assert!(matches!(r.details, AdyenRedirectRequestTypes::AdyenThreeDS(_)));
    assert!(matches!(AdyenRedirectRequest::try_from(&None), Err(ConnectorError::RequestEncodingFailed)));
    assert!(matches!(
        AdyenRedirectRequest::try_from(&Some("other=1".to_string())),
        Err(ConnectorError::ResponseDeserializationFailed)
    ));
}

fn airwallex_answer(status: &str) -> AirwallexPaymentsResponse {
    AirwallexPaymentsResponse {
        id: "int_1".to_string(),
        request_id: "req_1".to_string(),
        currency: "USD".to_string(),
        merchant_order_id: "order_1".to_string(),
        status: status.to_string(),
        next_action: None,
        created_at: "2024-01-01T00:00:00Z".to_string(),
        code: None,
        message: None,
    }
}

#[test]
fn airwallex_status_is_read_in_upper_case() {
    assert_eq!(airwallex_answer("succeeded").to_attempt_status().unwrap(), AttemptStatus::Authorized);
    assert_eq!(airwallex_answer("Captured").to_attempt_status().unwrap(), AttemptStatus::Charged);
    match airwallex_answer("weird").to_attempt_status() {
        Err(ConnectorError::UnexpectedResponseError(bytes)) => assert_eq!(bytes, b"weird".to_vec()),
        _ => panic!("an unknown state is unexpected"),
    }
    let outcome = Airwallex::new().handle_response(&airwallex_answer("weird"), 200);
    assert_eq!(outcome.status, AttemptStatus::Pending);
}

#[test]
fn airwallex_unreadable_error_keeps_body_text() {
    let e = Airwallex::new().build_error_response(&None, &vec![b'o', b'k', 0xff], 500);
    assert_eq!(e.code, "No error code");
    assert_eq!(e.reason, Some("ok\u{FFFD}".to_string()));
    let parsed = AirwallexErrorResponse { code: "invalid".to_string(), message: "bad".to_string(), source: Some("card".to_string()) };
    let e = Airwallex::new().build_error_response(&Some(parsed), &vec![], 400);
    assert_eq!(e.code, "invalid");
    assert_eq!(e.reason, Some("card".to_string()));
}

#[test]
fn fiuu_replaced_values_are_kept_as_json_text() {
    let fields = parse_response("k=a\"b\\c\u{1}\nk=2\n".as_bytes()).unwrap();
    assert_eq!(fields.fields, vec![("k".to_string(), "2".to_string())]);
    assert_eq!(fields.miscellaneous, vec![("k".to_string(), "\"a\\\"b\\\\c\\u0001\"".to_string())]);
}

#[test]
fn adyen_redirection_collects_query_as_map() {
    let url = AdyenRedirectUrl::try_from("https://checkout.example/pay?a=1&b=2&a=3").unwrap();
    assert_eq!(url.href, "https://checkout.example/pay?a=1&b=2&a=3");
    assert_eq!(
        url.query_pairs,
        vec![("a".to_string(), "1".to_string()), ("b".to_string(), "2".to_string()), ("a".to_string(), "3".to_string())]
    );
    assert!(matches!(AdyenRedirectUrl::try_from("not a url"), Err(ConnectorError::ResponseDeserializationFailed)));
    let response = RedirectionResponse {
        result_code: AdyenStatus::RedirectShopper,
        action: AdyenRedirectAction {
            payment_method_type: PaymentType::Blik,
            url: Some(url),
            method: None,
            type_of_response: ActionType::Redirect,
            data: None,
            payment_data: None,
        },
        refusal_reason: None,
        refusal_reason_code: None,
        psp_reference: Some("psp_1".to_string()),
        merchant_reference: None,
        additional_data: None,
    };
    let (status, error, data) = redirection_response_at(&response, false, 200, None, 1_000).unwrap();
    assert_eq!(status, AttemptStatus::AuthenticationPending);
    assert!(error.is_none());
    match data.redirection_data {
        Some(RedirectForm::Form { endpoint, method, form_fields }) => {
            assert_eq!(endpoint, "https://checkout.example/pay?a=1&b=2&a=3");
            assert!(matches!(method, Method::Get));
            assert_eq!(form_fields, vec![("a".to_string(), "3".to_string()), ("b".to_string(), "2".to_string())]);
        },
        _ => panic!("a redirection form"),
    }
    match data.connector_metadata {
        Some(ConnectorMetadata::WaitScreen(w)) => {
            assert_eq!(w.display_from_timestamp, 1_000);
            assert_eq!(w.display_to_timestamp, Some(60_000_001_000));
        },
        _ => panic!("BLIK shows a wait screen"),
    }
}
