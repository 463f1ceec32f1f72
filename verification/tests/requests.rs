use connector_service::common_enums::{AuthenticationType, CaptureMethod, Currency, PaymentMethodType};
use connector_service::connectors::adyen::{get_defence_documents, get_risk_data};
use connector_service::connectors::authorizedotnet::{
    create_regular_transaction_request, PaymentDetails, TransactionType,
};
use connector_service::router_data::{
    Card, ConnectorAuthType, ConnectorError, Metadata, MetadataEntry, MetadataValue, PaymentMethodData, PaymentsAuthorizeData,
    SubmitEvidenceData,
};

fn anet_authorize_data(capture_method: Option<CaptureMethod>) -> PaymentsAuthorizeData {
    PaymentsAuthorizeData {
        connector_auth_type: ConnectorAuthType::BodyKey { api_key: "login".to_string(), key1: "key".to_string() },
        connector_request_reference_id: "ref_0123456789abcdefghijKLM".to_string(),
        payment_id: "pay_1".to_string(),
        merchant_id: "m_1".to_string(),
        description: None,
        customer_id: None,
        customer_name: None,
        email: Some("a@b.co".to_string()),
        currency: Currency::USD,
        minor_amount: 1000,
        payment_method_data: PaymentMethodData::Card(Card {
            card_number: "4111111111111111".to_string(),
            card_exp_month: "07".to_string(),
            card_exp_year: "30".to_string(),
            card_cvc: "999".to_string(),
        }),
        payment_method_type: Some(PaymentMethodType::Credit),
        capture_method,
        setup_future_usage: None,
        off_session: None,
        has_mandate_reference: false,
        auth_type: AuthenticationType::NoThreeDs,
        billing: None,
        metadata: None,
        router_return_url: None,
        webhook_url: None,
        statement_descriptor: None,
        merchant_order_reference_id: None,
        test_mode: None,
        connector_meta_data: None,
        browser_info: None,
        enrolled_for_3ds: false,
        access_token: None,
    }
}

#[test]
fn anet_regular_transaction_request() {
    let t = create_regular_transaction_request(&anet_authorize_data(Some(CaptureMethod::Automatic)), Currency::USD).unwrap();
    assert_eq!(t.transaction_type, TransactionType::AuthCaptureTransaction);
    assert_eq!(t.amount, Some("1000".to_string()));
    assert_eq!(t.currency_code, Some(Currency::USD));
    match t.payment {
        Some(PaymentDetails::CreditCard(cc)) => {
            assert_eq!(cc.card_number, "4111111111111111");
            assert_eq!(cc.expiration_date, "2030-07");
            assert_eq!(cc.card_code, Some("999".to_string()));
        },
        None => panic!("a card payment"),
    }
    let order = t.order.unwrap();
    assert_eq!(order.invoice_number, "ref_0123456789abcdef");
    assert_eq!(order.description, "Payment");
    let customer = t.customer.unwrap();
    assert_eq!(customer.id, "anonymous_customer");
    assert_eq!(customer.email, Some("a@b.co".to_string()));
    assert!(t.bill_to.is_none());
    assert!(t.profile.is_none());
    let manual = create_regular_transaction_request(&anet_authorize_data(Some(CaptureMethod::Manual)), Currency::USD).unwrap();
    assert_eq!(manual.transaction_type, TransactionType::AuthOnlyTransaction);
}

#[test]
fn anet_regular_transaction_refusals() {
    assert!(matches!(
        create_regular_transaction_request(&anet_authorize_data(Some(CaptureMethod::Scheduled)), Currency::USD),
        Err(ConnectorError::NotSupported { .. })
    ));
    let mut no_ref = anet_authorize_data(None);
    no_ref.connector_request_reference_id = String::new();
    assert!(matches!(
        create_regular_transaction_request(&no_ref, Currency::USD),
        Err(ConnectorError::MissingRequiredField { .. })
    ));
    let mut wallet = anet_authorize_data(None);
    wallet.payment_method_data = PaymentMethodData::Wallet(connector_service::router_data::WalletData::Other);
    assert!(matches!(create_regular_transaction_request(&wallet, Currency::USD), Err(ConnectorError::RequestEncodingFailed)));
}

#[test]
fn adyen_risk_data_from_metadata() {
    let metadata = Metadata::new(vec![
        MetadataEntry { key: "riskdata.basket.item1.itemID".to_string(), value: MetadataValue::Str("sku-1".to_string()) },
        MetadataEntry { key: "riskdata.basket.item1.quantity".to_string(), value: MetadataValue::Str("2".to_string()) },
        MetadataEntry { key: "unrelated".to_string(), value: MetadataValue::Str("x".to_string()) },
    ])
    .unwrap();
    let risk = get_risk_data(&metadata).unwrap();
    assert_eq!(risk.item_i_d, Some("sku-1".to_string()));
    assert_eq!(risk.quantity, Some("2".to_string()));
    assert_eq!(risk.product_title, None);
}

fn no_evidence() -> SubmitEvidenceData {
    SubmitEvidenceData {
        connector_auth_type: ConnectorAuthType::NoKey,
        connector_dispute_id: "d_1".to_string(),
        shipping_documentation: None,
        shipping_documentation_provider_file_id: None,
        receipt: None,
        receipt_file_type: None,
        invoice_showing_distinct_transactions: None,
        invoice_showing_distinct_transactions_file_type: None,
        customer_communication: None,
        customer_communication_file_type: None,
        refund_policy: None,
        refund_policy_file_type: None,
        recurring_transaction_agreement: None,
        recurring_transaction_agreement_file_type: None,
        uncategorized_file: None,
        uncategorized_file_type: None,
        cancellation_policy: None,
        cancellation_policy_file_type: None,
        customer_signature: None,
        customer_signature_file_type: None,
        service_documentation: None,
        service_documentation_file_type: None,
    }
}

#[test]
fn adyen_defence_documents_in_base64() {
    assert!(get_defence_documents(&no_evidence()).is_none());
    let mut evidence = no_evidence();
    evidence.receipt = Some(vec![1, 2, 3]);
    evidence.receipt_file_type = Some("pdf".to_string());
    evidence.service_documentation = Some(b"hello".to_vec());
    let docs = get_defence_documents(&evidence).unwrap();
    assert_eq!(docs.len(), 2);
    assert_eq!(docs[0].content, "AQID");
    assert_eq!(docs[0].content_type, Some("pdf".to_string()));
    assert_eq!(docs[0].defense_document_type_code, "DefenseMaterial");
    assert_eq!(docs[1].content, "aGVsbG8=");
    assert_eq!(docs[1].content_type, None);
}
