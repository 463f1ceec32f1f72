//! BitPay: invoice requests for card payments, the attempt status of an
//! invoice, and its redirection page.

use vstd::prelude::*;

use crate::common_enums::AttemptStatus;
use crate::router_data::{
    ConnectorError, ErrorResponse, PaymentMethodData, PaymentsAuthorizeData, PaymentsOutcome, RedirectForm,
    ResponseId, TransactionResponseData,
};
use crate::text::{clone_opt, concat, concat3, opt_str, str_eq};

verus! {

/// The BitPay connector.
pub struct Bitpay;

impl Bitpay {
    pub fn new() -> (r: &'static Self) {
        &Bitpay {}
    }

    /// Where an invoice is created.
    pub fn get_url(&self, base_url: &str) -> (r: String)
        ensures
            r@ == base_url@ + "/invoices"@,
    {
        concat(base_url, "/invoices")
    }
}

/// An invoice request.
#[derive(Clone, Debug)]
pub struct BitpayPaymentsRequest {
    pub token: String,
    pub amount: i64,
    pub currency: String,
    pub order_id: String,
    pub description: Option<String>,
    pub redirect_url: Option<String>,
    pub notification_url: Option<String>,
}

impl BitpayPaymentsRequest {
    /// The invoice of a card payment, with the card number as token; other
    /// payment methods are not implemented.
    pub fn try_from(item: &PaymentsAuthorizeData) -> (r: Result<Self, ConnectorError>)
        ensures
            match item.payment_method_data {
                PaymentMethodData::Card(card) => r matches Ok(req) && req.token@ == card.card_number@
                    && req.amount == item.minor_amount && req.currency@ == item.currency.spec_code()
                    && req.order_id@ == item.connector_request_reference_id@
                    && opt_str(req.description) == opt_str(item.description)
                    && opt_str(req.redirect_url) == opt_str(item.router_return_url)
                    && opt_str(req.notification_url) == opt_str(item.webhook_url),
                _ => r matches Err(ConnectorError::NotImplemented(m)) && m@ == "Only card payments are supported for now"@,
            },
    {
        let card_token = match &item.payment_method_data {
            PaymentMethodData::Card(cc) => cc.card_number.clone(),
            _ => return Err(ConnectorError::NotImplemented(String::from_str("Only card payments are supported for now"))),
        };
        Ok(BitpayPaymentsRequest {
            token: card_token,
            amount: item.minor_amount,
            currency: String::from_str(item.currency.as_str()),
            order_id: item.connector_request_reference_id.clone(),
            description: clone_opt(&item.description),
            redirect_url: clone_opt(&item.router_return_url),
            notification_url: clone_opt(&item.webhook_url),
        })
    }
}

/// The answer to an invoice request.
#[derive(Clone, Debug)]
pub struct BitpayPaymentsResponse {
    pub status: String,
    pub id: String,
    pub url: Option<String>,
}

/// The attempt status of an invoice status.
pub open spec fn spec_bitpay_status(status: Seq<char>) -> AttemptStatus {
    if status == "paid"@ || status == "confirmed"@ || status == "complete"@ {
        AttemptStatus::Charged
    } else if status == "processing"@ {
        AttemptStatus::Pending
    } else if status == "expired"@ || status == "invalid"@ {
        AttemptStatus::Failure
    } else {
        AttemptStatus::Unresolved
    }
}

pub fn to_hyperswitch_status(bitpay_status: &str) -> (r: AttemptStatus)
    ensures
        r == spec_bitpay_status(bitpay_status@),
{
    if str_eq(bitpay_status, "paid") || str_eq(bitpay_status, "confirmed") || str_eq(bitpay_status, "complete") {
        AttemptStatus::Charged
    } else if str_eq(bitpay_status, "processing") {
        AttemptStatus::Pending
    } else if str_eq(bitpay_status, "expired") || str_eq(bitpay_status, "invalid") {
        AttemptStatus::Failure
    } else {
        AttemptStatus::Unresolved
    }
}

/// The page that sends the shopper on to a URL.
pub open spec fn redirect_page(url: Seq<char>) -> Seq<char> {
    "<script>window.location.href = '"@ + url + "';</script>"@
}

/// The response data of an invoice answer: the invoice, and the page that
/// sends the shopper to its URL.
pub fn payments_response_data(data: &BitpayPaymentsResponse, http_code: u16) -> (r: TransactionResponseData)
    ensures
        r.resource_id matches ResponseId::ConnectorTransactionId(id) && id@ == data.id@,
        match data.url {
            Some(u) => r.redirection_data matches Some(RedirectForm::Html { html_data }) && html_data@ == redirect_page(u@),
            None => r.redirection_data is None,
        },
        r.connector_metadata is None,
        r.network_txn_id is None,
        r.connector_response_reference_id is None,
        r.mandate_reference is None,
        r.status_code == http_code,
{
    let redirection_data = match &data.url {
        Some(u) => Some(RedirectForm::Html {
            html_data: concat3("<script>window.location.href = '", u.as_str(), "';</script>"),
        }),
        None => None,
    };
    TransactionResponseData {
        raw_connector_response: None,
        resource_id: ResponseId::ConnectorTransactionId(data.id.clone()),
        redirection_data,
        mandate_reference: None,
        connector_metadata: None,
        network_txn_id: None,
        connector_response_reference_id: None,
        status_code: http_code,
    }
}

/// The outcome of an invoice answer.
pub fn payments_response(payload: &BitpayPaymentsResponse, http_code: u16) -> (r: Result<PaymentsOutcome, ConnectorError>)
    ensures
        r matches Ok(o) && o.status == spec_bitpay_status(payload.status@) && (o.response matches Ok(d)
            && (d.resource_id matches ResponseId::ConnectorTransactionId(id) && id@ == payload.id@)
            && (match payload.url {
                Some(u) => d.redirection_data matches Some(RedirectForm::Html { html_data }) && html_data@ == redirect_page(u@),
                None => d.redirection_data is None,
            }) && d.status_code == http_code),
{
    let status = to_hyperswitch_status(payload.status.as_str());
    Ok(PaymentsOutcome { status, response: Ok(payments_response_data(payload, http_code)) })
}

/// The details of a BitPay error.
#[derive(Clone, Debug)]
pub struct BitpayErrorDetails {
    pub code: String,
    pub description: String,
    pub reason: String,
}

/// The error answer of BitPay.
#[derive(Clone, Debug)]
pub struct BitpayErrorResponse {
    pub error: BitpayErrorDetails,
}

impl Bitpay {
    pub fn build_error_response(&self, response: &BitpayErrorResponse, http_code: u16) -> (r: ErrorResponse)
        ensures
            r.status_code == http_code,
            r.code@ == response.error.code@,
            r.message@ == response.error.description@,
            opt_str(r.reason) == Some(response.error.reason@),
            r.attempt_status is None,
            r.connector_transaction_id is None,
    {
        ErrorResponse {
            raw_connector_response: None,
            status_code: http_code,
            code: response.error.code.clone(),
            message: response.error.description.clone(),
            reason: Some(response.error.reason.clone()),
            attempt_status: None,
            connector_transaction_id: None,
        }
    }
}

impl Bitpay {
    /// The name of the connector.
    pub fn id(&self) -> (r: &'static str)
        ensures
            r@ == "bitpay"@,
    {
        "bitpay"
    }
}

} // verus!
