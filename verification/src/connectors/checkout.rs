//! Checkout.com: card payment requests, the attempt status of a payment in its
//! three contexts (authorization, synchronisation by intent, synchronisation by
//! balances), and the handling of each flow's answer.

use vstd::prelude::*;

use crate::common_enums::{AttemptStatus, CaptureMethod, RefundStatus};
use crate::consts::{NO_ERROR_CODE, NO_ERROR_MESSAGE};
use crate::router_data::{
    Card, CheckoutPaymentIntent, ConnectorAuthType, ConnectorError, ConnectorMetadata, ErrorResponse,
    PaymentMethodData, PaymentVoidData, PaymentsAuthorizeData, PaymentsCaptureData, PaymentsOutcome,
    RefundsData, RefundsOutcome, RefundsResponseData, ResponseId, TransactionResponseData,
};
use crate::text::{join, join_with, opt_str, string_views};

verus! {

/// The Checkout.com connector.
pub struct Checkout;

/// What a payment records for later syncs: the intent they follow.
#[derive(Clone, Copy, Debug, PartialEq, Eq, Structural)]
pub struct CheckoutMeta {
    pub psync_flow: CheckoutPaymentIntent,
}

/// The metadata that records the intent a later sync follows.
pub open spec fn psync_meta(intent: CheckoutPaymentIntent) -> ConnectorMetadata {
    ConnectorMetadata::CheckoutMeta(CheckoutMeta { psync_flow: intent })
}

/// A payment sync request: its body is empty.
#[derive(Clone, Copy, Debug)]
pub struct CheckoutSyncRequest {}

/// A refund sync request: its body is empty.
#[derive(Clone, Copy, Debug)]
pub struct CheckoutRefundSyncRequest {}

impl Checkout {
    pub fn new() -> (r: &'static Self) {
        &Checkout {}
    }
}

/// Checkout.com credentials: a secret key, the processing channel and the API secret.
#[derive(Clone, Debug)]
pub struct CheckoutAuthType {
    pub api_key: String,
    pub processing_channel_id: String,
    pub api_secret: String,
}

impl CheckoutAuthType {
    /// Checkout.com credentials come as a signature key whose `key1` is the
    /// processing channel.
    pub fn try_from(auth_type: &ConnectorAuthType) -> (r: Result<Self, ConnectorError>)
        ensures
            match *auth_type {
                ConnectorAuthType::SignatureKey { api_key, key1, api_secret } => r matches Ok(a)
                    && a.api_key@ == api_key@ && a.processing_channel_id@ == key1@
                    && a.api_secret@ == api_secret@,
                _ => r matches Err(ConnectorError::FailedToObtainAuthType),
            },
    {
        match auth_type {
            ConnectorAuthType::SignatureKey { api_key, key1, api_secret } => Ok(
                CheckoutAuthType {
                    api_key: api_key.clone(),
                    processing_channel_id: key1.clone(),
                    api_secret: api_secret.clone(),
                },
            ),
            _ => Err(ConnectorError::FailedToObtainAuthType),
        }
    }
}

/// Status of a payment at Checkout.com.
#[derive(Clone, Copy, Debug, PartialEq, Eq, Structural)]
pub enum CheckoutPaymentStatus {
    Authorized,
    Pending,
    CardVerified,
    Declined,
    Captured,
    RetryScheduled,
    Voided,
    PartiallyCaptured,
    PartiallyRefunded,
    Refunded,
    Canceled,
    Expired,
}

impl Default for CheckoutPaymentStatus {
    fn default() -> (r: Self)
        ensures
            r == CheckoutPaymentStatus::Pending,
    {
        CheckoutPaymentStatus::Pending
    }
}

/// The balances of a payment.
#[derive(Clone, Copy, Debug, PartialEq, Eq, Structural)]
pub struct Balances {
    pub available_to_capture: i32,
}

/// The attempt status of every payment status but `Authorized`, which is the
/// same in all contexts.
pub open spec fn settled_attempt_status(status: CheckoutPaymentStatus) -> AttemptStatus {
    match status {
        CheckoutPaymentStatus::Captured | CheckoutPaymentStatus::PartiallyRefunded
        | CheckoutPaymentStatus::Refunded => AttemptStatus::Charged,
        CheckoutPaymentStatus::PartiallyCaptured => AttemptStatus::PartialCharged,
        CheckoutPaymentStatus::Declined | CheckoutPaymentStatus::Expired
        | CheckoutPaymentStatus::Canceled => AttemptStatus::Failure,
        CheckoutPaymentStatus::Pending => AttemptStatus::AuthenticationPending,
        CheckoutPaymentStatus::CardVerified | CheckoutPaymentStatus::RetryScheduled => AttemptStatus::Pending,
        CheckoutPaymentStatus::Voided => AttemptStatus::Voided,
        CheckoutPaymentStatus::Authorized => AttemptStatus::Authorized,
    }
}

fn settled_status(status: CheckoutPaymentStatus) -> (r: AttemptStatus)
    ensures
        r == settled_attempt_status(status),
{
    match status {
        CheckoutPaymentStatus::Captured | CheckoutPaymentStatus::PartiallyRefunded
        | CheckoutPaymentStatus::Refunded => AttemptStatus::Charged,
        CheckoutPaymentStatus::PartiallyCaptured => AttemptStatus::PartialCharged,
        CheckoutPaymentStatus::Declined | CheckoutPaymentStatus::Expired
        | CheckoutPaymentStatus::Canceled => AttemptStatus::Failure,
        CheckoutPaymentStatus::Pending => AttemptStatus::AuthenticationPending,
        CheckoutPaymentStatus::CardVerified | CheckoutPaymentStatus::RetryScheduled => AttemptStatus::Pending,
        CheckoutPaymentStatus::Voided => AttemptStatus::Voided,
        CheckoutPaymentStatus::Authorized => AttemptStatus::Authorized,
    }
}

/// The attempt status after an authorization: an authorized payment that is
/// captured automatically (or by default) is still pending its capture.
pub open spec fn spec_attempt_status_cap(status: CheckoutPaymentStatus, capture_method: Option<CaptureMethod>) -> AttemptStatus {
    if status == CheckoutPaymentStatus::Authorized {
        if capture_method == Some(CaptureMethod::Automatic) || capture_method is None {
            AttemptStatus::Pending
        } else {
            AttemptStatus::Authorized
        }
    } else {
        settled_attempt_status(status)
    }
}

/// The attempt status of a synchronised payment by the intent it was made with.
pub open spec fn spec_attempt_status_intent(status: CheckoutPaymentStatus, psync_flow: CheckoutPaymentIntent) -> AttemptStatus {
    if status == CheckoutPaymentStatus::Authorized {
        if psync_flow == CheckoutPaymentIntent::Capture {
            AttemptStatus::Pending
        } else {
            AttemptStatus::Authorized
        }
    } else {
        settled_attempt_status(status)
    }
}

/// The attempt status of a synchronised payment by its balances: an authorized
/// payment with nothing left to capture is charged.
pub open spec fn spec_attempt_status_bal(status: CheckoutPaymentStatus, balances: Option<Balances>) -> AttemptStatus {
    if status == CheckoutPaymentStatus::Authorized {
        if balances == Some(Balances { available_to_capture: 0 }) {
            AttemptStatus::Charged
        } else {
            AttemptStatus::Authorized
        }
    } else {
        settled_attempt_status(status)
    }
}

pub fn get_attempt_status_cap(item: (CheckoutPaymentStatus, Option<CaptureMethod>)) -> (r: AttemptStatus)
    ensures
        r == spec_attempt_status_cap(item.0, item.1),
{
    let (status, capture_method) = item;
    match status {
        CheckoutPaymentStatus::Authorized => {
            let automatic = match capture_method {
                Some(CaptureMethod::Automatic) | None => true,
                Some(_) => false,
            };
            if automatic {
                AttemptStatus::Pending
            } else {
                AttemptStatus::Authorized
            }
        },
        _ => settled_status(status),
    }
}

pub fn get_attempt_status_intent(item: (CheckoutPaymentStatus, CheckoutPaymentIntent)) -> (r: AttemptStatus)
    ensures
        r == spec_attempt_status_intent(item.0, item.1),
{
    let (status, psync_flow) = item;
    match status {
        CheckoutPaymentStatus::Authorized => {
            if psync_flow == CheckoutPaymentIntent::Capture {
                AttemptStatus::Pending
            } else {
                AttemptStatus::Authorized
            }
        },
        _ => settled_status(status),
    }
}

pub fn get_attempt_status_bal(item: (CheckoutPaymentStatus, Option<Balances>)) -> (r: AttemptStatus)
    ensures
        r == spec_attempt_status_bal(item.0, item.1),
{
    let (status, balances) = item;
    match status {
        CheckoutPaymentStatus::Authorized => {
            match balances {
                Some(Balances { available_to_capture: 0 }) => AttemptStatus::Charged,
                _ => AttemptStatus::Authorized,
            }
        },
        _ => settled_status(status),
    }
}

impl CheckoutPaymentStatus {
    /// The attempt status of a payment status taken alone (by balances, with none known).
    pub fn to_attempt_status(self) -> (r: AttemptStatus)
        ensures
            r == spec_attempt_status_bal(self, None),
    {
        get_attempt_status_bal((self, None))
    }
}

/// The intent a later sync follows: that of the connector metadata, or
/// `Capture` where there is none. Metadata of another connector is refused.
pub open spec fn spec_to_connector_meta(meta: Option<ConnectorMetadata>) -> Option<CheckoutPaymentIntent> {
    match meta {
        None => Some(CheckoutPaymentIntent::Capture),
        Some(ConnectorMetadata::CheckoutMeta(CheckoutMeta { psync_flow: intent })) => Some(intent),
        Some(_) => None,
    }
}

pub fn to_connector_meta(connector_meta: &Option<ConnectorMetadata>) -> (r: Result<CheckoutPaymentIntent, ConnectorError>)
    ensures
        match spec_to_connector_meta(*connector_meta) {
            Some(intent) => r == Ok::<CheckoutPaymentIntent, ConnectorError>(intent),
            None => r matches Err(ConnectorError::ResponseDeserializationFailed),
        },
{
    match connector_meta {
        None => Ok(CheckoutPaymentIntent::Capture),
        Some(ConnectorMetadata::CheckoutMeta(meta)) => Ok(meta.psync_flow),
        Some(_) => Err(ConnectorError::ResponseDeserializationFailed),
    }
}

/// The intent a capture method records for later syncs; scheduled captures are
/// not supported.
pub open spec fn spec_connector_meta(capture_method: CaptureMethod) -> Option<CheckoutPaymentIntent> {
    match capture_method {
        CaptureMethod::Automatic | CaptureMethod::SequentialAutomatic => Some(CheckoutPaymentIntent::Capture),
        CaptureMethod::Manual | CaptureMethod::ManualMultiple => Some(CheckoutPaymentIntent::Authorize),
        CaptureMethod::Scheduled => None,
    }
}

pub fn get_connector_meta(capture_method: CaptureMethod) -> (r: Result<ConnectorMetadata, ConnectorError>)
    ensures
        match spec_connector_meta(capture_method) {
            Some(intent) => r == Ok::<ConnectorMetadata, ConnectorError>(psync_meta(intent)),
            None => r matches Err(ConnectorError::CaptureMethodNotSupported),
        },
{
    match capture_method {
        CaptureMethod::Automatic | CaptureMethod::SequentialAutomatic => Ok(
            ConnectorMetadata::CheckoutMeta(CheckoutMeta { psync_flow: CheckoutPaymentIntent::Capture }),
        ),
        CaptureMethod::Manual | CaptureMethod::ManualMultiple => Ok(
            ConnectorMetadata::CheckoutMeta(CheckoutMeta { psync_flow: CheckoutPaymentIntent::Authorize }),
        ),
        CaptureMethod::Scheduled => Err(ConnectorError::CaptureMethodNotSupported),
    }
}


/// Kind of payment source.
#[derive(Clone, Copy, Debug, PartialEq, Eq, Structural)]
pub enum CheckoutSourceTypes {
    Card,
    Token,
}

/// A card as a payment source.
#[derive(Clone, Debug)]
pub struct CardSource {
    pub source_type: CheckoutSourceTypes,
    pub number: String,
    pub expiry_month: String,
    pub expiry_year: String,
    pub cvv: String,
}

/// A card payment request.
#[derive(Clone, Debug)]
pub struct CheckoutPaymentsRequest {
    pub source: CardSource,
    pub amount: i64,
    pub currency: String,
    pub processing_channel_id: String,
    pub capture: bool,
    pub reference: String,
}

/// Whether a payment with this capture method is captured at once.
pub open spec fn captures_at_once(capture_method: Option<CaptureMethod>) -> bool {
    capture_method == Some(CaptureMethod::Automatic) || capture_method is None
}

/// The processing channel of Checkout.com credentials.
pub open spec fn processing_channel(auth: ConnectorAuthType) -> Option<Seq<char>> {
    match auth {
        ConnectorAuthType::SignatureKey { key1, .. } => Some(key1@),
        _ => None,
    }
}

impl CheckoutPaymentsRequest {
    /// The request of a card payment; other payment methods are not
    /// implemented, and the credentials must be a signature key.
    pub fn try_from(item: &PaymentsAuthorizeData) -> (r: Result<Self, ConnectorError>)
        ensures
            match item.payment_method_data {
                PaymentMethodData::Card(card) => match processing_channel(item.connector_auth_type) {
                    Some(channel) => r matches Ok(req) && req.source.source_type == CheckoutSourceTypes::Card
                        && req.source.number@ == card.card_number@
                        && req.source.expiry_month@ == card.card_exp_month@
                        && req.source.expiry_year@ == card.card_exp_year@
                        && req.source.cvv@ == card.card_cvc@ && req.amount == item.minor_amount
                        && req.currency@ == item.currency.spec_code()
                        && req.processing_channel_id@ == channel
                        && req.capture == captures_at_once(item.capture_method)
                        && req.reference@ == item.connector_request_reference_id@,
                    None => r matches Err(ConnectorError::FailedToObtainAuthType),
                },
                _ => r matches Err(ConnectorError::NotImplemented(m))
                    && m@ == "Payment method not supported by Checkout"@,
            },
    {
        let card = match &item.payment_method_data {
            PaymentMethodData::Card(card) => card,
            _ => {
                return Err(ConnectorError::NotImplemented(String::from_str("Payment method not supported by Checkout")));
            },
        };
        let source = CardSource {
            source_type: CheckoutSourceTypes::Card,
            number: card.card_number.clone(),
            expiry_month: card.card_exp_month.clone(),
            expiry_year: card.card_exp_year.clone(),
            cvv: card.card_cvc.clone(),
        };
        let capture = match item.capture_method {
            Some(CaptureMethod::Automatic) | None => true,
            Some(_) => false,
        };
        let auth_type = CheckoutAuthType::try_from(&item.connector_auth_type)?;
        Ok(
            CheckoutPaymentsRequest {
                source,
                amount: item.minor_amount,
                currency: String::from_str(item.currency.as_str()),
                processing_channel_id: auth_type.processing_channel_id,
                capture,
                reference: item.connector_request_reference_id.clone(),
            },
        )
    }
}

/// Whether a capture closes the payment or more captures may follow.
#[derive(Clone, Copy, Debug, PartialEq, Eq, Structural)]
pub enum CaptureType {
    Final,
    NonFinal,
}

/// A capture request.
#[derive(Clone, Debug)]
pub struct PaymentCaptureRequest {
    pub amount: Option<i64>,
    pub capture_type: Option<CaptureType>,
    pub processing_channel_id: String,
    pub reference: Option<String>,
}

impl PaymentCaptureRequest {
    /// A capture of the requested amount; one of several captures is not final
    /// and carries its own reference.
    pub fn try_from(item: &PaymentsCaptureData) -> (r: Result<Self, ConnectorError>)
        ensures
            match processing_channel(item.connector_auth_type) {
                Some(channel) => r matches Ok(req) && req.amount == Some(item.minor_amount_to_capture)
                    && req.capture_type == Some(if item.multiple_capture_reference is Some {
                        CaptureType::NonFinal
                    } else {
                        CaptureType::Final
                    }) && req.processing_channel_id@ == channel
                    && opt_str(req.reference) == opt_str(item.multiple_capture_reference),
                None => r matches Err(ConnectorError::FailedToObtainAuthType),
            },
    {
        let auth_type = CheckoutAuthType::try_from(&item.connector_auth_type)?;
        let capture_type = match &item.multiple_capture_reference {
            Some(_) => CaptureType::NonFinal,
            None => CaptureType::Final,
        };
        let reference = match &item.multiple_capture_reference {
            Some(r) => Some(r.clone()),
            None => None,
        };
        Ok(
            PaymentCaptureRequest {
                amount: Some(item.minor_amount_to_capture),
                capture_type: Some(capture_type),
                processing_channel_id: auth_type.processing_channel_id,
                reference,
            },
        )
    }
}

/// A refund request.
#[derive(Clone, Debug)]
pub struct RefundRequest {
    pub amount: Option<i64>,
    pub reference: String,
}

impl RefundRequest {
    pub fn try_from(item: &RefundsData) -> (r: Result<Self, ConnectorError>)
        ensures
            r matches Ok(req) && req.amount == Some(item.minor_refund_amount)
                && req.reference@ == item.refund_id@,
    {
        Ok(RefundRequest { amount: Some(item.minor_refund_amount), reference: item.refund_id.clone() })
    }
}

/// A void request.
#[derive(Clone, Debug)]
pub struct PaymentVoidRequest {
    pub reference: String,
}

impl PaymentVoidRequest {
    pub fn try_from(item: &PaymentVoidData) -> (r: Result<Self, ConnectorError>)
        ensures
            r matches Ok(req) && req.reference@ == item.connector_transaction_id@,
    {
        Ok(PaymentVoidRequest { reference: item.connector_transaction_id.clone() })
    }
}


/// The answer to a payment or payment sync request.
#[derive(Clone, Debug)]
pub struct CheckoutPaymentsResponse {
    pub id: String,
    pub amount: Option<i64>,
    pub currency: Option<String>,
    pub status: CheckoutPaymentStatus,
    pub reference: Option<String>,
    pub response_code: Option<String>,
    pub response_summary: Option<String>,
    pub action_id: Option<String>,
    pub balances: Option<Balances>,
}

/// The error a failed payment answer gives: its response code and summary.
pub open spec fn payment_error_is(e: ErrorResponse, response: CheckoutPaymentsResponse, http_code: u16) -> bool {
    &&& e.status_code == http_code
    &&& e.code@ == (match response.response_code {
        Some(c) => c@,
        None => NO_ERROR_CODE@,
    })
    &&& e.message@ == (match response.response_summary {
        Some(m) => m@,
        None => NO_ERROR_MESSAGE@,
    })
    &&& opt_str(e.reason) == opt_str(response.response_summary)
    &&& e.attempt_status is None
    &&& opt_str(e.connector_transaction_id) == Some(response.id@)
}

/// The response data of a payment answer that did not fail.
pub open spec fn payment_data_is(d: TransactionResponseData, response: CheckoutPaymentsResponse, intent: CheckoutPaymentIntent, http_code: u16) -> bool {
    &&& d.resource_id matches ResponseId::ConnectorTransactionId(id) && id@ == response.id@
    &&& d.redirection_data is None
    &&& d.mandate_reference is None
    &&& d.connector_metadata == Some(psync_meta(intent))
    &&& d.network_txn_id is None
    &&& opt_str(d.connector_response_reference_id) == Some(match response.reference {
        Some(r) => r@,
        None => response.id@,
    })
    &&& d.status_code == http_code
}

fn payment_error(response: &CheckoutPaymentsResponse, http_code: u16) -> (e: ErrorResponse)
    ensures
        payment_error_is(e, *response, http_code),
{
    ErrorResponse {
        raw_connector_response: None,
        status_code: http_code,
        code: match &response.response_code {
            Some(c) => c.clone(),
            None => String::from_str(NO_ERROR_CODE),
        },
        message: match &response.response_summary {
            Some(m) => m.clone(),
            None => String::from_str(NO_ERROR_MESSAGE),
        },
        reason: match &response.response_summary {
            Some(m) => Some(m.clone()),
            None => None,
        },
        attempt_status: None,
        connector_transaction_id: Some(response.id.clone()),
    }
}

fn payment_data(response: &CheckoutPaymentsResponse, intent: CheckoutPaymentIntent, http_code: u16) -> (d: TransactionResponseData)
    ensures
        payment_data_is(d, *response, intent, http_code),
{
    TransactionResponseData {
        raw_connector_response: None,
        resource_id: ResponseId::ConnectorTransactionId(response.id.clone()),
        redirection_data: None,
        mandate_reference: None,
        connector_metadata: Some(ConnectorMetadata::CheckoutMeta(CheckoutMeta { psync_flow: intent })),
        network_txn_id: None,
        connector_response_reference_id: Some(
            match &response.reference {
                Some(r) => r.clone(),
                None => response.id.clone(),
            },
        ),
        status_code: http_code,
    }
}

/// The capture method of a payment, or the default one.
pub open spec fn capture_method_or_default(capture_method: Option<CaptureMethod>) -> CaptureMethod {
    match capture_method {
        Some(c) => c,
        None => CaptureMethod::Automatic,
    }
}

/// The outcome of an authorization answer. A failed payment gives its error;
/// otherwise the answer records the intent of the capture method, which must
/// not be scheduled.
pub fn authorize_response(
    response: &CheckoutPaymentsResponse,
    capture_method: Option<CaptureMethod>,
    http_code: u16,
) -> (r: Result<PaymentsOutcome, ConnectorError>)
    ensures
        ({
            let status = spec_attempt_status_cap(response.status, capture_method);
            if status == AttemptStatus::Failure {
                r matches Ok(o) && o.status == status && (o.response matches Err(e) && payment_error_is(
                    e,
                    *response,
                    http_code,
                ))
            } else {
                match spec_connector_meta(capture_method_or_default(capture_method)) {
                    Some(intent) => r matches Ok(o) && o.status == status && (o.response matches Ok(d)
                        && payment_data_is(d, *response, intent, http_code)),
                    None => r matches Err(ConnectorError::CaptureMethodNotSupported),
                }
            }
        }),
{
    let status = get_attempt_status_cap((response.status, capture_method));
    if status == AttemptStatus::Failure {
        return Ok(PaymentsOutcome { status, response: Err(payment_error(response, http_code)) });
    }
    let method = match capture_method {
        Some(c) => c,
        None => CaptureMethod::default(),
    };
    let intent = match get_connector_meta(method)? {
        ConnectorMetadata::CheckoutMeta(CheckoutMeta { psync_flow: intent }) => intent,
        _ => CheckoutPaymentIntent::Capture,
    };
    Ok(PaymentsOutcome { status, response: Ok(payment_data(response, intent, http_code)) })
}

/// The outcome of a payment sync answer. The status goes by the balances where
/// the answer has them, else by the intent recorded at authorization.
pub fn psync_response(
    response: &CheckoutPaymentsResponse,
    connector_meta: &Option<ConnectorMetadata>,
    http_code: u16,
) -> (r: Result<PaymentsOutcome, ConnectorError>)
    ensures
        match spec_to_connector_meta(*connector_meta) {
            None => r matches Err(ConnectorError::ResponseDeserializationFailed),
            Some(intent) => {
                let status = match response.balances {
                    Some(b) => spec_attempt_status_bal(response.status, Some(b)),
                    None => spec_attempt_status_intent(response.status, intent),
                };
                r matches Ok(o) && o.status == status && if status == AttemptStatus::Failure {
                    o.response matches Err(e) && payment_error_is(e, *response, http_code)
                } else {
                    o.response matches Ok(d) && payment_data_is(d, *response, intent, http_code)
                }
            },
        },
{
    let intent = to_connector_meta(connector_meta)?;
    let status = match response.balances {
        Some(b) => get_attempt_status_bal((response.status, Some(b))),
        None => get_attempt_status_intent((response.status, intent)),
    };
    if status == AttemptStatus::Failure {
        Ok(PaymentsOutcome { status, response: Err(payment_error(response, http_code)) })
    } else {
        Ok(PaymentsOutcome { status, response: Ok(payment_data(response, intent, http_code)) })
    }
}

/// The answer to a capture request.
#[derive(Clone, Debug)]
pub struct PaymentCaptureResponse {
    pub action_id: String,
    pub reference: Option<String>,
}

/// The transaction a capture answer reports on: the capture action of one of
/// several captures, else the captured payment (or the action where the
/// payment id is not a transaction id).
pub open spec fn capture_resource_id(response: PaymentCaptureResponse, request: PaymentsCaptureData) -> Seq<char> {
    if request.multiple_capture_reference is Some {
        response.action_id@
    } else {
        match request.connector_transaction_id {
            ResponseId::ConnectorTransactionId(id) => id@,
            _ => response.action_id@,
        }
    }
}

/// The outcome of a capture answer and the amount captured: an accepted
/// capture (HTTP 202) charged the requested amount; any other answer leaves the
/// payment pending.
pub fn capture_response(
    response: &PaymentCaptureResponse,
    request: &PaymentsCaptureData,
    http_code: u16,
) -> (r: (PaymentsOutcome, Option<i64>))
    ensures
        r.0.status == (if http_code == 202 { AttemptStatus::Charged } else { AttemptStatus::Pending }),
        r.1 == (if http_code == 202 { Some(request.minor_amount_to_capture) } else { None }),
        r.0.response matches Ok(d) && (d.resource_id matches ResponseId::ConnectorTransactionId(id)
            && id@ == capture_resource_id(*response, *request)) && d.redirection_data is None
            && d.mandate_reference is None
            && d.connector_metadata == Some(psync_meta(CheckoutPaymentIntent::Capture))
            && d.network_txn_id is None
            && opt_str(d.connector_response_reference_id) == opt_str(response.reference)
            && d.status_code == http_code,
{
    let (status, amount_captured) = if http_code == 202 {
        (AttemptStatus::Charged, Some(request.minor_amount_to_capture))
    } else {
        (AttemptStatus::Pending, None)
    };
    let resource_id = match &request.multiple_capture_reference {
        Some(_) => response.action_id.clone(),
        None => match &request.connector_transaction_id {
            ResponseId::ConnectorTransactionId(id) => id.clone(),
            _ => response.action_id.clone(),
        },
    };
    let data = TransactionResponseData {
        raw_connector_response: None,
        resource_id: ResponseId::ConnectorTransactionId(resource_id),
        redirection_data: None,
        mandate_reference: None,
        connector_metadata: Some(ConnectorMetadata::CheckoutMeta(CheckoutMeta { psync_flow: CheckoutPaymentIntent::Capture })),
        network_txn_id: None,
        connector_response_reference_id: match &response.reference {
            Some(r) => Some(r.clone()),
            None => None,
        },
        status_code: http_code,
    };
    (PaymentsOutcome { status, response: Ok(data) }, amount_captured)
}

/// The answer to a void request.
#[derive(Clone, Debug)]
pub struct PaymentVoidResponse {
    pub status: u16,
    pub action_id: String,
    pub reference: String,
}

impl PaymentVoidResponse {
    /// A void is done when Checkout.com accepted it (HTTP 202).
    pub fn to_attempt_status(&self) -> (r: AttemptStatus)
        ensures
            r == (if self.status == 202 { AttemptStatus::Voided } else { AttemptStatus::VoidFailed }),
    {
        if self.status == 202 {
            AttemptStatus::Voided
        } else {
            AttemptStatus::VoidFailed
        }
    }
}

/// The outcome of a void answer.
pub fn void_response(response: &PaymentVoidResponse, http_code: u16) -> (r: PaymentsOutcome)
    ensures
        r.status == (if http_code == 202 { AttemptStatus::Voided } else { AttemptStatus::VoidFailed }),
        r.response matches Ok(d) && (d.resource_id matches ResponseId::ConnectorTransactionId(id)
            && id@ == response.action_id@) && d.redirection_data is None && d.mandate_reference is None
            && d.connector_metadata == Some(psync_meta(CheckoutPaymentIntent::Authorize))
            && d.network_txn_id is None && d.connector_response_reference_id is None
            && d.status_code == http_code,
{
    let answered = PaymentVoidResponse {
        status: http_code,
        action_id: response.action_id.clone(),
        reference: response.reference.clone(),
    };
    let status = answered.to_attempt_status();
    PaymentsOutcome {
        status,
        response: Ok(
            TransactionResponseData {
                raw_connector_response: None,
                resource_id: ResponseId::ConnectorTransactionId(answered.action_id),
                redirection_data: None,
                mandate_reference: None,
                connector_metadata: Some(ConnectorMetadata::CheckoutMeta(CheckoutMeta { psync_flow: CheckoutPaymentIntent::Authorize })),
                network_txn_id: None,
                connector_response_reference_id: None,
                status_code: http_code,
            },
        ),
    }
}

/// The answer to a refund request.
#[derive(Clone, Debug)]
pub struct RefundResponse {
    pub action_id: String,
    pub reference: String,
}

/// A refund answer together with its HTTP status.
#[derive(Clone, Debug)]
pub struct CheckoutRefundResponse {
    pub status: u16,
    pub response: RefundResponse,
}

impl CheckoutRefundResponse {
    /// A refund succeeded when Checkout.com accepted it (HTTP 202).
    pub fn to_refund_status(&self) -> (r: RefundStatus)
        ensures
            r == (if self.status == 202 { RefundStatus::Success } else { RefundStatus::Failure }),
    {
        if self.status == 202 {
            RefundStatus::Success
        } else {
            RefundStatus::Failure
        }
    }
}

/// The outcome of a refund answer.
pub fn refund_response(response: &RefundResponse, http_code: u16) -> (r: RefundsOutcome)
    ensures
        r.status == (if http_code == 202 { RefundStatus::Success } else { RefundStatus::Failure }),
        r.response matches Ok(d) && d.connector_refund_id@ == response.action_id@
            && d.refund_status == r.status && d.status_code == http_code,
{
    let answered = CheckoutRefundResponse { status: http_code, response: response.clone() };
    let refund_status = answered.to_refund_status();
    RefundsOutcome {
        status: refund_status,
        response: Ok(
            RefundsResponseData {
                raw_connector_response: None,
                connector_refund_id: response.action_id.clone(),
                refund_status,
                status_code: http_code,
            },
        ),
    }
}

/// A refund action as a refund sync reports it.
#[derive(Clone, Debug)]
pub struct ActionResponse {
    pub action_id: String,
    pub amount: i64,
    pub approved: Option<bool>,
    pub reference: Option<String>,
}

/// An approved refund succeeded, a declined one failed, one not yet decided is pending.
pub open spec fn spec_action_refund_status(approved: Option<bool>) -> RefundStatus {
    match approved {
        Some(true) => RefundStatus::Success,
        Some(false) => RefundStatus::Failure,
        None => RefundStatus::Pending,
    }
}

impl ActionResponse {
    pub fn to_refund_status(&self) -> (r: RefundStatus)
        ensures
            r == spec_action_refund_status(self.approved),
    {
        match self.approved {
            Some(true) => RefundStatus::Success,
            Some(false) => RefundStatus::Failure,
            None => RefundStatus::Pending,
        }
    }
}

/// The outcome of a refund sync answer.
pub fn rsync_response(response: &ActionResponse, http_code: u16) -> (r: RefundsOutcome)
    ensures
        r.status == spec_action_refund_status(response.approved),
        r.response matches Ok(d) && d.connector_refund_id@ == response.action_id@
            && d.refund_status == r.status && d.status_code == http_code,
{
    let refund_status = response.to_refund_status();
    RefundsOutcome {
        status: refund_status,
        response: Ok(
            RefundsResponseData {
                raw_connector_response: None,
                connector_refund_id: response.action_id.clone(),
                refund_status,
                status_code: http_code,
            },
        ),
    }
}


/// The error answer of Checkout.com.
#[derive(Clone, Debug)]
pub struct CheckoutErrorResponse {
    pub request_id: Option<String>,
    pub error_type: Option<String>,
    pub error_codes: Option<Vec<String>>,
}

impl Checkout {
    /// The error response of an error answer: its error type as the code, and
    /// its error codes joined by `, ` as the message (the error type where it
    /// has no codes).
    pub fn build_error_response(&self, response: &CheckoutErrorResponse, http_code: u16) -> (r: ErrorResponse)
        ensures
            r.status_code == http_code,
            r.code@ == (match response.error_type {
                Some(t) => t@,
                None => NO_ERROR_CODE@,
            }),
            r.message@ == (match response.error_codes {
                Some(codes) => join_with(string_views(codes@), ", "@),
                None => match response.error_type {
                    Some(t) => t@,
                    None => NO_ERROR_MESSAGE@,
                },
            }),
            r.reason is None,
            r.attempt_status is None,
            r.connector_transaction_id is None,
    {
        let code = match &response.error_type {
            Some(t) => t.clone(),
            None => String::from_str(NO_ERROR_CODE),
        };
        let message = match &response.error_codes {
            Some(codes) => join(codes, ", "),
            None => match &response.error_type {
                Some(t) => t.clone(),
                None => String::from_str(NO_ERROR_MESSAGE),
            },
        };
        ErrorResponse {
            raw_connector_response: None,
            status_code: http_code,
            code,
            message,
            reason: None,
            attempt_status: None,
            connector_transaction_id: None,
        }
    }
}


/// Every payment status but `Authorized` has the same attempt status whether it
/// is read after an authorization, by the intent of a sync or by balances.
pub proof fn lemma_status_contexts_agree(
    status: CheckoutPaymentStatus,
    capture_method: Option<CaptureMethod>,
    intent: CheckoutPaymentIntent,
    balances: Option<Balances>,
)
    requires
        status != CheckoutPaymentStatus::Authorized,
    ensures
        spec_attempt_status_cap(status, capture_method) == spec_attempt_status_intent(status, intent),
        spec_attempt_status_intent(status, intent) == spec_attempt_status_bal(status, balances),
{
}

/// A voided payment is voided in every context, and only a voided payment
/// is; a payment is charged after an authorization or on a sync by intent
/// exactly when it is captured, partially refunded or refunded.
pub proof fn lemma_voided_and_charged_statuses(
    status: CheckoutPaymentStatus,
    capture_method: Option<CaptureMethod>,
    intent: CheckoutPaymentIntent,
    balances: Option<Balances>,
)
    ensures
        spec_attempt_status_cap(status, capture_method) == AttemptStatus::Voided <==> status == CheckoutPaymentStatus::Voided,
        spec_attempt_status_intent(status, intent) == AttemptStatus::Voided <==> status == CheckoutPaymentStatus::Voided,
        spec_attempt_status_bal(status, balances) == AttemptStatus::Voided <==> status == CheckoutPaymentStatus::Voided,
        spec_attempt_status_cap(status, capture_method) == AttemptStatus::Charged <==> (status
            == CheckoutPaymentStatus::Captured || status == CheckoutPaymentStatus::PartiallyRefunded || status
            == CheckoutPaymentStatus::Refunded),
        spec_attempt_status_intent(status, intent) == AttemptStatus::Charged <==> (status
            == CheckoutPaymentStatus::Captured || status == CheckoutPaymentStatus::PartiallyRefunded || status
            == CheckoutPaymentStatus::Refunded),
        spec_attempt_status_bal(status, balances) == AttemptStatus::Charged <==> (status
            == CheckoutPaymentStatus::Captured || status == CheckoutPaymentStatus::PartiallyRefunded || status
            == CheckoutPaymentStatus::Refunded || (status == CheckoutPaymentStatus::Authorized && balances == Some(
            Balances { available_to_capture: 0 },
        ))),
{
}

/// An authorized payment is never charged in part nor failed, in any context:
/// it is pending, authorized, or (with nothing left to capture) charged.
pub proof fn lemma_authorized_outcomes(
    capture_method: Option<CaptureMethod>,
    intent: CheckoutPaymentIntent,
    balances: Option<Balances>,
)
    ensures
        spec_attempt_status_cap(CheckoutPaymentStatus::Authorized, capture_method) == AttemptStatus::Pending
            || spec_attempt_status_cap(CheckoutPaymentStatus::Authorized, capture_method) == AttemptStatus::Authorized,
        spec_attempt_status_intent(CheckoutPaymentStatus::Authorized, intent) == AttemptStatus::Pending
            || spec_attempt_status_intent(CheckoutPaymentStatus::Authorized, intent) == AttemptStatus::Authorized,
        spec_attempt_status_bal(CheckoutPaymentStatus::Authorized, balances) == AttemptStatus::Charged
            || spec_attempt_status_bal(CheckoutPaymentStatus::Authorized, balances) == AttemptStatus::Authorized,
{
}

/// The intent recorded at authorization is the one a later sync reads back:
/// for every capture method but `Scheduled`, the metadata that
/// `get_connector_meta` records gives that intent to `to_connector_meta`.
pub proof fn lemma_connector_meta_round_trip(capture_method: CaptureMethod)
    requires
        capture_method != CaptureMethod::Scheduled,
    ensures
        spec_connector_meta(capture_method) matches Some(intent) && spec_to_connector_meta(
            Some(psync_meta(intent)),
        ) == Some(intent),
{
}

impl Checkout {
    /// The name of the connector.
    pub fn id(&self) -> (r: &'static str)
        ensures
            r@ == "checkout"@,
    {
        "checkout"
    }
    /// The content type of its requests.
    pub fn common_get_content_type(&self) -> (r: &'static str)
        ensures
            r@ == "application/json"@,
    {
        "application/json"
    }
}

} // verus!
