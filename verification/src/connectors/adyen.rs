//! Adyen: payment, mandate, capture, refund and dispute requests; the attempt
//! status of its result codes; redirection and wait-screen handling; webhook
//! events and the stages of a dispute.

use vstd::prelude::*;

use crate::common_enums::{
    AttemptStatus, AuthenticationType, CaptureMethod, CountryAlpha2, Currency, DisputeStage,
    DisputeStatus, FutureUsage, PaymentMethodType, RefundStatus,
};
use crate::consts::{NO_ERROR_CODE, NO_ERROR_MESSAGE};
use crate::router_data::{
    Address as PaymentAddress, ConnectorAuthType, ConnectorError, ConnectorMetadata, ErrorResponse,
    EventType, MandateReference, Method, PaymentMethodData, PaymentVoidData, PaymentsAuthorizeData,
    PaymentsCaptureData, PaymentsOutcome, RedirectForm, RefundsData, RefundsOutcome,
    RefundsResponseData, ResponseId, SetupMandateRequestData, TransactionResponseData, WalletData,
    Card, Metadata, MetadataEntry, DisputeResponseData, get_bool, get_str,
    metadata_bool, metadata_str, AcceptDisputeData, DisputeDefendData, SubmitEvidenceData,
};
use crate::entries::{clone_pairs, collect_pairs, upsert_all};
use crate::encoding::{base64_encode, base64_standard, decode_form_pairs, form_urlencoded_pairs, parse_url, parsed_url};
use crate::runtime_values::{current_unix_timestamp_nanos, MAX_UNIX_NANOS, MIN_UNIX_NANOS};
use crate::text::{
    clone_opt, concat3, count_key, find_value, first_value, key_count, opt_str, pair_views, str_eq,
};

verus! {

/// Adyen credentials: the API key and the merchant account, with a review key
/// when they come as a signature key.
#[derive(Clone, Debug)]
pub struct AdyenAuthType {
    pub api_key: String,
    pub merchant_account: String,
    pub review_key: Option<String>,
}

/// The merchant account of Adyen credentials.
pub open spec fn merchant_account_of(auth: ConnectorAuthType) -> Option<Seq<char>> {
    match auth {
        ConnectorAuthType::BodyKey { key1, .. } => Some(key1@),
        ConnectorAuthType::SignatureKey { key1, .. } => Some(key1@),
        _ => None,
    }
}

impl AdyenAuthType {
    pub fn try_from(auth_type: &ConnectorAuthType) -> (r: Result<Self, ConnectorError>)
        ensures
            match *auth_type {
                ConnectorAuthType::BodyKey { api_key, key1 } => r matches Ok(a) && a.api_key@ == api_key@
                    && a.merchant_account@ == key1@ && a.review_key is None,
                ConnectorAuthType::SignatureKey { api_key, key1, api_secret } => r matches Ok(a)
                    && a.api_key@ == api_key@ && a.merchant_account@ == key1@
                    && opt_str(a.review_key) == Some(api_secret@),
                _ => r matches Err(ConnectorError::FailedToObtainAuthType),
            },
    {
        match auth_type {
            ConnectorAuthType::BodyKey { api_key, key1 } => Ok(
                AdyenAuthType { api_key: api_key.clone(), merchant_account: key1.clone(), review_key: None },
            ),
            ConnectorAuthType::SignatureKey { api_key, key1, api_secret } => Ok(
                AdyenAuthType {
                    api_key: api_key.clone(),
                    merchant_account: key1.clone(),
                    review_key: Some(api_secret.clone()),
                },
            ),
            _ => Err(ConnectorError::FailedToObtainAuthType),
        }
    }
}

/// Result code of an Adyen payment.
#[derive(Clone, Copy, Debug, PartialEq, Eq, Structural)]
pub enum AdyenStatus {
    AuthenticationFinished,
    AuthenticationNotRequired,
    Authorised,
    Cancelled,
    ChallengeShopper,
    Error,
    Pending,
    Received,
    RedirectShopper,
    Refused,
    PresentToShopper,
}

/// The attempt status of a result code. An authorised payment is charged
/// unless it is captured by hand.
pub open spec fn spec_adyen_payment_status(is_manual_capture: bool, status: AdyenStatus) -> AttemptStatus {
    match status {
        AdyenStatus::AuthenticationFinished => AttemptStatus::AuthenticationSuccessful,
        AdyenStatus::AuthenticationNotRequired | AdyenStatus::Received => AttemptStatus::Pending,
        AdyenStatus::Authorised => if is_manual_capture {
            AttemptStatus::Authorized
        } else {
            AttemptStatus::Charged
        },
        AdyenStatus::Cancelled => AttemptStatus::Voided,
        AdyenStatus::ChallengeShopper | AdyenStatus::RedirectShopper
        | AdyenStatus::PresentToShopper => AttemptStatus::AuthenticationPending,
        AdyenStatus::Error | AdyenStatus::Refused => AttemptStatus::Failure,
        AdyenStatus::Pending => AttemptStatus::Pending,
    }
}

pub fn get_adyen_payment_status(
    is_manual_capture: bool,
    adyen_status: AdyenStatus,
    _pmt: Option<PaymentMethodType>,
) -> (r: AttemptStatus)
    ensures
        r == spec_adyen_payment_status(is_manual_capture, adyen_status),
{
    match adyen_status {
        AdyenStatus::AuthenticationFinished => AttemptStatus::AuthenticationSuccessful,
        AdyenStatus::AuthenticationNotRequired | AdyenStatus::Received => AttemptStatus::Pending,
        AdyenStatus::Authorised => if is_manual_capture {
            AttemptStatus::Authorized
        } else {
            AttemptStatus::Charged
        },
        AdyenStatus::Cancelled => AttemptStatus::Voided,
        AdyenStatus::ChallengeShopper | AdyenStatus::RedirectShopper
        | AdyenStatus::PresentToShopper => AttemptStatus::AuthenticationPending,
        AdyenStatus::Error | AdyenStatus::Refused => AttemptStatus::Failure,
        AdyenStatus::Pending => AttemptStatus::Pending,
    }
}

/// Event code of an Adyen notification.
#[derive(Clone, Copy, Debug, PartialEq, Eq, Structural)]
pub enum WebhookEventCode {
    Authorisation,
    Cancellation,
    Capture,
    CaptureFailed,
    Refund,
    RefundFailed,
    RefundReversed,
    CancelOrRefund,
    NotificationOfChargeback,
    Chargeback,
    ChargebackReversed,
    SecondChargeback,
    PrearbitrationWon,
    PrearbitrationLost,
}

/// Status of a dispute in an Adyen notification.
#[derive(Clone, Copy, Debug, PartialEq, Eq, Structural)]
pub enum AdyenDisputeStatus {
    Undefended,
    Pending,
    Lost,
    Accepted,
    Won,
}

/// Adyen reports success as the text `true`.
pub fn is_success_scenario(is_success: &str) -> (r: bool)
    ensures
        r == (is_success@ == "true"@),
{
    str_eq(is_success, "true")
}

/// The attempt status a payment notification reports; notifications of other
/// events are refused.
pub open spec fn spec_payment_webhook_event(code: WebhookEventCode, success: bool) -> Option<AttemptStatus> {
    match code {
        WebhookEventCode::Authorisation => Some(if success { AttemptStatus::Authorized } else { AttemptStatus::Failure }),
        WebhookEventCode::Cancellation => Some(if success { AttemptStatus::Voided } else { AttemptStatus::Authorized }),
        WebhookEventCode::Capture => Some(if success { AttemptStatus::Charged } else { AttemptStatus::Failure }),
        WebhookEventCode::CaptureFailed => Some(AttemptStatus::Failure),
        _ => None,
    }
}

pub fn get_adyen_payment_webhook_event(code: WebhookEventCode, is_success: String) -> (r: Result<AttemptStatus, ConnectorError>)
    ensures
        match spec_payment_webhook_event(code, is_success@ == "true"@) {
            Some(s) => r == Ok::<AttemptStatus, ConnectorError>(s),
            None => r matches Err(ConnectorError::RequestEncodingFailed),
        },
{
    let success = is_success_scenario(is_success.as_str());
    match code {
        WebhookEventCode::Authorisation => Ok(if success { AttemptStatus::Authorized } else { AttemptStatus::Failure }),
        WebhookEventCode::Cancellation => Ok(if success { AttemptStatus::Voided } else { AttemptStatus::Authorized }),
        WebhookEventCode::Capture => Ok(if success { AttemptStatus::Charged } else { AttemptStatus::Failure }),
        WebhookEventCode::CaptureFailed => Ok(AttemptStatus::Failure),
        _ => Err(ConnectorError::RequestEncodingFailed),
    }
}

/// The refund status a refund notification reports; notifications of other
/// events are refused.
pub open spec fn spec_refund_webhook_event(code: WebhookEventCode, success: bool) -> Option<RefundStatus> {
    match code {
        WebhookEventCode::Refund | WebhookEventCode::CancelOrRefund => Some(if success { RefundStatus::Success } else { RefundStatus::Failure }),
        WebhookEventCode::RefundFailed | WebhookEventCode::RefundReversed => Some(RefundStatus::Failure),
        _ => None,
    }
}

/// A refund notification (a refund, or a cancel-or-refund) reports a
/// successful refund exactly when it says it succeeded, and a failed one
/// otherwise; no other notification reports a successful refund.
pub proof fn lemma_refund_success_iff_notified_success(code: WebhookEventCode, success: bool)
    ensures
        spec_refund_webhook_event(code, success) == Some(RefundStatus::Success)
            <==> ((code == WebhookEventCode::Refund || code == WebhookEventCode::CancelOrRefund) && success),
        (code == WebhookEventCode::Refund || code == WebhookEventCode::CancelOrRefund) && !success
            ==> spec_refund_webhook_event(code, success) == Some(RefundStatus::Failure),
        (code == WebhookEventCode::RefundFailed || code == WebhookEventCode::RefundReversed)
            ==> spec_refund_webhook_event(code, success) == Some(RefundStatus::Failure),
        spec_refund_webhook_event(code, success) is None <==> spec_webhook_event_type(code) != EventType::Refund,
{
}

pub fn get_adyen_refund_webhook_event(code: WebhookEventCode, is_success: String) -> (r: Result<RefundStatus, ConnectorError>)
    ensures
        match spec_refund_webhook_event(code, is_success@ == "true"@) {
            Some(s) => r == Ok::<RefundStatus, ConnectorError>(s),
            None => r matches Err(ConnectorError::RequestEncodingFailed),
        },
{
    let success = is_success_scenario(is_success.as_str());
    match code {
        WebhookEventCode::Refund | WebhookEventCode::CancelOrRefund => Ok(if success { RefundStatus::Success } else { RefundStatus::Failure }),
        WebhookEventCode::RefundFailed | WebhookEventCode::RefundReversed => Ok(RefundStatus::Failure),
        _ => Err(ConnectorError::RequestEncodingFailed),
    }
}

/// What a notification is about.
pub open spec fn spec_webhook_event_type(code: WebhookEventCode) -> EventType {
    match code {
        WebhookEventCode::Authorisation | WebhookEventCode::Cancellation | WebhookEventCode::Capture
        | WebhookEventCode::CaptureFailed => EventType::Payment,
        WebhookEventCode::Refund | WebhookEventCode::RefundFailed | WebhookEventCode::RefundReversed
        | WebhookEventCode::CancelOrRefund => EventType::Refund,
        _ => EventType::Dispute,
    }
}

pub fn get_adyen_webhook_event_type(code: WebhookEventCode) -> (r: EventType)
    ensures
        r == spec_webhook_event_type(code),
{
    match code {
        WebhookEventCode::Authorisation | WebhookEventCode::Cancellation | WebhookEventCode::Capture
        | WebhookEventCode::CaptureFailed => EventType::Payment,
        WebhookEventCode::Refund | WebhookEventCode::RefundFailed | WebhookEventCode::RefundReversed
        | WebhookEventCode::CancelOrRefund => EventType::Refund,
        WebhookEventCode::NotificationOfChargeback | WebhookEventCode::Chargeback
        | WebhookEventCode::ChargebackReversed | WebhookEventCode::SecondChargeback
        | WebhookEventCode::PrearbitrationWon | WebhookEventCode::PrearbitrationLost => EventType::Dispute,
    }
}

/// The stage and status of a dispute that a notification reports.
pub open spec fn spec_dispute_stage_and_status(code: WebhookEventCode, dispute_status: Option<AdyenDisputeStatus>) -> (DisputeStage, DisputeStatus) {
    match code {
        WebhookEventCode::NotificationOfChargeback => (DisputeStage::PreDispute, DisputeStatus::DisputeOpened),
        WebhookEventCode::Chargeback => (DisputeStage::Dispute, match dispute_status {
            Some(AdyenDisputeStatus::Undefended) | Some(AdyenDisputeStatus::Pending) => DisputeStatus::DisputeOpened,
            Some(AdyenDisputeStatus::Lost) | None => DisputeStatus::DisputeLost,
            Some(AdyenDisputeStatus::Accepted) => DisputeStatus::DisputeAccepted,
            Some(AdyenDisputeStatus::Won) => DisputeStatus::DisputeWon,
        }),
        WebhookEventCode::ChargebackReversed => (DisputeStage::Dispute, if dispute_status == Some(AdyenDisputeStatus::Pending) {
            DisputeStatus::DisputeChallenged
        } else {
            DisputeStatus::DisputeWon
        }),
        WebhookEventCode::SecondChargeback => (DisputeStage::PreArbitration, DisputeStatus::DisputeLost),
        WebhookEventCode::PrearbitrationWon => (DisputeStage::PreArbitration, if dispute_status == Some(AdyenDisputeStatus::Pending) {
            DisputeStatus::DisputeOpened
        } else {
            DisputeStatus::DisputeWon
        }),
        WebhookEventCode::PrearbitrationLost => (DisputeStage::PreArbitration, DisputeStatus::DisputeLost),
        _ => (DisputeStage::Dispute, DisputeStatus::DisputeOpened),
    }
}

pub fn get_dispute_stage_and_status(code: WebhookEventCode, dispute_status: Option<AdyenDisputeStatus>) -> (r: (DisputeStage, DisputeStatus))
    ensures
        r == spec_dispute_stage_and_status(code, dispute_status),
{
    match code {
        WebhookEventCode::NotificationOfChargeback => (DisputeStage::PreDispute, DisputeStatus::DisputeOpened),
        WebhookEventCode::Chargeback => {
            let status = match dispute_status {
                Some(AdyenDisputeStatus::Undefended) | Some(AdyenDisputeStatus::Pending) => DisputeStatus::DisputeOpened,
                Some(AdyenDisputeStatus::Lost) | None => DisputeStatus::DisputeLost,
                Some(AdyenDisputeStatus::Accepted) => DisputeStatus::DisputeAccepted,
                Some(AdyenDisputeStatus::Won) => DisputeStatus::DisputeWon,
            };
            (DisputeStage::Dispute, status)
        },
        WebhookEventCode::ChargebackReversed => {
            let status = match dispute_status {
                Some(AdyenDisputeStatus::Pending) => DisputeStatus::DisputeChallenged,
                _ => DisputeStatus::DisputeWon,
            };
            (DisputeStage::Dispute, status)
        },
        WebhookEventCode::SecondChargeback => (DisputeStage::PreArbitration, DisputeStatus::DisputeLost),
        WebhookEventCode::PrearbitrationWon => {
            let status = match dispute_status {
                Some(AdyenDisputeStatus::Pending) => DisputeStatus::DisputeOpened,
                _ => DisputeStatus::DisputeWon,
            };
            (DisputeStage::PreArbitration, status)
        },
        WebhookEventCode::PrearbitrationLost => (DisputeStage::PreArbitration, DisputeStatus::DisputeLost),
        _ => (DisputeStage::Dispute, DisputeStatus::DisputeOpened),
    }
}


/// The result of a redirection the shopper came back from.
#[derive(Clone, Debug)]
pub struct AdyenRedirection {
    pub redirect_result: String,
    pub type_of_redirection_result: Option<String>,
    pub result_code: Option<String>,
}

/// The result of a 3-D Secure challenge.
#[derive(Clone, Debug)]
pub struct AdyenThreeDS {
    pub three_ds_result: String,
    pub type_of_redirection_result: Option<String>,
    pub result_code: Option<String>,
}

/// The payload of a refused redirection.
#[derive(Clone, Debug)]
pub struct AdyenRefusal {
    pub payload: String,
    pub type_of_redirection_result: Option<String>,
    pub result_code: Option<String>,
}

/// The details of a redirection, of one of three kinds.
#[derive(Clone, Debug)]
pub enum AdyenRedirectRequestTypes {
    AdyenRedirection(AdyenRedirection),
    AdyenThreeDS(AdyenThreeDS),
    AdyenRefusal(AdyenRefusal),
}

/// The request that completes a payment after a redirection.
#[derive(Clone, Debug)]
pub struct AdyenRedirectRequest {
    pub details: AdyenRedirectRequestTypes,
}

/// Kinds of redirection details, in the order they are tried.
#[derive(Clone, Copy, Debug, PartialEq, Eq, Structural)]
pub enum RedirectKind {
    Redirection,
    ThreeDS,
    Refusal,
}

/// Whether form pairs hold the details of one kind: its own key exactly once,
/// and the optional `type` and `resultCode` keys at most once.
pub open spec fn redirect_kind_fits(pairs: Seq<(Seq<char>, Seq<char>)>, key: Seq<char>) -> bool {
    &&& key_count(pairs, key) == 1
    &&& key_count(pairs, "type"@) <= 1
    &&& key_count(pairs, "resultCode"@) <= 1
}

/// The first kind of redirection details that form pairs fit, with its value.
pub open spec fn spec_redirect_details(pairs: Seq<(Seq<char>, Seq<char>)>) -> Option<(RedirectKind, Seq<char>)> {
    if redirect_kind_fits(pairs, "redirectResult"@) {
        Some((RedirectKind::Redirection, first_value(pairs, "redirectResult"@)->0))
    } else if redirect_kind_fits(pairs, "threeDSResult"@) {
        Some((RedirectKind::ThreeDS, first_value(pairs, "threeDSResult"@)->0))
    } else if redirect_kind_fits(pairs, "payload"@) {
        Some((RedirectKind::Refusal, first_value(pairs, "payload"@)->0))
    } else {
        None
    }
}

/// The kind and value of redirection details.
pub open spec fn redirect_details_of(r: AdyenRedirectRequest) -> (RedirectKind, Seq<char>) {
    match r.details {
        AdyenRedirectRequestTypes::AdyenRedirection(d) => (RedirectKind::Redirection, d.redirect_result@),
        AdyenRedirectRequestTypes::AdyenThreeDS(d) => (RedirectKind::ThreeDS, d.three_ds_result@),
        AdyenRedirectRequestTypes::AdyenRefusal(d) => (RedirectKind::Refusal, d.payload@),
    }
}

/// Whether redirection details carry neither a type nor a result code.
pub open spec fn redirect_details_bare(r: AdyenRedirectRequest) -> bool {
    match r.details {
        AdyenRedirectRequestTypes::AdyenRedirection(d) => d.type_of_redirection_result is None && d.result_code is None,
        AdyenRedirectRequestTypes::AdyenThreeDS(d) => d.type_of_redirection_result is None && d.result_code is None,
        AdyenRedirectRequestTypes::AdyenRefusal(d) => d.type_of_redirection_result is None && d.result_code is None,
    }
}

fn kind_fits(pairs: &Vec<(String, String)>, key: &str) -> (r: bool)
    ensures
        r == redirect_kind_fits(pair_views(pairs@), key@),
{
    count_key(pairs, key) == 1 && count_key(pairs, "type") <= 1 && count_key(pairs, "resultCode") <= 1
}

proof fn lemma_single_key_has_value(pairs: Seq<(Seq<char>, Seq<char>)>, key: Seq<char>)
    requires
        key_count(pairs, key) >= 1,
    ensures
        first_value(pairs, key) is Some,
    decreases pairs.len(),
{
    if pairs.len() > 0 && pairs[0].0 != key {
        let rest = pairs.drop_first();
        lemma_key_count_drop_first(pairs, key);
        lemma_single_key_has_value(rest, key);
    }
}

proof fn lemma_key_count_drop_first(pairs: Seq<(Seq<char>, Seq<char>)>, key: Seq<char>)
    requires
        pairs.len() > 0,
    ensures
        key_count(pairs, key) == key_count(pairs.drop_first(), key) + if pairs[0].0 == key { 1nat } else { 0nat },
    decreases pairs.len(),
{
    if pairs.len() > 1 {
        lemma_key_count_drop_first(pairs.drop_last(), key);
        assert(pairs.drop_last().drop_first() =~= pairs.drop_first().drop_last());
        assert(pairs.drop_last()[0] == pairs[0]);
        assert(pairs.drop_first().last() == pairs.last());
        assert(key_count(pairs.drop_first(), key) == key_count(pairs.drop_first().drop_last(), key)
            + if pairs.last().0 == key { 1nat } else { 0nat });
    } else {
        assert(pairs.drop_first().len() == 0);
        assert(pairs.drop_last().len() == 0);
        assert(pairs.last() == pairs[0]);
        assert(key_count(pairs.drop_last(), key) == 0);
        assert(key_count(pairs.drop_first(), key) == 0);
    }
}

impl AdyenRedirectRequest {
    /// The details of a redirection from the encoded data it came back with.
    /// Missing data cannot be encoded; data that fits no kind of details
    /// cannot be read.
    pub fn try_from(encoded_data: &Option<String>) -> (r: Result<Self, ConnectorError>)
        ensures
            match *encoded_data {
                None => r matches Err(ConnectorError::RequestEncodingFailed),
                Some(data) => match form_urlencoded_pairs(data@) {
                    Err(_) => r matches Err(ConnectorError::ResponseDeserializationFailed),
                    Ok(pairs) => match spec_redirect_details(pairs) {
                        None => r matches Err(ConnectorError::ResponseDeserializationFailed),
                        Some(details) => r matches Ok(req) && redirect_details_of(req) == details
                            && redirect_details_bare(req),
                    },
                },
            },
    {
        let data = match encoded_data {
            Some(d) => d,
            None => return Err(ConnectorError::RequestEncodingFailed),
        };
        let pairs = match decode_form_pairs(data.as_str()) {
            Ok(p) => p,
            Err(_) => return Err(ConnectorError::ResponseDeserializationFailed),
        };
        let ghost views = pair_views(pairs@);
        if kind_fits(&pairs, "redirectResult") {
            proof { lemma_single_key_has_value(views, "redirectResult"@); }
            let value = find_value(&pairs, "redirectResult").unwrap();
            return Ok(AdyenRedirectRequest {
                details: AdyenRedirectRequestTypes::AdyenRedirection(AdyenRedirection {
                    redirect_result: value,
                    type_of_redirection_result: None,
                    result_code: None,
                }),
            });
        }
        if kind_fits(&pairs, "threeDSResult") {
            proof { lemma_single_key_has_value(views, "threeDSResult"@); }
            let value = find_value(&pairs, "threeDSResult").unwrap();
            return Ok(AdyenRedirectRequest {
                details: AdyenRedirectRequestTypes::AdyenThreeDS(AdyenThreeDS {
                    three_ds_result: value,
                    type_of_redirection_result: None,
                    result_code: None,
                }),
            });
        }
        if kind_fits(&pairs, "payload") {
            proof { lemma_single_key_has_value(views, "payload"@); }
            let value = find_value(&pairs, "payload").unwrap();
            return Ok(AdyenRedirectRequest {
                details: AdyenRedirectRequestTypes::AdyenRefusal(AdyenRefusal {
                    payload: value,
                    type_of_redirection_result: None,
                    result_code: None,
                }),
            });
        }
        Err(ConnectorError::ResponseDeserializationFailed)
    }
}


/// Risk data of a payment, read from its metadata.
#[derive(Clone, Debug)]
pub struct RiskData {
    pub item_i_d: Option<String>,
    pub product_title: Option<String>,
    pub amount_per_item: Option<String>,
    pub currency: Option<String>,
    pub upc: Option<String>,
    pub brand: Option<String>,
    pub manufacturer: Option<String>,
    pub category: Option<String>,
    pub quantity: Option<String>,
    pub color: Option<String>,
    pub size: Option<String>,
    pub device_country: Option<String>,
    pub house_numberor_name: Option<String>,
    pub account_creation_date: Option<String>,
    pub affiliate_channel: Option<String>,
    pub avg_order_value: Option<String>,
    pub delivery_method: Option<String>,
    pub email_name: Option<String>,
    pub email_domain: Option<String>,
    pub last_order_date: Option<String>,
    pub merchant_reference: Option<String>,
    pub payment_method: Option<String>,
    pub promotion_name: Option<String>,
    pub secondary_phone_number: Option<String>,
    pub timefrom_loginto_order: Option<String>,
    pub total_session_time: Option<String>,
    pub total_authorized_amount_in_last30_days: Option<String>,
    pub total_order_quantity: Option<String>,
    pub total_lifetime_value: Option<String>,
    pub visits_month: Option<String>,
    pub visits_week: Option<String>,
    pub visits_year: Option<String>,
    pub ship_to_name: Option<String>,
    pub first8charactersof_address_line1_zip: Option<String>,
    pub affiliate_order: Option<bool>,
}

/// Whether risk data holds what the metadata holds under each risk data key.
pub open spec fn risk_data_matches(d: RiskData, m: Seq<MetadataEntry>) -> bool {
    &&& opt_str(d.item_i_d) == metadata_str(m, "riskdata.basket.item1.itemID"@)
    &&& opt_str(d.product_title) == metadata_str(m, "riskdata.basket.item1.productTitle"@)
    &&& opt_str(d.amount_per_item) == metadata_str(m, "riskdata.basket.item1.amountPerItem"@)
    &&& opt_str(d.currency) == metadata_str(m, "riskdata.basket.item1.currency"@)
    &&& opt_str(d.upc) == metadata_str(m, "riskdata.basket.item1.upc"@)
    &&& opt_str(d.brand) == metadata_str(m, "riskdata.basket.item1.brand"@)
    &&& opt_str(d.manufacturer) == metadata_str(m, "riskdata.basket.item1.manufacturer"@)
    &&& opt_str(d.category) == metadata_str(m, "riskdata.basket.item1.category"@)
    &&& opt_str(d.quantity) == metadata_str(m, "riskdata.basket.item1.quantity"@)
    &&& opt_str(d.color) == metadata_str(m, "riskdata.basket.item1.color"@)
    &&& opt_str(d.size) == metadata_str(m, "riskdata.basket.item1.size"@)
    &&& opt_str(d.device_country) == metadata_str(m, "riskdata.deviceCountry"@)
    &&& opt_str(d.house_numberor_name) == metadata_str(m, "riskdata.houseNumberorName"@)
    &&& opt_str(d.account_creation_date) == metadata_str(m, "riskdata.accountCreationDate"@)
    &&& opt_str(d.affiliate_channel) == metadata_str(m, "riskdata.affiliateChannel"@)
    &&& opt_str(d.avg_order_value) == metadata_str(m, "riskdata.avgOrderValue"@)
    &&& opt_str(d.delivery_method) == metadata_str(m, "riskdata.deliveryMethod"@)
    &&& opt_str(d.email_name) == metadata_str(m, "riskdata.emailName"@)
    &&& opt_str(d.email_domain) == metadata_str(m, "riskdata.emailDomain"@)
    &&& opt_str(d.last_order_date) == metadata_str(m, "riskdata.lastOrderDate"@)
    &&& opt_str(d.merchant_reference) == metadata_str(m, "riskdata.merchantReference"@)
    &&& opt_str(d.payment_method) == metadata_str(m, "riskdata.paymentMethod"@)
    &&& opt_str(d.promotion_name) == metadata_str(m, "riskdata.promotionName"@)
    &&& opt_str(d.secondary_phone_number) == metadata_str(m, "riskdata.secondaryPhoneNumber"@)
    &&& opt_str(d.timefrom_loginto_order) == metadata_str(m, "riskdata.timefromLogintoOrder"@)
    &&& opt_str(d.total_session_time) == metadata_str(m, "riskdata.totalSessionTime"@)
    &&& opt_str(d.total_authorized_amount_in_last30_days) == metadata_str(m, "riskdata.totalAuthorizedAmountInLast30Days"@)
    &&& opt_str(d.total_order_quantity) == metadata_str(m, "riskdata.totalOrderQuantity"@)
    &&& opt_str(d.total_lifetime_value) == metadata_str(m, "riskdata.totalLifetimeValue"@)
    &&& opt_str(d.visits_month) == metadata_str(m, "riskdata.visitsMonth"@)
    &&& opt_str(d.visits_week) == metadata_str(m, "riskdata.visitsWeek"@)
    &&& opt_str(d.visits_year) == metadata_str(m, "riskdata.visitsYear"@)
    &&& opt_str(d.ship_to_name) == metadata_str(m, "riskdata.shipToName"@)
    &&& opt_str(d.first8charactersof_address_line1_zip) == metadata_str(m, "riskdata.first8charactersofAddressLine1Zip"@)
    &&& d.affiliate_order == metadata_bool(m, "riskdata.affiliateOrder"@)
}

/// The risk data of a payment's metadata: each risk data key's text (its flag
/// for `riskdata.affiliateOrder`), where the metadata holds one.
pub fn get_risk_data(metadata: &Metadata) -> (r: Option<RiskData>)
    ensures
        r matches Some(d) && risk_data_matches(d, metadata@),
{
    let item_i_d = get_str("riskdata.basket.item1.itemID", metadata);
    let product_title = get_str("riskdata.basket.item1.productTitle", metadata);
    let amount_per_item = get_str("riskdata.basket.item1.amountPerItem", metadata);
    let currency = get_str("riskdata.basket.item1.currency", metadata);
    let upc = get_str("riskdata.basket.item1.upc", metadata);
    let brand = get_str("riskdata.basket.item1.brand", metadata);
    let manufacturer = get_str("riskdata.basket.item1.manufacturer", metadata);
    let category = get_str("riskdata.basket.item1.category", metadata);
    let quantity = get_str("riskdata.basket.item1.quantity", metadata);
    let color = get_str("riskdata.basket.item1.color", metadata);
    let size = get_str("riskdata.basket.item1.size", metadata);
    let device_country = get_str("riskdata.deviceCountry", metadata);
    let house_numberor_name = get_str("riskdata.houseNumberorName", metadata);
    let account_creation_date = get_str("riskdata.accountCreationDate", metadata);
    let affiliate_channel = get_str("riskdata.affiliateChannel", metadata);
    let avg_order_value = get_str("riskdata.avgOrderValue", metadata);
    let delivery_method = get_str("riskdata.deliveryMethod", metadata);
    let email_name = get_str("riskdata.emailName", metadata);
    let email_domain = get_str("riskdata.emailDomain", metadata);
    let last_order_date = get_str("riskdata.lastOrderDate", metadata);
    let merchant_reference = get_str("riskdata.merchantReference", metadata);
    let payment_method = get_str("riskdata.paymentMethod", metadata);
    let promotion_name = get_str("riskdata.promotionName", metadata);
    let secondary_phone_number = get_str("riskdata.secondaryPhoneNumber", metadata);
    let timefrom_loginto_order = get_str("riskdata.timefromLogintoOrder", metadata);
    let total_session_time = get_str("riskdata.totalSessionTime", metadata);
    let total_authorized_amount_in_last30_days = get_str("riskdata.totalAuthorizedAmountInLast30Days", metadata);
    let total_order_quantity = get_str("riskdata.totalOrderQuantity", metadata);
    let total_lifetime_value = get_str("riskdata.totalLifetimeValue", metadata);
    let visits_month = get_str("riskdata.visitsMonth", metadata);
    let visits_week = get_str("riskdata.visitsWeek", metadata);
    let visits_year = get_str("riskdata.visitsYear", metadata);
    let ship_to_name = get_str("riskdata.shipToName", metadata);
    let first8charactersof_address_line1_zip = get_str("riskdata.first8charactersofAddressLine1Zip", metadata);
    let affiliate_order = get_bool("riskdata.affiliateOrder", metadata);
    Some(RiskData {
        item_i_d,
        product_title,
        amount_per_item,
        currency,
        upc,
        brand,
        manufacturer,
        category,
        quantity,
        color,
        size,
        device_country,
        house_numberor_name,
        account_creation_date,
        affiliate_channel,
        avg_order_value,
        delivery_method,
        email_name,
        email_domain,
        last_order_date,
        merchant_reference,
        payment_method,
        promotion_name,
        secondary_phone_number,
        timefrom_loginto_order,
        total_session_time,
        total_authorized_amount_in_last30_days,
        total_order_quantity,
        total_lifetime_value,
        visits_month,
        visits_week,
        visits_year,
        ship_to_name,
        first8charactersof_address_line1_zip,
        affiliate_order,
    })
}


/// An amount in minor units of a currency.
#[derive(Clone, Copy, Debug, PartialEq, Eq, Structural)]
pub struct Amount {
    pub currency: Currency,
    pub value: i64,
}

/// The amount of a payment: its minor amount in its currency.
pub fn get_amount_data(item: &PaymentsAuthorizeData) -> (r: Amount)
    ensures
        r == (Amount { currency: item.currency, value: item.minor_amount }),
{
    Amount { currency: item.currency, value: item.minor_amount }
}

/// The amount of a mandate setup: its amount, zero where it has none, in its currency.
pub fn get_amount_data_for_setup_mandate(item: &SetupMandateRequestData) -> (r: Amount)
    ensures
        r == (Amount {
            currency: item.currency,
            value: match item.amount {
                Some(a) => a,
                None => 0,
            },
        }),
{
    Amount {
        currency: item.currency,
        value: match item.amount {
            Some(a) => a,
            None => 0,
        },
    }
}

/// Brand of a card.
#[derive(Clone, Copy, Debug, PartialEq, Eq, Structural)]
pub enum CardBrand {
    Visa,
}

/// A card as Adyen takes it.
#[derive(Clone, Debug)]
pub struct AdyenCard {
    pub number: String,
    pub expiry_month: String,
    pub expiry_year: String,
    pub cvc: Option<String>,
    pub holder_name: Option<String>,
    pub brand: Option<CardBrand>,
    pub network_payment_reference: Option<String>,
}

/// A Google Pay token.
#[derive(Clone, Debug)]
pub struct AdyenGPay {
    pub google_pay_token: String,
}

/// An Apple Pay token.
#[derive(Clone, Debug)]
pub struct AdyenApplePay {
    pub apple_pay_token: String,
}

/// The payment method of an Adyen payment.
#[derive(Clone, Debug)]
pub enum AdyenPaymentMethod {
    AdyenCard(AdyenCard),
    Gpay(AdyenGPay),
    ApplePay(AdyenApplePay),
}

/// Whether an Adyen card is the given card, with the holder name given.
pub open spec fn adyen_card_is(m: AdyenPaymentMethod, card: Card, holder: Option<String>) -> bool {
    m matches AdyenPaymentMethod::AdyenCard(c) && c.number@ == card.card_number@
        && c.expiry_month@ == card.card_exp_month@ && c.expiry_year@ == card.card_exp_year@
        && opt_str(c.cvc) == Some(card.card_cvc@) && opt_str(c.holder_name) == opt_str(holder)
        && c.brand == Some(CardBrand::Visa) && c.network_payment_reference is None
}

/// The wallet token Adyen takes for a wallet, for Google Pay and Apple Pay.
pub open spec fn wallet_method_is(m: AdyenPaymentMethod, wallet: WalletData) -> bool {
    match wallet {
        WalletData::GooglePay { token } => m matches AdyenPaymentMethod::Gpay(g) && g.google_pay_token@ == token@,
        WalletData::ApplePay { payment_data } => m matches AdyenPaymentMethod::ApplePay(a)
            && a.apple_pay_token@ == payment_data@,
        WalletData::Other => false,
    }
}

impl AdyenPaymentMethod {
    /// A card, always as a Visa card.
    pub fn try_from_card(card: &Card, card_holder_name: Option<String>) -> (r: Result<Self, ConnectorError>)
        ensures
            r matches Ok(m) && adyen_card_is(m, *card, card_holder_name),
    {
        Ok(
            AdyenPaymentMethod::AdyenCard(
                AdyenCard {
                    number: card.card_number.clone(),
                    expiry_month: card.card_exp_month.clone(),
                    expiry_year: card.card_exp_year.clone(),
                    cvc: Some(card.card_cvc.clone()),
                    holder_name: card_holder_name,
                    brand: Some(CardBrand::Visa),
                    network_payment_reference: None,
                },
            ),
        )
    }

    /// A Google Pay or Apple Pay token; other wallets are not implemented.
    pub fn try_from_wallet(wallet_data: &WalletData) -> (r: Result<Self, ConnectorError>)
        ensures
            match *wallet_data {
                WalletData::Other => r matches Err(ConnectorError::NotImplemented(m)) && m@ == "payment_method"@,
                _ => r matches Ok(m) && wallet_method_is(m, *wallet_data),
            },
    {
        match wallet_data {
            WalletData::GooglePay { token } => Ok(AdyenPaymentMethod::Gpay(AdyenGPay { google_pay_token: token.clone() })),
            WalletData::ApplePay { payment_data } => Ok(
                AdyenPaymentMethod::ApplePay(AdyenApplePay { apple_pay_token: payment_data.clone() }),
            ),
            WalletData::Other => Err(ConnectorError::NotImplemented(String::from_str("payment_method"))),
        }
    }
}

/// How a payment is authorised.
#[derive(Clone, Copy, Debug, PartialEq, Eq, Structural)]
pub enum AuthType {
    PreAuth,
}

/// A postal address as Adyen takes it.
#[derive(Clone, Debug)]
pub struct Address {
    pub city: String,
    pub country: CountryAlpha2,
    pub house_number_or_name: String,
    pub postal_code: String,
    pub state_or_province: Option<String>,
    pub street: Option<String>,
}

/// Whether an address, where it has details, has a city, a country, a first
/// line and a postal code.
pub open spec fn address_complete(address: Option<PaymentAddress>) -> bool {
    address matches Some(a) ==> (a.address matches Some(d) ==> (d.city is Some && d.country is Some
        && d.line1 is Some && d.zip is Some))
}

/// Whether an Adyen address holds the details of an address.
pub open spec fn address_is(r: Address, address: PaymentAddress) -> bool {
    address.address matches Some(d) && opt_str(d.city) == Some(r.city@) && d.country == Some(r.country)
        && opt_str(d.line1) == Some(r.house_number_or_name@) && opt_str(d.zip) == Some(r.postal_code@)
        && opt_str(r.state_or_province) == opt_str(d.state) && opt_str(r.street) == opt_str(d.line2)
}

/// The Adyen address of an address with details. The details must be
/// complete.
pub fn get_address_info(address: &Option<PaymentAddress>) -> (r: Option<Result<Address, ConnectorError>>)
    requires
        address_complete(*address),
    ensures
        match *address {
            Some(a) => match a.address {
                Some(_) => r matches Some(Ok(x)) && address_is(x, a),
                None => r is None,
            },
            None => r is None,
        },
{
    match address {
        Some(a) => match &a.address {
            Some(d) => Some(
                Ok(
                    Address {
                        city: d.city.clone().unwrap(),
                        country: d.country.unwrap(),
                        house_number_or_name: d.line1.clone().unwrap(),
                        postal_code: d.zip.clone().unwrap(),
                        state_or_province: clone_opt(&d.state),
                        street: clone_opt(&d.line2),
                    },
                ),
            ),
            None => None,
        },
        None => None,
    }
}

/// How the shopper takes part in a payment.
#[derive(Clone, Copy, Debug, PartialEq, Eq, Structural)]
pub enum AdyenShopperInteraction {
    Ecommerce,
    ContinuedAuthentication,
    Moto,
    Pos,
}

impl AdyenShopperInteraction {
    /// An off-session payment continues an earlier authentication; any other
    /// is an e-commerce payment.
    pub fn from_off_session(off_session: Option<bool>) -> (r: Self)
        ensures
            r == (if off_session == Some(true) {
                AdyenShopperInteraction::ContinuedAuthentication
            } else {
                AdyenShopperInteraction::Ecommerce
            }),
    {
        match off_session {
            Some(true) => AdyenShopperInteraction::ContinuedAuthentication,
            _ => AdyenShopperInteraction::Ecommerce,
        }
    }
}

/// How a stored card is used.
#[derive(Clone, Copy, Debug, PartialEq, Eq, Structural)]
pub enum AdyenRecurringModel {
    UnscheduledCardOnFile,
    CardOnFile,
}

/// Additional data of a payment request or answer.
#[derive(Clone, Debug)]
pub struct AdditionalData {
    pub authorisation_type: Option<AuthType>,
    pub manual_capture: Option<String>,
    pub execute_three_d: Option<String>,
    pub recurring_processing_model: Option<AdyenRecurringModel>,
    pub recurring_detail_reference: Option<String>,
    pub recurring_shopper_reference: Option<String>,
    pub network_tx_reference: Option<String>,
    pub funds_availability: Option<String>,
    pub refusal_reason_raw: Option<String>,
    pub refusal_code_raw: Option<String>,
    pub merchant_advice_code: Option<String>,
    pub riskdata: Option<RiskData>,
}

/// Whether a payment is captured by hand.
pub open spec fn is_manual(capture_method: Option<CaptureMethod>) -> bool {
    capture_method == Some(CaptureMethod::Manual) || capture_method == Some(CaptureMethod::ManualMultiple)
}

/// The additional data of a payment request: pre-authorisation for a payment
/// captured by hand, 3-D Secure where it is asked for, and the risk data of
/// the metadata; none at all when there is none of these.
pub open spec fn additional_data_is(
    r: Option<AdditionalData>,
    capture_method: Option<CaptureMethod>,
    metadata: Option<Metadata>,
    auth_type: AuthenticationType,
) -> bool {
    if !is_manual(capture_method) && auth_type != AuthenticationType::ThreeDs && metadata is None {
        r is None
    } else {
        r matches Some(d) && d.authorisation_type == (if is_manual(capture_method) {
            Some(AuthType::PreAuth)
        } else {
            None
        }) && opt_str(d.manual_capture) == (if is_manual(capture_method) {
            Some("true"@)
        } else {
            None
        }) && opt_str(d.execute_three_d) == (if auth_type == AuthenticationType::ThreeDs {
            Some("true"@)
        } else {
            None
        }) && (match metadata {
            Some(m) => d.riskdata matches Some(rd) && risk_data_matches(rd, m@),
            None => d.riskdata is None,
        }) && d.recurring_processing_model is None && d.recurring_detail_reference is None
            && d.recurring_shopper_reference is None && d.network_tx_reference is None
            && d.funds_availability is None && d.refusal_reason_raw is None && d.refusal_code_raw is None
            && d.merchant_advice_code is None
    }
}

fn additional_data_from(
    capture_method: Option<CaptureMethod>,
    metadata: &Option<Metadata>,
    auth_type: AuthenticationType,
) -> (r: Option<AdditionalData>)
    ensures
        additional_data_is(r, capture_method, *metadata, auth_type),
{
    let manual = match capture_method {
        Some(CaptureMethod::Manual) | Some(CaptureMethod::ManualMultiple) => true,
        _ => false,
    };
    let (authorisation_type, manual_capture) = if manual {
        (Some(AuthType::PreAuth), Some(String::from_str("true")))
    } else {
        (None, None)
    };
    let riskdata = match metadata {
        Some(m) => get_risk_data(m),
        None => None,
    };
    let execute_three_d = match auth_type {
        AuthenticationType::ThreeDs => Some(String::from_str("true")),
        _ => None,
    };
    if authorisation_type.is_none() && manual_capture.is_none() && execute_three_d.is_none()
        && riskdata.is_none() {
        None
    } else {
        Some(
            AdditionalData {
                authorisation_type,
                manual_capture,
                execute_three_d,
                recurring_processing_model: None,
                recurring_detail_reference: None,
                recurring_shopper_reference: None,
                network_tx_reference: None,
                funds_availability: None,
                refusal_reason_raw: None,
                refusal_code_raw: None,
                merchant_advice_code: None,
                riskdata,
            },
        )
    }
}

/// The additional data of a payment request.
pub fn get_additional_data(item: &PaymentsAuthorizeData) -> (r: Option<AdditionalData>)
    ensures
        additional_data_is(r, item.capture_method, item.metadata, item.auth_type),
{
    additional_data_from(item.capture_method, &item.metadata, item.auth_type)
}

/// The additional data of a mandate setup request.
pub fn get_additional_data_for_setup_mandate(item: &SetupMandateRequestData) -> (r: Option<AdditionalData>)
    ensures
        additional_data_is(r, item.capture_method, item.metadata, item.auth_type),
{
    additional_data_from(item.capture_method, &item.metadata, item.auth_type)
}

/// The shopper reference of a customer of a merchant: the merchant id and the
/// customer id joined by `_`.
pub open spec fn shopper_reference_of(merchant_id: Seq<char>, customer_id: Seq<char>) -> Seq<char> {
    merchant_id + "_"@ + customer_id
}

pub fn build_shopper_reference(customer_id: &Option<String>, merchant_id: &String) -> (r: Option<String>)
    ensures
        opt_str(r) == (match *customer_id {
            Some(c) => Some(shopper_reference_of(merchant_id@, c@)),
            None => None,
        }),
{
    match customer_id {
        Some(c) => Some(concat3(merchant_id.as_str(), "_", c.as_str())),
        None => None,
    }
}

/// Whether a payment sets up or uses a mandate.
pub open spec fn spec_is_mandate_payment(setup_future_usage: Option<FutureUsage>, has_mandate_reference: bool) -> bool {
    setup_future_usage == Some(FutureUsage::OffSession) || has_mandate_reference
}

pub fn is_mandate_payment(item: &PaymentsAuthorizeData) -> (r: bool)
    ensures
        r == spec_is_mandate_payment(item.setup_future_usage, item.has_mandate_reference),
{
    item.setup_future_usage == Some(FutureUsage::OffSession) || item.has_mandate_reference
}

pub fn is_mandate_payment_for_setup_mandate(item: &SetupMandateRequestData) -> (r: bool)
    ensures
        r == spec_is_mandate_payment(item.setup_future_usage, item.has_mandate_reference),
{
    item.setup_future_usage == Some(FutureUsage::OffSession) || item.has_mandate_reference
}

/// The recurring model, whether to store the payment method, and the shopper
/// reference of a payment.
pub type RecurringDetails = (Option<AdyenRecurringModel>, Option<bool>, Option<String>);

/// The recurring model and whether to store the payment method: a payment for
/// later off-session use is stored as card-on-file (when it is a mandate
/// payment); an off-session payment uses the card on file; any other has none.
pub open spec fn recurring_model_and_store(
    setup_future_usage: Option<FutureUsage>,
    off_session: Option<bool>,
    has_mandate_reference: bool,
) -> (Option<AdyenRecurringModel>, Option<bool>) {
    if setup_future_usage == Some(FutureUsage::OffSession) {
        (Some(AdyenRecurringModel::UnscheduledCardOnFile), Some(spec_is_mandate_payment(setup_future_usage, has_mandate_reference)))
    } else if off_session == Some(true) {
        (Some(AdyenRecurringModel::UnscheduledCardOnFile), None)
    } else {
        (None, None)
    }
}

/// The recurring details of a payment of a customer, with the customer's
/// shopper reference where there is a recurring model. The customer id is
/// required.
pub open spec fn recurring_details_are(
    r: Result<RecurringDetails, ConnectorError>,
    customer_id: Option<String>,
    merchant_id: Seq<char>,
    setup_future_usage: Option<FutureUsage>,
    off_session: Option<bool>,
    has_mandate_reference: bool,
) -> bool {
    match customer_id {
        None => r matches Err(ConnectorError::MissingRequiredField { field_name }) && field_name@ == "customer_id"@,
        Some(c) => r matches Ok(d) && (d.0, d.1) == recurring_model_and_store(
            setup_future_usage,
            off_session,
            has_mandate_reference,
        ) && opt_str(d.2) == (if d.0 is Some {
            Some(shopper_reference_of(merchant_id, c@))
        } else {
            None
        }),
    }
}

fn recurring_details(
    customer_id: &Option<String>,
    merchant_id: &String,
    setup_future_usage: Option<FutureUsage>,
    off_session: Option<bool>,
    is_mandate: bool,
) -> (r: Result<RecurringDetails, ConnectorError>)
    ensures
        recurring_details_are(r, *customer_id, merchant_id@, setup_future_usage, off_session, true)
            <== is_mandate,
        recurring_details_are(r, *customer_id, merchant_id@, setup_future_usage, off_session, false)
            <== (!is_mandate && setup_future_usage != Some(FutureUsage::OffSession)),
{
    let customer_id = match customer_id {
        Some(c) => c,
        None => return Err(ConnectorError::MissingRequiredField { field_name: "customer_id" }),
    };
    if setup_future_usage == Some(FutureUsage::OffSession) {
        Ok((
            Some(AdyenRecurringModel::UnscheduledCardOnFile),
            Some(is_mandate),
            Some(concat3(merchant_id.as_str(), "_", customer_id.as_str())),
        ))
    } else if off_session == Some(true) {
        Ok((
            Some(AdyenRecurringModel::UnscheduledCardOnFile),
            None,
            Some(concat3(merchant_id.as_str(), "_", customer_id.as_str())),
        ))
    } else {
        Ok((None, None, None))
    }
}

pub fn get_recurring_processing_model(item: &PaymentsAuthorizeData) -> (r: Result<RecurringDetails, ConnectorError>)
    ensures
        recurring_details_are(
            r,
            item.customer_id,
            item.merchant_id@,
            item.setup_future_usage,
            item.off_session,
            item.has_mandate_reference,
        ),
{
    let is_mandate = is_mandate_payment(item);
    recurring_details(&item.customer_id, &item.merchant_id, item.setup_future_usage, item.off_session, is_mandate)
}

pub fn get_recurring_processing_model_for_setup_mandate(item: &SetupMandateRequestData) -> (r: Result<RecurringDetails, ConnectorError>)
    ensures
        recurring_details_are(
            r,
            item.customer_id,
            item.merchant_id@,
            item.setup_future_usage,
            item.off_session,
            item.has_mandate_reference,
        ),
{
    let is_mandate = is_mandate_payment_for_setup_mandate(item);
    recurring_details(&item.customer_id, &item.merchant_id, item.setup_future_usage, item.off_session, is_mandate)
}


/// A payment request.
#[derive(Clone, Debug)]
pub struct AdyenPaymentRequest {
    pub amount: Amount,
    pub merchant_account: String,
    pub payment_method: AdyenPaymentMethod,
    pub reference: String,
    pub return_url: String,
    pub shopper_interaction: AdyenShopperInteraction,
    pub recurring_processing_model: Option<AdyenRecurringModel>,
    pub additional_data: Option<AdditionalData>,
    pub shopper_reference: Option<String>,
    pub store_payment_method: Option<bool>,
    pub billing_address: Option<Address>,
    pub shopper_statement: Option<String>,
    pub merchant_order_reference: Option<String>,
    pub channel: Option<Channel>,
}

/// The channel a payment is made through.
#[derive(Clone, Copy, Debug, PartialEq, Eq, Structural)]
pub enum Channel {
    Web,
}

/// The kinds of split of a payment's amount.
#[derive(Clone, Copy, Debug, PartialEq, Eq, Structural)]
pub enum AdyenSplitType {
    /// Books split amount to the specified account.
    BalanceAccount,
    /// The aggregated amount of the interchange and scheme fees.
    AcquiringFees,
    /// The aggregated amount of all transaction fees.
    PaymentFee,
    /// The aggregated amount of Adyen's commission and markup fees.
    AdyenFees,
    /// The transaction fees due to Adyen under blended rates.
    AdyenCommission,
    /// The transaction fees due to Adyen under Interchange ++ pricing.
    AdyenMarkup,
    /// The fees paid to the issuer for each payment made with the card network.
    Interchange,
    /// The fees paid to the card scheme for using their network.
    SchemeFee,
    /// The platform's commission on the payment, booked to its liable balance account.
    Commission,
    /// A top-up of a balance account.
    TopUp,
    /// The value-added tax charged on the payment.
    Vat,
}

/// An error answer of Adyen.
#[derive(Clone, Debug)]
pub struct AdyenErrorResponse {
    pub status: i32,
    pub error_code: String,
    pub message: String,
    pub error_type: String,
    pub psp_reference: Option<String>,
}

/// Whether a request's billing address is that of the payment's billing address.
pub open spec fn billing_address_is(r: Option<Address>, billing: Option<PaymentAddress>) -> bool {
    match billing {
        Some(b) => match b.address {
            Some(_) => r matches Some(x) && address_is(x, b),
            None => r is None,
        },
        None => r is None,
    }
}

/// The parts of a payment request that every payment method shares.
pub open spec fn payment_request_common(req: AdyenPaymentRequest, item: PaymentsAuthorizeData) -> bool {
    &&& req.amount == Amount { currency: item.currency, value: item.minor_amount }
    &&& merchant_account_of(item.connector_auth_type) == Some(req.merchant_account@)
    &&& req.reference@ == item.connector_request_reference_id@
    &&& opt_str(item.router_return_url) == Some(req.return_url@)
    &&& req.shopper_interaction == (if item.off_session == Some(true) {
        AdyenShopperInteraction::ContinuedAuthentication
    } else {
        AdyenShopperInteraction::Ecommerce
    })
    &&& additional_data_is(req.additional_data, item.capture_method, item.metadata, item.auth_type)
    &&& opt_str(req.shopper_statement) == opt_str(item.statement_descriptor)
    &&& opt_str(req.merchant_order_reference) == opt_str(item.merchant_order_reference_id)
    &&& req.channel is None
}

/// The request of a card payment: the card with the customer's name, the
/// shopper reference of the customer, and the billing address.
pub open spec fn card_request_is(req: AdyenPaymentRequest, item: PaymentsAuthorizeData, card: Card) -> bool {
    &&& payment_request_common(req, item)
    &&& adyen_card_is(req.payment_method, card, item.customer_name)
    &&& item.customer_id matches Some(c) && opt_str(req.shopper_reference) == Some(
        shopper_reference_of(item.merchant_id@, c@),
    )
    &&& (req.recurring_processing_model, req.store_payment_method) == recurring_model_and_store(
        item.setup_future_usage,
        item.off_session,
        item.has_mandate_reference,
    )
    &&& billing_address_is(req.billing_address, item.billing)
}

/// The request of a wallet payment: the wallet token, the recurring details
/// (with their shopper reference), and no billing address.
pub open spec fn wallet_request_is(req: AdyenPaymentRequest, item: PaymentsAuthorizeData, wallet: WalletData) -> bool {
    &&& payment_request_common(req, item)
    &&& wallet_method_is(req.payment_method, wallet)
    &&& recurring_details_are(
        Ok((req.recurring_processing_model, req.store_payment_method, req.shopper_reference)),
        item.customer_id,
        item.merchant_id@,
        item.setup_future_usage,
        item.off_session,
        item.has_mandate_reference,
    )
    &&& req.billing_address is None
}

impl AdyenPaymentRequest {
    /// The request of a card payment.
    fn try_from_card(item: &PaymentsAuthorizeData, card: &Card) -> (r: Result<Self, ConnectorError>)
        requires
            address_complete(item.billing),
        ensures
            match merchant_account_of(item.connector_auth_type) {
                None => r matches Err(ConnectorError::FailedToObtainAuthType),
                Some(_) => match item.customer_id {
                    None => r matches Err(ConnectorError::MissingRequiredField { field_name })
                        && field_name@ == "customer_id"@,
                    Some(_) => match item.router_return_url {
                        None => r matches Err(ConnectorError::MissingRequiredField { field_name })
                            && field_name@ == "return_url"@,
                        Some(_) => r matches Ok(req) && card_request_is(req, *item, *card),
                    },
                },
            },
    {
        let amount = get_amount_data(item);
        let auth_type = AdyenAuthType::try_from(&item.connector_auth_type)?;
        let shopper_interaction = AdyenShopperInteraction::from_off_session(item.off_session);
        let shopper_reference = build_shopper_reference(&item.customer_id, &item.merchant_id);
        let (recurring_processing_model, store_payment_method, _) = get_recurring_processing_model(item)?;
        let return_url = match &item.router_return_url {
            Some(u) => u.clone(),
            None => return Err(ConnectorError::MissingRequiredField { field_name: "return_url" }),
        };
        let billing_address = match get_address_info(&item.billing) {
            Some(Ok(a)) => Some(a),
            _ => None,
        };
        let additional_data = get_additional_data(item);
        let payment_method = AdyenPaymentMethod::try_from_card(card, clone_opt(&item.customer_name))?;
        Ok(
            AdyenPaymentRequest {
                amount,
                merchant_account: auth_type.merchant_account,
                payment_method,
                reference: item.connector_request_reference_id.clone(),
                return_url,
                shopper_interaction,
                recurring_processing_model,
                additional_data,
                shopper_reference,
                store_payment_method,
                billing_address,
                shopper_statement: clone_opt(&item.statement_descriptor),
                merchant_order_reference: clone_opt(&item.merchant_order_reference_id),
                channel: None,
            },
        )
    }
}


impl AdyenPaymentRequest {
    /// The request of a wallet payment.
    fn try_from_wallet(item: &PaymentsAuthorizeData, wallet_data: &WalletData) -> (r: Result<Self, ConnectorError>)
        ensures
            match merchant_account_of(item.connector_auth_type) {
                None => r matches Err(ConnectorError::FailedToObtainAuthType),
                Some(_) => if *wallet_data is Other {
                    r matches Err(ConnectorError::NotImplemented(m)) && m@ == "payment_method"@
                } else {
                    match item.customer_id {
                        None => r matches Err(ConnectorError::MissingRequiredField { field_name })
                            && field_name@ == "customer_id"@,
                        Some(_) => match item.router_return_url {
                            None => r matches Err(ConnectorError::MissingRequiredField { field_name })
                                && field_name@ == "return_url"@,
                            Some(_) => r matches Ok(req) && wallet_request_is(req, *item, *wallet_data),
                        },
                    }
                },
            },
    {
        let amount = get_amount_data(item);
        let auth_type = AdyenAuthType::try_from(&item.connector_auth_type)?;
        let payment_method = AdyenPaymentMethod::try_from_wallet(wallet_data)?;
        let shopper_interaction = AdyenShopperInteraction::from_off_session(item.off_session);
        let (recurring_processing_model, store_payment_method, shopper_reference) =
            get_recurring_processing_model(item)?;
        let return_url = match &item.router_return_url {
            Some(u) => u.clone(),
            None => return Err(ConnectorError::MissingRequiredField { field_name: "return_url" }),
        };
        let additional_data = get_additional_data(item);
        Ok(
            AdyenPaymentRequest {
                amount,
                merchant_account: auth_type.merchant_account,
                payment_method,
                reference: item.connector_request_reference_id.clone(),
                return_url,
                shopper_interaction,
                recurring_processing_model,
                additional_data,
                shopper_reference,
                store_payment_method,
                billing_address: None,
                shopper_statement: clone_opt(&item.statement_descriptor),
                merchant_order_reference: clone_opt(&item.merchant_order_reference_id),
                channel: None,
            },
        )
    }

    /// The request of a payment: by card or by wallet. Payments against a
    /// mandate and other payment methods are not implemented. A billing
    /// address, where it has details, must be complete.
    pub fn try_from(item: &PaymentsAuthorizeData) -> (r: Result<Self, ConnectorError>)
        requires
            address_complete(item.billing),
        ensures
            item.has_mandate_reference ==> (r matches Err(ConnectorError::NotImplemented(m)) && m@ == "payment_method"@),
            !item.has_mandate_reference ==> match item.payment_method_data {
                PaymentMethodData::Card(card) => match merchant_account_of(item.connector_auth_type) {
                    None => r matches Err(ConnectorError::FailedToObtainAuthType),
                    Some(_) => match item.customer_id {
                        None => r matches Err(ConnectorError::MissingRequiredField { field_name })
                            && field_name@ == "customer_id"@,
                        Some(_) => match item.router_return_url {
                            None => r matches Err(ConnectorError::MissingRequiredField { field_name })
                                && field_name@ == "return_url"@,
                            Some(_) => r matches Ok(req) && card_request_is(req, *item, card),
                        },
                    },
                },
                PaymentMethodData::Wallet(wallet) => match merchant_account_of(item.connector_auth_type) {
                    None => r matches Err(ConnectorError::FailedToObtainAuthType),
                    Some(_) => if wallet is Other {
                        r matches Err(ConnectorError::NotImplemented(m)) && m@ == "payment_method"@
                    } else {
                        match item.customer_id {
                            None => r matches Err(ConnectorError::MissingRequiredField { field_name })
                                && field_name@ == "customer_id"@,
                            Some(_) => match item.router_return_url {
                                None => r matches Err(ConnectorError::MissingRequiredField { field_name })
                                    && field_name@ == "return_url"@,
                                Some(_) => r matches Ok(req) && wallet_request_is(req, *item, wallet),
                            },
                        }
                    },
                },
                PaymentMethodData::Other(_) => r matches Err(ConnectorError::NotImplemented(m))
                    && m@ == "payment method"@,
            },
    {
        if item.has_mandate_reference {
            return Err(ConnectorError::NotImplemented(String::from_str("payment_method")));
        }
        match &item.payment_method_data {
            PaymentMethodData::Card(card) => AdyenPaymentRequest::try_from_card(item, card),
            PaymentMethodData::Wallet(wallet) => AdyenPaymentRequest::try_from_wallet(item, wallet),
            PaymentMethodData::Other(_) => Err(ConnectorError::NotImplemented(String::from_str("payment method"))),
        }
    }
}

/// A mandate setup request: a payment request for the mandate's amount.
#[derive(Clone, Debug)]
pub struct SetupMandateRequest(pub AdyenPaymentRequest);

/// The request of a card mandate setup.
pub open spec fn setup_mandate_request_is(req: AdyenPaymentRequest, item: SetupMandateRequestData, card: Card) -> bool {
    &&& req.amount == Amount {
        currency: item.currency,
        value: match item.amount {
            Some(a) => a,
            None => 0,
        },
    }
    &&& merchant_account_of(item.connector_auth_type) == Some(req.merchant_account@)
    &&& req.reference@ == item.connector_request_reference_id@
    &&& opt_str(item.router_return_url) == Some(req.return_url@)
    &&& req.shopper_interaction == (if item.off_session == Some(true) {
        AdyenShopperInteraction::ContinuedAuthentication
    } else {
        AdyenShopperInteraction::Ecommerce
    })
    &&& additional_data_is(req.additional_data, item.capture_method, item.metadata, item.auth_type)
    &&& opt_str(req.shopper_statement) == opt_str(item.statement_descriptor)
    &&& opt_str(req.merchant_order_reference) == opt_str(item.merchant_order_reference_id)
    &&& req.channel is None
    &&& adyen_card_is(req.payment_method, card, item.customer_name)
    &&& item.customer_id matches Some(c) && opt_str(req.shopper_reference) == Some(
        shopper_reference_of(item.merchant_id@, c@),
    )
    &&& (req.recurring_processing_model, req.store_payment_method) == recurring_model_and_store(
        item.setup_future_usage,
        item.off_session,
        item.has_mandate_reference,
    )
    &&& billing_address_is(req.billing_address, item.billing)
}

impl SetupMandateRequest {
    /// The request of a mandate setup with a card; mandates of other payment
    /// methods, and setups against an existing mandate, are not implemented.
    /// A billing address, where it has details, must be complete.
    pub fn try_from(item: &SetupMandateRequestData) -> (r: Result<Self, ConnectorError>)
        requires
            address_complete(item.billing),
        ensures
            item.has_mandate_reference ==> (r matches Err(ConnectorError::NotImplemented(m)) && m@ == "payment_method"@),
            !item.has_mandate_reference ==> match item.payment_method_data {
                PaymentMethodData::Card(card) => match merchant_account_of(item.connector_auth_type) {
                    None => r matches Err(ConnectorError::FailedToObtainAuthType),
                    Some(_) => match item.customer_id {
                        None => r matches Err(ConnectorError::MissingRequiredField { field_name })
                            && field_name@ == "customer_id"@,
                        Some(_) => match item.router_return_url {
                            None => r matches Err(ConnectorError::MissingRequiredField { field_name })
                                && field_name@ == "return_url"@,
                            Some(_) => r matches Ok(req) && setup_mandate_request_is(req.0, *item, card),
                        },
                    },
                },
                _ => r matches Err(ConnectorError::NotImplemented(m)) && m@ == "payment method"@,
            },
    {
        if item.has_mandate_reference {
            return Err(ConnectorError::NotImplemented(String::from_str("payment_method")));
        }
        let card = match &item.payment_method_data {
            PaymentMethodData::Card(card) => card,
            _ => return Err(ConnectorError::NotImplemented(String::from_str("payment method"))),
        };
        let amount = get_amount_data_for_setup_mandate(item);
        let auth_type = AdyenAuthType::try_from(&item.connector_auth_type)?;
        let shopper_interaction = AdyenShopperInteraction::from_off_session(item.off_session);
        let shopper_reference = build_shopper_reference(&item.customer_id, &item.merchant_id);
        let (recurring_processing_model, store_payment_method, _) =
            get_recurring_processing_model_for_setup_mandate(item)?;
        let return_url = match &item.router_return_url {
            Some(u) => u.clone(),
            None => return Err(ConnectorError::MissingRequiredField { field_name: "return_url" }),
        };
        let billing_address = match get_address_info(&item.billing) {
            Some(Ok(a)) => Some(a),
            _ => None,
        };
        let additional_data = get_additional_data_for_setup_mandate(item);
        let payment_method = AdyenPaymentMethod::try_from_card(card, clone_opt(&item.customer_name))?;
        Ok(
            SetupMandateRequest(
                AdyenPaymentRequest {
                    amount,
                    merchant_account: auth_type.merchant_account,
                    payment_method,
                    reference: item.connector_request_reference_id.clone(),
                    return_url,
                    shopper_interaction,
                    recurring_processing_model,
                    additional_data,
                    shopper_reference,
                    store_payment_method,
                    billing_address,
                    shopper_statement: clone_opt(&item.statement_descriptor),
                    merchant_order_reference: clone_opt(&item.merchant_order_reference_id),
                channel: None,
                },
            ),
        )
    }
}

/// A void request.
#[derive(Clone, Debug)]
pub struct AdyenVoidRequest {
    pub merchant_account: String,
    pub reference: String,
}

impl AdyenVoidRequest {
    pub fn try_from(item: &PaymentVoidData) -> (r: Result<Self, ConnectorError>)
        ensures
            match merchant_account_of(item.connector_auth_type) {
                Some(account) => r matches Ok(req) && req.merchant_account@ == account
                    && req.reference@ == item.connector_transaction_id@,
                None => r matches Err(ConnectorError::FailedToObtainAuthType),
            },
    {
        let auth_type = AdyenAuthType::try_from(&item.connector_auth_type)?;
        Ok(AdyenVoidRequest { merchant_account: auth_type.merchant_account, reference: item.connector_transaction_id.clone() })
    }
}

/// A refund request.
#[derive(Clone, Debug)]
pub struct AdyenRefundRequest {
    pub merchant_account: String,
    pub amount: Amount,
    pub merchant_refund_reason: Option<String>,
    pub reference: String,
}

impl AdyenRefundRequest {
    pub fn try_from(item: &RefundsData) -> (r: Result<Self, ConnectorError>)
        ensures
            match merchant_account_of(item.connector_auth_type) {
                Some(account) => r matches Ok(req) && req.merchant_account@ == account
                    && req.amount == (Amount { currency: item.currency, value: item.minor_refund_amount })
                    && opt_str(req.merchant_refund_reason) == opt_str(item.reason)
                    && req.reference@ == item.refund_id@,
                None => r matches Err(ConnectorError::FailedToObtainAuthType),
            },
    {
        let auth_type = AdyenAuthType::try_from(&item.connector_auth_type)?;
        Ok(
            AdyenRefundRequest {
                merchant_account: auth_type.merchant_account,
                amount: Amount { currency: item.currency, value: item.minor_refund_amount },
                merchant_refund_reason: clone_opt(&item.reason),
                reference: item.refund_id.clone(),
            },
        )
    }
}

/// A capture request.
#[derive(Clone, Debug)]
pub struct AdyenCaptureRequest {
    pub merchant_account: String,
    pub amount: Amount,
    pub reference: String,
}

impl AdyenCaptureRequest {
    /// A capture of the requested amount, referenced by the capture's own
    /// reference when it is one of several, else by the attempt's reference.
    pub fn try_from(item: &PaymentsCaptureData) -> (r: Result<Self, ConnectorError>)
        ensures
            match merchant_account_of(item.connector_auth_type) {
                Some(account) => r matches Ok(req) && req.merchant_account@ == account
                    && req.amount == (Amount { currency: item.currency, value: item.minor_amount_to_capture })
                    && req.reference@ == (match item.multiple_capture_reference {
                        Some(c) => c@,
                        None => item.connector_request_reference_id@,
                    }),
                None => r matches Err(ConnectorError::FailedToObtainAuthType),
            },
    {
        let auth_type = AdyenAuthType::try_from(&item.connector_auth_type)?;
        let reference = match &item.multiple_capture_reference {
            Some(c) => c.clone(),
            None => item.connector_request_reference_id.clone(),
        };
        Ok(
            AdyenCaptureRequest {
                merchant_account: auth_type.merchant_account,
                reference,
                amount: Amount { currency: item.currency, value: item.minor_amount_to_capture },
            },
        )
    }
}

/// Payment method type of an Adyen action.
#[derive(Clone, Copy, Debug, PartialEq, Eq, Structural)]
pub enum PaymentType {
    Affirm,
    Afterpaytouch,
    Alipay,
    AlipayHk,
    Alfamart,
    Alma,
    Applepay,
    Bizum,
    Atome,
    Blik,
    BoletoBancario,
    ClearPay,
    Dana,
    Eps,
    Gcash,
    Googlepay,
    GoPay,
    Ideal,
    Indomaret,
    Klarna,
    Kakaopay,
    Mbway,
    MobilePay,
    Momo,
    MomoAtm,
    OnlineBankingCzechRepublic,
    OnlineBankingFinland,
    OnlineBankingPoland,
    OnlineBankingSlovakia,
    OnlineBankingFpx,
    OnlineBankingThailand,
    OpenBankingUK,
    Oxxo,
    PaySafeCard,
    PayBright,
    Paypal,
    Scheme,
    NetworkToken,
    Trustly,
    TouchNGo,
    Walley,
    WeChatPayWeb,
    AchDirectDebit,
    SepaDirectDebit,
    BacsDirectDebit,
    Samsungpay,
    Twint,
    Vipps,
    Giftcard,
    Knet,
    Benefit,
    Swish,
    PermataBankTransfer,
    BcaBankTransfer,
    BniVa,
    BriVa,
    CimbVa,
    DanamonVa,
    MandiriVa,
    SevenEleven,
    Lawson,
}

/// Kind of action an answer asks for.
#[derive(Clone, Copy, Debug, PartialEq, Eq, Structural)]
pub enum ActionType {
    Redirect,
    Await,
    QrCode,
    Voucher,
}

/// A redirection URL: its serialization and the key and value pairs of its query.
#[derive(Clone, Debug)]
pub struct AdyenRedirectUrl {
    pub href: String,
    pub query_pairs: Vec<(String, String)>,
}

impl AdyenRedirectUrl {
    /// Reads a redirection URL from the text of an answer; a text that is not
    /// an absolute URL cannot be read.
    pub fn try_from(text: &str) -> (r: Result<Self, ConnectorError>)
        ensures
            match parsed_url(text@) {
                Some((href, pairs)) => r matches Ok(u) && u.href@ == href && pair_views(u.query_pairs@) == pairs,
                None => r matches Err(ConnectorError::ResponseDeserializationFailed),
            },
    {
        match parse_url(text) {
            Some((href, query_pairs)) => Ok(AdyenRedirectUrl { href, query_pairs }),
            None => Err(ConnectorError::ResponseDeserializationFailed),
        }
    }
}

/// The action an answer asks the shopper to take.
#[derive(Clone, Debug)]
pub struct AdyenRedirectAction {
    pub payment_method_type: PaymentType,
    pub url: Option<AdyenRedirectUrl>,
    pub method: Option<Method>,
    pub type_of_response: ActionType,
    pub data: Option<Vec<(String, String)>>,
    pub payment_data: Option<String>,
}

/// The answer to a payment that asks the shopper to act.
#[derive(Clone, Debug)]
pub struct RedirectionResponse {
    pub result_code: AdyenStatus,
    pub action: AdyenRedirectAction,
    pub refusal_reason: Option<String>,
    pub refusal_reason_code: Option<String>,
    pub psp_reference: Option<String>,
    pub merchant_reference: Option<String>,
    pub additional_data: Option<AdditionalData>,
}

/// The answer to a payment that needs no action of the shopper.
#[derive(Clone, Debug)]
pub struct AdyenResponse {
    pub psp_reference: String,
    pub result_code: AdyenStatus,
    pub amount: Option<Amount>,
    pub merchant_reference: String,
    pub refusal_reason: Option<String>,
    pub refusal_reason_code: Option<String>,
    pub additional_data: Option<AdditionalData>,
}

/// An answer to a payment, a payment sync or a mandate setup.
#[derive(Clone, Debug)]
pub enum AdyenPaymentResponse {
    Response(AdyenResponse),
    RedirectionResponse(RedirectionResponse),
}

/// When a wait screen is shown: from a time, in Unix nanoseconds, until
/// another or without end.
#[derive(Clone, Copy, Debug, PartialEq, Eq, Structural)]
pub struct WaitScreenData {
    pub display_from_timestamp: i128,
    pub display_to_timestamp: Option<i128>,
}

/// Nanoseconds in a minute.
pub const NANOS_PER_MINUTE: i128 = 60_000_000_000;

/// The wait screen of an answer at a time: a minute from now for BLIK, open
/// ended for MB WAY, and none for other payment methods.
pub open spec fn spec_wait_screen(payment_method_type: PaymentType, now: i128) -> Option<ConnectorMetadata> {
    match payment_method_type {
        PaymentType::Blik => Some(ConnectorMetadata::WaitScreen(WaitScreenData {
            display_from_timestamp: now,
            display_to_timestamp: Some((now + NANOS_PER_MINUTE) as i128),
        })),
        PaymentType::Mbway => Some(ConnectorMetadata::WaitScreen(WaitScreenData { display_from_timestamp: now, display_to_timestamp: None })),
        _ => None,
    }
}

/// The wait screen metadata of an answer, shown from the given time.
pub fn wait_screen_metadata_at(next_action: &RedirectionResponse, current_time: i128) -> (r: Result<Option<ConnectorMetadata>, ConnectorError>)
    requires
        MIN_UNIX_NANOS <= current_time <= MAX_UNIX_NANOS,
    ensures
        r == Ok::<Option<ConnectorMetadata>, ConnectorError>(spec_wait_screen(next_action.action.payment_method_type, current_time)),
{
    match next_action.action.payment_method_type {
        PaymentType::Blik => Ok(Some(ConnectorMetadata::WaitScreen(WaitScreenData {
            display_from_timestamp: current_time,
            display_to_timestamp: Some(current_time + NANOS_PER_MINUTE),
        }))),
        PaymentType::Mbway => Ok(Some(ConnectorMetadata::WaitScreen(WaitScreenData {
            display_from_timestamp: current_time,
            display_to_timestamp: None,
        }))),
        _ => Ok(None),
    }
}

/// The wait screen metadata of an answer, shown from now.
pub fn get_wait_screen_metadata(next_action: &RedirectionResponse) -> (r: Result<Option<ConnectorMetadata>, ConnectorError>)
    ensures
        exists|now: i128| MIN_UNIX_NANOS <= now <= MAX_UNIX_NANOS && r == Ok::<Option<ConnectorMetadata>, ConnectorError>(
            spec_wait_screen(next_action.action.payment_method_type, now),
        ),
{
    let now = current_unix_timestamp_nanos();
    wait_screen_metadata_at(next_action, now)
}


/// Whether an answer reports an error: a refusal reason or code, or a failed payment.
pub open spec fn adyen_has_error(refusal_reason: Option<String>, refusal_reason_code: Option<String>, status: AttemptStatus) -> bool {
    refusal_reason is Some || refusal_reason_code is Some || status == AttemptStatus::Failure
}

/// The error of a refusal: its code and reason, or the defaults.
pub open spec fn refusal_error_is(
    e: ErrorResponse,
    refusal_reason: Option<String>,
    refusal_reason_code: Option<String>,
    status_code: u16,
) -> bool {
    &&& e.code@ == (match refusal_reason_code {
        Some(c) => c@,
        None => NO_ERROR_CODE@,
    })
    &&& e.message@ == (match refusal_reason {
        Some(m) => m@,
        None => NO_ERROR_MESSAGE@,
    })
    &&& opt_str(e.reason) == opt_str(refusal_reason)
    &&& e.status_code == status_code
}

fn refusal_error(
    refusal_reason: &Option<String>,
    refusal_reason_code: &Option<String>,
    status_code: u16,
    attempt_status: Option<AttemptStatus>,
    connector_transaction_id: Option<String>,
) -> (e: ErrorResponse)
    ensures
        refusal_error_is(e, *refusal_reason, *refusal_reason_code, status_code),
        e.attempt_status == attempt_status,
        e.connector_transaction_id == connector_transaction_id,
{
    ErrorResponse {
        raw_connector_response: None,
        code: match refusal_reason_code {
            Some(c) => c.clone(),
            None => String::from_str(NO_ERROR_CODE),
        },
        message: match refusal_reason {
            Some(m) => m.clone(),
            None => String::from_str(NO_ERROR_MESSAGE),
        },
        reason: clone_opt(refusal_reason),
        status_code,
        attempt_status,
        connector_transaction_id,
    }
}

/// The stored payment method an answer's additional data reports.
pub open spec fn recurring_detail_of(additional_data: Option<AdditionalData>) -> Option<Seq<char>> {
    match additional_data {
        Some(d) => opt_str(d.recurring_detail_reference),
        None => None,
    }
}

/// The network transaction an answer's additional data reports.
pub open spec fn network_tx_of(additional_data: Option<AdditionalData>) -> Option<Seq<char>> {
    match additional_data {
        Some(d) => opt_str(d.network_tx_reference),
        None => None,
    }
}

/// The response data of an answer without action.
pub open spec fn adyen_data_is(d: TransactionResponseData, response: AdyenResponse, status_code: u16) -> bool {
    &&& d.resource_id matches ResponseId::ConnectorTransactionId(id) && id@ == response.psp_reference@
    &&& d.redirection_data is None
    &&& d.connector_metadata is None
    &&& opt_str(d.network_txn_id) == network_tx_of(response.additional_data)
    &&& opt_str(d.connector_response_reference_id) == Some(response.merchant_reference@)
    &&& match recurring_detail_of(response.additional_data) {
        Some(m) => d.mandate_reference matches Some(mr) && opt_str(mr.connector_mandate_id) == Some(m)
            && mr.payment_method_id is None,
        None => d.mandate_reference is None,
    }
    &&& d.status_code == status_code
}

/// The error of an answer without action.
pub open spec fn adyen_error_is(e: ErrorResponse, response: AdyenResponse, status_code: u16) -> bool {
    &&& refusal_error_is(e, response.refusal_reason, response.refusal_reason_code, status_code)
    &&& e.attempt_status == Some(AttemptStatus::Failure)
    &&& opt_str(e.connector_transaction_id) == Some(response.psp_reference@)
}

/// The response data of an answer that asks the shopper to act, with the wait
/// screen shown from a time.
pub open spec fn redirection_data_is(d: TransactionResponseData, response: RedirectionResponse, status_code: u16, now: i128) -> bool {
    &&& match response.psp_reference {
        Some(p) => d.resource_id matches ResponseId::ConnectorTransactionId(id) && id@ == p@,
        None => d.resource_id is NoResponseId,
    }
    &&& redirection_is(d.redirection_data, response.action)
    &&& d.connector_metadata == spec_wait_screen(response.action.payment_method_type, now)
    &&& d.network_txn_id is None
    &&& opt_str(d.connector_response_reference_id) == (match response.merchant_reference {
        Some(m) => Some(m@),
        None => opt_str(response.psp_reference),
    })
    &&& d.mandate_reference is None
    &&& d.status_code == status_code
}

/// The error of an answer that asks the shopper to act.
pub open spec fn redirection_error_is(e: ErrorResponse, response: RedirectionResponse, status_code: u16) -> bool {
    &&& refusal_error_is(e, response.refusal_reason, response.refusal_reason_code, status_code)
    &&& e.attempt_status is None
    &&& opt_str(e.connector_transaction_id) == opt_str(response.psp_reference)
}

/// The status, error and response data of an answer without action.
pub fn get_adyen_response(
    response: &AdyenResponse,
    is_capture_manual: bool,
    status_code: u16,
    pmt: Option<PaymentMethodType>,
) -> (r: Result<(AttemptStatus, Option<ErrorResponse>, TransactionResponseData), ConnectorError>)
    ensures
        r matches Ok(out) && out.0 == spec_adyen_payment_status(is_capture_manual, response.result_code) && (if adyen_has_error(
            response.refusal_reason,
            response.refusal_reason_code,
            out.0,
        ) {
            out.1 matches Some(e) && adyen_error_is(e, *response, status_code)
        } else {
            out.1 is None
        }) && adyen_data_is(out.2, *response, status_code),
{
    let status = get_adyen_payment_status(is_capture_manual, response.result_code, pmt);
    let error = if response.refusal_reason.is_some() || response.refusal_reason_code.is_some()
        || status == AttemptStatus::Failure {
        Some(refusal_error(
            &response.refusal_reason,
            &response.refusal_reason_code,
            status_code,
            Some(AttemptStatus::Failure),
            Some(response.psp_reference.clone()),
        ))
    } else {
        None
    };
    let (mandate_reference, network_txn_id) = match &response.additional_data {
        Some(d) => (
            match &d.recurring_detail_reference {
                Some(m) => Some(MandateReference { connector_mandate_id: Some(m.clone()), payment_method_id: None }),
                None => None,
            },
            clone_opt(&d.network_tx_reference),
        ),
        None => (None, None),
    };
    let data = TransactionResponseData {
        raw_connector_response: None,
        resource_id: ResponseId::ConnectorTransactionId(response.psp_reference.clone()),
        redirection_data: None,
        mandate_reference,
        connector_metadata: None,
        network_txn_id,
        connector_response_reference_id: Some(response.merchant_reference.clone()),
        status_code,
    };
    Ok((status, error, data))
}

/// The redirection form of an action: its URL, its method (GET by default),
/// and its data (the URL's query, collected as a map, where it has none).
pub open spec fn redirection_is(r: Option<RedirectForm>, action: AdyenRedirectAction) -> bool {
    match action.url {
        None => r is None,
        Some(u) => r matches Some(RedirectForm::Form { endpoint, method, form_fields }) && endpoint@ == u.href@
            && method == (match action.method {
                Some(m) => m,
                None => Method::Get,
            }) && pair_views(form_fields@) == (match action.data {
                Some(d) => pair_views(d@),
                None => upsert_all(Seq::empty(), pair_views(u.query_pairs@)),
            }),
    }
}


/// The status, error and response data of an answer that asks the shopper to
/// act, with the wait screen shown from a given time.
pub fn redirection_response_at(
    response: &RedirectionResponse,
    is_manual_capture: bool,
    status_code: u16,
    pmt: Option<PaymentMethodType>,
    current_time: i128,
) -> (r: Result<(AttemptStatus, Option<ErrorResponse>, TransactionResponseData), ConnectorError>)
    requires
        MIN_UNIX_NANOS <= current_time <= MAX_UNIX_NANOS,
    ensures
        r matches Ok(out) && out.0 == spec_adyen_payment_status(is_manual_capture, response.result_code) && (if adyen_has_error(
            response.refusal_reason,
            response.refusal_reason_code,
            out.0,
        ) {
            out.1 matches Some(e) && redirection_error_is(e, *response, status_code)
        } else {
            out.1 is None
        }) && redirection_data_is(out.2, *response, status_code, current_time),
{
    let status = get_adyen_payment_status(is_manual_capture, response.result_code, pmt);
    let error = if response.refusal_reason.is_some() || response.refusal_reason_code.is_some()
        || status == AttemptStatus::Failure {
        Some(refusal_error(
            &response.refusal_reason,
            &response.refusal_reason_code,
            status_code,
            None,
            clone_opt(&response.psp_reference),
        ))
    } else {
        None
    };
    let redirection_data = match &response.action.url {
        Some(u) => Some(RedirectForm::Form {
            endpoint: u.href.clone(),
            method: match response.action.method {
                Some(m) => m,
                None => Method::Get,
            },
            form_fields: match &response.action.data {
                Some(d) => clone_pairs(d),
                None => collect_pairs(&u.query_pairs),
            },
        }),
        None => None,
    };
    let connector_metadata = wait_screen_metadata_at(response, current_time)?;
    let data = TransactionResponseData {
        raw_connector_response: None,
        resource_id: match &response.psp_reference {
            Some(p) => ResponseId::ConnectorTransactionId(p.clone()),
            None => ResponseId::NoResponseId,
        },
        redirection_data,
        mandate_reference: None,
        connector_metadata,
        network_txn_id: None,
        connector_response_reference_id: match &response.merchant_reference {
            Some(m) => Some(m.clone()),
            None => clone_opt(&response.psp_reference),
        },
        status_code,
    };
    Ok((status, error, data))
}

/// The status, error and response data of an answer that asks the shopper to
/// act, with any wait screen shown from now.
pub fn get_redirection_response(
    response: &RedirectionResponse,
    is_manual_capture: bool,
    status_code: u16,
    pmt: Option<PaymentMethodType>,
) -> (r: Result<(AttemptStatus, Option<ErrorResponse>, TransactionResponseData), ConnectorError>)
    ensures
        r matches Ok(out) && out.0 == spec_adyen_payment_status(is_manual_capture, response.result_code) && (if adyen_has_error(
            response.refusal_reason,
            response.refusal_reason_code,
            out.0,
        ) {
            out.1 matches Some(e) && redirection_error_is(e, *response, status_code)
        } else {
            out.1 is None
        }) && exists|now: i128| MIN_UNIX_NANOS <= now <= MAX_UNIX_NANOS
            && #[trigger] redirection_data_is(out.2, *response, status_code, now),
{
    let now = current_unix_timestamp_nanos();
    redirection_response_at(response, is_manual_capture, status_code, pmt, now)
}

/// The outcome of an answer to a payment, a payment sync or a mandate setup:
/// the answer's status, and its error where it reports one, else its response
/// data. Payments here are captured automatically.
pub fn payment_response_at(
    response: &AdyenPaymentResponse,
    pmt: Option<PaymentMethodType>,
    http_code: u16,
    current_time: i128,
) -> (r: Result<PaymentsOutcome, ConnectorError>)
    requires
        MIN_UNIX_NANOS <= current_time <= MAX_UNIX_NANOS,
    ensures
        r matches Ok(o) && match *response {
            AdyenPaymentResponse::Response(a) => o.status == spec_adyen_payment_status(false, a.result_code)
                && if adyen_has_error(a.refusal_reason, a.refusal_reason_code, o.status) {
                    o.response matches Err(e) && adyen_error_is(e, a, http_code)
                } else {
                    o.response matches Ok(d) && adyen_data_is(d, a, http_code)
                },
            AdyenPaymentResponse::RedirectionResponse(a) => o.status == spec_adyen_payment_status(false, a.result_code)
                && if adyen_has_error(a.refusal_reason, a.refusal_reason_code, o.status) {
                    o.response matches Err(e) && redirection_error_is(e, a, http_code)
                } else {
                    o.response matches Ok(d) && redirection_data_is(d, a, http_code, current_time)
                },
        },
{
    let (status, error, data) = match response {
        AdyenPaymentResponse::Response(a) => get_adyen_response(a, false, http_code, pmt)?,
        AdyenPaymentResponse::RedirectionResponse(a) => redirection_response_at(a, false, http_code, pmt, current_time)?,
    };
    Ok(PaymentsOutcome {
        status,
        response: match error {
            Some(e) => Err(e),
            None => Ok(data),
        },
    })
}

/// The outcome of an answer to a payment, a payment sync or a mandate setup,
/// with any wait screen shown from now.
pub fn payment_response(
    response: &AdyenPaymentResponse,
    pmt: Option<PaymentMethodType>,
    http_code: u16,
) -> (r: Result<PaymentsOutcome, ConnectorError>)
    ensures
        r matches Ok(o) && match *response {
            AdyenPaymentResponse::Response(a) => o.status == spec_adyen_payment_status(false, a.result_code)
                && if adyen_has_error(a.refusal_reason, a.refusal_reason_code, o.status) {
                    o.response matches Err(e) && adyen_error_is(e, a, http_code)
                } else {
                    o.response matches Ok(d) && adyen_data_is(d, a, http_code)
                },
            AdyenPaymentResponse::RedirectionResponse(a) => o.status == spec_adyen_payment_status(false, a.result_code)
                && if adyen_has_error(a.refusal_reason, a.refusal_reason_code, o.status) {
                    o.response matches Err(e) && redirection_error_is(e, a, http_code)
                } else {
                    o.response matches Ok(d) && exists|now: i128| MIN_UNIX_NANOS <= now <= MAX_UNIX_NANOS
                        && #[trigger] redirection_data_is(d, a, http_code, now)
                },
        },
{
    let now = current_unix_timestamp_nanos();
    payment_response_at(response, pmt, http_code, now)
}


/// Status of a cancellation at Adyen.
#[derive(Clone, Copy, Debug, PartialEq, Eq, Structural)]
pub enum AdyenVoidStatus {
    Received,
    Processing,
}

impl Default for AdyenVoidStatus {
    fn default() -> (r: Self)
        ensures
            r == AdyenVoidStatus::Processing,
    {
        AdyenVoidStatus::Processing
    }
}

impl AdyenVoidStatus {
    /// A received cancellation voids the payment; one still processing has
    /// only started to.
    pub fn foreign_try_from(item: AdyenVoidStatus) -> (r: Result<AttemptStatus, ConnectorError>)
        ensures
            r == Ok::<AttemptStatus, ConnectorError>(if item == AdyenVoidStatus::Received {
                AttemptStatus::Voided
            } else {
                AttemptStatus::VoidInitiated
            }),
    {
        match item {
            AdyenVoidStatus::Received => Ok(AttemptStatus::Voided),
            AdyenVoidStatus::Processing => Ok(AttemptStatus::VoidInitiated),
        }
    }
}

/// The answer to a void request.
#[derive(Clone, Debug)]
pub struct AdyenVoidResponse {
    pub payment_psp_reference: String,
    pub status: AdyenVoidStatus,
    pub reference: String,
}

/// The outcome of a void answer: the payment is pending until a notification
/// confirms the cancellation.
pub fn void_response(response: &AdyenVoidResponse, http_code: u16) -> (r: PaymentsOutcome)
    ensures
        r.status == AttemptStatus::Pending,
        r.response matches Ok(d) && (d.resource_id matches ResponseId::ConnectorTransactionId(id)
            && id@ == response.payment_psp_reference@) && d.redirection_data is None
            && d.connector_metadata is None && d.network_txn_id is None
            && opt_str(d.connector_response_reference_id) == Some(response.reference@)
            && d.mandate_reference is None && d.status_code == http_code,
{
    PaymentsOutcome {
        status: AttemptStatus::Pending,
        response: Ok(
            TransactionResponseData {
                raw_connector_response: None,
                resource_id: ResponseId::ConnectorTransactionId(response.payment_psp_reference.clone()),
                redirection_data: None,
                mandate_reference: None,
                connector_metadata: None,
                network_txn_id: None,
                connector_response_reference_id: Some(response.reference.clone()),
                status_code: http_code,
            },
        ),
    }
}

/// The answer to a refund request.
#[derive(Clone, Debug)]
pub struct AdyenRefundResponse {
    pub merchant_account: String,
    pub psp_reference: String,
    pub payment_psp_reference: String,
    pub reference: String,
    pub status: String,
}

/// The outcome of a refund answer: the refund is pending until a notification
/// settles it.
pub fn refund_response(response: &AdyenRefundResponse, http_code: u16) -> (r: RefundsOutcome)
    ensures
        r.status == RefundStatus::Pending,
        r.response matches Ok(d) && d.connector_refund_id@ == response.psp_reference@
            && d.refund_status == RefundStatus::Pending && d.status_code == http_code,
{
    RefundsOutcome {
        status: RefundStatus::Pending,
        response: Ok(
            RefundsResponseData {
                raw_connector_response: None,
                connector_refund_id: response.psp_reference.clone(),
                refund_status: RefundStatus::Pending,
                status_code: http_code,
            },
        ),
    }
}

/// The answer to a capture request.
#[derive(Clone, Debug)]
pub struct AdyenCaptureResponse {
    pub merchant_account: String,
    pub payment_psp_reference: String,
    pub psp_reference: String,
    pub reference: String,
    pub status: String,
    pub amount: Amount,
    pub merchant_reference: Option<String>,
}

/// The outcome of a capture answer: pending until a notification confirms it,
/// and reported on the capture itself when it is one of several, else on the
/// payment.
pub fn capture_response(response: &AdyenCaptureResponse, request: &PaymentsCaptureData, http_code: u16) -> (r: PaymentsOutcome)
    ensures
        r.status == AttemptStatus::Pending,
        r.response matches Ok(d) && (d.resource_id matches ResponseId::ConnectorTransactionId(id)
            && id@ == (if request.multiple_capture_reference is Some {
                response.psp_reference@
            } else {
                response.payment_psp_reference@
            })) && d.redirection_data is None && d.connector_metadata is None
            && d.network_txn_id is None
            && opt_str(d.connector_response_reference_id) == Some(response.reference@)
            && d.mandate_reference is None && d.status_code == http_code,
{
    let connector_transaction_id = if request.multiple_capture_reference.is_some() {
        response.psp_reference.clone()
    } else {
        response.payment_psp_reference.clone()
    };
    PaymentsOutcome {
        status: AttemptStatus::Pending,
        response: Ok(
            TransactionResponseData {
                raw_connector_response: None,
                resource_id: ResponseId::ConnectorTransactionId(connector_transaction_id),
                redirection_data: None,
                mandate_reference: None,
                connector_metadata: None,
                network_txn_id: None,
                connector_response_reference_id: Some(response.reference.clone()),
                status_code: http_code,
            },
        ),
    }
}

/// Additional data of a notification.
#[derive(Clone, Debug)]
pub struct AdyenAdditionalDataWH {
    pub dispute_status: Option<AdyenDisputeStatus>,
    pub chargeback_reason_code: Option<String>,
}

/// One notification.
#[derive(Clone, Debug)]
pub struct AdyenNotificationRequestItemWH {
    pub original_reference: Option<String>,
    pub psp_reference: String,
    pub event_code: WebhookEventCode,
    pub merchant_account_code: String,
    pub merchant_reference: String,
    pub success: String,
    pub reason: Option<String>,
    pub additional_data: AdyenAdditionalDataWH,
}

/// A notification item.
#[derive(Clone, Debug)]
pub struct AdyenItemObjectWH {
    pub notification_request_item: AdyenNotificationRequestItemWH,
}

/// A webhook of notifications.
#[derive(Clone, Debug)]
pub struct AdyenIncomingWebhook {
    pub notification_items: Vec<AdyenItemObjectWH>,
}

/// The first notification of a webhook; a webhook without one cannot be decoded.
pub fn get_webhook_object_from_body(webhook: AdyenIncomingWebhook) -> (r: Result<AdyenNotificationRequestItemWH, ConnectorError>)
    ensures
        if webhook.notification_items@.len() > 0 {
            r == Ok::<AdyenNotificationRequestItemWH, ConnectorError>(webhook.notification_items@[0].notification_request_item)
        } else {
            r matches Err(ConnectorError::WebhookBodyDecodingFailed)
        },
{
    let mut items = webhook.notification_items;
    if items.len() == 0 {
        return Err(ConnectorError::WebhookBodyDecodingFailed);
    }
    let first = items.remove(0);
    Ok(first.notification_request_item)
}


/// The result of a dispute action at Adyen.
#[derive(Clone, Debug)]
pub struct DisputeServiceResult {
    pub error_message: Option<String>,
    pub success: bool,
}

/// A request to accept a dispute.
#[derive(Clone, Debug)]
pub struct AdyenDisputeAcceptRequest {
    pub dispute_psp_reference: String,
    pub merchant_account_code: String,
}

impl AdyenDisputeAcceptRequest {
    pub fn try_from(item: &AcceptDisputeData) -> (r: Result<Self, ConnectorError>)
        ensures
            match merchant_account_of(item.connector_auth_type) {
                Some(account) => r matches Ok(req) && req.merchant_account_code@ == account
                    && req.dispute_psp_reference@ == item.connector_dispute_id@,
                None => r matches Err(ConnectorError::FailedToObtainAuthType),
            },
    {
        let auth = AdyenAuthType::try_from(&item.connector_auth_type)?;
        Ok(AdyenDisputeAcceptRequest { dispute_psp_reference: item.connector_dispute_id.clone(), merchant_account_code: auth.merchant_account })
    }
}

/// The answer to a dispute acceptance.
#[derive(Clone, Debug)]
pub struct AdyenDisputeAcceptResponse {
    pub dispute_service_result: Option<DisputeServiceResult>,
}

/// The answer to an evidence submission.
#[derive(Clone, Debug)]
pub struct AdyenSubmitEvidenceResponse {
    pub dispute_service_result: Option<DisputeServiceResult>,
}

/// Whether a dispute action succeeded.
pub open spec fn dispute_action_succeeded(result: Option<DisputeServiceResult>) -> bool {
    result matches Some(r) && r.success
}

/// The error of a dispute action that did not succeed: its error message, or
/// the default one.
pub open spec fn dispute_action_error_is(e: ErrorResponse, result: Option<DisputeServiceResult>, http_code: u16) -> bool {
    let message = match result {
        Some(r) => match r.error_message {
            Some(m) => m@,
            None => NO_ERROR_MESSAGE@,
        },
        None => NO_ERROR_MESSAGE@,
    };
    &&& e.code@ == NO_ERROR_CODE@
    &&& e.message@ == message
    &&& opt_str(e.reason) == Some(message)
    &&& e.status_code == http_code
    &&& e.attempt_status is None
    &&& e.connector_transaction_id is None
}

fn dispute_action_response(
    result: &Option<DisputeServiceResult>,
    success_status: DisputeStatus,
    connector_dispute_id: &String,
    http_code: u16,
) -> (r: Result<DisputeResponseData, ErrorResponse>)
    ensures
        if dispute_action_succeeded(*result) {
            r matches Ok(d) && d.dispute_status == success_status && d.connector_dispute_id@ == connector_dispute_id@
        } else {
            r matches Err(e) && dispute_action_error_is(e, *result, http_code)
        },
{
    let success = match result {
        Some(r) => r.success,
        None => false,
    };
    if success {
        Ok(DisputeResponseData { dispute_status: success_status, connector_dispute_id: connector_dispute_id.clone() })
    } else {
        let error_message = match result {
            Some(r) => match &r.error_message {
                Some(m) => m.clone(),
                None => String::from_str(NO_ERROR_MESSAGE),
            },
            None => String::from_str(NO_ERROR_MESSAGE),
        };
        Err(ErrorResponse {
            raw_connector_response: None,
            code: String::from_str(NO_ERROR_CODE),
            message: error_message.clone(),
            reason: Some(error_message),
            status_code: http_code,
            attempt_status: None,
            connector_transaction_id: None,
        })
    }
}

/// The outcome of a dispute acceptance: accepted when Adyen reports success.
pub fn accept_dispute_response(response: &AdyenDisputeAcceptResponse, connector_dispute_id: &String, http_code: u16) -> (r: Result<DisputeResponseData, ErrorResponse>)
    ensures
        if dispute_action_succeeded(response.dispute_service_result) {
            r matches Ok(d) && d.dispute_status == DisputeStatus::DisputeAccepted
                && d.connector_dispute_id@ == connector_dispute_id@
        } else {
            r matches Err(e) && dispute_action_error_is(e, response.dispute_service_result, http_code)
        },
{
    dispute_action_response(&response.dispute_service_result, DisputeStatus::DisputeAccepted, connector_dispute_id, http_code)
}

/// The outcome of an evidence submission: challenged when Adyen reports success.
pub fn submit_evidence_response(response: &AdyenSubmitEvidenceResponse, connector_dispute_id: &String, http_code: u16) -> (r: Result<DisputeResponseData, ErrorResponse>)
    ensures
        if dispute_action_succeeded(response.dispute_service_result) {
            r matches Ok(d) && d.dispute_status == DisputeStatus::DisputeChallenged
                && d.connector_dispute_id@ == connector_dispute_id@
        } else {
            r matches Err(e) && dispute_action_error_is(e, response.dispute_service_result, http_code)
        },
{
    dispute_action_response(&response.dispute_service_result, DisputeStatus::DisputeChallenged, connector_dispute_id, http_code)
}

/// A document of defence.
#[derive(Clone, Debug)]
pub struct DefenseDocuments {
    pub content: String,
    pub content_type: Option<String>,
    pub defense_document_type_code: String,
}

/// The content, file type and type code of defence documents.
pub open spec fn document_views(docs: Seq<DefenseDocuments>) -> Seq<(Seq<char>, Option<Seq<char>>, Seq<char>)> {
    docs.map_values(|d: DefenseDocuments| (d.content@, opt_str(d.content_type), d.defense_document_type_code@))
}

/// The defence document of a file, when there is one: its base64 content, its
/// file type, and the type code `DefenseMaterial`.
pub open spec fn document_of(file: Option<Vec<u8>>, file_type: Option<String>) -> Seq<(Seq<char>, Option<Seq<char>>, Seq<char>)> {
    match file {
        Some(f) => seq![(base64_standard(f@), opt_str(file_type), "DefenseMaterial"@)],
        None => Seq::empty(),
    }
}

/// The defence documents of the evidence, in a fixed order of kinds.
pub open spec fn spec_defence_documents(item: SubmitEvidenceData) -> Seq<(Seq<char>, Option<Seq<char>>, Seq<char>)> {
        document_of(item.shipping_documentation, item.shipping_documentation_provider_file_id) +
        document_of(item.receipt, item.receipt_file_type) +
        document_of(item.invoice_showing_distinct_transactions, item.invoice_showing_distinct_transactions_file_type) +
        document_of(item.customer_communication, item.customer_communication_file_type) +
        document_of(item.refund_policy, item.refund_policy_file_type) +
        document_of(item.recurring_transaction_agreement, item.recurring_transaction_agreement_file_type) +
        document_of(item.uncategorized_file, item.uncategorized_file_type) +
        document_of(item.cancellation_policy, item.cancellation_policy_file_type) +
        document_of(item.customer_signature, item.customer_signature_file_type) +
        document_of(item.service_documentation, item.service_documentation_file_type)
}

fn push_document(docs: &mut Vec<DefenseDocuments>, file: &Option<Vec<u8>>, file_type: &Option<String>)
    ensures
        document_views(final(docs)@) == document_views(old(docs)@) + document_of(*file, *file_type),
{
    if let Some(f) = file {
        let content = base64_encode(f.as_slice());
        docs.push(DefenseDocuments {
            content,
            content_type: clone_opt(file_type),
            defense_document_type_code: String::from_str("DefenseMaterial"),
        });
        assert(document_views(docs@) =~= document_views(old(docs)@) + document_of(*file, *file_type));
    } else {
        assert(document_views(docs@) =~= document_views(old(docs)@) + document_of(*file, *file_type));
    }
}

/// The defence documents of the evidence, or none when it holds no document.
pub fn get_defence_documents(item: &SubmitEvidenceData) -> (r: Option<Vec<DefenseDocuments>>)
    ensures
        match r {
            Some(docs) => spec_defence_documents(*item).len() > 0 && document_views(docs@) == spec_defence_documents(*item),
            None => spec_defence_documents(*item).len() == 0,
        },
{
    let mut defense_documents: Vec<DefenseDocuments> = Vec::new();
    assert(document_views(defense_documents@) =~= Seq::empty());
    push_document(&mut defense_documents, &item.shipping_documentation, &item.shipping_documentation_provider_file_id);
    push_document(&mut defense_documents, &item.receipt, &item.receipt_file_type);
    push_document(&mut defense_documents, &item.invoice_showing_distinct_transactions, &item.invoice_showing_distinct_transactions_file_type);
    push_document(&mut defense_documents, &item.customer_communication, &item.customer_communication_file_type);
    push_document(&mut defense_documents, &item.refund_policy, &item.refund_policy_file_type);
    push_document(&mut defense_documents, &item.recurring_transaction_agreement, &item.recurring_transaction_agreement_file_type);
    push_document(&mut defense_documents, &item.uncategorized_file, &item.uncategorized_file_type);
    push_document(&mut defense_documents, &item.cancellation_policy, &item.cancellation_policy_file_type);
    push_document(&mut defense_documents, &item.customer_signature, &item.customer_signature_file_type);
    push_document(&mut defense_documents, &item.service_documentation, &item.service_documentation_file_type);
    assert(document_views(defense_documents@) =~= spec_defence_documents(*item));
    if defense_documents.len() == 0 {
        None
    } else {
        Some(defense_documents)
    }
}

/// A request to submit evidence for a dispute.
#[derive(Clone, Debug)]
pub struct AdyenDisputeSubmitEvidenceRequest {
    pub defense_documents: Vec<DefenseDocuments>,
    pub merchant_account_code: String,
    pub dispute_psp_reference: String,
}

impl AdyenDisputeSubmitEvidenceRequest {
    /// The evidence must hold at least one document.
    pub fn try_from(item: &SubmitEvidenceData) -> (r: Result<Self, ConnectorError>)
        ensures
            match merchant_account_of(item.connector_auth_type) {
                None => r matches Err(ConnectorError::FailedToObtainAuthType),
                Some(account) => if spec_defence_documents(*item).len() == 0 {
                    r matches Err(ConnectorError::MissingRequiredField { field_name })
                        && field_name@ == "Missing Defence Documents"@
                } else {
                    r matches Ok(req) && document_views(req.defense_documents@) == spec_defence_documents(*item)
                        && req.merchant_account_code@ == account
                        && req.dispute_psp_reference@ == item.connector_dispute_id@
                },
            },
    {
        let auth = AdyenAuthType::try_from(&item.connector_auth_type)?;
        let defense_documents = match get_defence_documents(item) {
            Some(d) => d,
            None => return Err(ConnectorError::MissingRequiredField { field_name: "Missing Defence Documents" }),
        };
        Ok(AdyenDisputeSubmitEvidenceRequest {
            defense_documents,
            merchant_account_code: auth.merchant_account,
            dispute_psp_reference: item.connector_dispute_id.clone(),
        })
    }
}

/// A request to defend a dispute.
#[derive(Clone, Debug)]
pub struct AdyenDefendDisputeRequest {
    pub dispute_psp_reference: String,
    pub merchant_account_code: String,
    pub defense_reason_code: String,
}

impl AdyenDefendDisputeRequest {
    pub fn try_from(item: &DisputeDefendData) -> (r: Result<Self, ConnectorError>)
        ensures
            match merchant_account_of(item.connector_auth_type) {
                Some(account) => r matches Ok(req) && req.merchant_account_code@ == account
                    && req.dispute_psp_reference@ == item.connector_dispute_id@
                    && req.defense_reason_code@ == item.defense_reason_code@,
                None => r matches Err(ConnectorError::FailedToObtainAuthType),
            },
    {
        let auth_type = AdyenAuthType::try_from(&item.connector_auth_type)?;
        Ok(AdyenDefendDisputeRequest {
            dispute_psp_reference: item.connector_dispute_id.clone(),
            merchant_account_code: auth_type.merchant_account,
            defense_reason_code: item.defense_reason_code.clone(),
        })
    }
}

/// The error answer to a dispute defence.
#[derive(Clone, Debug)]
pub struct DefendDisputeErrorResponse {
    pub error_code: String,
    pub error_type: String,
    pub message: String,
    pub psp_reference: String,
    pub status: String,
}

/// The successful answer to a dispute defence.
#[derive(Clone, Debug)]
pub struct DefendDisputeSuccessResponse {
    pub dispute_service_result: DisputeServiceResult,
}

/// The answer to a dispute defence.
#[derive(Clone, Debug)]
pub enum AdyenDefendDisputeResponse {
    DefendDisputeSuccessResponse(DefendDisputeSuccessResponse),
    DefendDisputeFailedResponse(DefendDisputeErrorResponse),
}

/// The outcome of a dispute defence: won or lost as Adyen reports, or the
/// error it answered with.
pub fn defend_dispute_response(response: &AdyenDefendDisputeResponse, connector_dispute_id: &String, http_code: u16) -> (r: Result<DisputeResponseData, ErrorResponse>)
    ensures
        match *response {
            AdyenDefendDisputeResponse::DefendDisputeSuccessResponse(result) => r matches Ok(d)
                && d.dispute_status == (if result.dispute_service_result.success {
                    DisputeStatus::DisputeWon
                } else {
                    DisputeStatus::DisputeLost
                }) && d.connector_dispute_id@ == connector_dispute_id@,
            AdyenDefendDisputeResponse::DefendDisputeFailedResponse(err) => r matches Err(e)
                && e.code@ == err.error_code@ && e.message@ == err.message@
                && opt_str(e.reason) == Some(err.message@) && e.status_code == http_code
                && e.attempt_status is None
                && opt_str(e.connector_transaction_id) == Some(err.psp_reference@),
        },
{
    match response {
        AdyenDefendDisputeResponse::DefendDisputeSuccessResponse(result) => Ok(DisputeResponseData {
            dispute_status: if result.dispute_service_result.success {
                DisputeStatus::DisputeWon
            } else {
                DisputeStatus::DisputeLost
            },
            connector_dispute_id: connector_dispute_id.clone(),
        }),
        AdyenDefendDisputeResponse::DefendDisputeFailedResponse(err) => Err(ErrorResponse {
            raw_connector_response: None,
            code: err.error_code.clone(),
            message: err.message.clone(),
            reason: Some(err.message.clone()),
            status_code: http_code,
            attempt_status: None,
            connector_transaction_id: Some(err.psp_reference.clone()),
        }),
    }
}


/// A notification gives an attempt status exactly when it is about a payment,
/// and a refund status exactly when it is about a refund.
pub proof fn lemma_webhook_events_agree(code: WebhookEventCode, success: bool)
    ensures
        spec_payment_webhook_event(code, success) is Some <==> spec_webhook_event_type(code) == EventType::Payment,
        spec_refund_webhook_event(code, success) is Some <==> spec_webhook_event_type(code) == EventType::Refund,
{
}

/// The capture method only decides the status of an authorised payment.
pub proof fn lemma_manual_capture_only_authorised(status: AdyenStatus)
    requires
        status != AdyenStatus::Authorised,
    ensures
        spec_adyen_payment_status(true, status) == spec_adyen_payment_status(false, status),
{
}

/// A payment fails exactly when Adyen reports an error or a refusal.
pub proof fn lemma_failure_iff_refused(is_manual_capture: bool, status: AdyenStatus)
    ensures
        spec_adyen_payment_status(is_manual_capture, status) == AttemptStatus::Failure <==> (status
            == AdyenStatus::Error || status == AdyenStatus::Refused),
{
}

} // verus!
