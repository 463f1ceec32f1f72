//! Fiserv: card charge, capture, void, refund and inquiry requests with the
//! merchant's terminal session; the attempt and refund statuses of its
//! transaction states; and its HMAC-signed request headers.

use vstd::prelude::*;
use vstd::string::StringSliceAdditionalSpecFns;

use crate::common_enums::{AttemptStatus, CaptureMethod, RefundStatus};
use crate::consts::{NO_ERROR_CODE, NO_ERROR_MESSAGE};
use crate::encoding::{
    base64_encode, base64_standard, char_is_numeric, json_text_model, parse_json, unicode_numeric,
};
use crate::json::{lemma_items_model, JsonModel, JsonValue};
use crate::router_data::{
    ConnectorAuthType, ConnectorError, ErrorResponse, MetadataValue, PaymentMethodData, PaymentVoidData,
    PaymentsAuthorizeData, PaymentsCaptureData, PaymentsOutcome, PaymentsSyncData, RefundSyncData,
    RefundsData, RefundsOutcome, RefundsResponseData, ResponseId, TransactionResponseData,
};
use crate::runtime_values::{
    current_unix_timestamp_nanos, is_uuid_v4_hyphenated, new_uuid_v4_string, MAX_UNIX_NANOS, MIN_UNIX_NANOS,
};
use crate::signing::{hmac_sha256, hmac_sha256_tag};
use crate::text::{
    byte_len, clone_opt, concat, concat3, i128_to_decimal, int_decimal, lemma_byte_len_bound,
    lemma_encode_concat, lemma_i128_decimal_len, opt_str, pair_views, utf8_lossy, utf8_lossy_text,
};

verus! {

/// Fiserv credentials: API key, merchant account and API secret, from a
/// signature key.
#[derive(Clone, Debug)]
pub struct FiservAuthType {
    pub api_key: String,
    pub merchant_account: String,
    pub api_secret: String,
}

/// The API key, merchant account and API secret of Fiserv credentials.
pub open spec fn fiserv_credentials(auth: ConnectorAuthType) -> Option<(Seq<char>, Seq<char>, Seq<char>)> {
    match auth {
        ConnectorAuthType::SignatureKey { api_key, key1, api_secret } => Some((api_key@, key1@, api_secret@)),
        _ => None,
    }
}

impl FiservAuthType {
    pub fn try_from(auth_type: &ConnectorAuthType) -> (r: Result<Self, ConnectorError>)
        ensures
            match fiserv_credentials(*auth_type) {
                Some(c) => r matches Ok(a) && (a.api_key@, a.merchant_account@, a.api_secret@) == c,
                None => r matches Err(ConnectorError::FailedToObtainAuthType),
            },
    {
        match auth_type {
            ConnectorAuthType::SignatureKey { api_key, key1, api_secret } => Ok(
                FiservAuthType { api_key: api_key.clone(), merchant_account: key1.clone(), api_secret: api_secret.clone() },
            ),
            _ => Err(ConnectorError::FailedToObtainAuthType),
        }
    }
}

/// Whether every character of a text is numeric.
pub open spec fn all_numeric(s: Seq<char>) -> bool {
    forall|i: int| 0 <= i < s.len() ==> #[trigger] unicode_numeric(s[i])
}

fn all_chars_numeric(s: &str) -> (r: bool)
    ensures
        r == all_numeric(s@),
{
    let n = s.unicode_len();
    let mut i: usize = 0;
    while i < n
        invariant
            n == s@.len(),
            i <= n,
            forall|j: int| 0 <= j < i ==> #[trigger] unicode_numeric(s@[j]),
        decreases n - i,
    {
        if !char_is_numeric(s.get_char(i)) {
            return false;
        }
        i = i + 1;
    }
    true
}

/// The four-digit expiry year of a card: `20` before a two-digit year, a
/// four-digit year as it is; any other year is refused.
pub open spec fn spec_expiry_year(year: Seq<char>) -> Option<Seq<char>> {
    if byte_len(year) == 2 && all_numeric(year) {
        Some("20"@ + year)
    } else if byte_len(year) == 4 && all_numeric(year) {
        Some(year)
    } else {
        None
    }
}

pub fn get_card_expiry_year_4_digit_placeholder(year_yy: &String) -> (r: Result<String, ConnectorError>)
    ensures
        match spec_expiry_year(year_yy@) {
            Some(y) => r matches Ok(s) && s@ == y,
            None => r matches Err(ConnectorError::RequestEncodingFailed),
        },
{
    let year = year_yy.as_str();
    assert(year.spec_bytes() == vstd::utf8::encode_utf8(year@));
    let len = year.as_bytes().len();
    let numeric = all_chars_numeric(year);
    if len == 2 && numeric {
        Ok(concat("20", year))
    } else if len == 4 && numeric {
        Ok(year_yy.clone())
    } else {
        Err(ConnectorError::RequestEncodingFailed)
    }
}

/// An amount in minor units of a currency, with the currency's code.
#[derive(Clone, Debug)]
pub struct Amount {
    pub total_minor: i64,
    pub currency: String,
}

/// A card as Fiserv takes it.
#[derive(Clone, Debug)]
pub struct CardData {
    pub card_data: String,
    pub expiration_month: String,
    pub expiration_year: String,
    pub security_code: String,
}

/// The payment source of a charge.
#[derive(Clone, Debug)]
pub enum Source {
    PaymentCard { card: CardData },
    GooglePay { data: String, signature: String, version: String },
}

/// Details of a transaction.
#[derive(Clone, Debug)]
pub struct TransactionDetails {
    pub capture_flag: Option<bool>,
    pub reversal_reason_code: Option<String>,
    pub merchant_transaction_id: String,
}

/// The merchant and terminal of a transaction.
#[derive(Clone, Debug)]
pub struct MerchantDetails {
    pub merchant_id: String,
    pub terminal_id: Option<String>,
}

/// Where a transaction originates.
#[derive(Clone, Copy, Debug, PartialEq, Eq, Structural)]
pub enum TransactionInteractionOrigin {
    Ecom,
}

/// How the card data was protected.
#[derive(Clone, Copy, Debug, PartialEq, Eq, Structural)]
pub enum TransactionInteractionEciIndicator {
    ChannelEncrypted,
}

/// Whether the card was present.
#[derive(Clone, Copy, Debug, PartialEq, Eq, Structural)]
pub enum TransactionInteractionPosConditionCode {
    CardNotPresentEcom,
}

/// How the shopper took part: an e-commerce payment without the card present.
#[derive(Clone, Copy, Debug, PartialEq, Eq, Structural)]
pub struct TransactionInteraction {
    pub origin: TransactionInteractionOrigin,
    pub eci_indicator: TransactionInteractionEciIndicator,
    pub pos_condition_code: TransactionInteractionPosConditionCode,
}

impl Default for TransactionInteraction {
    fn default() -> (r: Self)
        ensures
            r == (TransactionInteraction {
                origin: TransactionInteractionOrigin::Ecom,
                eci_indicator: TransactionInteractionEciIndicator::ChannelEncrypted,
                pos_condition_code: TransactionInteractionPosConditionCode::CardNotPresentEcom,
            }),
    {
        TransactionInteraction {
            origin: TransactionInteractionOrigin::Ecom,
            eci_indicator: TransactionInteractionEciIndicator::ChannelEncrypted,
            pos_condition_code: TransactionInteractionPosConditionCode::CardNotPresentEcom,
        }
    }
}

/// The terminal id a session's JSON value gives, read as a session object
/// with a single `terminal_id` string field is read: from an object, the
/// string under `terminal_id` (other keys are ignored); from an array, its one
/// element when that is a string.
pub open spec fn session_terminal_id(v: JsonModel) -> Option<Seq<char>> {
    match v {
        JsonModel::Object(m) => if m.contains_key("terminal_id"@) {
            match m["terminal_id"@] {
                JsonModel::Text(t) => Some(t),
                _ => None,
            }
        } else {
            None
        },
        JsonModel::Array(items) => if items.len() == 1 {
            match items[0] {
                JsonModel::Text(t) => Some(t),
                _ => None,
            }
        } else {
            None
        },
        _ => None,
    }
}

/// The terminal id of a session's JSON text: none where the text is not JSON
/// or gives no terminal id.
pub open spec fn json_terminal_id(text: Seq<char>) -> Option<Seq<char>> {
    match json_text_model(text) {
        Some(v) => session_terminal_id(v),
        None => None,
    }
}

/// The terminal id of a session's JSON value.
pub fn terminal_id_of(v: &JsonValue) -> (r: Option<String>)
    ensures
        opt_str(r) == session_terminal_id(v.model()),
{
    proof {
        reveal_strlit("terminal_id");
    }
    match v {
        JsonValue::Object(_) => match v.get("terminal_id") {
            Some(JsonValue::Text(t)) => Some(t.clone()),
            _ => None,
        },
        JsonValue::Array(items) => {
            proof {
                lemma_items_model(items@);
            }
            if items.len() == 1 {
                match &items[0] {
                    JsonValue::Text(t) => Some(t.clone()),
                    _ => None,
                }
            } else {
                None
            }
        },
        _ => None,
    }
}

/// The terminal id of a session's JSON text.
pub fn parse_terminal_id(text: &str) -> (r: Option<String>)
    ensures
        opt_str(r) == json_terminal_id(text@),
{
    match parse_json(text) {
        Some(v) => terminal_id_of(&v),
        None => None,
    }
}

/// The terminal session of a merchant's account.
#[derive(Clone, Debug)]
pub struct FiservSessionObject {
    pub terminal_id: String,
}

/// Where a session is read from, and what it is called in errors.
pub open spec fn session_result_is(
    r: Result<FiservSessionObject, ConnectorError>,
    meta: Option<MetadataValue>,
    missing: Seq<char>,
    not_string: Seq<char>,
    undecodable: Seq<char>,
) -> bool {
    match meta {
        None => r matches Err(ConnectorError::MissingRequiredField { field_name }) && field_name@ == missing,
        Some(MetadataValue::Str(text)) => match json_terminal_id(text@) {
            Some(t) => r matches Ok(s) && s.terminal_id@ == t,
            None => r matches Err(ConnectorError::InvalidConnectorConfig { config }) && config@ == undecodable,
        },
        Some(_) => r matches Err(ConnectorError::InvalidConnectorConfig { config }) && config@ == not_string,
    }
}

fn session_from(
    meta: &Option<MetadataValue>,
    missing: &'static str,
    not_string: &'static str,
    undecodable: &'static str,
) -> (r: Result<FiservSessionObject, ConnectorError>)
    ensures
        session_result_is(r, *meta, missing@, not_string@, undecodable@),
{
    match meta {
        None => Err(ConnectorError::MissingRequiredField { field_name: missing }),
        Some(MetadataValue::Str(text)) => match parse_terminal_id(text.as_str()) {
            Some(t) => Ok(FiservSessionObject { terminal_id: t }),
            None => Err(ConnectorError::InvalidConnectorConfig { config: undecodable }),
        },
        Some(_) => Err(ConnectorError::InvalidConnectorConfig { config: not_string }),
    }
}

impl FiservSessionObject {
    /// The session of a merchant account's metadata: a JSON string holding the
    /// session's JSON text.
    pub fn try_from(meta_data: &Option<MetadataValue>) -> (r: Result<Self, ConnectorError>)
        ensures
            session_result_is(
                r,
                *meta_data,
                "connector_meta_data (FiservSessionObject)"@,
                "FiservSessionObject in connector_meta_data was not a JSON string"@,
                "Deserializing FiservSessionObject from connector_meta_data string"@,
            ),
    {
        session_from(
            meta_data,
            "connector_meta_data (FiservSessionObject)",
            "FiservSessionObject in connector_meta_data was not a JSON string",
            "Deserializing FiservSessionObject from connector_meta_data string",
        )
    }
}

/// A charge request.
#[derive(Clone, Debug)]
pub struct FiservPaymentsRequest {
    pub amount: Amount,
    pub source: Source,
    pub transaction_details: TransactionDetails,
    pub merchant_details: MerchantDetails,
    pub transaction_interaction: TransactionInteraction,
}

/// The charge request of an authorization with a session and a card.
pub open spec fn payments_request_is(req: FiservPaymentsRequest, item: PaymentsAuthorizeData, terminal: Seq<char>, card: crate::router_data::Card) -> bool {
    &&& req.amount.total_minor == item.minor_amount
    &&& req.amount.currency@ == item.currency.spec_code()
    &&& req.transaction_details.capture_flag == Some(item.capture_method == Some(CaptureMethod::Automatic) || item.capture_method is None)
    &&& req.transaction_details.reversal_reason_code is None
    &&& req.transaction_details.merchant_transaction_id@ == item.connector_request_reference_id@
    &&& fiserv_credentials(item.connector_auth_type) matches Some(c) && req.merchant_details.merchant_id@ == c.1
    &&& opt_str(req.merchant_details.terminal_id) == Some(terminal)
    &&& req.transaction_interaction == TransactionInteraction {
        origin: TransactionInteractionOrigin::Ecom,
        eci_indicator: TransactionInteractionEciIndicator::ChannelEncrypted,
        pos_condition_code: TransactionInteractionPosConditionCode::CardNotPresentEcom,
    }
    &&& req.source matches Source::PaymentCard { card: cd } && cd.card_data@ == card.card_number@
        && cd.expiration_month@ == card.card_exp_month@
        && Some(cd.expiration_year@) == spec_expiry_year(card.card_exp_year@)
        && cd.security_code@ == card.card_cvc@
}

impl FiservPaymentsRequest {
    /// The charge request of a card payment, with the terminal of the
    /// merchant account's session.
    pub fn try_from(item: &PaymentsAuthorizeData) -> (r: Result<Self, ConnectorError>)
        ensures
            match fiserv_credentials(item.connector_auth_type) {
                None => r matches Err(ConnectorError::FailedToObtainAuthType),
                Some(_) => match item.connector_meta_data {
                    None => r matches Err(ConnectorError::MissingRequiredField { field_name })
                        && field_name@ == "connector_meta_data for FiservSessionObject"@,
                    Some(MetadataValue::Str(text)) => match json_terminal_id(text@) {
                        None => r matches Err(ConnectorError::InvalidConnectorConfig { config })
                            && config@ == "Deserializing FiservSessionObject from connector_meta_data string"@,
                        Some(terminal) => match item.payment_method_data {
                            PaymentMethodData::Card(card) => match spec_expiry_year(card.card_exp_year@) {
                                None => r matches Err(ConnectorError::RequestEncodingFailed),
                                Some(_) => r matches Ok(req) && payments_request_is(req, *item, terminal, card),
                            },
                            _ => r matches Err(ConnectorError::NotImplemented(m))
                                && m@ == "Payment method not implemented for Fiserv"@,
                        },
                    },
                    Some(_) => r matches Err(ConnectorError::InvalidConnectorConfig { config })
                        && config@ == "connector_meta_data was not a JSON string for FiservSessionObject"@,
                },
            },
    {
        FiservAuthType::try_from(&item.connector_auth_type)?;
        let session = session_from(
            &item.connector_meta_data,
            "connector_meta_data for FiservSessionObject",
            "connector_meta_data was not a JSON string for FiservSessionObject",
            "Deserializing FiservSessionObject from connector_meta_data string",
        )?;
        FiservPaymentsRequest::with_terminal(item, session.terminal_id)
    }

    /// The charge request of a card payment with a given terminal.
    pub fn with_terminal(item: &PaymentsAuthorizeData, terminal_id: String) -> (r: Result<Self, ConnectorError>)
        ensures
            match fiserv_credentials(item.connector_auth_type) {
                None => r matches Err(ConnectorError::FailedToObtainAuthType),
                Some(_) => match item.payment_method_data {
                    PaymentMethodData::Card(card) => match spec_expiry_year(card.card_exp_year@) {
                        None => r matches Err(ConnectorError::RequestEncodingFailed),
                        Some(_) => r matches Ok(req) && payments_request_is(req, *item, terminal_id@, card),
                    },
                    _ => r matches Err(ConnectorError::NotImplemented(m))
                        && m@ == "Payment method not implemented for Fiserv"@,
                },
            },
    {
        let auth = FiservAuthType::try_from(&item.connector_auth_type)?;
        let amount = Amount { total_minor: item.minor_amount, currency: String::from_str(item.currency.as_str()) };
        let capture_flag = match item.capture_method {
            Some(CaptureMethod::Automatic) | None => true,
            Some(_) => false,
        };
        let transaction_details = TransactionDetails {
            capture_flag: Some(capture_flag),
            reversal_reason_code: None,
            merchant_transaction_id: item.connector_request_reference_id.clone(),
        };
        let merchant_details = MerchantDetails { merchant_id: auth.merchant_account, terminal_id: Some(terminal_id) };
        let transaction_interaction = TransactionInteraction::default();
        let source = match &item.payment_method_data {
            PaymentMethodData::Card(ccard) => Source::PaymentCard {
                card: CardData {
                    card_data: ccard.card_number.clone(),
                    expiration_month: ccard.card_exp_month.clone(),
                    expiration_year: get_card_expiry_year_4_digit_placeholder(&ccard.card_exp_year)?,
                    security_code: ccard.card_cvc.clone(),
                },
            },
            _ => return Err(ConnectorError::NotImplemented(String::from_str("Payment method not implemented for Fiserv"))),
        };
        Ok(FiservPaymentsRequest { amount, source, transaction_details, merchant_details, transaction_interaction })
    }
}

/// The transaction a request refers to.
#[derive(Clone, Debug)]
pub struct ReferenceTransactionDetails {
    pub reference_transaction_id: String,
}

/// The transaction id of a response id, which must be one.
pub open spec fn connector_transaction_id_of(id: ResponseId) -> Option<Seq<char>> {
    match id {
        ResponseId::ConnectorTransactionId(t) => Some(t@),
        _ => None,
    }
}

fn get_connector_transaction_id(id: &ResponseId) -> (r: Result<String, ConnectorError>)
    ensures
        match connector_transaction_id_of(*id) {
            Some(t) => r matches Ok(s) && s@ == t,
            None => r matches Err(ConnectorError::MissingConnectorTransactionID),
        },
{
    match id {
        ResponseId::ConnectorTransactionId(t) => Ok(t.clone()),
        _ => Err(ConnectorError::MissingConnectorTransactionID),
    }
}

/// A capture request.
#[derive(Clone, Debug)]
pub struct FiservCaptureRequest {
    pub amount: Amount,
    pub transaction_details: TransactionDetails,
    pub merchant_details: MerchantDetails,
    pub reference_transaction_details: ReferenceTransactionDetails,
}

/// The session text of a capture: the merchant account's metadata first, the
/// payment's metadata second.
pub open spec fn capture_session_source(item: PaymentsCaptureData) -> Result<Seq<char>, Seq<char>> {
    match item.connector_meta_data {
        Some(MetadataValue::Str(s)) => Ok(s@),
        Some(_) => Err("connector_meta_data was not a JSON string for FiservSessionObject in Capture"@),
        None => match item.connector_metadata {
            Some(MetadataValue::Str(s)) => Ok(s@),
            Some(_) => Err("connector_metadata was not a JSON string for FiservSessionObject in Capture"@),
            None => Err(Seq::empty()),
        },
    }
}

impl FiservCaptureRequest {
    /// The capture of an amount of an earlier charge, with the terminal of the
    /// session found in the metadata.
    pub fn try_from(item: &PaymentsCaptureData) -> (r: Result<Self, ConnectorError>)
        ensures
            match fiserv_credentials(item.connector_auth_type) {
                None => r matches Err(ConnectorError::FailedToObtainAuthType),
                Some(c) => match capture_session_source(*item) {
                    Err(config) => if config.len() == 0 {
                        r matches Err(ConnectorError::MissingRequiredField { field_name })
                            && field_name@ == "connector_metadata or connector_meta_data for FiservSessionObject in Capture"@
                    } else {
                        r matches Err(ConnectorError::InvalidConnectorConfig { config: x }) && x@ == config
                    },
                    Ok(text) => match json_terminal_id(text) {
                        None => r matches Err(ConnectorError::InvalidConnectorConfig { config })
                            && config@ == "Deserializing FiservSessionObject from connector_metadata string in Capture"@,
                        Some(terminal) => match connector_transaction_id_of(item.connector_transaction_id) {
                            None => r matches Err(ConnectorError::MissingConnectorTransactionID),
                            Some(id) => r matches Ok(req) && req.amount.total_minor == item.minor_amount_to_capture
                                && req.amount.currency@ == item.currency.spec_code()
                                && req.transaction_details.capture_flag == Some(true)
                                && req.transaction_details.reversal_reason_code is None
                                && req.transaction_details.merchant_transaction_id@ == item.connector_request_reference_id@
                                && req.merchant_details.merchant_id@ == c.1
                                && opt_str(req.merchant_details.terminal_id) == Some(terminal)
                                && req.reference_transaction_details.reference_transaction_id@ == id,
                        },
                    },
                },
            },
    {
        FiservAuthType::try_from(&item.connector_auth_type)?;
        let session_text = match &item.connector_meta_data {
            Some(MetadataValue::Str(s)) => s,
            Some(_) => {
                proof {
                    reveal_strlit("connector_meta_data was not a JSON string for FiservSessionObject in Capture");
                }
                return Err(ConnectorError::InvalidConnectorConfig {
                    config: "connector_meta_data was not a JSON string for FiservSessionObject in Capture",
                });
            },
            None => match &item.connector_metadata {
                Some(MetadataValue::Str(s)) => s,
                Some(_) => {
                    proof {
                        reveal_strlit("connector_metadata was not a JSON string for FiservSessionObject in Capture");
                    }
                    return Err(ConnectorError::InvalidConnectorConfig {
                        config: "connector_metadata was not a JSON string for FiservSessionObject in Capture",
                    });
                },
                None => {
                    return Err(ConnectorError::MissingRequiredField {
                        field_name: "connector_metadata or connector_meta_data for FiservSessionObject in Capture",
                    });
                },
            },
        };
        let terminal_id = match parse_terminal_id(session_text.as_str()) {
            Some(t) => t,
            None => {
                return Err(ConnectorError::InvalidConnectorConfig {
                    config: "Deserializing FiservSessionObject from connector_metadata string in Capture",
                });
            },
        };
        FiservCaptureRequest::with_terminal(item, terminal_id)
    }

    /// The capture of an amount of an earlier charge with a given terminal.
    pub fn with_terminal(item: &PaymentsCaptureData, terminal_id: String) -> (r: Result<Self, ConnectorError>)
        ensures
            match fiserv_credentials(item.connector_auth_type) {
                None => r matches Err(ConnectorError::FailedToObtainAuthType),
                Some(c) => match connector_transaction_id_of(item.connector_transaction_id) {
                    None => r matches Err(ConnectorError::MissingConnectorTransactionID),
                    Some(id) => r matches Ok(req) && req.amount.total_minor == item.minor_amount_to_capture
                        && req.amount.currency@ == item.currency.spec_code()
                        && req.transaction_details.capture_flag == Some(true)
                        && req.transaction_details.reversal_reason_code is None
                        && req.transaction_details.merchant_transaction_id@ == item.connector_request_reference_id@
                        && req.merchant_details.merchant_id@ == c.1
                        && opt_str(req.merchant_details.terminal_id) == Some(terminal_id@)
                        && req.reference_transaction_details.reference_transaction_id@ == id,
                },
            },
    {
        let auth = FiservAuthType::try_from(&item.connector_auth_type)?;
        let merchant_details = MerchantDetails { merchant_id: auth.merchant_account, terminal_id: Some(terminal_id) };
        let reference_transaction_id = get_connector_transaction_id(&item.connector_transaction_id)?;
        Ok(FiservCaptureRequest {
            amount: Amount { total_minor: item.minor_amount_to_capture, currency: String::from_str(item.currency.as_str()) },
            transaction_details: TransactionDetails {
                capture_flag: Some(true),
                reversal_reason_code: None,
                merchant_transaction_id: item.connector_request_reference_id.clone(),
            },
            merchant_details,
            reference_transaction_details: ReferenceTransactionDetails { reference_transaction_id },
        })
    }
}

/// A transaction inquiry.
#[derive(Clone, Debug)]
pub struct FiservSyncRequest {
    pub merchant_details: MerchantDetails,
    pub reference_transaction_details: ReferenceTransactionDetails,
}

impl FiservSyncRequest {
    pub fn try_from(item: &PaymentsSyncData) -> (r: Result<Self, ConnectorError>)
        ensures
            match fiserv_credentials(item.connector_auth_type) {
                None => r matches Err(ConnectorError::FailedToObtainAuthType),
                Some(c) => match connector_transaction_id_of(item.connector_transaction_id) {
                    None => r matches Err(ConnectorError::MissingConnectorTransactionID),
                    Some(id) => r matches Ok(req) && req.merchant_details.merchant_id@ == c.1
                        && req.merchant_details.terminal_id is None
                        && req.reference_transaction_details.reference_transaction_id@ == id,
                },
            },
    {
        let auth = FiservAuthType::try_from(&item.connector_auth_type)?;
        let reference_transaction_id = get_connector_transaction_id(&item.connector_transaction_id)?;
        Ok(FiservSyncRequest {
            merchant_details: MerchantDetails { merchant_id: auth.merchant_account, terminal_id: None },
            reference_transaction_details: ReferenceTransactionDetails { reference_transaction_id },
        })
    }
}

/// A void request.
#[derive(Clone, Debug)]
pub struct FiservVoidRequest {
    pub transaction_details: TransactionDetails,
    pub merchant_details: MerchantDetails,
    pub reference_transaction_details: ReferenceTransactionDetails,
}

impl FiservVoidRequest {
    /// The void of a charge, with the cancellation reason as reversal reason.
    pub fn try_from(item: &PaymentVoidData, connector_request_reference_id: &String) -> (r: Result<Self, ConnectorError>)
        ensures
            match fiserv_credentials(item.connector_auth_type) {
                None => r matches Err(ConnectorError::FailedToObtainAuthType),
                Some(c) => match item.connector_meta_data {
                    None => r matches Err(ConnectorError::MissingRequiredField { field_name })
                        && field_name@ == "connector_meta_data for FiservSessionObject in Void"@,
                    Some(MetadataValue::Str(text)) => match json_terminal_id(text@) {
                        None => r matches Err(ConnectorError::InvalidConnectorConfig { config })
                            && config@ == "Deserializing FiservSessionObject from connector_meta_data string in Void"@,
                        Some(terminal) => r matches Ok(req) && req.merchant_details.merchant_id@ == c.1
                            && opt_str(req.merchant_details.terminal_id) == Some(terminal)
                            && req.reference_transaction_details.reference_transaction_id@ == item.connector_transaction_id@
                            && req.transaction_details.capture_flag is None
                            && opt_str(req.transaction_details.reversal_reason_code) == opt_str(item.cancellation_reason)
                            && req.transaction_details.merchant_transaction_id@ == connector_request_reference_id@,
                    },
                    Some(_) => r matches Err(ConnectorError::InvalidConnectorConfig { config })
                        && config@ == "connector_meta_data was not a JSON string for FiservSessionObject in Void"@,
                },
            },
    {
        FiservAuthType::try_from(&item.connector_auth_type)?;
        let session = session_from(
            &item.connector_meta_data,
            "connector_meta_data for FiservSessionObject in Void",
            "connector_meta_data was not a JSON string for FiservSessionObject in Void",
            "Deserializing FiservSessionObject from connector_meta_data string in Void",
        )?;
        FiservVoidRequest::with_terminal(item, connector_request_reference_id, session.terminal_id)
    }

    /// The void of a charge with a given terminal.
    pub fn with_terminal(item: &PaymentVoidData, connector_request_reference_id: &String, terminal_id: String) -> (r:
        Result<Self, ConnectorError>)
        ensures
            match fiserv_credentials(item.connector_auth_type) {
                None => r matches Err(ConnectorError::FailedToObtainAuthType),
                Some(c) => r matches Ok(req) && req.merchant_details.merchant_id@ == c.1
                    && opt_str(req.merchant_details.terminal_id) == Some(terminal_id@)
                    && req.reference_transaction_details.reference_transaction_id@ == item.connector_transaction_id@
                    && req.transaction_details.capture_flag is None
                    && opt_str(req.transaction_details.reversal_reason_code) == opt_str(item.cancellation_reason)
                    && req.transaction_details.merchant_transaction_id@ == connector_request_reference_id@,
            },
    {
        let auth = FiservAuthType::try_from(&item.connector_auth_type)?;
        Ok(FiservVoidRequest {
            merchant_details: MerchantDetails { merchant_id: auth.merchant_account, terminal_id: Some(terminal_id) },
            reference_transaction_details: ReferenceTransactionDetails {
                reference_transaction_id: item.connector_transaction_id.clone(),
            },
            transaction_details: TransactionDetails {
                capture_flag: None,
                reversal_reason_code: clone_opt(&item.cancellation_reason),
                merchant_transaction_id: connector_request_reference_id.clone(),
            },
        })
    }
}

/// A refund request.
#[derive(Clone, Debug)]
pub struct FiservRefundRequest {
    pub amount: Amount,
    pub merchant_details: MerchantDetails,
    pub reference_transaction_details: ReferenceTransactionDetails,
}

impl FiservRefundRequest {
    /// The refund of an amount of a charge, with the terminal of the session in
    /// the payment's metadata.
    pub fn try_from(item: &RefundsData) -> (r: Result<Self, ConnectorError>)
        ensures
            match fiserv_credentials(item.connector_auth_type) {
                None => r matches Err(ConnectorError::FailedToObtainAuthType),
                Some(c) => match item.connector_metadata {
                    None => r matches Err(ConnectorError::MissingRequiredField { field_name })
                        && field_name@ == "connector_metadata or connector_meta_data for FiservSessionObject in Refund"@,
                    Some(MetadataValue::Str(text)) => match json_terminal_id(text@) {
                        None => r matches Err(ConnectorError::InvalidConnectorConfig { config })
                            && config@ == "Deserializing FiservSessionObject from metadata string in Refund"@,
                        Some(terminal) => r matches Ok(req) && req.amount.total_minor == item.minor_refund_amount
                            && req.amount.currency@ == item.currency.spec_code()
                            && req.merchant_details.merchant_id@ == c.1
                            && opt_str(req.merchant_details.terminal_id) == Some(terminal)
                            && req.reference_transaction_details.reference_transaction_id@ == item.connector_transaction_id@,
                    },
                    Some(_) => r matches Err(ConnectorError::InvalidConnectorConfig { config })
                        && config@ == "connector_metadata was not a JSON string for FiservSessionObject in Refund"@,
                },
            },
    {
        FiservAuthType::try_from(&item.connector_auth_type)?;
        let session = session_from(
            &item.connector_metadata,
            "connector_metadata or connector_meta_data for FiservSessionObject in Refund",
            "connector_metadata was not a JSON string for FiservSessionObject in Refund",
            "Deserializing FiservSessionObject from metadata string in Refund",
        )?;
        FiservRefundRequest::with_terminal(item, session.terminal_id)
    }

    /// The refund of an amount of a charge with a given terminal.
    pub fn with_terminal(item: &RefundsData, terminal_id: String) -> (r: Result<Self, ConnectorError>)
        ensures
            match fiserv_credentials(item.connector_auth_type) {
                None => r matches Err(ConnectorError::FailedToObtainAuthType),
                Some(c) => r matches Ok(req) && req.amount.total_minor == item.minor_refund_amount
                    && req.amount.currency@ == item.currency.spec_code()
                    && req.merchant_details.merchant_id@ == c.1
                    && opt_str(req.merchant_details.terminal_id) == Some(terminal_id@)
                    && req.reference_transaction_details.reference_transaction_id@ == item.connector_transaction_id@,
            },
    {
        let auth = FiservAuthType::try_from(&item.connector_auth_type)?;
        Ok(FiservRefundRequest {
            amount: Amount { total_minor: item.minor_refund_amount, currency: String::from_str(item.currency.as_str()) },
            merchant_details: MerchantDetails { merchant_id: auth.merchant_account, terminal_id: Some(terminal_id) },
            reference_transaction_details: ReferenceTransactionDetails {
                reference_transaction_id: item.connector_transaction_id.clone(),
            },
        })
    }
}

/// A refund inquiry.
#[derive(Clone, Debug)]
pub struct FiservRefundSyncRequest {
    pub merchant_details: MerchantDetails,
    pub reference_transaction_details: ReferenceTransactionDetails,
}

impl FiservRefundSyncRequest {
    pub fn try_from(item: &RefundSyncData) -> (r: Result<Self, ConnectorError>)
        ensures
            match fiserv_credentials(item.connector_auth_type) {
                None => r matches Err(ConnectorError::FailedToObtainAuthType),
                Some(c) => r matches Ok(req) && req.merchant_details.merchant_id@ == c.1
                    && req.merchant_details.terminal_id is None
                    && req.reference_transaction_details.reference_transaction_id@ == item.connector_transaction_id@,
            },
    {
        let auth = FiservAuthType::try_from(&item.connector_auth_type)?;
        Ok(FiservRefundSyncRequest {
            merchant_details: MerchantDetails { merchant_id: auth.merchant_account, terminal_id: None },
            reference_transaction_details: ReferenceTransactionDetails {
                reference_transaction_id: item.connector_transaction_id.clone(),
            },
        })
    }
}


/// State of a Fiserv transaction.
#[derive(Clone, Copy, Debug, PartialEq, Eq, Structural)]
pub enum FiservPaymentStatus {
    Succeeded,
    Failed,
    Captured,
    Declined,
    Voided,
    Authorized,
    Processing,
}

impl Default for FiservPaymentStatus {
    fn default() -> (r: Self)
        ensures
            r == FiservPaymentStatus::Processing,
    {
        FiservPaymentStatus::Processing
    }
}

/// The attempt status of a transaction state.
pub open spec fn spec_fiserv_attempt_status(s: FiservPaymentStatus) -> AttemptStatus {
    match s {
        FiservPaymentStatus::Captured | FiservPaymentStatus::Succeeded => AttemptStatus::Charged,
        FiservPaymentStatus::Declined | FiservPaymentStatus::Failed => AttemptStatus::Failure,
        FiservPaymentStatus::Processing => AttemptStatus::Authorizing,
        FiservPaymentStatus::Voided => AttemptStatus::Voided,
        FiservPaymentStatus::Authorized => AttemptStatus::Authorized,
    }
}

/// The refund status of a transaction state.
pub open spec fn spec_fiserv_refund_status(s: FiservPaymentStatus) -> RefundStatus {
    match s {
        FiservPaymentStatus::Captured | FiservPaymentStatus::Succeeded | FiservPaymentStatus::Authorized => RefundStatus::Success,
        FiservPaymentStatus::Declined | FiservPaymentStatus::Failed => RefundStatus::Failure,
        FiservPaymentStatus::Voided | FiservPaymentStatus::Processing => RefundStatus::Pending,
    }
}

/// The name a transaction state prints with.
pub open spec fn status_name(s: FiservPaymentStatus) -> Seq<char> {
    match s {
        FiservPaymentStatus::Succeeded => "Succeeded"@,
        FiservPaymentStatus::Failed => "Failed"@,
        FiservPaymentStatus::Captured => "Captured"@,
        FiservPaymentStatus::Declined => "Declined"@,
        FiservPaymentStatus::Voided => "Voided"@,
        FiservPaymentStatus::Authorized => "Authorized"@,
        FiservPaymentStatus::Processing => "Processing"@,
    }
}

impl FiservPaymentStatus {
    pub fn to_attempt_status(self) -> (r: AttemptStatus)
        ensures
            r == spec_fiserv_attempt_status(self),
    {
        match self {
            FiservPaymentStatus::Captured | FiservPaymentStatus::Succeeded => AttemptStatus::Charged,
            FiservPaymentStatus::Declined | FiservPaymentStatus::Failed => AttemptStatus::Failure,
            FiservPaymentStatus::Processing => AttemptStatus::Authorizing,
            FiservPaymentStatus::Voided => AttemptStatus::Voided,
            FiservPaymentStatus::Authorized => AttemptStatus::Authorized,
        }
    }

    pub fn to_refund_status(self) -> (r: RefundStatus)
        ensures
            r == spec_fiserv_refund_status(self),
    {
        match self {
            FiservPaymentStatus::Captured | FiservPaymentStatus::Succeeded | FiservPaymentStatus::Authorized => RefundStatus::Success,
            FiservPaymentStatus::Declined | FiservPaymentStatus::Failed => RefundStatus::Failure,
            FiservPaymentStatus::Voided | FiservPaymentStatus::Processing => RefundStatus::Pending,
        }
    }

    fn name(self) -> (r: &'static str)
        ensures
            r@ == status_name(self),
    {
        match self {
            FiservPaymentStatus::Succeeded => "Succeeded",
            FiservPaymentStatus::Failed => "Failed",
            FiservPaymentStatus::Captured => "Captured",
            FiservPaymentStatus::Declined => "Declined",
            FiservPaymentStatus::Voided => "Voided",
            FiservPaymentStatus::Authorized => "Authorized",
            FiservPaymentStatus::Processing => "Processing",
        }
    }
}

/// The order and transaction of a processed transaction.
#[derive(Clone, Debug)]
pub struct TransactionProcessingDetails {
    pub order_id: String,
    pub transaction_id: String,
}

/// The gateway's report on a transaction.
#[derive(Clone, Debug)]
pub struct GatewayResponse {
    pub gateway_transaction_id: Option<String>,
    pub transaction_state: FiservPaymentStatus,
    pub transaction_processing_details: TransactionProcessingDetails,
}

/// An answer about a transaction.
#[derive(Clone, Debug)]
pub struct FiservPaymentsResponse {
    pub gateway_response: GatewayResponse,
}

/// The answer to a capture: the gateway's report on the transaction.
#[derive(Clone, Debug)]
pub struct FiservCaptureResponse {
    pub gateway_response: GatewayResponse,
}

/// The answer to a void: the gateway's report on the transaction.
#[derive(Clone, Debug)]
pub struct FiservVoidResponse {
    pub gateway_response: GatewayResponse,
}

/// The answer to a refund: the gateway's report on the transaction.
#[derive(Clone, Debug)]
pub struct FiservRefundResponse {
    pub gateway_response: GatewayResponse,
}

/// The answer to an inquiry: the transactions found.
#[derive(Clone, Debug)]
pub struct FiservSyncResponse {
    pub sync_responses: Vec<FiservPaymentsResponse>,
}

/// The answer to a refund inquiry: the transactions found.
#[derive(Clone, Debug)]
pub struct FiservRefundSyncResponse {
    pub sync_responses: Vec<FiservPaymentsResponse>,
}

/// The transaction id a gateway report names: the gateway's, else the processor's.
pub open spec fn reported_transaction_id(g: GatewayResponse) -> Seq<char> {
    match g.gateway_transaction_id {
        Some(t) => t@,
        None => g.transaction_processing_details.transaction_id@,
    }
}

/// Which flow an answer is read for: payments fail on a void too, a void only
/// on a failure.
#[derive(Clone, Copy, Debug, PartialEq, Eq, Structural)]
pub enum PaymentFlowKind {
    Payment,
    Void,
}

/// Whether the outcome of a gateway report is an error in a flow.
pub open spec fn payment_report_fails(kind: PaymentFlowKind, status: AttemptStatus) -> bool {
    status == AttemptStatus::Failure || (kind == PaymentFlowKind::Payment && status == AttemptStatus::Voided)
}

/// The outcome of a gateway report in a payment flow.
pub open spec fn payment_outcome_is(o: PaymentsOutcome, g: GatewayResponse, kind: PaymentFlowKind, http_code: u16) -> bool {
    &&& o.status == spec_fiserv_attempt_status(g.transaction_state)
    &&& if payment_report_fails(kind, o.status) {
        o.response matches Err(e) && e.code@ == g.transaction_processing_details.transaction_id@
            && e.message@ == (if kind == PaymentFlowKind::Void { "Void status: "@ } else { "Payment status: "@ })
                + status_name(g.transaction_state)
            && e.reason is None && e.status_code == http_code && e.attempt_status == Some(o.status)
            && opt_str(e.connector_transaction_id) == opt_str(g.gateway_transaction_id)
    } else {
        o.response matches Ok(d) && (d.resource_id matches ResponseId::ConnectorTransactionId(id)
            && id@ == reported_transaction_id(g)) && d.redirection_data is None
            && d.mandate_reference is None && d.connector_metadata is None && d.network_txn_id is None
            && opt_str(d.connector_response_reference_id) == Some(g.transaction_processing_details.order_id@)
            && d.status_code == http_code
    }
}

fn reported_id(g: &GatewayResponse) -> (r: String)
    ensures
        r@ == reported_transaction_id(*g),
{
    match &g.gateway_transaction_id {
        Some(t) => t.clone(),
        None => g.transaction_processing_details.transaction_id.clone(),
    }
}

/// The outcome of a gateway report in a payment flow.
pub fn payment_outcome(g: &GatewayResponse, kind: PaymentFlowKind, http_code: u16) -> (r: PaymentsOutcome)
    ensures
        payment_outcome_is(r, *g, kind, http_code),
{
    let status = g.transaction_state.to_attempt_status();
    let fails = status == AttemptStatus::Failure || (kind == PaymentFlowKind::Payment && status == AttemptStatus::Voided);
    if fails {
        let prefix = if kind == PaymentFlowKind::Void { "Void status: " } else { "Payment status: " };
        PaymentsOutcome {
            status,
            response: Err(ErrorResponse {
                raw_connector_response: None,
                code: g.transaction_processing_details.transaction_id.clone(),
                message: concat(prefix, g.transaction_state.name()),
                reason: None,
                status_code: http_code,
                attempt_status: Some(status),
                connector_transaction_id: clone_opt(&g.gateway_transaction_id),
            }),
        }
    } else {
        PaymentsOutcome {
            status,
            response: Ok(TransactionResponseData {
                raw_connector_response: None,
                resource_id: ResponseId::ConnectorTransactionId(reported_id(g)),
                redirection_data: None,
                mandate_reference: None,
                connector_metadata: None,
                network_txn_id: None,
                connector_response_reference_id: Some(g.transaction_processing_details.order_id.clone()),
                status_code: http_code,
            }),
        }
    }
}

/// The outcome of an inquiry answer: that of its first transaction; an answer
/// without one cannot be handled.
pub fn psync_response(response: &FiservSyncResponse, http_code: u16) -> (r: Result<PaymentsOutcome, ConnectorError>)
    ensures
        if response.sync_responses@.len() > 0 {
            r matches Ok(o) && payment_outcome_is(o, response.sync_responses@[0].gateway_response, PaymentFlowKind::Payment, http_code)
        } else {
            r matches Err(ConnectorError::ResponseHandlingFailed)
        },
{
    if response.sync_responses.len() == 0 {
        return Err(ConnectorError::ResponseHandlingFailed);
    }
    Ok(payment_outcome(&response.sync_responses[0].gateway_response, PaymentFlowKind::Payment, http_code))
}

/// The outcome of a gateway report in a refund flow.
pub open spec fn refund_outcome_is(o: RefundsOutcome, g: GatewayResponse, http_code: u16) -> bool {
    &&& o.status == spec_fiserv_refund_status(g.transaction_state)
    &&& if o.status == RefundStatus::Failure {
        o.response matches Err(e) && e.code@ == g.transaction_processing_details.transaction_id@
            && e.message@ == "Refund status: "@ + status_name(g.transaction_state) && e.reason is None
            && e.status_code == http_code && e.attempt_status is None
            && opt_str(e.connector_transaction_id) == opt_str(g.gateway_transaction_id)
    } else {
        o.response matches Ok(d) && d.connector_refund_id@ == reported_transaction_id(g)
            && d.refund_status == o.status && d.status_code == http_code
    }
}

/// The outcome of a gateway report in a refund flow.
pub fn refund_outcome(g: &GatewayResponse, http_code: u16) -> (r: RefundsOutcome)
    ensures
        refund_outcome_is(r, *g, http_code),
{
    let refund_status = g.transaction_state.to_refund_status();
    if refund_status == RefundStatus::Failure {
        RefundsOutcome {
            status: refund_status,
            response: Err(ErrorResponse {
                raw_connector_response: None,
                code: g.transaction_processing_details.transaction_id.clone(),
                message: concat("Refund status: ", g.transaction_state.name()),
                reason: None,
                status_code: http_code,
                attempt_status: None,
                connector_transaction_id: clone_opt(&g.gateway_transaction_id),
            }),
        }
    } else {
        RefundsOutcome {
            status: refund_status,
            response: Ok(RefundsResponseData { connector_refund_id: reported_id(g), refund_status, status_code: http_code, raw_connector_response: None }),
        }
    }
}

/// The outcome of a refund inquiry answer: that of its first transaction.
pub fn rsync_response(response: &FiservSyncResponse, http_code: u16) -> (r: Result<RefundsOutcome, ConnectorError>)
    ensures
        if response.sync_responses@.len() > 0 {
            r matches Ok(o) && refund_outcome_is(o, response.sync_responses@[0].gateway_response, http_code)
        } else {
            r matches Err(ConnectorError::ResponseHandlingFailed)
        },
{
    if response.sync_responses.len() == 0 {
        return Err(ConnectorError::ResponseHandlingFailed);
    }
    Ok(refund_outcome(&response.sync_responses[0].gateway_response, http_code))
}

/// A detail of a Fiserv error.
#[derive(Clone, Debug)]
pub struct FiservErrorDetails {
    pub error_type: String,
    pub code: Option<String>,
    pub message: String,
    pub field: Option<String>,
}

/// The error answer of Fiserv.
#[derive(Clone, Debug)]
pub struct FiservErrorResponse {
    pub details: Option<Vec<FiservErrorDetails>>,
    pub error: Option<Vec<FiservErrorDetails>>,
}

/// The first error detail: of the error list where there is one, else of the details.
pub open spec fn first_error_detail(response: FiservErrorResponse) -> Option<FiservErrorDetails> {
    let list = match response.error {
        Some(e) => Some(e),
        None => response.details,
    };
    match list {
        Some(l) => if l@.len() > 0 { Some(l@[0]) } else { None },
        None => None,
    }
}

/// The error response of an error answer: the code, message and field of its
/// first detail.
pub open spec fn fiserv_error_is(e: ErrorResponse, response: FiservErrorResponse, http_code: u16) -> bool {
    &&& e.status_code == http_code
    &&& e.code@ == (match first_error_detail(response) {
        Some(d) => match d.code {
            Some(c) => c@,
            None => NO_ERROR_CODE@,
        },
        None => NO_ERROR_CODE@,
    })
    &&& e.message@ == (match first_error_detail(response) {
        Some(d) => d.message@,
        None => NO_ERROR_MESSAGE@,
    })
    &&& opt_str(e.reason) == (match first_error_detail(response) {
        Some(d) => opt_str(d.field),
        None => None,
    })
    &&& e.attempt_status is None
    &&& e.connector_transaction_id is None
}

/// The Fiserv connector.
pub struct Fiserv;

impl Fiserv {
    pub fn build_error_response(&self, response: &FiservErrorResponse, raw_response: &Vec<u8>, http_code: u16) -> (r: ErrorResponse)
        ensures
            fiserv_error_is(r, *response, http_code),
            r.raw_connector_response matches Some(t) && t@ == utf8_lossy_text(raw_response@),
    {
        let list = match &response.error {
            Some(e) => Some(e),
            None => match &response.details {
                Some(d) => Some(d),
                None => None,
            },
        };
        let first: Option<&FiservErrorDetails> = match list {
            Some(l) => if l.len() > 0 { Some(&l[0]) } else { None },
            None => None,
        };
        match first {
            Some(d) => ErrorResponse {
                raw_connector_response: Some(utf8_lossy(raw_response.as_slice())),
                status_code: http_code,
                code: match &d.code {
                    Some(c) => c.clone(),
                    None => String::from_str(NO_ERROR_CODE),
                },
                message: d.message.clone(),
                reason: clone_opt(&d.field),
                attempt_status: None,
                connector_transaction_id: None,
            },
            None => ErrorResponse {
                raw_connector_response: Some(utf8_lossy(raw_response.as_slice())),
                status_code: http_code,
                code: String::from_str(NO_ERROR_CODE),
                message: String::from_str(NO_ERROR_MESSAGE),
                reason: None,
                attempt_status: None,
                connector_transaction_id: None,
            },
        }
    }

    /// The text Fiserv signs: the API key, the request id, the timestamp in
    /// milliseconds and the payload, one after another.
    pub open spec fn signature_text(api_key: Seq<char>, client_request_id: Seq<char>, timestamp_ms: i128, payload: Seq<char>) -> Seq<char> {
        api_key + client_request_id + int_decimal(timestamp_ms as int) + payload
    }

    /// The signature of a request: the base64 HMAC-SHA256 of its signature
    /// text under the API secret.
    pub fn generate_authorization_signature(
        &self,
        auth: &FiservAuthType,
        client_request_id: &str,
        payload_str: &str,
        timestamp_ms: i128,
    ) -> (r: Result<String, ConnectorError>)
        requires
            byte_len(auth.api_secret@) < 0x1000_0000_0000_0000,
            byte_len(Self::signature_text(auth.api_key@, client_request_id@, timestamp_ms, payload_str@)) < 0x1000_0000_0000_0000,
        ensures
            r matches Ok(sig) && sig@ == base64_standard(hmac_sha256_tag(
                vstd::utf8::encode_utf8(auth.api_secret@),
                vstd::utf8::encode_utf8(Self::signature_text(auth.api_key@, client_request_id@, timestamp_ms, payload_str@)),
            )),
    {
        let stamp = i128_to_decimal(timestamp_ms);
        let mut raw = concat3(auth.api_key.as_str(), client_request_id, stamp.as_str());
        raw.append(payload_str);
        let secret = auth.api_secret.as_str();
        let text = raw.as_str();
        assert(secret.spec_bytes() == vstd::utf8::encode_utf8(secret@));
        assert(text.spec_bytes() == vstd::utf8::encode_utf8(text@));
        let tag = hmac_sha256(secret.as_bytes(), text.as_bytes());
        Ok(base64_encode(tag.as_slice()))
    }
}


/// The headers of a signed request: content type, request id, timestamp, token
/// type, signature and API key.
pub open spec fn signed_headers(api_key: Seq<char>, api_secret: Seq<char>, client_request_id: Seq<char>, timestamp_ms: i128, payload: Seq<char>) -> Seq<(Seq<char>, Seq<char>)> {
    seq![
        ("Content-Type"@, "application/json"@),
        ("Client-Request-Id"@, client_request_id),
        ("Timestamp"@, int_decimal(timestamp_ms as int)),
        ("Auth-Token-Type"@, "HMAC"@),
        ("Authorization"@, base64_standard(hmac_sha256_tag(
            vstd::utf8::encode_utf8(api_secret),
            vstd::utf8::encode_utf8(Fiserv::signature_text(api_key, client_request_id, timestamp_ms, payload)),
        ))),
        ("Api-Key"@, api_key),
    ]
}

/// Milliseconds of a time in nanoseconds, rounded toward zero.
pub open spec fn nanos_to_millis(nanos: int) -> int {
    if nanos >= 0 { nanos / 1_000_000 } else { -((-nanos) / 1_000_000) }
}

impl Fiserv {
    /// The API key header of Fiserv credentials.
    pub fn get_auth_header(&self, auth_type: &ConnectorAuthType) -> (r: Result<Vec<(String, String)>, ConnectorError>)
        ensures
            match fiserv_credentials(*auth_type) {
                Some(c) => r matches Ok(h) && pair_views(h@) == seq![("Api-Key"@, c.0)],
                None => r matches Err(ConnectorError::FailedToObtainAuthType),
            },
    {
        let auth = FiservAuthType::try_from(auth_type)?;
        let mut headers: Vec<(String, String)> = Vec::new();
        headers.push((String::from_str("Api-Key"), auth.api_key));
        assert(pair_views(headers@) =~= seq![("Api-Key"@, auth.api_key@)]);
        Ok(headers)
    }

    /// The headers of a request with a payload, signed with a request id at a
    /// time in milliseconds.
    pub fn build_headers_at(
        &self,
        auth_type: &ConnectorAuthType,
        payload: &str,
        client_request_id: &str,
        timestamp_ms: i128,
    ) -> (r: Result<Vec<(String, String)>, ConnectorError>)
        requires
            fiserv_credentials(*auth_type) matches Some(c) ==> byte_len(c.2) < 0x1000_0000_0000_0000
                && byte_len(Self::signature_text(c.0, client_request_id@, timestamp_ms, payload@)) < 0x1000_0000_0000_0000,
        ensures
            match fiserv_credentials(*auth_type) {
                Some(c) => r matches Ok(h) && pair_views(h@) == signed_headers(c.0, c.2, client_request_id@, timestamp_ms, payload@),
                None => r matches Err(ConnectorError::FailedToObtainAuthType),
            },
    {
        let auth = FiservAuthType::try_from(auth_type)?;
        let signature = self.generate_authorization_signature(&auth, client_request_id, payload, timestamp_ms)?;
        let mut headers: Vec<(String, String)> = Vec::new();
        headers.push((String::from_str("Content-Type"), String::from_str("application/json")));
        headers.push((String::from_str("Client-Request-Id"), String::from_str(client_request_id)));
        headers.push((String::from_str("Timestamp"), i128_to_decimal(timestamp_ms)));
        headers.push((String::from_str("Auth-Token-Type"), String::from_str("HMAC")));
        headers.push((String::from_str("Authorization"), signature));
        let mut api_key_header = self.get_auth_header(auth_type)?;
        let ghost before = headers@;
        let ghost key_header = api_key_header@;
        assert(pair_views(before) =~= signed_headers(auth.api_key@, auth.api_secret@, client_request_id@, timestamp_ms, payload@).take(5));
        assert(pair_views(key_header).len() == 1);
        assert(pair_views(key_header)[0] == (key_header[0].0@, key_header[0].1@));
        headers.append(&mut api_key_header);
        assert(headers@ =~= before + key_header);
        assert(headers@[5] == key_header[0]);
        assert(pair_views(headers@) =~= signed_headers(auth.api_key@, auth.api_secret@, client_request_id@, timestamp_ms, payload@));
        Ok(headers)
    }

    /// The headers of a request with a payload, signed with a fresh request id
    /// at the current time.
    pub fn build_headers(&self, auth_type: &ConnectorAuthType, payload: &str) -> (r: Result<Vec<(String, String)>, ConnectorError>)
        requires
            byte_len(payload@) < 0x0100_0000_0000_0000,
            fiserv_credentials(*auth_type) matches Some(c) ==> byte_len(c.0) < 0x0100_0000_0000_0000
                && byte_len(c.2) < 0x0100_0000_0000_0000,
        ensures
            match fiserv_credentials(*auth_type) {
                Some(c) => r matches Ok(h) && exists|id: Seq<char>, ts: i128| is_uuid_v4_hyphenated(id)
                    && nanos_to_millis(MIN_UNIX_NANOS as int) <= ts <= nanos_to_millis(MAX_UNIX_NANOS as int)
                    && #[trigger] signed_headers(c.0, c.2, id, ts, payload@) == pair_views(h@),
                None => r matches Err(ConnectorError::FailedToObtainAuthType),
            },
    {
        let nanos = current_unix_timestamp_nanos();
        let timestamp_ms: i128 = if nanos >= 0 { nanos / 1_000_000 } else { -((-nanos) / 1_000_000) };
        let client_request_id = new_uuid_v4_string();
        proof {
            if let Some(c) = fiserv_credentials(*auth_type) {
                let stamp = int_decimal(timestamp_ms as int);
                lemma_i128_decimal_len(timestamp_ms);
                lemma_byte_len_bound(stamp);
                lemma_byte_len_bound(client_request_id@);
                lemma_encode_concat(c.0, client_request_id@);
                lemma_encode_concat(c.0 + client_request_id@, stamp);
                lemma_encode_concat(c.0 + client_request_id@ + stamp, payload@);
            }
        }
        self.build_headers_at(auth_type, payload, client_request_id.as_str(), timestamp_ms)
    }
}


/// A transaction state fails a refund exactly when it fails a payment.
pub proof fn lemma_refund_failure_iff_payment_failure(s: FiservPaymentStatus)
    ensures
        spec_fiserv_refund_status(s) == RefundStatus::Failure <==> spec_fiserv_attempt_status(s) == AttemptStatus::Failure,
{
}

/// Every expiry year Fiserv accepts is sent as four bytes.
pub proof fn lemma_expiry_year_four_bytes(year: Seq<char>)
    requires
        spec_expiry_year(year) is Some,
    ensures
        byte_len(spec_expiry_year(year)->0) == 4,
{
    if byte_len(year) == 2 {
        lemma_encode_concat("20"@, year);
        reveal_strlit("20");
        assert(vstd::utf8::encode_utf8("20"@).len() == 2) by {
            reveal_with_fuel(vstd::utf8::encode_utf8, 3);
        }
    }
}

impl Fiserv {
    /// The name of the connector.
    pub fn id(&self) -> (r: &'static str)
        ensures
            r@ == "fiserv"@,
    {
        "fiserv"
    }
    /// The content type of its requests.
    pub fn common_get_content_type(&self) -> (r: &'static str)
        ensures
            r@ == "application/json"@,
    {
        "application/json"
    }
}

} // verus!
