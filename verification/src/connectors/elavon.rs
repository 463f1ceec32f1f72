//! Elavon: card sale, authorization, completion, return and query requests;
//! the reading of its flat answers; and the attempt and refund statuses of
//! its results.

use vstd::prelude::*;
use vstd::string::StringSliceAdditionalSpecFns;

use crate::common_enums::{AttemptStatus, CaptureMethod, Currency, FutureUsage, RefundStatus};
use crate::consts::NO_ERROR_CODE;
use crate::router_data::{
    Address, ConnectorAuthType, ConnectorError, ConnectorMetadata, ErrorResponse, PaymentMethodData,
    PaymentsAuthorizeData, PaymentsCaptureData, PaymentsOutcome, PaymentsSyncData, RefundSyncData,
    RefundsData, RefundsOutcome, RefundsResponseData, ResponseId, TransactionResponseData,
};
use crate::text::{clone_opt, concat, debug_string, debug_text, opt_str, str_eq, utf8_lossy, utf8_lossy_text};

verus! {

/// Elavon credentials: merchant id, user id and PIN, from a signature key.
#[derive(Clone, Debug)]
pub struct ElavonAuthType {
    pub ssl_merchant_id: String,
    pub ssl_user_id: String,
    pub ssl_pin: String,
}

/// The merchant id, user id and PIN of Elavon credentials.
pub open spec fn elavon_credentials(auth: ConnectorAuthType) -> Option<(Seq<char>, Seq<char>, Seq<char>)> {
    match auth {
        ConnectorAuthType::SignatureKey { api_key, key1, api_secret } => Some((api_key@, key1@, api_secret@)),
        _ => None,
    }
}

impl ElavonAuthType {
    pub fn try_from(auth_type: &ConnectorAuthType) -> (r: Result<Self, ConnectorError>)
        ensures
            match elavon_credentials(*auth_type) {
                Some(c) => r matches Ok(a) && (a.ssl_merchant_id@, a.ssl_user_id@, a.ssl_pin@) == c,
                None => r matches Err(ConnectorError::FailedToObtainAuthType),
            },
    {
        match auth_type {
            ConnectorAuthType::SignatureKey { api_key, key1, api_secret } => Ok(
                ElavonAuthType { ssl_merchant_id: api_key.clone(), ssl_user_id: key1.clone(), ssl_pin: api_secret.clone() },
            ),
            _ => Err(ConnectorError::FailedToObtainAuthType),
        }
    }
}

/// Kind of an Elavon transaction request.
#[derive(Clone, Copy, Debug, PartialEq, Eq, Structural)]
pub enum TransactionType {
    CcSale,
    CcAuthOnly,
    CcComplete,
    CcReturn,
    TxnQuery,
}

/// A card payment request.
#[derive(Clone, Debug)]
pub struct CardPaymentRequest {
    pub ssl_transaction_type: TransactionType,
    pub ssl_account_id: String,
    pub ssl_user_id: String,
    pub ssl_pin: String,
    pub ssl_amount: String,
    pub ssl_card_number: String,
    pub ssl_exp_date: String,
    pub ssl_cvv2cvc2: Option<String>,
    pub ssl_cvv2cvc2_indicator: Option<i32>,
    pub ssl_email: Option<String>,
    pub ssl_add_token: Option<String>,
    pub ssl_token_source: Option<String>,
    pub ssl_get_token: Option<String>,
    pub ssl_transaction_currency: Currency,
    pub ssl_avs_address: Option<String>,
    pub ssl_avs_zip: Option<String>,
    pub ssl_customer_code: Option<String>,
    pub ssl_invoice_number: Option<String>,
}

/// An Elavon payment request.
#[derive(Clone, Debug)]
pub enum ElavonPaymentsRequest {
    Card(CardPaymentRequest),
}

/// A text padded on the left with zeros to two characters (`{:0>2}`).
pub open spec fn zero_pad_two(s: Seq<char>) -> Seq<char> {
    if s.len() >= 2 {
        s
    } else if s.len() == 1 {
        seq!['0'] + s
    } else {
        seq!['0', '0']
    }
}

/// The last two bytes of a four-byte year, or the year as it is.
pub open spec fn year_suffix(year: Seq<char>) -> Seq<char> {
    if vstd::utf8::encode_utf8(year).len() == 4 {
        vstd::utf8::decode_utf8(vstd::utf8::encode_utf8(year).subrange(2, 4))
    } else {
        year
    }
}

/// Whether a four-byte year can be cut after its second byte.
pub open spec fn year_cuttable(year: Seq<char>) -> bool {
    vstd::utf8::encode_utf8(year).len() == 4 ==> vstd::utf8::is_char_boundary(vstd::utf8::encode_utf8(year), 2)
}

/// The expiry date Elavon takes: the month on two digits, then the year on
/// two digits (a four-digit year loses its century).
pub open spec fn elavon_exp_date(month: Seq<char>, year: Seq<char>) -> Seq<char> {
    zero_pad_two(month) + year_suffix(year)
}

fn zero_padded(s: &str) -> (r: String)
    ensures
        r@ == zero_pad_two(s@),
{
    let n = s.unicode_len();
    if n >= 2 {
        String::from_str(s)
    } else if n == 1 {
        proof {
            reveal_strlit("0");
        }
        concat("0", s)
    } else {
        proof {
            reveal_strlit("00");
        }
        String::from_str("00")
    }
}

fn exp_date_of(month: &str, year: &str) -> (r: String)
    requires
        year_cuttable(year@),
    ensures
        r@ == elavon_exp_date(month@, year@),
{
    let m = zero_padded(month);
    assert(year.spec_bytes() == vstd::utf8::encode_utf8(year@));
    if year.as_bytes().len() == 4 {
        let (_century, short) = year.split_at(2);
        proof {
            vstd::utf8::encode_utf8_decode_utf8(short@);
        }
        concat(m.as_str(), short)
    } else {
        concat(m.as_str(), year)
    }
}

/// The transaction type of a capture method, or the name of a capture method
/// Elavon does not support.
pub open spec fn spec_transaction_type(capture_method: Option<CaptureMethod>) -> Result<TransactionType, Seq<char>> {
    match capture_method {
        Some(CaptureMethod::Manual) => Ok(TransactionType::CcAuthOnly),
        Some(CaptureMethod::Automatic) | None => Ok(TransactionType::CcSale),
        Some(CaptureMethod::ManualMultiple) => Err("ManualMultiple"@),
        Some(CaptureMethod::Scheduled) => Err("Scheduled"@),
        Some(CaptureMethod::SequentialAutomatic) => Err("SequentialAutomatic"@),
    }
}

fn capture_method_name(c: CaptureMethod) -> (r: &'static str)
    ensures
        spec_transaction_type(Some(c)) matches Err(name) ==> r@ == name,
{
    match c {
        CaptureMethod::Automatic => "Automatic",
        CaptureMethod::Manual => "Manual",
        CaptureMethod::ManualMultiple => "ManualMultiple",
        CaptureMethod::Scheduled => "Scheduled",
        CaptureMethod::SequentialAutomatic => "SequentialAutomatic",
    }
}

/// The first address line and postal code of a billing address.
pub open spec fn spec_avs_details(billing: Option<Address>) -> (Option<Seq<char>>, Option<Seq<char>>) {
    match billing {
        Some(b) => match b.address {
            Some(d) => (opt_str(d.line1), opt_str(d.zip)),
            None => (None, None),
        },
        None => (None, None),
    }
}

pub fn get_avs_details_from_payment_address(billing: &Option<Address>) -> (r: (Option<String>, Option<String>))
    ensures
        (opt_str(r.0), opt_str(r.1)) == spec_avs_details(*billing),
{
    match billing {
        Some(b) => match &b.address {
            Some(d) => (clone_opt(&d.line1), clone_opt(&d.zip)),
            None => (None, None),
        },
        None => (None, None),
    }
}

/// The card payment request of an authorization.
pub open spec fn card_request_is(
    req: CardPaymentRequest,
    item: PaymentsAuthorizeData,
    amount: Seq<char>,
    card: crate::router_data::Card,
    transaction_type: TransactionType,
) -> bool {
    &&& req.ssl_transaction_type == transaction_type
    &&& elavon_credentials(item.connector_auth_type) == Some((req.ssl_account_id@, req.ssl_user_id@, req.ssl_pin@))
    &&& req.ssl_amount@ == amount
    &&& req.ssl_card_number@ == card.card_number@
    &&& req.ssl_exp_date@ == elavon_exp_date(card.card_exp_month@, card.card_exp_year@)
    &&& req.ssl_cvv2cvc2_indicator == Some(if card.card_cvc@.len() == 0 { 0i32 } else { 1i32 })
    &&& opt_str(req.ssl_cvv2cvc2) == (if card.card_cvc@.len() == 0 { None } else { Some(card.card_cvc@) })
    &&& opt_str(req.ssl_email) == opt_str(item.email)
    &&& opt_str(req.ssl_add_token) == (if item.setup_future_usage is Some { Some("ADD"@) } else { None })
    &&& opt_str(req.ssl_token_source) == (if item.setup_future_usage is Some { Some("ECOMMERCE"@) } else { None })
    &&& req.ssl_get_token is None
    &&& req.ssl_transaction_currency == item.currency
    &&& (opt_str(req.ssl_avs_address), opt_str(req.ssl_avs_zip)) == spec_avs_details(item.billing)
    &&& opt_str(req.ssl_customer_code) == opt_str(item.customer_id)
    &&& opt_str(req.ssl_invoice_number) == Some(item.payment_id@)
}

impl ElavonPaymentsRequest {
    /// The request of a card payment of an amount in major units. Only card
    /// payments are supported, with automatic or manual capture.
    pub fn try_from(amount: &String, item: &PaymentsAuthorizeData) -> (r: Result<Self, ConnectorError>)
        requires
            item.payment_method_data matches PaymentMethodData::Card(card) ==> year_cuttable(card.card_exp_year@),
        ensures
            match item.payment_method_data {
                PaymentMethodData::Card(card) => match elavon_credentials(item.connector_auth_type) {
                    None => r matches Err(ConnectorError::FailedToObtainAuthType),
                    Some(_) => match spec_transaction_type(item.capture_method) {
                        Err(name) => r matches Err(ConnectorError::FlowNotSupported { flow, connector })
                            && flow@ == "Capture method: "@ + name && connector@ == "Elavon"@,
                        Ok(t) => r matches Ok(ElavonPaymentsRequest::Card(req)) && card_request_is(
                            req,
                            *item,
                            amount@,
                            card,
                            t,
                        ),
                    },
                },
                _ => r matches Err(ConnectorError::NotImplemented(m))
                    && m@ == "Only card payments are supported for Elavon"@,
            },
    {
        let card = match &item.payment_method_data {
            PaymentMethodData::Card(card) => card,
            _ => return Err(ConnectorError::NotImplemented(String::from_str("Only card payments are supported for Elavon"))),
        };
        let auth_type = ElavonAuthType::try_from(&item.connector_auth_type)?;
        let transaction_type = match item.capture_method {
            Some(CaptureMethod::Manual) => TransactionType::CcAuthOnly,
            Some(CaptureMethod::Automatic) | None => TransactionType::CcSale,
            Some(other) => {
                return Err(ConnectorError::FlowNotSupported {
                    flow: concat("Capture method: ", capture_method_name(other)),
                    connector: String::from_str("Elavon"),
                });
            },
        };
        let exp_date = exp_date_of(card.card_exp_month.as_str(), card.card_exp_year.as_str());
        let (avs_address, avs_zip) = get_avs_details_from_payment_address(&item.billing);
        let cvc_empty = card.card_cvc.unicode_len() == 0;
        let cvv_indicator: Option<i32> = if cvc_empty { Some(0) } else { Some(1) };
        let add_token = match item.setup_future_usage {
            Some(FutureUsage::OnSession) | Some(FutureUsage::OffSession) => Some(String::from_str("ADD")),
            None => None,
        };
        let token_source = match &add_token {
            Some(_) => Some(String::from_str("ECOMMERCE")),
            None => None,
        };
        Ok(ElavonPaymentsRequest::Card(CardPaymentRequest {
            ssl_transaction_type: transaction_type,
            ssl_account_id: auth_type.ssl_merchant_id,
            ssl_user_id: auth_type.ssl_user_id,
            ssl_pin: auth_type.ssl_pin,
            ssl_amount: amount.clone(),
            ssl_card_number: card.card_number.clone(),
            ssl_exp_date: exp_date,
            ssl_cvv2cvc2: if cvc_empty { None } else { Some(card.card_cvc.clone()) },
            ssl_cvv2cvc2_indicator: cvv_indicator,
            ssl_email: clone_opt(&item.email),
            ssl_add_token: add_token,
            ssl_token_source: token_source,
            ssl_get_token: None,
            ssl_transaction_currency: item.currency,
            ssl_avs_address: avs_address,
            ssl_avs_zip: avs_zip,
            ssl_customer_code: clone_opt(&item.customer_id),
            ssl_invoice_number: Some(item.payment_id.clone()),
        }))
    }
}


/// The result of an Elavon transaction: `0` approved, `1` declined, or another code.
#[derive(Clone, Debug)]
pub enum SslResult {
    Approved,
    Declined,
    Other(String),
}

impl SslResult {
    pub fn try_from(value: String) -> (r: Result<Self, ConnectorError>)
        ensures
            r matches Ok(x) && if value@ == "0"@ {
                x is Approved
            } else if value@ == "1"@ {
                x is Declined
            } else {
                x matches SslResult::Other(v) && v@ == value@
            },
    {
        if str_eq(value.as_str(), "0") {
            Ok(SslResult::Approved)
        } else if str_eq(value.as_str(), "1") {
            Ok(SslResult::Declined)
        } else {
            Ok(SslResult::Other(value))
        }
    }
}

/// An answer that carries a transaction result.
#[derive(Clone, Debug)]
pub struct PaymentResponse {
    pub ssl_result: SslResult,
    pub ssl_txn_id: String,
    pub ssl_result_message: String,
    pub ssl_token: Option<String>,
    pub ssl_approval_code: Option<String>,
    pub ssl_transaction_type: Option<String>,
    pub ssl_cvv2_response: Option<String>,
    pub ssl_avs_response: Option<String>,
    pub ssl_token_response: Option<String>,
}

/// An answer that reports an error.
#[derive(Clone, Debug)]
pub struct ElavonErrorResponse {
    pub error_code: Option<String>,
    pub error_message: String,
    pub error_name: Option<String>,
    pub ssl_txn_id: Option<String>,
}

/// What an answer reports.
#[derive(Clone, Debug)]
pub enum ElavonResult {
    Success(PaymentResponse),
    Error(ElavonErrorResponse),
}

/// An answer to a payment, capture or refund.
#[derive(Clone, Debug)]
pub struct ElavonPaymentsResponse {
    pub result: ElavonResult,
}

/// The fields of an answer as Elavon sends them, each one possibly absent.
#[derive(Clone, Debug)]
pub struct ElavonFlatResponse {
    pub error_code: Option<String>,
    pub error_message: Option<String>,
    pub error_name: Option<String>,
    pub ssl_result: Option<String>,
    pub ssl_txn_id: Option<String>,
    pub ssl_result_message: Option<String>,
    pub ssl_token: Option<String>,
    pub ssl_token_response: Option<String>,
    pub ssl_approval_code: Option<String>,
    pub ssl_transaction_type: Option<String>,
    pub ssl_cvv2_response: Option<String>,
    pub ssl_avs_response: Option<String>,
}

/// Why an answer could not be read.
#[derive(Clone, Debug)]
pub enum ElavonResponseError {
    /// An approved answer lacks a field.
    MissingField(&'static str),
    /// The answer is neither a result nor an error.
    Undetermined,
}

/// The error an answer that failed reports: an explicit error message with its
/// code (or the result code), else the result code with its message.
pub open spec fn flat_error_is(e: ElavonErrorResponse, flat: ElavonFlatResponse) -> bool {
    match flat.error_message {
        Some(m) => opt_str(e.error_code) == (match flat.error_code {
            Some(c) => Some(c@),
            None => opt_str(flat.ssl_result),
        }) && e.error_message@ == m@ && opt_str(e.error_name) == opt_str(flat.error_name)
            && opt_str(e.ssl_txn_id) == opt_str(flat.ssl_txn_id),
        None => opt_str(e.error_code) == opt_str(flat.ssl_result) && e.error_message@ == (match flat.ssl_result_message {
            Some(m) => m@,
            None => "Transaction resulted in an error"@,
        }) && e.error_name is None && opt_str(e.ssl_txn_id) == opt_str(flat.ssl_txn_id),
    }
}

/// The approved result an answer reports.
pub open spec fn flat_success_is(p: PaymentResponse, flat: ElavonFlatResponse) -> bool {
    &&& p.ssl_result is Approved
    &&& Some(p.ssl_txn_id@) == opt_str(flat.ssl_txn_id)
    &&& Some(p.ssl_result_message@) == opt_str(flat.ssl_result_message)
    &&& opt_str(p.ssl_token) == opt_str(flat.ssl_token)
    &&& opt_str(p.ssl_approval_code) == opt_str(flat.ssl_approval_code)
    &&& opt_str(p.ssl_transaction_type) == opt_str(flat.ssl_transaction_type)
    &&& opt_str(p.ssl_cvv2_response) == opt_str(flat.ssl_cvv2_response)
    &&& opt_str(p.ssl_avs_response) == opt_str(flat.ssl_avs_response)
    &&& opt_str(p.ssl_token_response) == opt_str(flat.ssl_token_response)
}

impl ElavonPaymentsResponse {
    /// Reads an answer: a result code `0` is an approval (which must carry a
    /// transaction id and message); otherwise an error message, or else any
    /// result code, makes it an error; an answer with neither is refused.
    pub fn deserialize(flat: &ElavonFlatResponse) -> (r: Result<Self, ElavonResponseError>)
        ensures
            if opt_str(flat.ssl_result) == Some("0"@) {
                if flat.ssl_txn_id is None {
                    r matches Err(ElavonResponseError::MissingField(f)) && f@ == "ssl_txn_id"@
                } else if flat.ssl_result_message is None {
                    r matches Err(ElavonResponseError::MissingField(f)) && f@ == "ssl_result_message"@
                } else {
                    r matches Ok(x) && (x.result matches ElavonResult::Success(p) && flat_success_is(p, *flat))
                }
            } else if flat.error_message is Some || flat.ssl_result is Some {
                r matches Ok(x) && (x.result matches ElavonResult::Error(e) && flat_error_is(e, *flat))
            } else {
                r matches Err(ElavonResponseError::Undetermined)
            },
    {
        let approved = match &flat.ssl_result {
            Some(code) => str_eq(code.as_str(), "0"),
            None => false,
        };
        if approved {
            let ssl_result = match SslResult::try_from(flat.ssl_result.clone().unwrap()) {
                Ok(x) => x,
                Err(_) => return Err(ElavonResponseError::Undetermined),
            };
            let ssl_txn_id = match &flat.ssl_txn_id {
                Some(t) => t.clone(),
                None => return Err(ElavonResponseError::MissingField("ssl_txn_id")),
            };
            let ssl_result_message = match &flat.ssl_result_message {
                Some(m) => m.clone(),
                None => return Err(ElavonResponseError::MissingField("ssl_result_message")),
            };
            Ok(ElavonPaymentsResponse {
                result: ElavonResult::Success(PaymentResponse {
                    ssl_result,
                    ssl_txn_id,
                    ssl_result_message,
                    ssl_token: clone_opt(&flat.ssl_token),
                    ssl_approval_code: clone_opt(&flat.ssl_approval_code),
                    ssl_transaction_type: clone_opt(&flat.ssl_transaction_type),
                    ssl_cvv2_response: clone_opt(&flat.ssl_cvv2_response),
                    ssl_avs_response: clone_opt(&flat.ssl_avs_response),
                    ssl_token_response: clone_opt(&flat.ssl_token_response),
                }),
            })
        } else if let Some(m) = &flat.error_message {
            Ok(ElavonPaymentsResponse {
                result: ElavonResult::Error(ElavonErrorResponse {
                    error_code: match &flat.error_code {
                        Some(c) => Some(c.clone()),
                        None => clone_opt(&flat.ssl_result),
                    },
                    error_message: m.clone(),
                    error_name: clone_opt(&flat.error_name),
                    ssl_txn_id: clone_opt(&flat.ssl_txn_id),
                }),
            })
        } else if flat.ssl_result.is_some() {
            Ok(ElavonPaymentsResponse {
                result: ElavonResult::Error(ElavonErrorResponse {
                    error_code: clone_opt(&flat.ssl_result),
                    error_message: match &flat.ssl_result_message {
                        Some(m) => m.clone(),
                        None => String::from_str("Transaction resulted in an error"),
                    },
                    error_name: None,
                    ssl_txn_id: clone_opt(&flat.ssl_txn_id),
                }),
            })
        } else {
            Err(ElavonResponseError::Undetermined)
        }
    }
}

/// The attempt status of an approved result: by its transaction type, else by
/// its result code.
pub open spec fn spec_success_status(p: PaymentResponse) -> AttemptStatus {
    if opt_str(p.ssl_transaction_type) == Some("ccauthonly"@) {
        AttemptStatus::Authorized
    } else if opt_str(p.ssl_transaction_type) == Some("ccsale"@) || opt_str(p.ssl_transaction_type) == Some("cccomplete"@) {
        AttemptStatus::Charged
    } else if p.ssl_result is Approved {
        AttemptStatus::Charged
    } else {
        AttemptStatus::Failure
    }
}

/// The error response of an error answer.
pub open spec fn elavon_error_is(e: ErrorResponse, err: ElavonErrorResponse, http_code: u16) -> bool {
    &&& e.status_code == http_code
    &&& e.code@ == (match err.error_code {
        Some(c) => c@,
        None => NO_ERROR_CODE@,
    })
    &&& e.message@ == err.error_message@
    &&& opt_str(e.reason) == opt_str(err.error_name)
    &&& e.attempt_status == Some(AttemptStatus::Failure)
    &&& opt_str(e.connector_transaction_id) == opt_str(err.ssl_txn_id)
}

fn opt_text_is(o: &Option<String>, text: &str) -> (r: bool)
    ensures
        r == (opt_str(*o) == Some(text@)),
{
    match o {
        Some(s) => str_eq(s.as_str(), text),
        None => false,
    }
}

/// The attempt status of an answer, with the error response of an error answer.
pub fn get_elavon_attempt_status(elavon_result: &ElavonResult, http_code: u16) -> (r: (AttemptStatus, Option<ErrorResponse>))
    ensures
        match *elavon_result {
            ElavonResult::Success(p) => r.0 == spec_success_status(p) && r.1 is None,
            ElavonResult::Error(err) => r.0 == AttemptStatus::Failure && (r.1 matches Some(e)
                && elavon_error_is(e, err, http_code)),
        },
{
    match elavon_result {
        ElavonResult::Success(p) => {
            let status = if opt_text_is(&p.ssl_transaction_type, "ccauthonly") {
                AttemptStatus::Authorized
            } else if opt_text_is(&p.ssl_transaction_type, "ccsale") || opt_text_is(&p.ssl_transaction_type, "cccomplete") {
                AttemptStatus::Charged
            } else {
                match p.ssl_result {
                    SslResult::Approved => AttemptStatus::Charged,
                    _ => AttemptStatus::Failure,
                }
            };
            (status, None)
        },
        ElavonResult::Error(err) => (AttemptStatus::Failure, Some(ErrorResponse {
            raw_connector_response: None,
            status_code: http_code,
            code: match &err.error_code {
                Some(c) => c.clone(),
                None => String::from_str(NO_ERROR_CODE),
            },
            message: err.error_message.clone(),
            reason: clone_opt(&err.error_name),
            attempt_status: Some(AttemptStatus::Failure),
            connector_transaction_id: clone_opt(&err.ssl_txn_id),
        })),
    }
}

/// The outcome of an authorization answer, with the stored card token where
/// Elavon reports that it stored the card.
pub fn authorize_response(elavon_result: &ElavonResult, http_code: u16) -> (r: (PaymentsOutcome, Option<String>))
    ensures
        match *elavon_result {
            ElavonResult::Success(p) => r.0.status == spec_success_status(p) && (r.0.response matches Ok(d)
                && (d.resource_id matches ResponseId::ConnectorTransactionId(id) && id@ == p.ssl_txn_id@)
                && d.redirection_data is None && d.connector_metadata is None
                && opt_str(d.network_txn_id) == opt_str(p.ssl_approval_code)
                && d.connector_response_reference_id is None && d.mandate_reference is None
                && d.status_code == http_code) && opt_str(r.1) == (if opt_str(p.ssl_token_response) == Some("SUCCESS"@) {
                    opt_str(p.ssl_token)
                } else {
                    None
                }),
            ElavonResult::Error(err) => r.0.status == AttemptStatus::Failure && (r.0.response matches Err(e)
                && elavon_error_is(e, err, http_code)) && r.1 is None,
        },
{
    let (status, error) = get_elavon_attempt_status(elavon_result, http_code);
    match elavon_result {
        ElavonResult::Success(p) => {
            let token = if opt_text_is(&p.ssl_token_response, "SUCCESS") {
                clone_opt(&p.ssl_token)
            } else {
                None
            };
            let data = TransactionResponseData {
                raw_connector_response: None,
                resource_id: ResponseId::ConnectorTransactionId(p.ssl_txn_id.clone()),
                redirection_data: None,
                mandate_reference: None,
                connector_metadata: None,
                network_txn_id: clone_opt(&p.ssl_approval_code),
                connector_response_reference_id: None,
                status_code: http_code,
            };
            (PaymentsOutcome { status, response: Ok(data) }, token)
        },
        ElavonResult::Error(_) => (PaymentsOutcome { status, response: Err(error.unwrap()) }, None),
    }
}

/// A request that refers to an earlier transaction with an amount.
#[derive(Clone, Debug)]
pub struct ElavonCaptureRequest {
    pub ssl_transaction_type: TransactionType,
    pub ssl_account_id: String,
    pub ssl_user_id: String,
    pub ssl_pin: String,
    pub ssl_amount: String,
    pub ssl_txn_id: String,
}

impl ElavonCaptureRequest {
    /// The completion of an authorized transaction, which must be known.
    pub fn try_from(amount: &String, item: &PaymentsCaptureData) -> (r: Result<Self, ConnectorError>)
        ensures
            match elavon_credentials(item.connector_auth_type) {
                None => r matches Err(ConnectorError::FailedToObtainAuthType),
                Some(c) => match item.connector_transaction_id {
                    ResponseId::ConnectorTransactionId(id) => r matches Ok(req)
                        && req.ssl_transaction_type == TransactionType::CcComplete
                        && (req.ssl_account_id@, req.ssl_user_id@, req.ssl_pin@) == c
                        && req.ssl_amount@ == amount@ && req.ssl_txn_id@ == id@,
                    _ => r matches Err(ConnectorError::MissingConnectorTransactionID),
                },
            },
    {
        let auth_type = ElavonAuthType::try_from(&item.connector_auth_type)?;
        let txn_id = match &item.connector_transaction_id {
            ResponseId::ConnectorTransactionId(id) => id.clone(),
            _ => return Err(ConnectorError::MissingConnectorTransactionID),
        };
        Ok(ElavonCaptureRequest {
            ssl_transaction_type: TransactionType::CcComplete,
            ssl_account_id: auth_type.ssl_merchant_id,
            ssl_user_id: auth_type.ssl_user_id,
            ssl_pin: auth_type.ssl_pin,
            ssl_amount: amount.clone(),
            ssl_txn_id: txn_id,
        })
    }
}

/// The status of an approved completion: a completion or sale is charged when
/// approved and failed otherwise; any other goes by the general rule.
pub open spec fn spec_capture_status(p: PaymentResponse) -> AttemptStatus {
    if opt_str(p.ssl_transaction_type) == Some("cccomplete"@) || opt_str(p.ssl_transaction_type) == Some("ccsale"@) {
        if p.ssl_result is Approved { AttemptStatus::Charged } else { AttemptStatus::Failure }
    } else {
        spec_success_status(p)
    }
}

/// The outcome of a capture answer; an approved answer is kept as metadata.
pub fn capture_response(elavon_result: &ElavonResult, http_code: u16) -> (r: PaymentsOutcome)
    ensures
        match *elavon_result {
            ElavonResult::Success(p) => r.status == spec_capture_status(p) && (r.response matches Ok(d)
                && (d.resource_id matches ResponseId::ConnectorTransactionId(id) && id@ == p.ssl_txn_id@)
                && d.redirection_data is None && d.mandate_reference is None
                && (d.connector_metadata matches Some(ConnectorMetadata::ElavonPayment(m)) && m.ssl_txn_id@ == p.ssl_txn_id@)
                && d.network_txn_id is None
                && opt_str(d.connector_response_reference_id) == opt_str(p.ssl_approval_code)
                && d.status_code == http_code),
            ElavonResult::Error(err) => r.status == AttemptStatus::Failure && (r.response matches Err(e)
                && elavon_error_is(e, err, http_code)),
        },
{
    let (initial_status, error) = get_elavon_attempt_status(elavon_result, http_code);
    match elavon_result {
        ElavonResult::Success(p) => {
            let status = if opt_text_is(&p.ssl_transaction_type, "cccomplete") || opt_text_is(&p.ssl_transaction_type, "ccsale") {
                match p.ssl_result {
                    SslResult::Approved => AttemptStatus::Charged,
                    _ => AttemptStatus::Failure,
                }
            } else {
                initial_status
            };
            let echo = PaymentResponse {
                ssl_result: match &p.ssl_result {
                    SslResult::Approved => SslResult::Approved,
                    SslResult::Declined => SslResult::Declined,
                    SslResult::Other(v) => SslResult::Other(v.clone()),
                },
                ssl_txn_id: p.ssl_txn_id.clone(),
                ssl_result_message: p.ssl_result_message.clone(),
                ssl_token: clone_opt(&p.ssl_token),
                ssl_approval_code: clone_opt(&p.ssl_approval_code),
                ssl_transaction_type: clone_opt(&p.ssl_transaction_type),
                ssl_cvv2_response: clone_opt(&p.ssl_cvv2_response),
                ssl_avs_response: clone_opt(&p.ssl_avs_response),
                ssl_token_response: clone_opt(&p.ssl_token_response),
            };
            PaymentsOutcome {
                status,
                response: Ok(TransactionResponseData {
                    raw_connector_response: None,
                    resource_id: ResponseId::ConnectorTransactionId(p.ssl_txn_id.clone()),
                    redirection_data: None,
                    mandate_reference: None,
                    connector_metadata: Some(ConnectorMetadata::ElavonPayment(echo)),
                    network_txn_id: None,
                    connector_response_reference_id: clone_opt(&p.ssl_approval_code),
                    status_code: http_code,
                }),
            }
        },
        ElavonResult::Error(_) => PaymentsOutcome { status: initial_status, response: Err(error.unwrap()) },
    }
}

/// A refund request.
#[derive(Clone, Debug)]
pub struct ElavonRefundRequest {
    pub ssl_transaction_type: TransactionType,
    pub ssl_account_id: String,
    pub ssl_user_id: String,
    pub ssl_pin: String,
    pub ssl_amount: String,
    pub ssl_txn_id: String,
}

impl ElavonRefundRequest {
    /// The return of an amount, in major units, of a transaction.
    pub fn try_from(amount: &String, item: &RefundsData) -> (r: Result<Self, ConnectorError>)
        ensures
            match elavon_credentials(item.connector_auth_type) {
                None => r matches Err(ConnectorError::FailedToObtainAuthType),
                Some(c) => r matches Ok(req) && req.ssl_transaction_type == TransactionType::CcReturn
                    && (req.ssl_account_id@, req.ssl_user_id@, req.ssl_pin@) == c
                    && req.ssl_amount@ == amount@ && req.ssl_txn_id@ == item.connector_transaction_id@,
            },
    {
        let auth_type = ElavonAuthType::try_from(&item.connector_auth_type)?;
        Ok(ElavonRefundRequest {
            ssl_transaction_type: TransactionType::CcReturn,
            ssl_account_id: auth_type.ssl_merchant_id,
            ssl_user_id: auth_type.ssl_user_id,
            ssl_pin: auth_type.ssl_pin,
            ssl_amount: amount.clone(),
            ssl_txn_id: item.connector_transaction_id.clone(),
        })
    }
}

/// The refund status of an approved answer to a return.
pub open spec fn spec_refund_answer_status(p: PaymentResponse) -> RefundStatus {
    if opt_str(p.ssl_transaction_type) == Some("ccreturn"@) {
        match p.ssl_result {
            SslResult::Approved => RefundStatus::Success,
            SslResult::Declined => RefundStatus::Failure,
            SslResult::Other(_) => RefundStatus::Pending,
        }
    } else {
        RefundStatus::Pending
    }
}

/// The outcome of a refund answer.
pub fn refund_response(elavon_result: &ElavonResult, http_code: u16) -> (r: RefundsOutcome)
    ensures
        match *elavon_result {
            ElavonResult::Success(p) => r.status == spec_refund_answer_status(p) && (r.response matches Ok(d)
                && d.connector_refund_id@ == p.ssl_txn_id@ && d.refund_status == r.status && d.status_code == http_code),
            ElavonResult::Error(err) => r.status == RefundStatus::Failure && (r.response matches Err(e)
                && elavon_error_is(e, err, http_code)),
        },
{
    let (_status, error) = get_elavon_attempt_status(elavon_result, http_code);
    match elavon_result {
        ElavonResult::Success(p) => {
            let refund_status = if opt_text_is(&p.ssl_transaction_type, "ccreturn") {
                match p.ssl_result {
                    SslResult::Approved => RefundStatus::Success,
                    SslResult::Declined => RefundStatus::Failure,
                    SslResult::Other(_) => RefundStatus::Pending,
                }
            } else {
                RefundStatus::Pending
            };
            RefundsOutcome {
                status: refund_status,
                response: Ok(RefundsResponseData {
                    raw_connector_response: None,
                    connector_refund_id: p.ssl_txn_id.clone(),
                    refund_status,
                    status_code: http_code,
                }),
            }
        },
        ElavonResult::Error(_) => RefundsOutcome { status: RefundStatus::Failure, response: Err(error.unwrap()) },
    }
}

/// A transaction query.
#[derive(Clone, Debug)]
pub struct ElavonPsyncRequest {
    pub ssl_transaction_type: TransactionType,
    pub ssl_account_id: String,
    pub ssl_user_id: String,
    pub ssl_pin: String,
    pub ssl_txn_id: String,
}

impl ElavonPsyncRequest {
    /// A query of the payment's transaction, which must be known.
    pub fn try_from(item: &PaymentsSyncData) -> (r: Result<Self, ConnectorError>)
        ensures
            match elavon_credentials(item.connector_auth_type) {
                None => r matches Err(ConnectorError::FailedToObtainAuthType),
                Some(c) => match item.connector_transaction_id {
                    ResponseId::ConnectorTransactionId(id) => r matches Ok(req)
                        && req.ssl_transaction_type == TransactionType::TxnQuery
                        && (req.ssl_account_id@, req.ssl_user_id@, req.ssl_pin@) == c && req.ssl_txn_id@ == id@,
                    _ => r matches Err(ConnectorError::MissingConnectorTransactionID),
                },
            },
    {
        let auth_type = ElavonAuthType::try_from(&item.connector_auth_type)?;
        let txn_id = match &item.connector_transaction_id {
            ResponseId::ConnectorTransactionId(id) => id.clone(),
            _ => return Err(ConnectorError::MissingConnectorTransactionID),
        };
        Ok(ElavonPsyncRequest {
            ssl_transaction_type: TransactionType::TxnQuery,
            ssl_account_id: auth_type.ssl_merchant_id,
            ssl_user_id: auth_type.ssl_user_id,
            ssl_pin: auth_type.ssl_pin,
            ssl_txn_id: txn_id,
        })
    }
}

/// Settlement state of a queried transaction.
#[derive(Clone, Copy, Debug, PartialEq, Eq, Structural)]
pub enum TransactionSyncStatus {
    PEN,
    OPN,
    REV,
    STL,
    PST,
    FPR,
    PRE,
}

/// Kind of a queried transaction.
#[derive(Clone, Copy, Debug, PartialEq, Eq, Structural)]
pub enum SyncTransactionType {
    Sale,
    AuthOnly,
    Return,
}

/// The answer to a transaction query.
#[derive(Clone, Debug)]
pub struct ElavonPSyncResponse {
    pub ssl_trans_status: TransactionSyncStatus,
    pub ssl_transaction_type: SyncTransactionType,
    pub ssl_txn_id: String,
}

/// The attempt status of a queried transaction.
pub open spec fn spec_psync_status(status: TransactionSyncStatus, kind: SyncTransactionType) -> AttemptStatus {
    match status {
        TransactionSyncStatus::STL => match kind {
            SyncTransactionType::Sale | SyncTransactionType::AuthOnly => AttemptStatus::Charged,
            SyncTransactionType::Return => AttemptStatus::AutoRefunded,
        },
        TransactionSyncStatus::OPN => match kind {
            SyncTransactionType::AuthOnly => AttemptStatus::Authorized,
            _ => AttemptStatus::Pending,
        },
        TransactionSyncStatus::PEN | TransactionSyncStatus::REV => AttemptStatus::Pending,
        _ => if kind == SyncTransactionType::AuthOnly && status == TransactionSyncStatus::PRE {
            AttemptStatus::AuthenticationFailed
        } else {
            AttemptStatus::Failure
        },
    }
}

/// A queried transaction is charged exactly when it is settled and is a sale
/// or an authorization; a settled return is refunded.
pub proof fn lemma_settled_sale_charged(status: TransactionSyncStatus, kind: SyncTransactionType)
    ensures
        spec_psync_status(status, kind) == AttemptStatus::Charged
            <==> (status == TransactionSyncStatus::STL && kind != SyncTransactionType::Return),
        status == TransactionSyncStatus::STL && kind == SyncTransactionType::Return
            ==> spec_psync_status(status, kind) == AttemptStatus::AutoRefunded,
        spec_psync_status(status, kind) == AttemptStatus::Authorized
            <==> (status == TransactionSyncStatus::OPN && kind == SyncTransactionType::AuthOnly),
        spec_psync_status(status, kind) == AttemptStatus::Pending <==> (status == TransactionSyncStatus::PEN
            || status == TransactionSyncStatus::REV || (status == TransactionSyncStatus::OPN && kind
            != SyncTransactionType::AuthOnly)),
        spec_psync_status(status, kind) == AttemptStatus::AuthenticationFailed
            <==> (status == TransactionSyncStatus::PRE && kind == SyncTransactionType::AuthOnly),
{
}

/// The outcome of a transaction query; the answer is kept as metadata.
pub fn psync_response(response: &ElavonPSyncResponse, http_code: u16) -> (r: PaymentsOutcome)
    ensures
        r.status == spec_psync_status(response.ssl_trans_status, response.ssl_transaction_type),
        r.response matches Ok(d) && (d.resource_id matches ResponseId::ConnectorTransactionId(id)
            && id@ == response.ssl_txn_id@) && d.redirection_data is None && d.mandate_reference is None
            && (d.connector_metadata matches Some(ConnectorMetadata::ElavonSync(m))
                && m.ssl_trans_status == response.ssl_trans_status
                && m.ssl_transaction_type == response.ssl_transaction_type && m.ssl_txn_id@ == response.ssl_txn_id@)
            && d.network_txn_id is None && d.connector_response_reference_id is None && d.status_code == http_code,
{
    let status = match response.ssl_trans_status {
        TransactionSyncStatus::STL => match response.ssl_transaction_type {
            SyncTransactionType::Sale | SyncTransactionType::AuthOnly => AttemptStatus::Charged,
            SyncTransactionType::Return => AttemptStatus::AutoRefunded,
        },
        TransactionSyncStatus::OPN => match response.ssl_transaction_type {
            SyncTransactionType::AuthOnly => AttemptStatus::Authorized,
            _ => AttemptStatus::Pending,
        },
        TransactionSyncStatus::PEN | TransactionSyncStatus::REV => AttemptStatus::Pending,
        _ => if response.ssl_transaction_type == SyncTransactionType::AuthOnly
            && response.ssl_trans_status == TransactionSyncStatus::PRE {
            AttemptStatus::AuthenticationFailed
        } else {
            AttemptStatus::Failure
        },
    };
    let echo = ElavonPSyncResponse {
        ssl_trans_status: response.ssl_trans_status,
        ssl_transaction_type: response.ssl_transaction_type,
        ssl_txn_id: response.ssl_txn_id.clone(),
    };
    PaymentsOutcome {
        status,
        response: Ok(TransactionResponseData {
            raw_connector_response: None,
            resource_id: ResponseId::ConnectorTransactionId(response.ssl_txn_id.clone()),
            redirection_data: None,
            mandate_reference: None,
            connector_metadata: Some(ConnectorMetadata::ElavonSync(echo)),
            network_txn_id: None,
            connector_response_reference_id: None,
            status_code: http_code,
        }),
    }
}

/// A refund query.
#[derive(Clone, Debug)]
pub struct ElavonRSyncRequest {
    pub ssl_transaction_type: TransactionType,
    pub ssl_account_id: String,
    pub ssl_user_id: String,
    pub ssl_pin: String,
    pub ssl_txn_id: String,
}

impl ElavonRSyncRequest {
    pub fn try_from(item: &RefundSyncData) -> (r: Result<Self, ConnectorError>)
        ensures
            match elavon_credentials(item.connector_auth_type) {
                None => r matches Err(ConnectorError::FailedToObtainAuthType),
                Some(c) => r matches Ok(req) && req.ssl_transaction_type == TransactionType::TxnQuery
                    && (req.ssl_account_id@, req.ssl_user_id@, req.ssl_pin@) == c
                    && req.ssl_txn_id@ == item.connector_refund_id@,
            },
    {
        let auth_type = ElavonAuthType::try_from(&item.connector_auth_type)?;
        Ok(ElavonRSyncRequest {
            ssl_transaction_type: TransactionType::TxnQuery,
            ssl_account_id: auth_type.ssl_merchant_id,
            ssl_user_id: auth_type.ssl_user_id,
            ssl_pin: auth_type.ssl_pin,
            ssl_txn_id: item.connector_refund_id.clone(),
        })
    }
}

/// The answer to a refund query.
#[derive(Clone, Debug)]
pub struct ElavonRSyncResponse {
    pub ssl_trans_status: TransactionSyncStatus,
    pub ssl_transaction_type: SyncTransactionType,
    pub ssl_txn_id: String,
}

/// The refund status of a queried return; other transactions are pending.
pub open spec fn spec_rsync_status(status: TransactionSyncStatus, kind: SyncTransactionType) -> RefundStatus {
    if kind == SyncTransactionType::Return {
        match status {
            TransactionSyncStatus::STL => RefundStatus::Success,
            TransactionSyncStatus::PEN | TransactionSyncStatus::OPN => RefundStatus::Pending,
            TransactionSyncStatus::REV => RefundStatus::ManualReview,
            _ => RefundStatus::Failure,
        }
    } else {
        RefundStatus::Pending
    }
}

pub fn get_refund_status_from_elavon_sync_response(elavon_response: &ElavonRSyncResponse) -> (r: RefundStatus)
    ensures
        r == spec_rsync_status(elavon_response.ssl_trans_status, elavon_response.ssl_transaction_type),
{
    match elavon_response.ssl_transaction_type {
        SyncTransactionType::Return => match elavon_response.ssl_trans_status {
            TransactionSyncStatus::STL => RefundStatus::Success,
            TransactionSyncStatus::PEN | TransactionSyncStatus::OPN => RefundStatus::Pending,
            TransactionSyncStatus::REV => RefundStatus::ManualReview,
            _ => RefundStatus::Failure,
        },
        _ => RefundStatus::Pending,
    }
}

/// The outcome of a refund query.
pub fn rsync_response(response: &ElavonRSyncResponse, http_code: u16) -> (r: RefundsOutcome)
    ensures
        r.status == spec_rsync_status(response.ssl_trans_status, response.ssl_transaction_type),
        r.response matches Ok(d) && d.connector_refund_id@ == response.ssl_txn_id@ && d.refund_status == r.status
            && d.status_code == http_code,
{
    let refund_status = get_refund_status_from_elavon_sync_response(response);
    RefundsOutcome {
        status: refund_status,
        response: Ok(RefundsResponseData { connector_refund_id: response.ssl_txn_id.clone(), refund_status, status_code: http_code, raw_connector_response: None }),
    }
}

/// The Elavon connector.
pub struct Elavon;

impl Elavon {
    /// The error response of an answer on the error path. An error answer
    /// gives its error; an approval there is unexpected; an answer that could
    /// not be read gives its raw text, as a server error for a 5xx status.
    pub fn build_error_response(&self, parsed: &Option<ElavonPaymentsResponse>, body: &Vec<u8>, status_code: u16) -> (r: ErrorResponse)
        ensures
            r.status_code == status_code,
            r.attempt_status == Some(AttemptStatus::Failure),
            match *parsed {
                Some(x) => match x.result {
                    ElavonResult::Error(err) => r.code@ == (match err.error_code {
                        Some(c) => c@,
                        None => Seq::<char>::empty(),
                    }) && r.message@ == err.error_message@ && opt_str(r.reason) == opt_str(err.error_name)
                        && opt_str(r.connector_transaction_id) == opt_str(err.ssl_txn_id),
                    ElavonResult::Success(p) => r.code@ == Seq::<char>::empty()
                        && r.message@ == "Received success response in error flow"@
                        && opt_str(r.reason) == Some("Unexpected success: "@ + debug_text(p.ssl_result_message@))
                        && opt_str(r.connector_transaction_id) == Some(p.ssl_txn_id@),
                },
                None => r.code@ == Seq::<char>::empty() && r.message@ == (if 500 <= status_code <= 599 {
                    "Elavon server error"@
                } else {
                    "Elavon error response"@
                }) && opt_str(r.reason) == Some(utf8_lossy_text(body@)) && r.connector_transaction_id is None,
            },
    {
        match parsed {
            Some(x) => match &x.result {
                ElavonResult::Error(err) => ErrorResponse {
                    raw_connector_response: None,
                    status_code,
                    code: match &err.error_code {
                        Some(c) => c.clone(),
                        None => String::new(),
                    },
                    message: err.error_message.clone(),
                    reason: clone_opt(&err.error_name),
                    attempt_status: Some(AttemptStatus::Failure),
                    connector_transaction_id: clone_opt(&err.ssl_txn_id),
                },
                ElavonResult::Success(p) => {
                    let quoted = debug_string(p.ssl_result_message.as_str());
                    ErrorResponse {
                        raw_connector_response: None,
                        status_code,
                        code: String::new(),
                        message: String::from_str("Received success response in error flow"),
                        reason: Some(concat("Unexpected success: ", quoted.as_str())),
                        attempt_status: Some(AttemptStatus::Failure),
                        connector_transaction_id: Some(p.ssl_txn_id.clone()),
                    }
                },
            },
            None => {
                let message = if 500 <= status_code && status_code <= 599 {
                    String::from_str("Elavon server error")
                } else {
                    String::from_str("Elavon error response")
                };
                ErrorResponse {
                    raw_connector_response: None,
                    status_code,
                    code: String::new(),
                    message,
                    reason: Some(utf8_lossy(body.as_slice())),
                    attempt_status: Some(AttemptStatus::Failure),
                    connector_transaction_id: None,
                }
            },
        }
    }
}


/// A queried return has failed as a refund exactly when, queried as a payment,
/// it has failed.
pub proof fn lemma_return_failure_agrees(status: TransactionSyncStatus)
    ensures
        spec_rsync_status(status, SyncTransactionType::Return) == RefundStatus::Failure
            <==> spec_psync_status(status, SyncTransactionType::Return) == AttemptStatus::Failure,
{
}

/// A query of any transaction but a return never reports a refund as settled.
pub proof fn lemma_non_return_refund_pending(status: TransactionSyncStatus, kind: SyncTransactionType)
    requires
        kind != SyncTransactionType::Return,
    ensures
        spec_rsync_status(status, kind) == RefundStatus::Pending,
{
}

impl Elavon {
    /// The name of the connector.
    pub fn id(&self) -> (r: &'static str)
        ensures
            r@ == "elavon"@,
    {
        "elavon"
    }
    /// The content type of its requests.
    pub fn common_get_content_type(&self) -> (r: &'static str)
        ensures
            r@ == "application/x-www-form-urlencoded"@,
    {
        "application/x-www-form-urlencoded"
    }
    /// The base URL of its demo endpoint.
    pub fn base_url(&self) -> (r: &'static str)
        ensures
            r@ == "https://api.demo.convergepay.com/VirtualMerchantDemo/"@,
    {
        "https://api.demo.convergepay.com/VirtualMerchantDemo/"
    }
}

} // verus!
