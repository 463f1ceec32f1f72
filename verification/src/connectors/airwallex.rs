//! Airwallex: card payment requests with billing and device data, the attempt
//! status of its payment states, and the validation of what it supports.

use vstd::prelude::*;
use vstd::string::StringSliceAdditionalSpecFns;

use crate::common_enums::{AttemptStatus, CaptureMethod, Currency};
use crate::consts::{NO_ERROR_CODE, NO_ERROR_MESSAGE};
use crate::router_data::{
    Address, ConnectorAuthType, ConnectorError, ErrorResponse, PaymentMethodData, PaymentsAuthorizeData,
    PaymentsOutcome, RedirectForm, ResponseId, TransactionResponseData,
};
use crate::runtime_values::{is_uuid_v4_hyphenated, new_uuid_v4_string};
use crate::text::{
    clone_opt, concat, concat3, opt_str, pair_views, str_eq, to_uppercase, unicode_uppercase, utf8_lossy,
    utf8_lossy_text,
};

verus! {

/// The Airwallex connector.
#[derive(Clone, Debug)]
pub struct Airwallex;

impl Airwallex {
    pub fn new() -> (r: Self) {
        Airwallex
    }

    /// Where a payment is created.
    pub fn payments_url(&self, base_url: &str) -> (r: String)
        ensures
            r@ == base_url@ + "/api/v1/pa/payments/create"@,
    {
        concat(base_url, "/api/v1/pa/payments/create")
    }

    /// Where an access token is asked for.
    pub fn access_token_url(&self, base_url: &str) -> (r: String)
        ensures
            r@ == base_url@ + "/api/v1/authentication/login"@,
    {
        concat(base_url, "/api/v1/authentication/login")
    }

    /// The body of an access token request: the client id and the API key
    /// of body-key credentials.
    pub fn access_token_request_body(&self, auth_type: &ConnectorAuthType) -> (r: Result<AirwallexAuthUpdateRequest, ConnectorError>)
        ensures
            match *auth_type {
                ConnectorAuthType::BodyKey { api_key, key1 } => r matches Ok(b) && b.client_id@ == key1@
                    && b.api_key@ == api_key@,
                _ => r matches Err(ConnectorError::FailedToObtainAuthType),
            },
    {
        let auth = AirwallexAuthType::try_from(auth_type)?;
        Ok(AirwallexAuthUpdateRequest { client_id: auth.x_client_id, api_key: auth.x_api_key })
    }
}

/// The body of an access token request.
#[derive(Clone, Debug)]
pub struct AirwallexAuthUpdateRequest {
    pub client_id: String,
    pub api_key: String,
}

/// Airwallex credentials: API key and client id, from a body key.
#[derive(Clone, Debug)]
pub struct AirwallexAuthType {
    pub x_api_key: String,
    pub x_client_id: String,
}

impl AirwallexAuthType {
    pub fn try_from(auth_type: &ConnectorAuthType) -> (r: Result<Self, ConnectorError>)
        ensures
            match *auth_type {
                ConnectorAuthType::BodyKey { api_key, key1 } => r matches Ok(a) && a.x_api_key@ == api_key@
                    && a.x_client_id@ == key1@,
                _ => r matches Err(ConnectorError::FailedToObtainAuthType),
            },
    {
        match auth_type {
            ConnectorAuthType::BodyKey { api_key, key1 } => Ok(AirwallexAuthType { x_api_key: api_key.clone(), x_client_id: key1.clone() }),
            _ => Err(ConnectorError::FailedToObtainAuthType),
        }
    }
}

/// The name a capture method prints with.
pub open spec fn capture_method_name(c: CaptureMethod) -> Seq<char> {
    match c {
        CaptureMethod::Automatic => "Automatic"@,
        CaptureMethod::Manual => "Manual"@,
        CaptureMethod::ManualMultiple => "ManualMultiple"@,
        CaptureMethod::Scheduled => "Scheduled"@,
        CaptureMethod::SequentialAutomatic => "SequentialAutomatic"@,
    }
}

fn capture_method_str(c: CaptureMethod) -> (r: &'static str)
    ensures
        r@ == capture_method_name(c),
{
    match c {
        CaptureMethod::Automatic => "Automatic",
        CaptureMethod::Manual => "Manual",
        CaptureMethod::ManualMultiple => "ManualMultiple",
        CaptureMethod::Scheduled => "Scheduled",
        CaptureMethod::SequentialAutomatic => "SequentialAutomatic",
    }
}

/// Whether Airwallex supports a capture method.
pub open spec fn capture_method_supported(c: Option<CaptureMethod>) -> bool {
    match c {
        Some(CaptureMethod::ManualMultiple) | Some(CaptureMethod::SequentialAutomatic) => false,
        _ => true,
    }
}

impl Airwallex {
    /// Automatic, manual and scheduled capture are supported; any other
    /// capture method is not.
    pub fn validate_capture_method(&self, capture_method: Option<CaptureMethod>) -> (r: Result<(), ConnectorError>)
        ensures
            capture_method_supported(capture_method) ==> r is Ok,
            !capture_method_supported(capture_method) ==> (r matches Err(ConnectorError::FlowNotSupported { flow, connector })
                && flow@ == capture_method_name(capture_method->0) && connector@ == "Airwallex"@),
    {
        match capture_method {
            Some(CaptureMethod::ManualMultiple) | Some(CaptureMethod::SequentialAutomatic) => {
                let c = capture_method.unwrap();
                Err(ConnectorError::FlowNotSupported {
                    flow: String::from_str(capture_method_str(c)),
                    connector: String::from_str("Airwallex"),
                })
            },
            _ => Ok(()),
        }
    }

    /// Only cards are supported.
    pub fn validate_payment_method_fields(&self, payment_method_data: &PaymentMethodData) -> (r: Result<(), ConnectorError>)
        ensures
            *payment_method_data is Card ==> r is Ok,
            !(*payment_method_data is Card) ==> (r matches Err(ConnectorError::NotImplemented(m))
                && m@ == "Payment method validation"@),
    {
        match payment_method_data {
            PaymentMethodData::Card(_) => Ok(()),
            _ => Err(ConnectorError::NotImplemented(String::from_str("Payment method validation"))),
        }
    }

    /// The headers of a payment: JSON content, and the access token obtained
    /// beforehand as bearer token.
    pub fn get_headers(&self, item: &PaymentsAuthorizeData) -> (r: Result<Vec<(String, String)>, ConnectorError>)
        ensures
            match item.access_token {
                Some(t) => r matches Ok(h) && pair_views(h@) == seq![
                    ("Content-Type"@, "application/json"@),
                    ("Authorization"@, "Bearer "@ + t@),
                ],
                None => r matches Err(ConnectorError::MissingRequiredField { field_name }) && field_name@ == "access_token"@,
            },
    {
        let mut header: Vec<(String, String)> = Vec::new();
        header.push((String::from_str("Content-Type"), String::from_str("application/json")));
        let token = match &item.access_token {
            Some(t) => t,
            None => return Err(ConnectorError::MissingRequiredField { field_name: "access_token" }),
        };
        header.push((String::from_str("Authorization"), concat("Bearer ", token.as_str())));
        assert(pair_views(header@) =~= seq![("Content-Type"@, "application/json"@), ("Authorization"@, "Bearer "@ + token@)]);
        Ok(header)
    }
}

/// An address as Airwallex takes it.
#[derive(Clone, Debug)]
pub struct AirwallexAddress {
    pub country_code: String,
    pub state: Option<String>,
    pub city: Option<String>,
    pub street: Option<String>,
    pub postcode: Option<String>,
}

/// The billing details of a card.
#[derive(Clone, Debug)]
pub struct AirwallexBilling {
    pub first_name: Option<String>,
    pub last_name: Option<String>,
    pub phone_number: Option<String>,
    pub email: Option<String>,
    pub address: AirwallexAddress,
}

/// A card as Airwallex takes it.
#[derive(Clone, Debug)]
pub struct AirwallexCard {
    pub number: String,
    pub expiry_month: String,
    pub expiry_year: String,
    pub cvc: String,
    pub billing: Option<AirwallexBilling>,
}

/// The payment method of a payment.
#[derive(Clone, Debug)]
pub struct AirwallexPaymentMethod {
    pub payment_type: String,
    pub card: Option<AirwallexCard>,
}

/// What the shopper's device told.
#[derive(Clone, Debug)]
pub struct AirwallexDeviceData {
    pub device_id: Option<String>,
    pub ip_address: Option<String>,
    pub user_agent: Option<String>,
    pub accept_language: Option<String>,
}

/// 3-D Secure options of a card payment.
#[derive(Clone, Debug)]
pub struct AirwallexThreeDS {
    pub return_url: Option<String>,
}

/// Options of a card payment.
#[derive(Clone, Debug)]
pub struct AirwallexCardOptions {
    pub auto_capture: bool,
    pub three_ds: Option<AirwallexThreeDS>,
}

/// Options of a payment method.
#[derive(Clone, Debug)]
pub struct AirwallexPaymentMethodOptions {
    pub card: Option<AirwallexCardOptions>,
}

/// A payment request.
#[derive(Clone, Debug)]
pub struct AirwallexPaymentsRequest {
    pub request_id: String,
    pub amount: String,
    pub currency: Currency,
    pub merchant_order_id: String,
    pub payment_method: AirwallexPaymentMethod,
    pub return_url: Option<String>,
    pub device_data: Option<AirwallexDeviceData>,
    pub customer_id: Option<String>,
    pub capture_method: Option<String>,
    pub payment_method_options: Option<AirwallexPaymentMethodOptions>,
}

/// A text or nothing.
pub open spec fn text_or_empty(o: Option<String>) -> Seq<char> {
    match o {
        Some(s) => s@,
        None => Seq::empty(),
    }
}

/// The billing details of a billing address: its country is required.
pub open spec fn billing_is(b: AirwallexBilling, billing: Address) -> bool {
    &&& billing.address matches Some(a) && a.country matches Some(c) && b.address.country_code@ == c.spec_code()
    &&& opt_str(b.first_name) == opt_str(billing.address->0.first_name)
    &&& opt_str(b.last_name) == opt_str(billing.address->0.last_name)
    &&& opt_str(b.phone_number) == opt_str(billing.phone_number)
    &&& opt_str(b.email) == opt_str(billing.email)
    &&& opt_str(b.address.state) == opt_str(billing.address->0.state)
    &&& opt_str(b.address.city) == opt_str(billing.address->0.city)
    &&& opt_str(b.address.street) == Some(text_or_empty(billing.address->0.line1) + text_or_empty(billing.address->0.line2)
        + text_or_empty(billing.address->0.line3))
    &&& opt_str(b.address.postcode) == opt_str(billing.address->0.zip)
}

fn text_of(o: &Option<String>) -> (r: String)
    ensures
        r@ == text_or_empty(*o),
{
    match o {
        Some(s) => s.clone(),
        None => String::new(),
    }
}

fn billing_of(billing: &Address) -> (r: Result<AirwallexBilling, ConnectorError>)
    ensures
        match billing.address {
            Some(a) => match a.country {
                Some(_) => r matches Ok(b) && billing_is(b, *billing),
                None => r matches Err(ConnectorError::MissingRequiredField { field_name })
                    && field_name@ == "billing.address.country_code"@,
            },
            None => r matches Err(ConnectorError::MissingRequiredField { field_name })
                && field_name@ == "billing.address.country_code"@,
        },
{
    let a = match &billing.address {
        Some(a) => a,
        None => return Err(ConnectorError::MissingRequiredField { field_name: "billing.address.country_code" }),
    };
    let country = match a.country {
        Some(c) => c,
        None => return Err(ConnectorError::MissingRequiredField { field_name: "billing.address.country_code" }),
    };
    let mut street = concat3(text_of(&a.line1).as_str(), text_of(&a.line2).as_str(), text_of(&a.line3).as_str());
    Ok(AirwallexBilling {
        first_name: clone_opt(&a.first_name),
        last_name: clone_opt(&a.last_name),
        phone_number: clone_opt(&billing.phone_number),
        email: clone_opt(&billing.email),
        address: AirwallexAddress {
            country_code: String::from_str(country.as_str()),
            state: clone_opt(&a.state),
            city: clone_opt(&a.city),
            street: Some(street),
            postcode: clone_opt(&a.zip),
        },
    })
}

/// Whether a payment is captured at once, or the name of a capture method
/// Airwallex does not take for a payment.
pub open spec fn spec_auto_capture(c: Option<CaptureMethod>) -> Result<bool, Seq<char>> {
    match c {
        Some(CaptureMethod::Automatic) | None => Ok(true),
        Some(CaptureMethod::Manual) => Ok(false),
        Some(CaptureMethod::Scheduled) => Err("Scheduled Capture"@),
        Some(other) => Err(capture_method_name(other)),
    }
}

/// The payment request of a card payment with an amount in major units and a
/// request id.
pub open spec fn payments_request_is(req: AirwallexPaymentsRequest, item: PaymentsAuthorizeData, amount: Seq<char>, auto_capture: bool) -> bool {
    &&& req.amount@ == amount
    &&& req.currency == item.currency
    &&& req.merchant_order_id@ == item.connector_request_reference_id@
    &&& req.payment_method.payment_type@ == "card"@
    &&& item.payment_method_data matches PaymentMethodData::Card(card) && (req.payment_method.card matches Some(c)
        && c.number@ == card.card_number@ && c.expiry_month@ == card.card_exp_month@
        && c.expiry_year@ == card.card_exp_year@ && c.cvc@ == card.card_cvc@
        && (item.billing matches Some(billing) && (c.billing matches Some(b) && billing_is(b, billing))))
    &&& opt_str(req.return_url) == opt_str(item.router_return_url)
    &&& match item.browser_info {
        Some(bi) => req.device_data matches Some(d) && d.device_id is None && opt_str(d.ip_address) == opt_str(bi.ip_address)
            && opt_str(d.user_agent) == opt_str(bi.user_agent) && opt_str(d.accept_language) == opt_str(bi.language),
        None => req.device_data is None,
    }
    &&& opt_str(req.customer_id) == opt_str(item.customer_id)
    &&& req.capture_method is None
    &&& req.payment_method_options matches Some(o) && (o.card matches Some(co) && co.auto_capture == auto_capture
        && if item.enrolled_for_3ds {
            co.three_ds matches Some(t) && opt_str(t.return_url) == opt_str(item.router_return_url)
        } else {
            co.three_ds is None
        })
}

impl AirwallexPaymentsRequest {
    /// The request of a card payment, with a fresh request id and an amount
    /// in major units. A card payment needs a billing address with a country.
    pub fn try_from(amount: &String, item: &PaymentsAuthorizeData) -> (r: Result<Self, ConnectorError>)
        ensures
            match item.payment_method_data {
                PaymentMethodData::Card(_) => match item.billing {
                    None => r matches Err(ConnectorError::MissingRequiredField { field_name })
                        && field_name@ == "billing address"@,
                    Some(billing) => if !(billing.address matches Some(a) && a.country is Some) {
                        r matches Err(ConnectorError::MissingRequiredField { field_name })
                            && field_name@ == "billing.address.country_code"@
                    } else {
                        match spec_auto_capture(item.capture_method) {
                            Err(flow) => r matches Err(ConnectorError::FlowNotSupported { flow: f, connector })
                                && f@ == flow && connector@ == "Airwallex"@,
                            Ok(auto) => r matches Ok(req) && payments_request_is(req, *item, amount@, auto)
                                && is_uuid_v4_hyphenated(req.request_id@),
                        }
                    },
                },
                _ => r matches Err(ConnectorError::NotImplemented(m)) && m@ == "Selected payment method through Airwallex"@,
            },
    {
        let card = match &item.payment_method_data {
            PaymentMethodData::Card(card) => card,
            _ => return Err(ConnectorError::NotImplemented(String::from_str("Selected payment method through Airwallex"))),
        };
        let billing = match &item.billing {
            Some(b) => billing_of(b)?,
            None => return Err(ConnectorError::MissingRequiredField { field_name: "billing address" }),
        };
        let airwallex_card = AirwallexCard {
            number: card.card_number.clone(),
            expiry_month: card.card_exp_month.clone(),
            expiry_year: card.card_exp_year.clone(),
            cvc: card.card_cvc.clone(),
            billing: Some(billing),
        };
        let payment_method = AirwallexPaymentMethod { payment_type: String::from_str("card"), card: Some(airwallex_card) };
        let device_data = match &item.browser_info {
            Some(bi) => Some(AirwallexDeviceData {
                device_id: None,
                ip_address: clone_opt(&bi.ip_address),
                user_agent: clone_opt(&bi.user_agent),
                accept_language: clone_opt(&bi.language),
            }),
            None => None,
        };
        let auto_capture = match item.capture_method {
            Some(CaptureMethod::Automatic) | None => true,
            Some(CaptureMethod::Manual) => false,
            Some(CaptureMethod::Scheduled) => {
                return Err(ConnectorError::FlowNotSupported {
                    flow: String::from_str("Scheduled Capture"),
                    connector: String::from_str("Airwallex"),
                });
            },
            Some(other) => {
                return Err(ConnectorError::FlowNotSupported {
                    flow: String::from_str(capture_method_str(other)),
                    connector: String::from_str("Airwallex"),
                });
            },
        };
        let payment_method_options = Some(AirwallexPaymentMethodOptions {
            card: Some(AirwallexCardOptions {
                auto_capture,
                three_ds: if item.enrolled_for_3ds {
                    Some(AirwallexThreeDS { return_url: clone_opt(&item.router_return_url) })
                } else {
                    None
                },
            }),
        });
        Ok(AirwallexPaymentsRequest {
            request_id: new_uuid_v4_string(),
            amount: amount.clone(),
            currency: item.currency,
            merchant_order_id: item.connector_request_reference_id.clone(),
            payment_method,
            return_url: clone_opt(&item.router_return_url),
            device_data,
            customer_id: clone_opt(&item.customer_id),
            capture_method: None,
            payment_method_options,
        })
    }
}

/// The next action a payment answer asks for.
#[derive(Clone, Debug)]
pub struct AirwallexNextAction {
    pub action_type: String,
    pub method: Option<String>,
    pub url: Option<String>,
}

/// The answer to a payment request.
#[derive(Clone, Debug)]
pub struct AirwallexPaymentsResponse {
    pub id: String,
    pub request_id: String,
    pub currency: String,
    pub merchant_order_id: String,
    pub status: String,
    pub next_action: Option<AirwallexNextAction>,
    pub created_at: String,
    pub code: Option<String>,
    pub message: Option<String>,
}

/// The attempt status of a payment state, read in upper case; an unknown
/// state is an unexpected answer.
pub open spec fn spec_airwallex_status(status: Seq<char>) -> Option<AttemptStatus> {
    let s = unicode_uppercase(status);
    if s == "SUCCEEDED"@ || s == "AUTHORIZED"@ {
        Some(AttemptStatus::Authorized)
    } else if s == "CAPTURED"@ {
        Some(AttemptStatus::Charged)
    } else if s == "PENDING_AUTHENTICATION"@ || s == "PENDING_DEVICE_DATA_COLLECTION"@ {
        Some(AttemptStatus::AuthenticationPending)
    } else if s == "REQUIRES_PAYMENT_METHOD"@ || s == "REQUIRES_CAPTURE"@ || s == "PENDING_PAYMENT"@ {
        Some(AttemptStatus::Pending)
    } else if s == "FAILED"@ || s == "CANCELLED"@ {
        Some(AttemptStatus::Failure)
    } else if s == "REQUIRES_CUSTOMER_ACTION"@ {
        Some(AttemptStatus::Unresolved)
    } else {
        None
    }
}

/// A payment whose state reads `FAILED` or `CANCELLED`, in any letter case,
/// has failed, and no other state reads as a failure; a failed payment is
/// never charged.
pub proof fn lemma_failed_or_cancelled_is_failure(status: Seq<char>)
    ensures
        spec_airwallex_status(status) == Some(AttemptStatus::Failure) <==> (unicode_uppercase(status) == "FAILED"@
            || unicode_uppercase(status) == "CANCELLED"@),
        spec_airwallex_status(status) == Some(AttemptStatus::Charged) <==> unicode_uppercase(status) == "CAPTURED"@,
        spec_airwallex_status(status) == Some(AttemptStatus::Authorized) <==> (unicode_uppercase(status)
            == "SUCCEEDED"@ || unicode_uppercase(status) == "AUTHORIZED"@),
        spec_airwallex_status(status) == Some(AttemptStatus::Pending) <==> (unicode_uppercase(status)
            == "REQUIRES_PAYMENT_METHOD"@ || unicode_uppercase(status) == "REQUIRES_CAPTURE"@
            || unicode_uppercase(status) == "PENDING_PAYMENT"@),
        spec_airwallex_status(status) == Some(AttemptStatus::AuthenticationPending) <==> (unicode_uppercase(status)
            == "PENDING_AUTHENTICATION"@ || unicode_uppercase(status) == "PENDING_DEVICE_DATA_COLLECTION"@),
{
    reveal_strlit("SUCCEEDED");
    reveal_strlit("AUTHORIZED");
    reveal_strlit("CAPTURED");
    reveal_strlit("PENDING_AUTHENTICATION");
    reveal_strlit("PENDING_DEVICE_DATA_COLLECTION");
    reveal_strlit("REQUIRES_PAYMENT_METHOD");
    reveal_strlit("REQUIRES_CAPTURE");
    reveal_strlit("PENDING_PAYMENT");
    reveal_strlit("FAILED");
    reveal_strlit("CANCELLED");
    reveal_strlit("REQUIRES_CUSTOMER_ACTION");
    let s = unicode_uppercase(status);
    if s == "CANCELLED"@ {
        assert(s[0] != "SUCCEEDED"@[0]);
    }
    if s == "FAILED"@ {
        assert(s.len() == 6);
    }
    if s == "CAPTURED"@ {
        assert(s[2] != "CANCELLED"@[2]);
    }
    if s == "AUTHORIZED"@ {
        assert(s.len() == 10);
    }
    if s == "REQUIRES_CAPTURE"@ {
        assert(s.len() == 16);
    }
    if s == "PENDING_PAYMENT"@ {
        assert(s.len() == 15);
    }
    if s == "REQUIRES_PAYMENT_METHOD"@ {
        assert(s.len() == 23);
    }
    if s == "PENDING_AUTHENTICATION"@ {
        assert(s.len() == 22);
    }
    if s == "PENDING_DEVICE_DATA_COLLECTION"@ {
        assert(s.len() == 30);
    }
}

impl AirwallexPaymentsResponse {
    pub fn to_attempt_status(&self) -> (r: Result<AttemptStatus, ConnectorError>)
        ensures
            match spec_airwallex_status(self.status@) {
                Some(st) => r == Ok::<AttemptStatus, ConnectorError>(st),
                None => r matches Err(ConnectorError::UnexpectedResponseError(bytes))
                    && bytes@ == vstd::utf8::encode_utf8(self.status@),
            },
    {
        let upper = to_uppercase(self.status.as_str());
        let s = upper.as_str();
        if str_eq(s, "SUCCEEDED") || str_eq(s, "AUTHORIZED") {
            Ok(AttemptStatus::Authorized)
        } else if str_eq(s, "CAPTURED") {
            Ok(AttemptStatus::Charged)
        } else if str_eq(s, "PENDING_AUTHENTICATION") || str_eq(s, "PENDING_DEVICE_DATA_COLLECTION") {
            Ok(AttemptStatus::AuthenticationPending)
        } else if str_eq(s, "REQUIRES_PAYMENT_METHOD") || str_eq(s, "REQUIRES_CAPTURE") || str_eq(s, "PENDING_PAYMENT") {
            Ok(AttemptStatus::Pending)
        } else if str_eq(s, "FAILED") || str_eq(s, "CANCELLED") {
            Ok(AttemptStatus::Failure)
        } else if str_eq(s, "REQUIRES_CUSTOMER_ACTION") {
            Ok(AttemptStatus::Unresolved)
        } else {
            let status = self.status.as_str();
            assert(status.spec_bytes() == vstd::utf8::encode_utf8(status@));
            Err(ConnectorError::UnexpectedResponseError(vstd::slice::slice_to_vec(status.as_bytes())))
        }
    }
}

/// The redirection of a next action: a page that sends the shopper to the
/// URL of a redirect action.
pub open spec fn next_action_redirect(next_action: Option<AirwallexNextAction>) -> Option<Seq<char>> {
    match next_action {
        Some(a) => if a.action_type@ == "redirect"@ {
            match a.url {
                Some(u) => Some("<script>window.location.href='"@ + u@ + "';</script>"@),
                None => None,
            }
        } else {
            None
        },
        None => None,
    }
}

impl Airwallex {
    /// The outcome of a payment answer: its status (pending where the state is
    /// unknown), and the payment with any redirection it asks for.
    pub fn handle_response(&self, response: &AirwallexPaymentsResponse, http_code: u16) -> (r: PaymentsOutcome)
        ensures
            r.status == (match spec_airwallex_status(response.status@) {
                Some(s) => s,
                None => AttemptStatus::Pending,
            }),
            r.response matches Ok(d) && (d.resource_id matches ResponseId::ConnectorTransactionId(id) && id@ == response.id@)
                && (match next_action_redirect(response.next_action) {
                    Some(page) => d.redirection_data matches Some(RedirectForm::Html { html_data }) && html_data@ == page,
                    None => d.redirection_data is None,
                }) && d.connector_metadata is None && opt_str(d.network_txn_id) == Some(response.id@)
                && opt_str(d.connector_response_reference_id) == Some(response.request_id@)
                && d.mandate_reference is None && d.status_code == http_code,
    {
        let status = match response.to_attempt_status() {
            Ok(s) => s,
            Err(_) => AttemptStatus::Pending,
        };
        let redirection_data = match &response.next_action {
            Some(a) => if str_eq(a.action_type.as_str(), "redirect") {
                match &a.url {
                    Some(u) => Some(RedirectForm::Html {
                        html_data: concat3("<script>window.location.href='", u.as_str(), "';</script>"),
                    }),
                    None => None,
                }
            } else {
                None
            },
            None => None,
        };
        PaymentsOutcome {
            status,
            response: Ok(TransactionResponseData {
                raw_connector_response: None,
                resource_id: ResponseId::ConnectorTransactionId(response.id.clone()),
                redirection_data,
                mandate_reference: None,
                connector_metadata: None,
                network_txn_id: Some(response.id.clone()),
                connector_response_reference_id: Some(response.request_id.clone()),
                status_code: http_code,
            }),
        }
    }
}

/// The error answer of Airwallex.
#[derive(Clone, Debug)]
pub struct AirwallexErrorResponse {
    pub code: String,
    pub message: String,
    pub source: Option<String>,
}

impl Airwallex {
    /// The error response of an error answer; an answer that could not be read
    /// gives the default code and message, with its raw text as reason.
    pub fn build_error_response(&self, parsed: &Option<AirwallexErrorResponse>, body: &Vec<u8>, http_code: u16) -> (r: ErrorResponse)
        ensures
            r.status_code == http_code,
            r.attempt_status is None,
            r.connector_transaction_id is None,
            match *parsed {
                Some(e) => r.code@ == e.code@ && r.message@ == e.message@ && opt_str(r.reason) == opt_str(e.source),
                None => r.code@ == NO_ERROR_CODE@ && r.message@ == NO_ERROR_MESSAGE@
                    && opt_str(r.reason) == Some(utf8_lossy_text(body@)),
            },
    {
        match parsed {
            Some(e) => ErrorResponse {
                raw_connector_response: None,
                status_code: http_code,
                code: e.code.clone(),
                message: e.message.clone(),
                reason: clone_opt(&e.source),
                attempt_status: None,
                connector_transaction_id: None,
            },
            None => ErrorResponse {
                raw_connector_response: None,
                status_code: http_code,
                code: String::from_str(NO_ERROR_CODE),
                message: String::from_str(NO_ERROR_MESSAGE),
                reason: Some(utf8_lossy(body.as_slice())),
                attempt_status: None,
                connector_transaction_id: None,
            },
        }
    }
}

impl Airwallex {
    /// The name of the connector.
    pub fn id(&self) -> (r: &'static str)
        ensures
            r@ == "airwallex"@,
    {
        "airwallex"
    }
    /// The content type of its requests.
    pub fn common_get_content_type(&self) -> (r: &'static str)
        ensures
            r@ == "application/json"@,
    {
        "application/json"
    }
}

} // verus!
