//! Authorize.Net: transaction requests, repeat payments against stored
//! profiles, response status mapping, and webhook signature checking.

use vstd::prelude::*;

use crate::common_enums::{AttemptStatus, CurrencyUnit, CaptureMethod, CountryAlpha2, Currency, RefundStatus};
use crate::router_data::{
    Address, ConnectorAuthType, ConnectorError, MandateReferenceId, Metadata, MetadataEntry, MetadataValue,
    PaymentMethodData, PaymentVoidData, PaymentsAuthorizeData, PaymentsCaptureData,
    PaymentsSyncData, RefundSyncData, RefundsData, RepeatPaymentData, ResponseId,
    SetupMandateRequestData, ErrorResponse, PaymentsOutcome, RefundsOutcome, RefundsResponseData,
    TransactionResponseData, MandateReference, RequestDetails, ConnectorWebhookSecrets, EventType,
    get_header, header_value,
};
use crate::encoding::{hex_bytes, hex_decode, is_hex_text};
use crate::signing::{bytes_equal, hmac_sha512, hmac_sha512_tag};
use crate::consts::{NO_ERROR_CODE, NO_ERROR_MESSAGE};
use crate::text::{
    byte_len, byte_len_exceeds, can_cut, clone_opt, concat, concat3, i64_to_decimal, int_decimal,
    is_byte_cut, opt_str, split_once_char, split_once_spec, strip_prefix, strip_prefix_spec,
    truncate_bytes, utf8_lossy, utf8_lossy_text,
};

verus! {

/// Longest reference id Authorize.Net accepts, in bytes.
pub const MAX_ID_LENGTH: usize = 20;

/// Merchant credentials in a transaction details request.
#[derive(Clone, Debug)]
pub struct MerchantAuthentication {
    pub name: String,
    pub transaction_key: String,
}

/// Merchant credentials in a transaction request.
#[derive(Clone, Debug)]
pub struct AuthorizedotnetAuthType {
    pub name: String,
    pub transaction_key: String,
}

/// The credentials a body-key authentication carries, when it is one.
pub open spec fn body_key(auth: ConnectorAuthType) -> Option<(Seq<char>, Seq<char>)> {
    match auth {
        ConnectorAuthType::BodyKey { api_key, key1 } => Some((api_key@, key1@)),
        _ => None,
    }
}

impl AuthorizedotnetAuthType {
    pub fn try_from(auth_type: &ConnectorAuthType) -> (r: Result<Self, ConnectorError>)
        ensures
            body_key(*auth_type) matches Some((name, key)) ==> (r matches Ok(a) && a.name@ == name
                && a.transaction_key@ == key),
            body_key(*auth_type) is None ==> (r matches Err(ConnectorError::FailedToObtainAuthType)),
    {
        match auth_type {
            ConnectorAuthType::BodyKey { api_key, key1 } => Ok(
                AuthorizedotnetAuthType { name: api_key.clone(), transaction_key: key1.clone() },
            ),
            _ => Err(ConnectorError::FailedToObtainAuthType),
        }
    }
}

impl MerchantAuthentication {
    pub fn try_from(auth_type: &ConnectorAuthType) -> (r: Result<Self, ConnectorError>)
        ensures
            body_key(*auth_type) matches Some((name, key)) ==> (r matches Ok(a) && a.name@ == name
                && a.transaction_key@ == key),
            body_key(*auth_type) is None ==> (r matches Err(ConnectorError::FailedToObtainAuthType)),
    {
        match auth_type {
            ConnectorAuthType::BodyKey { api_key, key1 } => Ok(
                MerchantAuthentication { name: api_key.clone(), transaction_key: key1.clone() },
            ),
            _ => Err(ConnectorError::FailedToObtainAuthType),
        }
    }
}

/// Card details sent to Authorize.Net.
#[derive(Clone, Debug)]
pub struct CreditCardDetails {
    pub card_number: String,
    /// `YYYY-MM`.
    pub expiration_date: String,
    pub card_code: Option<String>,
}

#[derive(Clone, Debug)]
pub enum PaymentDetails {
    CreditCard(CreditCardDetails),
}

#[derive(Clone, Copy, Debug, PartialEq, Eq, Structural)]
pub enum TransactionType {
    AuthOnlyTransaction,
    AuthCaptureTransaction,
    PriorAuthCaptureTransaction,
    VoidTransaction,
    RefundTransaction,
}

#[derive(Clone, Debug)]
pub struct Order {
    pub invoice_number: String,
    pub description: String,
}

#[derive(Clone, Debug)]
pub struct BillTo {
    pub first_name: Option<String>,
    pub last_name: Option<String>,
    pub address: Option<String>,
    pub city: Option<String>,
    pub state: Option<String>,
    pub zip: Option<String>,
    pub country: Option<CountryAlpha2>,
}

#[derive(Clone, Debug)]
pub struct CustomerDetails {
    pub id: String,
    pub email: Option<String>,
}

#[derive(Clone, Debug)]
pub struct UserField {
    pub name: String,
    pub value: String,
}

#[derive(Clone, Debug)]
pub struct UserFields {
    pub user_field: Vec<UserField>,
}

#[derive(Clone, Debug)]
pub struct ProcessingOptions {
    pub is_subsequent_auth: bool,
}

#[derive(Clone, Copy, Debug, PartialEq, Eq, Structural)]
pub enum Reason {
    Resubmission,
    DelayedCharge,
    Reauthorization,
    NoShow,
}

#[derive(Clone, Debug)]
pub struct SubsequentAuthInformation {
    pub original_network_trans_id: String,
    pub reason: Reason,
}

#[derive(Clone, Copy, Debug, PartialEq, Eq, Structural)]
pub enum AuthorizationIndicator {
    Final,
    Pre,
}

#[derive(Clone, Copy, Debug, PartialEq, Eq, Structural)]
pub struct AuthorizationIndicatorType {
    pub authorization_indicator: AuthorizationIndicator,
}

#[derive(Clone, Copy, Debug, PartialEq, Eq, Structural)]
pub struct CreateProfileDetails {
    pub create_profile: bool,
}

#[derive(Clone, Debug)]
pub struct PaymentProfileDetails {
    pub payment_profile_id: String,
}

#[derive(Clone, Debug)]
pub struct CustomerProfileDetails {
    pub customer_profile_id: String,
    pub payment_profile: PaymentProfileDetails,
}

#[derive(Clone, Debug)]
pub enum ProfileDetails {
    CreateProfileDetails(CreateProfileDetails),
    CustomerProfileDetails(CustomerProfileDetails),
}

#[derive(Clone, Debug)]
pub struct TransactionSetting {
    pub setting_name: String,
    pub setting_value: String,
}

#[derive(Clone, Debug)]
pub struct TransactionSettings {
    pub setting: Vec<TransactionSetting>,
}

/// The transaction part of an authorization request.
#[derive(Clone, Debug)]
pub struct AuthorizedotnetTransactionRequest {
    pub transaction_type: TransactionType,
    pub amount: Option<String>,
    pub currency_code: Option<Currency>,
    pub payment: Option<PaymentDetails>,
    pub profile: Option<ProfileDetails>,
    pub order: Option<Order>,
    pub customer: Option<CustomerDetails>,
    pub bill_to: Option<BillTo>,
    pub user_fields: Option<UserFields>,
    pub processing_options: Option<ProcessingOptions>,
    pub subsequent_auth_information: Option<SubsequentAuthInformation>,
    pub authorization_indicator_type: Option<AuthorizationIndicatorType>,
    pub ref_trans_id: Option<String>,
}

#[derive(Clone, Debug)]
pub struct CreateTransactionRequest {
    pub merchant_authentication: AuthorizedotnetAuthType,
    pub ref_id: Option<String>,
    pub transaction_request: AuthorizedotnetTransactionRequest,
}

/// An authorization request.
#[derive(Clone, Debug)]
pub struct AuthorizedotnetPaymentsRequest {
    pub create_transaction_request: CreateTransactionRequest,
}

/// The text of a user field for a metadata value: a string as it is, any other
/// value as its JSON text.
pub open spec fn user_field_text(v: MetadataValue) -> Seq<char> {
    match v {
        MetadataValue::Str(s) => s@,
        MetadataValue::Bool(b) => if b {
            "true"@
        } else {
            "false"@
        },
        MetadataValue::Other(t) => t@,
    }
}

/// The user fields that carry each metadata entry, in order.
pub open spec fn user_fields_match(fields: Seq<UserField>, entries: Seq<MetadataEntry>) -> bool {
    &&& fields.len() == entries.len()
    &&& forall|i: int|
        0 <= i < fields.len() ==> fields[i].name@ == entries[i].key@ && fields[i].value@
            == user_field_text(entries[i].value)
}

fn metadata_text(v: &MetadataValue) -> (r: String)
    ensures
        r@ == user_field_text(*v),
{
    match v {
        MetadataValue::Str(s) => s.clone(),
        MetadataValue::Bool(b) => {
            if *b {
                proof {
                    reveal_strlit("true");
                }
                String::from_str("true")
            } else {
                proof {
                    reveal_strlit("false");
                }
                String::from_str("false")
            }
        },
        MetadataValue::Other(t) => t.clone(),
    }
}

/// One user field per metadata entry.
pub fn user_fields_from_metadata(metadata: &Metadata) -> (r: Vec<UserField>)
    ensures
        user_fields_match(r@, metadata@),
{
    let metadata = metadata.entries();
    let mut out: Vec<UserField> = Vec::new();
    let mut i: usize = 0;
    while i < metadata.len()
        invariant
            i <= metadata@.len(),
            user_fields_match(out@, metadata@.take(i as int)),
        decreases metadata@.len() - i,
    {
        let e = &metadata[i];
        let f = UserField { name: e.key.clone(), value: metadata_text(&e.value) };
        out.push(f);
        i = i + 1;
    }
    assert(metadata@.take(metadata@.len() as int) =~= metadata@);
    out
}

/// A four digit year for a two digit one, the year as it is otherwise.
pub open spec fn four_digit_year(year: Seq<char>) -> Seq<char> {
    if byte_len(year) == 2 {
        "20"@ + year
    } else {
        year
    }
}

/// The `YYYY-MM` expiry of a card.
pub open spec fn expiration_date(year: Seq<char>, month: Seq<char>) -> Seq<char> {
    four_digit_year(year) + "-"@ + month
}

/// Whether card details carry a card's number, `YYYY-MM` expiry and security code.
pub open spec fn credit_card_matches(cc: CreditCardDetails, card: crate::router_data::Card) -> bool {
    &&& cc.card_number@ == card.card_number@
    &&& cc.expiration_date@ == expiration_date(card.card_exp_year@, card.card_exp_month@)
    &&& opt_str(cc.card_code) == Some(card.card_cvc@)
}

/// Capture methods an authorization can be sent with.
pub open spec fn capture_method_supported(cm: Option<CaptureMethod>) -> bool {
    cm is None || cm == Some(CaptureMethod::Manual) || cm == Some(CaptureMethod::Automatic)
}

/// The transaction type of an authorization.
pub open spec fn authorize_transaction_type(cm: Option<CaptureMethod>) -> TransactionType {
    if cm == Some(CaptureMethod::Manual) {
        TransactionType::AuthOnlyTransaction
    } else {
        TransactionType::AuthCaptureTransaction
    }
}

/// The customer id sent with an authorization.
pub open spec fn authorize_customer_id(customer_id: Option<String>) -> Seq<char> {
    match customer_id {
        Some(c) => c@,
        None => "anonymous_customer"@,
    }
}

/// Whether a bill-to block carries the parts of a billing address.
pub open spec fn bill_to_matches(b: BillTo, billing: Address) -> bool {
    match billing.address {
        Some(a) => {
            &&& opt_str(b.first_name) == opt_str(a.first_name)
            &&& opt_str(b.last_name) == opt_str(a.last_name)
            &&& opt_str(b.address) == opt_str(a.line1)
            &&& opt_str(b.city) == opt_str(a.city)
            &&& opt_str(b.state) == opt_str(a.state)
            &&& opt_str(b.zip) == opt_str(a.zip)
            &&& b.country == a.country
        },
        None => {
            &&& b.first_name is None && b.last_name is None && b.address is None
            &&& b.city is None && b.state is None && b.zip is None && b.country is None
        },
    }
}

fn bill_to_from(billing: &Address) -> (r: BillTo)
    ensures
        bill_to_matches(r, *billing),
{
    match &billing.address {
        Some(a) => BillTo {
            first_name: clone_opt(&a.first_name),
            last_name: clone_opt(&a.last_name),
            address: clone_opt(&a.line1),
            city: clone_opt(&a.city),
            state: clone_opt(&a.state),
            zip: clone_opt(&a.zip),
            country: a.country,
        },
        None => BillTo {
            first_name: None,
            last_name: None,
            address: None,
            city: None,
            state: None,
            zip: None,
            country: None,
        },
    }
}

fn four_digit_year_of(year: &String) -> (r: String)
    ensures
        r@ == four_digit_year(year@),
{
    if !crate::text::byte_len_exceeds(year.as_str(), 2) && crate::text::byte_len_exceeds(
        year.as_str(),
        1,
    ) {
        proof {
            reveal_strlit("20");
        }
        concat("20", year.as_str())
    } else {
        year.clone()
    }
}

/// Whether an authorization can be turned into a transaction request: a card
/// payment, a supported capture method and a request reference.
pub open spec fn regular_transaction_possible(item: PaymentsAuthorizeData) -> bool {
    &&& item.payment_method_data is Card
    &&& capture_method_supported(item.capture_method)
    &&& item.connector_request_reference_id@.len() > 0
}

/// The transaction request of an authorization.
pub fn create_regular_transaction_request(item: &PaymentsAuthorizeData, currency: Currency) -> (r:
    Result<AuthorizedotnetTransactionRequest, ConnectorError>)
    requires
        can_cut(item.connector_request_reference_id@, 20),
    ensures
        !(item.payment_method_data is Card) ==> (r matches Err(
            ConnectorError::RequestEncodingFailed,
        )),
        item.payment_method_data is Card && !capture_method_supported(item.capture_method) ==> (
        r matches Err(ConnectorError::NotSupported { message, connector })
            && message@ == "Capture method not supported"@ && connector@ == "authorizedotnet"@),
        item.payment_method_data is Card && capture_method_supported(item.capture_method)
            && item.connector_request_reference_id@.len() == 0 ==> (r matches Err(
            ConnectorError::MissingRequiredField { field_name },
        ) && field_name@ == "connector_request_reference_id"@),
        r is Ok <==> regular_transaction_possible(*item),
        r matches Ok(t) ==> {
            let card = item.payment_method_data->Card_0;
            &&& t.transaction_type == authorize_transaction_type(item.capture_method)
            &&& t.amount matches Some(a) && a@ == int_decimal(item.minor_amount as int)
            &&& t.currency_code == Some(currency)
            &&& t.payment matches Some(PaymentDetails::CreditCard(cc)) && credit_card_matches(
                cc,
                card,
            )
            &&& (item.setup_future_usage is Some) == (t.profile is Some)
            &&& t.profile matches Some(p) ==> (p matches ProfileDetails::CreateProfileDetails(c)
                && c.create_profile)
            &&& t.order matches Some(o) && is_byte_cut(
                o.invoice_number@,
                item.connector_request_reference_id@,
                20,
            ) && o.description@ == (match item.description {
                Some(d) => d@,
                None => "Payment"@,
            })
            &&& t.customer matches Some(c) && c.id@ == authorize_customer_id(item.customer_id)
                && opt_str(c.email) == opt_str(item.email)
            &&& (t.bill_to is Some) == (item.billing is Some)
            &&& t.bill_to matches Some(b) ==> bill_to_matches(b, item.billing->0)
            &&& (t.user_fields is Some) == (item.metadata is Some)
            &&& t.user_fields matches Some(u) ==> user_fields_match(
                u.user_field@,
                item.metadata->0@,
            )
            &&& t.processing_options is None && t.subsequent_auth_information is None
            &&& t.authorization_indicator_type is None && t.ref_trans_id is None
        },
{
    let card = match &item.payment_method_data {
        PaymentMethodData::Card(card) => card,
        _ => {
            return Err(ConnectorError::RequestEncodingFailed);
        },
    };
    let expiry_year = four_digit_year_of(&card.card_exp_year);
    proof {
        reveal_strlit("-");
    }
    let expiration_date = concat3(expiry_year.as_str(), "-", card.card_exp_month.as_str());
    let credit_card_details = CreditCardDetails {
        card_number: card.card_number.clone(),
        expiration_date,
        card_code: Some(card.card_cvc.clone()),
    };
    let payment_details = PaymentDetails::CreditCard(credit_card_details);
    let transaction_type = match item.capture_method {
        Some(CaptureMethod::Manual) => TransactionType::AuthOnlyTransaction,
        Some(CaptureMethod::Automatic) | None => TransactionType::AuthCaptureTransaction,
        Some(_) => {
            proof {
                reveal_strlit("Capture method not supported");
            }
            return Err(
                ConnectorError::NotSupported {
                    message: String::from_str("Capture method not supported"),
                    connector: "authorizedotnet",
                },
            );
        },
    };
    let order_description = match &item.description {
        Some(d) => d.clone(),
        None => {
            proof {
                reveal_strlit("Payment");
            }
            String::from_str("Payment")
        },
    };
    if item.connector_request_reference_id.as_str().unicode_len() == 0 {
        return Err(
            ConnectorError::MissingRequiredField { field_name: "connector_request_reference_id" },
        );
    }
    let invoice_number = truncate_bytes(item.connector_request_reference_id.clone(), 20);
    let order = Order { invoice_number, description: order_description };
    let user_fields = match &item.metadata {
        Some(metadata) => Some(UserFields { user_field: user_fields_from_metadata(metadata) }),
        None => None,
    };
    let bill_to = match &item.billing {
        Some(billing) => Some(bill_to_from(billing)),
        None => None,
    };
    let customer_id = match &item.customer_id {
        Some(c) => c.clone(),
        None => {
            proof {
                reveal_strlit("anonymous_customer");
            }
            String::from_str("anonymous_customer")
        },
    };
    let customer_details = CustomerDetails { id: customer_id, email: clone_opt(&item.email) };
    let profile = if item.setup_future_usage.is_some() {
        Some(ProfileDetails::CreateProfileDetails(CreateProfileDetails { create_profile: true }))
    } else {
        None
    };
    Ok(
        AuthorizedotnetTransactionRequest {
            transaction_type,
            amount: Some(i64_to_decimal(item.minor_amount)),
            currency_code: Some(currency),
            payment: Some(payment_details),
            profile,
            order: Some(order),
            customer: Some(customer_details),
            bill_to,
            user_fields,
            processing_options: None,
            subsequent_auth_information: None,
            authorization_indicator_type: None,
            ref_trans_id: None,
        },
    )
}

/// A reference id cut to `max_length` bytes.
pub fn get_the_truncate_id(id: Option<String>, max_length: usize) -> (r: Option<String>)
    requires
        id matches Some(s) ==> can_cut(s@, max_length as nat),
    ensures
        (r is Some) == (id is Some),
        r matches Some(t) ==> is_byte_cut(t@, id->0@, max_length as nat),
{
    match id {
        Some(s) => Some(truncate_bytes(s, max_length)),
        None => None,
    }
}

/// The reference id of a request: the request reference when it is not empty.
pub fn reference_id(reference: &String) -> (r: Option<String>)
    requires
        can_cut(reference@, MAX_ID_LENGTH as nat),
    ensures
        (r is Some) == (reference@.len() > 0),
        r matches Some(t) ==> is_byte_cut(t@, reference@, MAX_ID_LENGTH as nat),
{
    let id = if reference.as_str().unicode_len() > 0 {
        Some(reference.clone())
    } else {
        None
    };
    get_the_truncate_id(id, MAX_ID_LENGTH)
}

impl AuthorizedotnetPaymentsRequest {
    pub fn try_from(item: &PaymentsAuthorizeData) -> (r: Result<Self, ConnectorError>)
        requires
            can_cut(item.connector_request_reference_id@, 20),
        ensures
            body_key(item.connector_auth_type) is None ==> (r matches Err(
                ConnectorError::FailedToObtainAuthType,
            )),
            r is Ok <==> (body_key(item.connector_auth_type) is Some
                && regular_transaction_possible(*item)),
            r matches Ok(req) ==> {
                let c = req.create_transaction_request;
                &&& body_key(item.connector_auth_type) == Some(
                    (c.merchant_authentication.name@, c.merchant_authentication.transaction_key@),
                )
                &&& c.ref_id matches Some(id) && is_byte_cut(
                    id@,
                    item.connector_request_reference_id@,
                    20,
                )
                &&& c.transaction_request.transaction_type == authorize_transaction_type(
                    item.capture_method,
                )
                &&& c.transaction_request.currency_code == Some(item.currency)
            },
    {
        let merchant_authentication = AuthorizedotnetAuthType::try_from(
            &item.connector_auth_type,
        )?;
        let transaction_request = create_regular_transaction_request(item, item.currency)?;
        let ref_id = reference_id(&item.connector_request_reference_id);
        Ok(
            AuthorizedotnetPaymentsRequest {
                create_transaction_request: CreateTransactionRequest {
                    merchant_authentication,
                    ref_id,
                    transaction_request,
                },
            },
        )
    }
}

/// The transaction part of a repeat payment request.
#[derive(Clone, Debug)]
pub struct AuthorizedotnetRepeatPaymentTransactionRequest {
    pub transaction_type: TransactionType,
    pub amount: String,
    pub currency_code: Currency,
    pub profile: ProfileDetails,
    pub order: Option<Order>,
    pub customer: Option<CustomerDetails>,
    pub user_fields: Option<UserFields>,
}

#[derive(Clone, Debug)]
pub struct CreateRepeatPaymentRequest {
    pub merchant_authentication: AuthorizedotnetAuthType,
    pub ref_id: Option<String>,
    pub transaction_request: AuthorizedotnetRepeatPaymentTransactionRequest,
}

/// A payment charged against a stored customer payment profile.
#[derive(Clone, Debug)]
pub struct AuthorizedotnetRepeatPaymentRequest {
    pub create_transaction_request: CreateRepeatPaymentRequest,
}

/// The connector mandate id of a repeat payment, when it has one.
pub open spec fn connector_mandate_id(m: MandateReferenceId) -> Option<Seq<char>> {
    match m {
        MandateReferenceId::ConnectorMandateId(Some(id)) => Some(id@),
        _ => None,
    }
}

/// Whether a repeat payment can be sent: body-key credentials, a connector
/// mandate id of the form `customer_profile-payment_profile`, and a request
/// reference.
pub open spec fn repeat_payment_possible(item: RepeatPaymentData) -> bool {
    &&& body_key(item.connector_auth_type) is Some
    &&& connector_mandate_id(item.mandate_reference) matches Some(id) && split_once_spec(
        id,
        '-',
    ) is Some
    &&& item.connector_request_reference_id@.len() > 0
}

/// The customer id sent with a repeat payment: the payment id when it fits.
pub open spec fn repeat_payment_customer_id(payment_id: Seq<char>) -> Seq<char> {
    if byte_len(payment_id) <= MAX_ID_LENGTH {
        payment_id
    } else {
        "repeat_payment_customer"@
    }
}

impl AuthorizedotnetRepeatPaymentRequest {
    pub fn try_from(item: &RepeatPaymentData) -> (r: Result<Self, ConnectorError>)
        requires
            can_cut(item.connector_request_reference_id@, 20),
        ensures
            body_key(item.connector_auth_type) is None ==> (r matches Err(
                ConnectorError::FailedToObtainAuthType,
            )),
            body_key(item.connector_auth_type) is Some ==> match item.mandate_reference {
                MandateReferenceId::ConnectorMandateId(None) => r matches Err(
                    ConnectorError::MissingRequiredField { field_name },
                ) && field_name@ == "connector_mandate_id"@,
                MandateReferenceId::NetworkMandateId(_) => r matches Err(
                    ConnectorError::NotImplemented(m),
                ) && m@ == "Network mandate ID not supported for repeat payments in authorizedotnet"@,
                MandateReferenceId::NetworkTokenWithNTI => r matches Err(
                    ConnectorError::NotImplemented(m),
                ) && m@ == "Network token with NTI not supported for authorizedotnet"@,
                MandateReferenceId::ConnectorMandateId(Some(id)) => if split_once_spec(id@, '-') is None {
                    r matches Err(ConnectorError::MissingRequiredField { field_name })
                        && field_name@ == "valid mandate_id format (should contain '-')"@
                } else if item.connector_request_reference_id@.len() == 0 {
                    r matches Err(ConnectorError::MissingRequiredField { field_name })
                        && field_name@ == "connector_request_reference_id"@
                } else {
                    r is Ok
                },
            },
            r is Ok <==> repeat_payment_possible(*item),
            r matches Ok(req) ==> {
                let c = req.create_transaction_request;
                let t = c.transaction_request;
                let (customer_profile, payment_profile) = split_once_spec(
                    connector_mandate_id(item.mandate_reference)->0,
                    '-',
                )->0;
                &&& body_key(item.connector_auth_type) == Some(
                    (c.merchant_authentication.name@, c.merchant_authentication.transaction_key@),
                )
                &&& c.ref_id matches Some(id) && is_byte_cut(
                    id@,
                    item.connector_request_reference_id@,
                    20,
                )
                &&& t.transaction_type == TransactionType::AuthCaptureTransaction
                &&& t.amount@ == int_decimal(item.minor_amount as int)
                &&& t.currency_code == item.currency
                &&& t.profile matches ProfileDetails::CustomerProfileDetails(p)
                    && p.customer_profile_id@ == customer_profile
                    && p.payment_profile.payment_profile_id@ == payment_profile
                &&& t.order matches Some(o) && is_byte_cut(
                    o.invoice_number@,
                    item.connector_request_reference_id@,
                    20,
                ) && o.description@ == (match item.description {
                    Some(d) => d@,
                    None => "Repeat Payment"@,
                })
                &&& t.customer matches Some(cu) && cu.id@ == repeat_payment_customer_id(
                    item.payment_id@,
                ) && cu.email is None
                &&& (t.user_fields is Some) == (item.metadata is Some)
                &&& t.user_fields matches Some(u) ==> user_fields_match(
                    u.user_field@,
                    item.metadata->0@,
                )
            },
    {
        let merchant_authentication = AuthorizedotnetAuthType::try_from(
            &item.connector_auth_type,
        )?;
        let mandate_id = match &item.mandate_reference {
            MandateReferenceId::ConnectorMandateId(Some(id)) => id,
            MandateReferenceId::ConnectorMandateId(None) => {
                return Err(
                    ConnectorError::MissingRequiredField { field_name: "connector_mandate_id" },
                );
            },
            MandateReferenceId::NetworkMandateId(_) => {
                return Err(
                    ConnectorError::NotImplemented(
                        String::from_str(
                            "Network mandate ID not supported for repeat payments in authorizedotnet",
                        ),
                    ),
                );
            },
            MandateReferenceId::NetworkTokenWithNTI => {
                return Err(
                    ConnectorError::NotImplemented(
                        String::from_str(
                            "Network token with NTI not supported for authorizedotnet",
                        ),
                    ),
                );
            },
        };
        let profile = match split_once_char(mandate_id.as_str(), '-') {
            Some((customer_profile_id, payment_profile_id)) => ProfileDetails::CustomerProfileDetails(
                CustomerProfileDetails {
                    customer_profile_id,
                    payment_profile: PaymentProfileDetails { payment_profile_id },
                },
            ),
            None => {
                return Err(
                    ConnectorError::MissingRequiredField {
                        field_name: "valid mandate_id format (should contain '-')",
                    },
                );
            },
        };
        let order_description = match &item.description {
            Some(d) => d.clone(),
            None => {
                proof {
                    reveal_strlit("Repeat Payment");
                }
                String::from_str("Repeat Payment")
            },
        };
        if item.connector_request_reference_id.as_str().unicode_len() == 0 {
            return Err(
                ConnectorError::MissingRequiredField {
                    field_name: "connector_request_reference_id",
                },
            );
        }
        let invoice_number = truncate_bytes(item.connector_request_reference_id.clone(), 20);
        let order = Order { invoice_number, description: order_description };
        let customer_id = if !byte_len_exceeds(item.payment_id.as_str(), MAX_ID_LENGTH) {
            item.payment_id.clone()
        } else {
            proof {
                reveal_strlit("repeat_payment_customer");
            }
            String::from_str("repeat_payment_customer")
        };
        let customer_details = CustomerDetails { id: customer_id, email: None };
        let user_fields = match &item.metadata {
            Some(metadata) => Some(UserFields { user_field: user_fields_from_metadata(metadata) }),
            None => None,
        };
        let ref_id = reference_id(&item.connector_request_reference_id);
        let transaction_request = AuthorizedotnetRepeatPaymentTransactionRequest {
            transaction_type: TransactionType::AuthCaptureTransaction,
            amount: i64_to_decimal(item.minor_amount),
            currency_code: item.currency,
            profile,
            order: Some(order),
            customer: Some(customer_details),
            user_fields,
        };
        Ok(
            AuthorizedotnetRepeatPaymentRequest {
                create_transaction_request: CreateRepeatPaymentRequest {
                    merchant_authentication,
                    ref_id,
                    transaction_request,
                },
            },
        )
    }
}

/// The transaction part of a capture request.
#[derive(Clone, Debug)]
pub struct AuthorizedotnetCaptureTransactionInternal {
    pub transaction_type: TransactionType,
    pub amount: String,
    pub ref_trans_id: String,
}

#[derive(Clone, Debug)]
pub struct CreateCaptureTransactionRequest {
    pub merchant_authentication: AuthorizedotnetAuthType,
    pub transaction_request: AuthorizedotnetCaptureTransactionInternal,
}

/// A capture of an earlier authorization.
#[derive(Clone, Debug)]
pub struct AuthorizedotnetCaptureRequest {
    pub create_transaction_request: CreateCaptureTransactionRequest,
}

/// The connector transaction id a response id carries, when it carries one.
pub open spec fn transaction_id_of(id: ResponseId) -> Option<Seq<char>> {
    match id {
        ResponseId::ConnectorTransactionId(s) => Some(s@),
        _ => None,
    }
}

impl AuthorizedotnetCaptureRequest {
    pub fn try_from(item: &PaymentsCaptureData) -> (r: Result<Self, ConnectorError>)
        ensures
            transaction_id_of(item.connector_transaction_id) is None ==> (r matches Err(
                ConnectorError::MissingRequiredField { .. },
            )),
            transaction_id_of(item.connector_transaction_id) is Some && body_key(
                item.connector_auth_type,
            ) is None ==> (r matches Err(ConnectorError::FailedToObtainAuthType)),
            r is Ok <==> (transaction_id_of(item.connector_transaction_id) is Some && body_key(
                item.connector_auth_type,
            ) is Some),
            r matches Ok(req) ==> {
                let c = req.create_transaction_request;
                &&& c.transaction_request.transaction_type
                    == TransactionType::PriorAuthCaptureTransaction
                &&& c.transaction_request.amount@ == int_decimal(
                    item.minor_amount_to_capture as int,
                )
                &&& Some(c.transaction_request.ref_trans_id@) == transaction_id_of(
                    item.connector_transaction_id,
                )
                &&& body_key(item.connector_auth_type) == Some(
                    (c.merchant_authentication.name@, c.merchant_authentication.transaction_key@),
                )
            },
    {
        let original_connector_txn_id = match &item.connector_transaction_id {
            ResponseId::ConnectorTransactionId(id) => id.clone(),
            _ => {
                return Err(
                    ConnectorError::MissingRequiredField { field_name: "connector_transaction_id" },
                );
            },
        };
        let transaction_request = AuthorizedotnetCaptureTransactionInternal {
            transaction_type: TransactionType::PriorAuthCaptureTransaction,
            amount: i64_to_decimal(item.minor_amount_to_capture),
            ref_trans_id: original_connector_txn_id,
        };
        let merchant_authentication = AuthorizedotnetAuthType::try_from(
            &item.connector_auth_type,
        )?;
        Ok(
            AuthorizedotnetCaptureRequest {
                create_transaction_request: CreateCaptureTransactionRequest {
                    merchant_authentication,
                    transaction_request,
                },
            },
        )
    }
}

/// The transaction part of a void request.
#[derive(Clone, Debug)]
pub struct AuthorizedotnetTransactionVoidDetails {
    pub transaction_type: TransactionType,
    pub ref_trans_id: String,
}

#[derive(Clone, Debug)]
pub struct CreateTransactionVoidRequest {
    pub merchant_authentication: AuthorizedotnetAuthType,
    pub ref_id: Option<String>,
    pub transaction_request: AuthorizedotnetTransactionVoidDetails,
}

/// A void of an earlier authorization.
#[derive(Clone, Debug)]
pub struct AuthorizedotnetVoidRequest {
    pub create_transaction_request: CreateTransactionVoidRequest,
}

impl AuthorizedotnetVoidRequest {
    pub fn try_from(item: &PaymentVoidData) -> (r: Result<Self, ConnectorError>)
        requires
            can_cut(item.connector_request_reference_id@, MAX_ID_LENGTH as nat),
        ensures
            item.connector_transaction_id@.len() == 0 ==> (r matches Err(
                ConnectorError::MissingRequiredField { .. },
            )),
            item.connector_transaction_id@.len() > 0 && body_key(item.connector_auth_type) is None
                ==> (r matches Err(ConnectorError::FailedToObtainAuthType)),
            r is Ok <==> (item.connector_transaction_id@.len() > 0 && body_key(
                item.connector_auth_type,
            ) is Some),
            r matches Ok(req) ==> {
                let c = req.create_transaction_request;
                &&& c.transaction_request.transaction_type == TransactionType::VoidTransaction
                &&& c.transaction_request.ref_trans_id@ == item.connector_transaction_id@
                &&& (c.ref_id is Some) == (item.connector_request_reference_id@.len() > 0)
                &&& c.ref_id matches Some(id) ==> is_byte_cut(
                    id@,
                    item.connector_request_reference_id@,
                    MAX_ID_LENGTH as nat,
                )
                &&& body_key(item.connector_auth_type) == Some(
                    (c.merchant_authentication.name@, c.merchant_authentication.transaction_key@),
                )
            },
    {
        if item.connector_transaction_id.as_str().unicode_len() == 0 {
            return Err(
                ConnectorError::MissingRequiredField { field_name: "connector_transaction_id" },
            );
        }
        let ref_id = reference_id(&item.connector_request_reference_id);
        let transaction_request = AuthorizedotnetTransactionVoidDetails {
            transaction_type: TransactionType::VoidTransaction,
            ref_trans_id: item.connector_transaction_id.clone(),
        };
        let merchant_authentication = AuthorizedotnetAuthType::try_from(
            &item.connector_auth_type,
        )?;
        Ok(
            AuthorizedotnetVoidRequest {
                create_transaction_request: CreateTransactionVoidRequest {
                    merchant_authentication,
                    ref_id,
                    transaction_request,
                },
            },
        )
    }
}

/// A transaction lookup.
#[derive(Clone, Debug)]
pub struct TransactionDetails {
    pub merchant_authentication: MerchantAuthentication,
    pub transaction_id: Option<String>,
}

/// A payment status lookup.
#[derive(Clone, Debug)]
pub struct AuthorizedotnetCreateSyncRequest {
    pub get_transaction_details_request: TransactionDetails,
}

/// A refund status lookup.
#[derive(Clone, Debug)]
pub struct AuthorizedotnetRSyncRequest {
    pub get_transaction_details_request: TransactionDetails,
}

impl AuthorizedotnetCreateSyncRequest {
    pub fn try_from(item: &PaymentsSyncData) -> (r: Result<Self, ConnectorError>)
        ensures
            transaction_id_of(item.connector_transaction_id) is None ==> (r matches Err(
                ConnectorError::MissingRequiredField { .. },
            )),
            r is Ok <==> (transaction_id_of(item.connector_transaction_id) is Some && body_key(
                item.connector_auth_type,
            ) is Some),
            r matches Ok(req) ==> {
                let d = req.get_transaction_details_request;
                &&& opt_str(d.transaction_id) == transaction_id_of(item.connector_transaction_id)
                &&& body_key(item.connector_auth_type) == Some(
                    (d.merchant_authentication.name@, d.merchant_authentication.transaction_key@),
                )
            },
    {
        let connector_transaction_id = match &item.connector_transaction_id {
            ResponseId::ConnectorTransactionId(id) => id.clone(),
            _ => {
                return Err(
                    ConnectorError::MissingRequiredField { field_name: "connector_transaction_id" },
                );
            },
        };
        let merchant_authentication = MerchantAuthentication::try_from(&item.connector_auth_type)?;
        Ok(
            AuthorizedotnetCreateSyncRequest {
                get_transaction_details_request: TransactionDetails {
                    merchant_authentication,
                    transaction_id: Some(connector_transaction_id),
                },
            },
        )
    }
}

impl AuthorizedotnetRSyncRequest {
    pub fn try_from(item: &RefundSyncData) -> (r: Result<Self, ConnectorError>)
        ensures
            item.connector_refund_id@.len() == 0 ==> (r matches Err(
                ConnectorError::MissingRequiredField { .. },
            )),
            r is Ok <==> (item.connector_refund_id@.len() > 0 && body_key(
                item.connector_auth_type,
            ) is Some),
            r matches Ok(req) ==> {
                let d = req.get_transaction_details_request;
                &&& opt_str(d.transaction_id) == Some(item.connector_refund_id@)
                &&& body_key(item.connector_auth_type) == Some(
                    (d.merchant_authentication.name@, d.merchant_authentication.transaction_key@),
                )
            },
    {
        if item.connector_refund_id.as_str().unicode_len() == 0 {
            return Err(ConnectorError::MissingRequiredField { field_name: "connector_refund_id" });
        }
        let merchant_authentication = MerchantAuthentication::try_from(&item.connector_auth_type)?;
        Ok(
            AuthorizedotnetRSyncRequest {
                get_transaction_details_request: TransactionDetails {
                    merchant_authentication,
                    transaction_id: Some(item.connector_refund_id.clone()),
                },
            },
        )
    }
}

/// The transaction part of a refund request.
#[derive(Clone, Debug)]
pub struct AuthorizedotnetRefundTransactionDetails {
    pub transaction_type: TransactionType,
    pub amount: String,
    pub payment: PaymentDetails,
    pub ref_trans_id: String,
}

#[derive(Clone, Debug)]
pub struct CreateTransactionRefundRequest {
    pub merchant_authentication: AuthorizedotnetAuthType,
    pub ref_id: Option<String>,
    pub transaction_request: AuthorizedotnetRefundTransactionDetails,
}

/// A refund of an earlier payment.
#[derive(Clone, Debug)]
pub struct AuthorizedotnetRefundRequest {
    pub create_transaction_request: CreateTransactionRefundRequest,
}

/// Card details of a refund, as an earlier response stored them.
#[derive(Clone, Debug)]
pub struct CreditCardInfo {
    pub card_number: String,
    pub expiration_date: String,
}

#[derive(Clone, Debug)]
pub struct CreditCardPayment {
    pub credit_card: CreditCardInfo,
}

impl AuthorizedotnetRefundRequest {
    /// The refund request; `refund_connector_metadata` is the payment details an
    /// earlier response stored with the payment, when there are any.
    pub fn try_from(item: &RefundsData, refund_connector_metadata: Option<PaymentDetails>) -> (r:
        Result<Self, ConnectorError>)
        requires
            can_cut(item.refund_id@, MAX_ID_LENGTH as nat),
        ensures
            refund_connector_metadata is None ==> (r matches Err(
                ConnectorError::MissingRequiredField { .. },
            )),
            r is Ok <==> (refund_connector_metadata is Some && body_key(
                item.connector_auth_type,
            ) is Some),
            r matches Ok(req) ==> {
                let c = req.create_transaction_request;
                let t = c.transaction_request;
                &&& t.transaction_type == TransactionType::RefundTransaction
                &&& t.amount@ == int_decimal(item.minor_refund_amount as int)
                &&& t.ref_trans_id@ == item.connector_transaction_id@
                &&& (c.ref_id is Some) == (item.refund_id@.len() > 0)
                &&& c.ref_id matches Some(id) ==> is_byte_cut(
                    id@,
                    item.refund_id@,
                    MAX_ID_LENGTH as nat,
                )
                &&& body_key(item.connector_auth_type) == Some(
                    (c.merchant_authentication.name@, c.merchant_authentication.transaction_key@),
                )
            },
    {
        let payment = match refund_connector_metadata {
            Some(p) => p,
            None => {
                return Err(
                    ConnectorError::MissingRequiredField { field_name: "refund_connector_metadata" },
                );
            },
        };
        let merchant_authentication = AuthorizedotnetAuthType::try_from(
            &item.connector_auth_type,
        )?;
        let transaction_request = AuthorizedotnetRefundTransactionDetails {
            transaction_type: TransactionType::RefundTransaction,
            amount: i64_to_decimal(item.minor_refund_amount),
            payment,
            ref_trans_id: item.connector_transaction_id.clone(),
        };
        let ref_id = reference_id(&item.refund_id);
        Ok(
            AuthorizedotnetRefundRequest {
                create_transaction_request: CreateTransactionRefundRequest {
                    merchant_authentication,
                    ref_id,
                    transaction_request,
                },
            },
        )
    }
}

#[derive(Clone, Copy, Debug, PartialEq, Eq, Structural)]
pub enum CustomerType {
    Individual,
    Business,
}

/// How Authorize.Net checks a card when a profile is created.
#[derive(Clone, Copy, Debug, PartialEq, Eq, Structural)]
pub enum ValidationMode {
    /// A Luhn check of the card number only.
    TestMode,
    /// A zero-dollar or one-cent transaction against the card.
    LiveMode,
}

#[derive(Clone, Debug)]
pub struct PaymentProfiles {
    pub customer_type: CustomerType,
    pub payment: PaymentDetails,
}

#[derive(Clone, Debug)]
pub struct Profile {
    pub merchant_customer_id: Option<String>,
    pub description: String,
    pub email: Option<String>,
    pub payment_profiles: Vec<PaymentProfiles>,
}

#[derive(Clone, Debug)]
pub struct AuthorizedotnetZeroMandateRequest {
    pub merchant_authentication: AuthorizedotnetAuthType,
    pub profile: Profile,
    pub validation_mode: ValidationMode,
}

/// A customer profile with one card, created to charge the card later.
#[derive(Clone, Debug)]
pub struct CreateCustomerProfileRequest {
    pub create_customer_profile_request: AuthorizedotnetZeroMandateRequest,
}

impl CreateCustomerProfileRequest {
    pub fn try_from(item: &SetupMandateRequestData) -> (r: Result<Self, ConnectorError>)
        ensures
            !(item.payment_method_data is Card) ==> (r matches Err(
                ConnectorError::RequestEncodingFailed,
            )),
            r is Ok <==> (item.payment_method_data is Card && body_key(item.connector_auth_type)
                is Some),
            r matches Ok(req) ==> {
                let z = req.create_customer_profile_request;
                let card = item.payment_method_data->Card_0;
                &&& z.validation_mode == (if item.test_mode == Some(false) {
                    ValidationMode::LiveMode
                } else {
                    ValidationMode::TestMode
                })
                &&& opt_str(z.profile.merchant_customer_id) == opt_str(item.customer_id)
                &&& z.profile.description@ == item.connector_request_reference_id@
                &&& opt_str(z.profile.email) == opt_str(item.email)
                &&& z.profile.payment_profiles@.len() == 1
                &&& z.profile.payment_profiles@[0].customer_type == CustomerType::Individual
                &&& z.profile.payment_profiles@[0].payment matches PaymentDetails::CreditCard(cc)
                    && credit_card_matches(cc, card)
                &&& body_key(item.connector_auth_type) == Some(
                    (z.merchant_authentication.name@, z.merchant_authentication.transaction_key@),
                )
            },
    {
        let card = match &item.payment_method_data {
            PaymentMethodData::Card(card) => card,
            _ => {
                return Err(ConnectorError::RequestEncodingFailed);
            },
        };
        let merchant_authentication = AuthorizedotnetAuthType::try_from(
            &item.connector_auth_type,
        )?;
        let validation_mode = match item.test_mode {
            Some(true) | None => ValidationMode::TestMode,
            Some(false) => ValidationMode::LiveMode,
        };
        let expiry_year = four_digit_year_of(&card.card_exp_year);
        proof {
            reveal_strlit("-");
        }
        let expiration_date = concat3(expiry_year.as_str(), "-", card.card_exp_month.as_str());
        let mut payment_profiles: Vec<PaymentProfiles> = Vec::new();
        payment_profiles.push(
            PaymentProfiles {
                customer_type: CustomerType::Individual,
                payment: PaymentDetails::CreditCard(
                    CreditCardDetails {
                        card_number: card.card_number.clone(),
                        expiration_date,
                        card_code: Some(card.card_cvc.clone()),
                    },
                ),
            },
        );
        let profile = Profile {
            merchant_customer_id: clone_opt(&item.customer_id),
            description: item.connector_request_reference_id.clone(),
            email: clone_opt(&item.email),
            payment_profiles,
        };
        Ok(
            CreateCustomerProfileRequest {
                create_customer_profile_request: AuthorizedotnetZeroMandateRequest {
                    merchant_authentication,
                    profile,
                    validation_mode,
                },
            },
        )
    }
}

/// Response code of a transaction.
#[derive(Clone, Copy, Debug, PartialEq, Eq, Structural)]
pub enum AuthorizedotnetPaymentStatus {
    Approved,
    Declined,
    Error,
    HeldForReview,
    RequiresAction,
}

impl Default for AuthorizedotnetPaymentStatus {
    fn default() -> (r: Self)
        ensures
            r == AuthorizedotnetPaymentStatus::HeldForReview,
    {
        AuthorizedotnetPaymentStatus::HeldForReview
    }
}

/// Response code of a refund transaction.
#[derive(Clone, Copy, Debug, PartialEq, Eq, Structural)]
pub enum AuthorizedotnetRefundStatus {
    Approved,
    Declined,
    Error,
    HeldForReview,
}

impl Default for AuthorizedotnetRefundStatus {
    fn default() -> (r: Self)
        ensures
            r == AuthorizedotnetRefundStatus::HeldForReview,
    {
        AuthorizedotnetRefundStatus::HeldForReview
    }
}

/// The refund status of a refund response code.
pub open spec fn spec_refund_status(item: AuthorizedotnetRefundStatus) -> RefundStatus {
    match item {
        AuthorizedotnetRefundStatus::Declined | AuthorizedotnetRefundStatus::Error => RefundStatus::Failure,
        AuthorizedotnetRefundStatus::Approved | AuthorizedotnetRefundStatus::HeldForReview => RefundStatus::Pending,
    }
}

impl AuthorizedotnetRefundStatus {
    pub fn to_refund_status(self) -> (r: RefundStatus)
        ensures
            r == spec_refund_status(self),
    {
        match self {
            AuthorizedotnetRefundStatus::Declined | AuthorizedotnetRefundStatus::Error => RefundStatus::Failure,
            AuthorizedotnetRefundStatus::Approved | AuthorizedotnetRefundStatus::HeldForReview => RefundStatus::Pending,
        }
    }
}

#[derive(Clone, Debug)]
pub struct ErrorMessage {
    pub error_code: String,
    pub error_text: String,
}

#[derive(Clone, Copy, Debug, PartialEq, Eq, Structural)]
pub struct AuthorizedotnetTransactionResponseError {
    pub supplemental_data_qualification_indicator: i64,
}

#[derive(Clone, Copy, Debug, PartialEq, Eq, Structural)]
pub struct SecureAcceptance {}

#[derive(Clone, Debug)]
pub struct ResponseMessage {
    pub code: String,
    pub text: String,
}

#[derive(Clone, Copy, Debug, PartialEq, Eq, Structural)]
/// Result of a request; Authorize.Net reports success as `Ok`.
pub enum ResultCode {
    Success,
    Error,
}

impl Default for ResultCode {
    fn default() -> (r: Self)
        ensures
            r == ResultCode::Success,
    {
        ResultCode::Success
    }
}

#[derive(Clone, Debug)]
pub struct ResponseMessages {
    pub result_code: ResultCode,
    pub message: Vec<ResponseMessage>,
}

/// The outcome of a single transaction.
#[derive(Clone, Debug)]
pub struct AuthorizedotnetTransactionResponse {
    pub response_code: AuthorizedotnetPaymentStatus,
    pub transaction_id: String,
    pub transaction_status: Option<String>,
    pub network_trans_id: Option<String>,
    pub account_number: Option<String>,
    pub errors: Option<Vec<ErrorMessage>>,
    pub secure_acceptance: Option<SecureAcceptance>,
}

#[derive(Clone, Debug)]
pub enum TransactionResponse {
    AuthorizedotnetTransactionResponse(AuthorizedotnetTransactionResponse),
    AuthorizedotnetTransactionResponseError(AuthorizedotnetTransactionResponseError),
}

#[derive(Clone, Debug)]
pub struct AuthorizedotnetNonZeroMandateResponse {
    pub customer_profile_id: Option<String>,
    pub customer_payment_profile_id_list: Option<Vec<String>>,
    pub messages: ResponseMessages,
}

/// The answer to a transaction request.
#[derive(Clone, Debug)]
pub struct AuthorizedotnetPaymentsResponse {
    pub transaction_response: Option<TransactionResponse>,
    pub profile_response: Option<AuthorizedotnetNonZeroMandateResponse>,
    pub messages: ResponseMessages,
}

/// The operation a transaction response answers.
#[derive(Clone, Copy, Debug, PartialEq, Eq, Structural)]
pub enum Operation {
    Authorize,
    Capture,
    Void,
    Refund,
}

/// The attempt status a transaction response stands for.
pub open spec fn spec_hs_status(
    response: AuthorizedotnetPaymentsResponse,
    operation: Operation,
    capture_method: Option<CaptureMethod>,
) -> AttemptStatus {
    if response.messages.result_code == ResultCode::Error {
        AttemptStatus::Failure
    } else {
        match response.transaction_response {
            None => match operation {
                Operation::Void => AttemptStatus::Voided,
                Operation::Authorize | Operation::Capture => AttemptStatus::Pending,
                Operation::Refund => AttemptStatus::Failure,
            },
            Some(TransactionResponse::AuthorizedotnetTransactionResponseError(_)) => AttemptStatus::Failure,
            Some(TransactionResponse::AuthorizedotnetTransactionResponse(t)) => match t.response_code {
                AuthorizedotnetPaymentStatus::Declined | AuthorizedotnetPaymentStatus::Error => AttemptStatus::Failure,
                AuthorizedotnetPaymentStatus::HeldForReview => AttemptStatus::Pending,
                AuthorizedotnetPaymentStatus::RequiresAction => AttemptStatus::AuthenticationPending,
                AuthorizedotnetPaymentStatus::Approved => match operation {
                    Operation::Authorize => if capture_method == Some(CaptureMethod::Manual) {
                        AttemptStatus::Authorized
                    } else {
                        AttemptStatus::Charged
                    },
                    Operation::Capture | Operation::Refund => AttemptStatus::Charged,
                    Operation::Void => AttemptStatus::Voided,
                },
            },
        }
    }
}

/// An approved transaction of an authorization is only authorized when its
/// capture is manual, awaiting that capture, and charged otherwise.
pub proof fn lemma_approved_authorization_status(
    response: AuthorizedotnetPaymentsResponse,
    capture_method: Option<CaptureMethod>,
)
    requires
        response.messages.result_code == ResultCode::Success,
        response.transaction_response matches Some(TransactionResponse::AuthorizedotnetTransactionResponse(t))
            && t.response_code == AuthorizedotnetPaymentStatus::Approved,
    ensures
        capture_method == Some(CaptureMethod::Manual) ==> spec_hs_status(response, Operation::Authorize, capture_method)
            == AttemptStatus::Authorized,
        capture_method != Some(CaptureMethod::Manual) ==> spec_hs_status(response, Operation::Authorize, capture_method)
            == AttemptStatus::Charged,
{
}

/// The status of a transaction of an answer without error follows its
/// response code: an approved capture or refund is charged and an approved
/// void voided; a declined or failed transaction has failed, one held for
/// review is pending and one that requires action awaits authentication.
pub proof fn lemma_transaction_code_status(
    response: AuthorizedotnetPaymentsResponse,
    operation: Operation,
    capture_method: Option<CaptureMethod>,
)
    requires
        response.messages.result_code == ResultCode::Success,
        response.transaction_response is Some,
    ensures
        response.transaction_response matches Some(TransactionResponse::AuthorizedotnetTransactionResponse(t)) ==> {
            let st = spec_hs_status(response, operation, capture_method);
            &&& (t.response_code == AuthorizedotnetPaymentStatus::Approved && (operation == Operation::Capture
                || operation == Operation::Refund) ==> st == AttemptStatus::Charged)
            &&& (t.response_code == AuthorizedotnetPaymentStatus::Approved && operation == Operation::Void
                ==> st == AttemptStatus::Voided)
            &&& (t.response_code == AuthorizedotnetPaymentStatus::Declined || t.response_code
                == AuthorizedotnetPaymentStatus::Error ==> st == AttemptStatus::Failure)
            &&& (t.response_code == AuthorizedotnetPaymentStatus::HeldForReview ==> st == AttemptStatus::Pending)
            &&& (t.response_code == AuthorizedotnetPaymentStatus::RequiresAction
                ==> st == AttemptStatus::AuthenticationPending)
        },
        response.transaction_response matches Some(TransactionResponse::AuthorizedotnetTransactionResponseError(_))
            ==> spec_hs_status(response, operation, capture_method) == AttemptStatus::Failure,
{
}

/// An authorization with a manual capture is never reported charged, and a
/// void never is either; a charge is reported only for an approved
/// transaction of an answer without error.
pub proof fn lemma_charged_only_when_approved(
    response: AuthorizedotnetPaymentsResponse,
    operation: Operation,
    capture_method: Option<CaptureMethod>,
)
    ensures
        spec_hs_status(response, operation, capture_method) == AttemptStatus::Charged ==> {
            &&& response.messages.result_code == ResultCode::Success
            &&& response.transaction_response matches Some(TransactionResponse::AuthorizedotnetTransactionResponse(t))
                && t.response_code == AuthorizedotnetPaymentStatus::Approved
            &&& operation != Operation::Void
            &&& (operation == Operation::Authorize ==> capture_method != Some(CaptureMethod::Manual))
        },
        response.messages.result_code == ResultCode::Error ==> spec_hs_status(response, operation, capture_method)
            == AttemptStatus::Failure,
{
}

pub fn get_hs_status(
    response: &AuthorizedotnetPaymentsResponse,
    http_status_code: u16,
    operation: Operation,
    capture_method: Option<CaptureMethod>,
) -> (r: AttemptStatus)
    ensures
        r == spec_hs_status(*response, operation, capture_method),
{
    if response.messages.result_code == ResultCode::Error {
        return AttemptStatus::Failure;
    }
    match &response.transaction_response {
        None => match operation {
            Operation::Void => AttemptStatus::Voided,
            Operation::Authorize | Operation::Capture => AttemptStatus::Pending,
            Operation::Refund => AttemptStatus::Failure,
        },
        Some(TransactionResponse::AuthorizedotnetTransactionResponseError(_)) => AttemptStatus::Failure,
        Some(TransactionResponse::AuthorizedotnetTransactionResponse(t)) => match t.response_code {
            AuthorizedotnetPaymentStatus::Declined | AuthorizedotnetPaymentStatus::Error => AttemptStatus::Failure,
            AuthorizedotnetPaymentStatus::HeldForReview => AttemptStatus::Pending,
            AuthorizedotnetPaymentStatus::RequiresAction => AttemptStatus::AuthenticationPending,
            AuthorizedotnetPaymentStatus::Approved => match operation {
                Operation::Authorize => match capture_method {
                    Some(CaptureMethod::Manual) => AttemptStatus::Authorized,
                    _ => AttemptStatus::Charged,
                },
                Operation::Capture | Operation::Refund => AttemptStatus::Charged,
                Operation::Void => AttemptStatus::Voided,
            },
        },
    }
}

/// The first error of a transaction response, when it lists any.
pub open spec fn first_transaction_error(tr: Option<AuthorizedotnetTransactionResponse>) -> Option<ErrorMessage> {
    match tr {
        Some(t) => match t.errors {
            Some(e) => if e@.len() > 0 {
                Some(e@[0])
            } else {
                None
            },
            None => None,
        },
        None => None,
    }
}

/// The error code and text of a failed transaction: the first error of the
/// transaction, else the first message of the response, else the defaults.
pub open spec fn spec_error_details(
    messages: Seq<ResponseMessage>,
    tr: Option<AuthorizedotnetTransactionResponse>,
) -> (Seq<char>, Seq<char>) {
    let code = match first_transaction_error(tr) {
        Some(e) => e.error_code@,
        None => if messages.len() > 0 {
            messages[0].code@
        } else {
            NO_ERROR_CODE@
        },
    };
    let text = match first_transaction_error(tr) {
        Some(e) => e.error_text@,
        None => if messages.len() > 0 {
            messages[0].text@
        } else {
            NO_ERROR_MESSAGE@
        },
    };
    (code, text)
}

pub fn extract_error_details(
    response: &AuthorizedotnetPaymentsResponse,
    trans_res: Option<&AuthorizedotnetTransactionResponse>,
) -> (r: (String, String))
    ensures
        (r.0@, r.1@) == spec_error_details(
            response.messages.message@,
            match trans_res {
                Some(t) => Some(*t),
                None => None,
            },
        ),
{
    let first: Option<&ErrorMessage> = match trans_res {
        Some(tr) => match &tr.errors {
            Some(e) => if e.len() > 0 {
                Some(&e[0])
            } else {
                None
            },
            None => None,
        },
        None => None,
    };
    match first {
        Some(e) => (e.error_code.clone(), e.error_text.clone()),
        None => if response.messages.message.len() > 0 {
            (response.messages.message[0].code.clone(), response.messages.message[0].text.clone())
        } else {
            (String::from_str(NO_ERROR_CODE), String::from_str(NO_ERROR_MESSAGE))
        },
    }
}

pub fn create_error_response(
    http_status_code: u16,
    error_code: String,
    error_message: String,
    status: AttemptStatus,
    connector_transaction_id: Option<String>,
    raw_connector_response: Option<String>,
) -> (r: ErrorResponse)
    ensures
        r.status_code == http_status_code,
        r.code@ == error_code@,
        r.message@ == error_message@,
        r.reason is None,
        r.attempt_status == Some(status),
        opt_str(r.connector_transaction_id) == opt_str(connector_transaction_id),
        opt_str(r.raw_connector_response) == opt_str(raw_connector_response),
{
    ErrorResponse {
        status_code: http_status_code,
        code: error_code,
        message: error_message,
        reason: None,
        attempt_status: Some(status),
        connector_transaction_id,
        raw_connector_response,
    }
}

/// Attempt statuses a transaction response is answered with data for.
pub open spec fn is_successful_status(s: AttemptStatus) -> bool {
    s is Authorized || s is Pending || s is AuthenticationPending || s is Charged || s is Voided
}

/// Whether an error response carries the given details.
pub open spec fn error_is(
    e: ErrorResponse,
    http: u16,
    details: (Seq<char>, Seq<char>),
    status: AttemptStatus,
    transaction_id: Option<Seq<char>>,
    raw: Option<Seq<char>>,
) -> bool {
    &&& e.status_code == http
    &&& e.code@ == details.0
    &&& e.message@ == details.1
    &&& e.reason is None
    &&& e.attempt_status == Some(status)
    &&& opt_str(e.connector_transaction_id) == transaction_id
    &&& opt_str(e.raw_connector_response) == raw
}

/// The attempt status and response of a transaction response.
pub fn convert_to_payments_response_data_or_error(
    response: &AuthorizedotnetPaymentsResponse,
    http_status_code: u16,
    operation: Operation,
    capture_method: Option<CaptureMethod>,
    raw_connector_response: Option<String>,
) -> (r: PaymentsOutcome)
    ensures
        r.status == spec_hs_status(*response, operation, capture_method),
        match response.transaction_response {
            Some(TransactionResponse::AuthorizedotnetTransactionResponse(t)) => if is_successful_status(r.status) {
                r.response matches Ok(d) && d.resource_id matches ResponseId::ConnectorTransactionId(id)
                    && id@ == t.transaction_id@ && opt_str(d.network_txn_id) == opt_str(t.network_trans_id)
                    && d.redirection_data is None && d.mandate_reference is None && d.connector_metadata is None
                    && d.connector_response_reference_id is None && d.status_code == http_status_code
                    && opt_str(d.raw_connector_response) == opt_str(raw_connector_response)
            } else {
                r.response matches Err(e) && error_is(
                    e,
                    http_status_code,
                    spec_error_details(response.messages.message@, Some(t)),
                    r.status,
                    Some(t.transaction_id@),
                    opt_str(raw_connector_response),
                )
            },
            Some(TransactionResponse::AuthorizedotnetTransactionResponseError(_)) => r.response matches Err(e) && error_is(
                e,
                http_status_code,
                spec_error_details(response.messages.message@, None),
                r.status,
                None,
                opt_str(raw_connector_response),
            ),
            None => if r.status == AttemptStatus::Voided && operation == Operation::Void {
                r.response matches Ok(d) && d.resource_id is NoResponseId && d.network_txn_id is None
                    && d.redirection_data is None && d.mandate_reference is None && d.connector_metadata is None
                    && d.connector_response_reference_id is None && d.status_code == http_status_code
                    && opt_str(d.raw_connector_response) == opt_str(raw_connector_response)
            } else {
                r.response matches Err(e) && error_is(
                    e,
                    http_status_code,
                    spec_error_details(response.messages.message@, None),
                    r.status,
                    None,
                    opt_str(raw_connector_response),
                )
            },
        },
{
    let status = get_hs_status(response, http_status_code, operation, capture_method);
    let is_successful = match status {
        AttemptStatus::Authorized | AttemptStatus::Pending | AttemptStatus::AuthenticationPending
        | AttemptStatus::Charged | AttemptStatus::Voided => true,
        _ => false,
    };
    let response_payload = match &response.transaction_response {
        Some(TransactionResponse::AuthorizedotnetTransactionResponse(trans_res)) => {
            if is_successful {
                Ok(
                    TransactionResponseData {
                        raw_connector_response: clone_opt(&raw_connector_response),
                        resource_id: ResponseId::ConnectorTransactionId(
                            trans_res.transaction_id.clone(),
                        ),
                        redirection_data: None,
                        mandate_reference: None,
                        connector_metadata: None,
                        network_txn_id: clone_opt(&trans_res.network_trans_id),
                        connector_response_reference_id: None,
                        status_code: http_status_code,
                    },
                )
            } else {
                let (error_code, error_message) = extract_error_details(response, Some(trans_res));
                Err(
                    create_error_response(
                        http_status_code,
                        error_code,
                        error_message,
                        status,
                        Some(trans_res.transaction_id.clone()),
                        clone_opt(&raw_connector_response),
                    ),
                )
            }
        },
        Some(TransactionResponse::AuthorizedotnetTransactionResponseError(_)) => {
            let (error_code, error_message) = extract_error_details(response, None);
            Err(create_error_response(http_status_code, error_code, error_message, status, None, clone_opt(&raw_connector_response)))
        },
        None => {
            if status == AttemptStatus::Voided && operation == Operation::Void {
                Ok(
                    TransactionResponseData {
                        raw_connector_response: clone_opt(&raw_connector_response),
                        resource_id: ResponseId::NoResponseId,
                        redirection_data: None,
                        mandate_reference: None,
                        connector_metadata: None,
                        network_txn_id: None,
                        connector_response_reference_id: None,
                        status_code: http_status_code,
                    },
                )
            } else {
                let (error_code, error_message) = extract_error_details(response, None);
                Err(
                    create_error_response(http_status_code, error_code, error_message, status, None, clone_opt(&raw_connector_response)),
                )
            }
        },
    };
    PaymentsOutcome { status, response: response_payload }
}

/// The transaction part of a refund response.
#[derive(Clone, Debug)]
pub struct RefundResponse {
    pub response_code: AuthorizedotnetRefundStatus,
    pub transaction_id: String,
    pub network_trans_id: Option<String>,
    pub account_number: Option<String>,
    pub errors: Option<Vec<ErrorMessage>>,
}

/// The answer to a refund request.
#[derive(Clone, Debug)]
pub struct AuthorizedotnetRefundResponse {
    pub transaction_response: RefundResponse,
    pub messages: ResponseMessages,
}

/// The refund status and response of a refund answer: an error carrying the first
/// listed error when there is one, the refund otherwise.
pub fn refund_response(response: &AuthorizedotnetRefundResponse, http_code: u16, raw_connector_response: Option<String>) -> (r: RefundsOutcome)
    ensures
        r.status == spec_refund_status(response.transaction_response.response_code),
        match response.transaction_response.errors {
            Some(errors) if errors@.len() > 0 => r.response matches Err(e) && e.code@ == errors@[0].error_code@
                && e.message@ == errors@[0].error_text@ && opt_str(e.reason) == Some(errors@[0].error_text@)
                && e.status_code == http_code && e.attempt_status == Some(AttemptStatus::Failure)
                && opt_str(e.connector_transaction_id) == Some(response.transaction_response.transaction_id@),
            _ => r.response matches Ok(d) && d.connector_refund_id@ == response.transaction_response.transaction_id@
                && d.refund_status == r.status && d.status_code == http_code,
        },
        match r.response {
            Ok(d) => opt_str(d.raw_connector_response) == opt_str(raw_connector_response),
            Err(e) => opt_str(e.raw_connector_response) == opt_str(raw_connector_response),
        },
{
    let tr = &response.transaction_response;
    let refund_status = tr.response_code.to_refund_status();
    let first: Option<&ErrorMessage> = match &tr.errors {
        Some(errors) => if errors.len() > 0 {
            Some(&errors[0])
        } else {
            None
        },
        None => None,
    };
    let resp = match first {
        Some(error) => Err(
            ErrorResponse {
                raw_connector_response: clone_opt(&raw_connector_response),
                code: error.error_code.clone(),
                message: error.error_text.clone(),
                reason: Some(error.error_text.clone()),
                status_code: http_code,
                attempt_status: Some(AttemptStatus::Failure),
                connector_transaction_id: Some(tr.transaction_id.clone()),
            },
        ),
        None => Ok(
            RefundsResponseData {
                raw_connector_response: clone_opt(&raw_connector_response),
                connector_refund_id: tr.transaction_id.clone(),
                refund_status,
                status_code: http_code,
            },
        ),
    };
    RefundsOutcome { status: refund_status, response: resp }
}

/// Status of a transaction in a transaction details answer.
#[derive(Clone, Copy, Debug, PartialEq, Eq, Structural)]
pub enum SyncStatus {
    CapturedPendingSettlement,
    SettledSuccessfully,
    AuthorizedPendingCapture,
    Declined,
    Voided,
    CouldNotVoid,
    GeneralError,
    RefundSettledSuccessfully,
    RefundPendingSettlement,
    FDSPendingReview,
    FDSAuthorizedPendingReview,
}

/// The attempt status of a transaction status.
pub open spec fn spec_sync_attempt_status(s: SyncStatus) -> AttemptStatus {
    match s {
        SyncStatus::SettledSuccessfully | SyncStatus::CapturedPendingSettlement => AttemptStatus::Charged,
        SyncStatus::AuthorizedPendingCapture => AttemptStatus::Authorized,
        SyncStatus::Declined => AttemptStatus::AuthenticationFailed,
        SyncStatus::Voided => AttemptStatus::Voided,
        SyncStatus::CouldNotVoid => AttemptStatus::VoidFailed,
        SyncStatus::GeneralError => AttemptStatus::Failure,
        SyncStatus::RefundSettledSuccessfully | SyncStatus::RefundPendingSettlement
        | SyncStatus::FDSPendingReview | SyncStatus::FDSAuthorizedPendingReview => AttemptStatus::Pending,
    }
}

impl SyncStatus {
    pub fn to_attempt_status(self) -> (r: AttemptStatus)
        ensures
            r == spec_sync_attempt_status(self),
    {
        match self {
            SyncStatus::SettledSuccessfully | SyncStatus::CapturedPendingSettlement => AttemptStatus::Charged,
            SyncStatus::AuthorizedPendingCapture => AttemptStatus::Authorized,
            SyncStatus::Declined => AttemptStatus::AuthenticationFailed,
            SyncStatus::Voided => AttemptStatus::Voided,
            SyncStatus::CouldNotVoid => AttemptStatus::VoidFailed,
            SyncStatus::GeneralError => AttemptStatus::Failure,
            SyncStatus::RefundSettledSuccessfully | SyncStatus::RefundPendingSettlement
            | SyncStatus::FDSPendingReview | SyncStatus::FDSAuthorizedPendingReview => AttemptStatus::Pending,
        }
    }
}

/// A transaction in a transaction details answer.
#[derive(Clone, Debug)]
pub struct SyncTransactionResponse {
    pub transaction_id: String,
    pub transaction_status: SyncStatus,
    pub response_code: Option<u8>,
    pub response_reason_code: Option<u8>,
    pub response_reason_description: Option<String>,
    pub network_trans_id: Option<String>,
}

/// The answer to a payment status lookup.
#[derive(Clone, Debug)]
pub struct AuthorizedotnetPSyncResponse {
    pub transaction: Option<SyncTransactionResponse>,
    pub messages: ResponseMessages,
}

/// The code and text of the first message of a response, or the defaults.
pub open spec fn first_message_details(messages: Seq<ResponseMessage>) -> (Seq<char>, Seq<char>) {
    if messages.len() > 0 {
        (messages[0].code@, messages[0].text@)
    } else {
        (NO_ERROR_CODE@, NO_ERROR_MESSAGE@)
    }
}

fn first_message(messages: &Vec<ResponseMessage>) -> (r: (String, String))
    ensures
        (r.0@, r.1@) == first_message_details(messages@),
{
    if messages.len() > 0 {
        (messages[0].code.clone(), messages[0].text.clone())
    } else {
        (String::from_str(NO_ERROR_CODE), String::from_str(NO_ERROR_MESSAGE))
    }
}

/// The attempt status and response of a payment status answer.
pub fn psync_response(response: &AuthorizedotnetPSyncResponse, http_code: u16, raw_connector_response: Option<String>) -> (r: PaymentsOutcome)
    ensures
        match response.transaction {
            Some(t) => r.status == spec_sync_attempt_status(t.transaction_status) && (r.response matches Ok(d)
                && (d.resource_id matches ResponseId::ConnectorTransactionId(id) && id@ == t.transaction_id@)
                && opt_str(d.connector_response_reference_id) == Some(t.transaction_id@)
                && d.network_txn_id is None && d.redirection_data is None && d.mandate_reference is None
                && d.connector_metadata is None && d.status_code == http_code),
            None => r.status == (if response.messages.result_code == ResultCode::Error {
                AttemptStatus::Failure
            } else {
                AttemptStatus::Pending
            }) && (r.response matches Err(e) && (e.code@, e.message@) == first_message_details(
                response.messages.message@,
            ) && e.reason is None && e.attempt_status == Some(r.status) && e.connector_transaction_id is None
                && e.status_code == http_code),
        },
        match r.response {
            Ok(d) => opt_str(d.raw_connector_response) == opt_str(raw_connector_response),
            Err(e) => opt_str(e.raw_connector_response) == opt_str(raw_connector_response),
        },
{
    match &response.transaction {
        Some(t) => {
            let status = t.transaction_status.to_attempt_status();
            PaymentsOutcome {
                status,
                response: Ok(
                    TransactionResponseData {
                        raw_connector_response: clone_opt(&raw_connector_response),
                        resource_id: ResponseId::ConnectorTransactionId(t.transaction_id.clone()),
                        redirection_data: None,
                        mandate_reference: None,
                        connector_metadata: None,
                        network_txn_id: None,
                        connector_response_reference_id: Some(t.transaction_id.clone()),
                        status_code: http_code,
                    },
                ),
            }
        },
        None => {
            let status = match response.messages.result_code {
                ResultCode::Error => AttemptStatus::Failure,
                ResultCode::Success => AttemptStatus::Pending,
            };
            let (code, message) = first_message(&response.messages.message);
            PaymentsOutcome {
                status,
                response: Err(
                    ErrorResponse {
                        raw_connector_response: clone_opt(&raw_connector_response),
                        status_code: http_code,
                        code,
                        message,
                        reason: None,
                        attempt_status: Some(status),
                        connector_transaction_id: None,
                    },
                ),
            }
        },
    }
}

/// Status of a refund in a transaction details answer.
#[derive(Clone, Copy, Debug, PartialEq, Eq, Structural)]
pub enum RSyncStatus {
    RefundSettledSuccessfully,
    RefundPendingSettlement,
    Declined,
    GeneralError,
    Voided,
}

/// The refund status of a refund transaction status.
pub open spec fn spec_rsync_refund_status(s: RSyncStatus) -> RefundStatus {
    match s {
        RSyncStatus::RefundSettledSuccessfully => RefundStatus::Success,
        RSyncStatus::RefundPendingSettlement => RefundStatus::Pending,
        RSyncStatus::Declined | RSyncStatus::GeneralError | RSyncStatus::Voided => RefundStatus::Failure,
    }
}

impl RSyncStatus {
    pub fn to_refund_status(self) -> (r: RefundStatus)
        ensures
            r == spec_rsync_refund_status(self),
    {
        match self {
            RSyncStatus::RefundSettledSuccessfully => RefundStatus::Success,
            RSyncStatus::RefundPendingSettlement => RefundStatus::Pending,
            RSyncStatus::Declined | RSyncStatus::GeneralError | RSyncStatus::Voided => RefundStatus::Failure,
        }
    }
}

#[derive(Clone, Debug)]
pub struct RSyncTransactionResponse {
    pub transaction_id: String,
    pub transaction_status: RSyncStatus,
}

/// The answer to a refund status lookup.
#[derive(Clone, Debug)]
pub struct AuthorizedotnetRSyncResponse {
    pub transaction: Option<RSyncTransactionResponse>,
    pub messages: ResponseMessages,
}

/// The refund status and response of a refund status answer.
pub fn rsync_response(response: &AuthorizedotnetRSyncResponse, http_code: u16, raw_connector_response: Option<String>) -> (r: RefundsOutcome)
    ensures
        match response.transaction {
            Some(t) => r.status == spec_rsync_refund_status(t.transaction_status) && (r.response matches Ok(d)
                && d.connector_refund_id@ == t.transaction_id@ && d.refund_status == r.status
                && d.status_code == http_code),
            None => r.status == RefundStatus::Failure && (r.response matches Err(e) && (e.code@, e.message@)
                == first_message_details(response.messages.message@) && e.reason is None
                && e.attempt_status == Some(AttemptStatus::Failure) && e.connector_transaction_id is None
                && e.status_code == http_code),
        },
        match r.response {
            Ok(d) => opt_str(d.raw_connector_response) == opt_str(raw_connector_response),
            Err(e) => opt_str(e.raw_connector_response) == opt_str(raw_connector_response),
        },
{
    match &response.transaction {
        Some(t) => {
            let refund_status = t.transaction_status.to_refund_status();
            RefundsOutcome {
                status: refund_status,
                response: Ok(
                    RefundsResponseData {
                        raw_connector_response: clone_opt(&raw_connector_response),
                        connector_refund_id: t.transaction_id.clone(),
                        refund_status,
                        status_code: http_code,
                    },
                ),
            }
        },
        None => {
            let (code, message) = first_message(&response.messages.message);
            RefundsOutcome {
                status: RefundStatus::Failure,
                response: Err(
                    ErrorResponse {
                        raw_connector_response: clone_opt(&raw_connector_response),
                        status_code: http_code,
                        code,
                        message,
                        reason: None,
                        attempt_status: Some(AttemptStatus::Failure),
                        connector_transaction_id: None,
                    },
                ),
            }
        },
    }
}

/// The answer to a customer profile creation.
#[derive(Clone, Debug)]
pub struct CreateCustomerProfileResponse {
    pub customer_profile_id: Option<String>,
    pub customer_payment_profile_id_list: Vec<String>,
    pub validation_direct_response_list: Option<Vec<String>>,
    pub messages: ResponseMessages,
}

/// The mandate id of a created profile: the customer profile id and the first
/// payment profile id joined by `-`, or the customer profile id alone.
pub open spec fn spec_composite_mandate_id(profile_id: Seq<char>, payment_profiles: Seq<String>) -> Seq<char> {
    if payment_profiles.len() > 0 {
        profile_id + "-"@ + payment_profiles[0]@
    } else {
        profile_id
    }
}

/// The attempt status and response of a customer profile creation answer.
pub fn setup_mandate_response(response: &CreateCustomerProfileResponse, http_code: u16, raw_connector_response: Option<String>) -> (r: PaymentsOutcome)
    ensures
        r.status == (if response.messages.result_code == ResultCode::Success {
            AttemptStatus::Authorized
        } else {
            AttemptStatus::Failure
        }),
        match response.customer_profile_id {
            Some(profile_id) => (r.response matches Ok(d) && (d.resource_id matches ResponseId::ConnectorTransactionId(id)
                && id@ == profile_id@) && (d.mandate_reference matches Some(m)
                && opt_str(m.connector_mandate_id) == Some(spec_composite_mandate_id(
                    profile_id@,
                    response.customer_payment_profile_id_list@,
                )) && m.payment_method_id is None) && d.status_code == http_code),
            None => (r.response matches Err(e) && e.code@ == (if response.messages.message@.len() > 0 {
                response.messages.message@[0].code@
            } else {
                Seq::<char>::empty()
            }) && e.message@ == (if response.messages.message@.len() > 0 {
                response.messages.message@[0].text@
            } else {
                Seq::<char>::empty()
            }) && e.attempt_status == Some(AttemptStatus::Failure) && e.status_code == http_code),
        },
        match r.response {
            Ok(d) => opt_str(d.raw_connector_response) == opt_str(raw_connector_response),
            Err(e) => opt_str(e.raw_connector_response) == opt_str(raw_connector_response),
        },
{
    let status = if response.messages.result_code == ResultCode::Success {
        AttemptStatus::Authorized
    } else {
        AttemptStatus::Failure
    };
    match &response.customer_profile_id {
        Some(profile_id) => {
            let connector_mandate_id = if response.customer_payment_profile_id_list.len() > 0 {
                proof {
                    reveal_strlit("-");
                }
                concat3(
                    profile_id.as_str(),
                    "-",
                    response.customer_payment_profile_id_list[0].as_str(),
                )
            } else {
                profile_id.clone()
            };
            PaymentsOutcome {
                status,
                response: Ok(
                    TransactionResponseData {
                        raw_connector_response: clone_opt(&raw_connector_response),
                        resource_id: ResponseId::ConnectorTransactionId(profile_id.clone()),
                        redirection_data: None,
                        mandate_reference: Some(
                            MandateReference {
                                connector_mandate_id: Some(connector_mandate_id),
                                payment_method_id: None,
                            },
                        ),
                        connector_metadata: None,
                        network_txn_id: None,
                        connector_response_reference_id: None,
                        status_code: http_code,
                    },
                ),
            }
        },
        None => {
            let (code, message) = if response.messages.message.len() > 0 {
                (
                    response.messages.message[0].code.clone(),
                    response.messages.message[0].text.clone(),
                )
            } else {
                (String::new(), String::new())
            };
            PaymentsOutcome {
                status,
                response: Err(
                    ErrorResponse {
                        raw_connector_response: clone_opt(&raw_connector_response),
                        status_code: http_code,
                        code,
                        message,
                        reason: None,
                        attempt_status: Some(AttemptStatus::Failure),
                        connector_transaction_id: None,
                    },
                ),
            }
        },
    }
}

/// The error answer of Authorize.Net.
#[derive(Clone, Debug)]
pub struct AuthorizedotnetErrorResponse {
    pub messages: ResponseMessages,
}

/// The error response of an error answer: the code and text of its first
/// message, with the answer's bytes as text.
pub fn build_error_response(response: &ResponseMessages, raw_response: &Vec<u8>, http_code: u16) -> (r: ErrorResponse)
    ensures
        (r.code@, r.message@) == first_message_details(response.message@),
        r.raw_connector_response matches Some(t) && t@ == utf8_lossy_text(raw_response@),
        r.status_code == http_code,
        r.reason is None,
        r.attempt_status is None,
        r.connector_transaction_id is None,
{
    let (code, message) = first_message(&response.message);
    ErrorResponse {
        raw_connector_response: Some(utf8_lossy(raw_response.as_slice())),
        status_code: http_code,
        code,
        message,
        reason: None,
        attempt_status: None,
        connector_transaction_id: None,
    }
}


/// The signature header of a webhook, under either spelling of its name.
pub open spec fn anet_signature_header(headers: Seq<(String, String)>) -> Option<Seq<char>> {
    match header_value(headers, "X-ANET-Signature"@) {
        Some(v) => Some(v),
        None => header_value(headers, "x-anet-signature"@),
    }
}

/// Whether a webhook carries a `sha512=<hex>` signature header whose digest is
/// the HMAC-SHA512 of the body under the shared secret.
pub open spec fn anet_signature_valid(request: RequestDetails, secret: Option<ConnectorWebhookSecrets>) -> bool {
    match secret {
        None => false,
        Some(s) => match anet_signature_header(request.headers@) {
            None => false,
            Some(header) => match strip_prefix_spec(header, "sha512="@) {
                None => false,
                Some(digits) => is_hex_text(digits) && hmac_sha512_tag(s.secret@, request.body@)
                    == hex_bytes(digits),
            },
        },
    }
}

/// Checks the signature of an Authorize.Net webhook. A missing secret, a
/// missing or malformed header and a wrong digest all give `Ok(false)`.
pub fn verify_webhook_source(
    request: &RequestDetails,
    connector_webhook_secret: &Option<ConnectorWebhookSecrets>,
) -> (r: Result<bool, ConnectorError>)
    requires
        connector_webhook_secret matches Some(s) ==> s.secret@.len() < 0x1000_0000_0000_0000,
        request.body@.len() < 0x1000_0000_0000_0000,
    ensures
        r == Ok::<bool, ConnectorError>(anet_signature_valid(*request, *connector_webhook_secret)),
{
    let webhook_secret = match connector_webhook_secret {
        Some(secrets) => &secrets.secret,
        None => return Ok(false),
    };
    let signature_header = match get_header(&request.headers, "X-ANET-Signature") {
        Some(header) => header,
        None => match get_header(&request.headers, "x-anet-signature") {
            Some(header) => header,
            None => return Ok(false),
        },
    };
    let signature_hex = match strip_prefix(signature_header.as_str(), "sha512=") {
        Some(digits) => digits,
        None => return Ok(false),
    };
    let expected_signature = match hex_decode(signature_hex.as_str()) {
        Some(bytes) => bytes,
        None => return Ok(false),
    };
    let computed_signature = hmac_sha512(webhook_secret.as_slice(), request.body.as_slice());
    Ok(bytes_equal(computed_signature.as_slice(), expected_signature.as_slice()))
}

/// The event types Authorize.Net sends webhooks for.
#[derive(Clone, Copy, Debug, PartialEq, Eq, Structural)]
pub enum AuthorizedotnetIncomingWebhookEventType {
    AuthorizationCreated,
    PriorAuthCapture,
    AuthCapCreated,
    CaptureCreated,
    VoidCreated,
    RefundCreated,
    CustomerCreated,
    CustomerPaymentProfileCreated,
    Unknown,
}

/// What a webhook of an event type is about; an unknown event type is refused.
pub open spec fn spec_event_type(event: AuthorizedotnetIncomingWebhookEventType) -> Option<EventType> {
    match event {
        AuthorizedotnetIncomingWebhookEventType::RefundCreated => Some(EventType::Refund),
        AuthorizedotnetIncomingWebhookEventType::Unknown => None,
        _ => Some(EventType::Payment),
    }
}

/// The kind of a webhook from its event type.
pub fn get_event_type(event: AuthorizedotnetIncomingWebhookEventType) -> (r: Result<EventType, ConnectorError>)
    ensures
        match spec_event_type(event) {
            Some(e) => r == Ok::<EventType, ConnectorError>(e),
            None => r matches Err(ConnectorError::WebhookEventTypeNotFound),
        },
{
    match event {
        AuthorizedotnetIncomingWebhookEventType::AuthorizationCreated
        | AuthorizedotnetIncomingWebhookEventType::PriorAuthCapture
        | AuthorizedotnetIncomingWebhookEventType::AuthCapCreated
        | AuthorizedotnetIncomingWebhookEventType::CaptureCreated
        | AuthorizedotnetIncomingWebhookEventType::VoidCreated
        | AuthorizedotnetIncomingWebhookEventType::CustomerCreated
        | AuthorizedotnetIncomingWebhookEventType::CustomerPaymentProfileCreated => Ok(EventType::Payment),
        AuthorizedotnetIncomingWebhookEventType::RefundCreated => Ok(EventType::Refund),
        AuthorizedotnetIncomingWebhookEventType::Unknown => Err(ConnectorError::WebhookEventTypeNotFound),
    }
}

/// What a refund webhook reports.
#[derive(Clone, Debug)]
pub struct RefundWebhookDetailsResponse {
    pub connector_refund_id: Option<String>,
    pub status: RefundStatus,
    pub status_code: u16,
    pub connector_response_reference_id: Option<String>,
    pub error_code: Option<String>,
    pub error_message: Option<String>,
}

/// The details of a refund webhook about a transaction: Authorize.Net only
/// sends webhooks for refunds that succeeded.
pub fn process_refund_webhook(transaction_id: &String) -> (r: RefundWebhookDetailsResponse)
    ensures
        opt_str(r.connector_refund_id) == Some(transaction_id@),
        opt_str(r.connector_response_reference_id) == Some(transaction_id@),
        r.status == RefundStatus::Success,
        r.status_code == 200,
        r.error_code is None,
        r.error_message is None,
{
    RefundWebhookDetailsResponse {
        connector_refund_id: Some(transaction_id.clone()),
        status: RefundStatus::Success,
        status_code: 200,
        connector_response_reference_id: Some(transaction_id.clone()),
        error_code: None,
        error_message: None,
    }
}

/// The Authorize.Net connector.
pub struct Authorizedotnet;

impl Authorizedotnet {
    /// The name of the connector.
    pub fn id(&self) -> (r: &'static str)
        ensures
            r@ == "authorizedotnet"@,
    {
        "authorizedotnet"
    }
    /// The content type of its requests.
    pub fn common_get_content_type(&self) -> (r: &'static str)
        ensures
            r@ == "application/json"@,
    {
        "application/json"
    }
    /// Amounts are sent to the connector in major units.
    pub fn get_currency_unit(&self) -> (r: CurrencyUnit)
        ensures
            r == CurrencyUnit::Base,
    {
        CurrencyUnit::Base
    }
}

} // verus!
