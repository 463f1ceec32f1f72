//! The data that flows between the payment core and a connector: merchant
//! credentials, payment method data, addresses, the request data of each flow
//! and the response data a connector hands back.

use vstd::prelude::*;

use crate::common_enums::{
    AttemptStatus, AuthenticationType, CaptureMethod, CountryAlpha2, Currency, DisputeStatus,
    FutureUsage, PaymentMethod, PaymentMethodType, RefundStatus,
};

use crate::text::{opt_str, str_eq};

verus! {

/// Credentials of a merchant at a connector.
#[derive(Clone, Debug)]
pub enum ConnectorAuthType {
    HeaderKey { api_key: String },
    BodyKey { api_key: String, key1: String },
    SignatureKey { api_key: String, key1: String, api_secret: String },
    MultiAuthKey { api_key: String, key1: String, api_secret: String, key2: String },
    NoKey,
}

/// Errors a connector integration reports.
#[derive(Clone, Debug)]
pub enum ConnectorError {
    FailedToObtainAuthType,
    RequestEncodingFailed,
    ResponseDeserializationFailed,
    ResponseHandlingFailed,
    MissingConnectorTransactionID,
    CaptureMethodNotSupported,
    WebhookBodyDecodingFailed,
    WebhookEventTypeNotFound,
    WebhookResourceObjectNotFound,
    WebhooksNotImplemented,
    MissingRequiredField { field_name: &'static str },
    InvalidConnectorConfig { config: &'static str },
    NotImplemented(String),
    NotSupported { message: String, connector: &'static str },
    FlowNotSupported { flow: String, connector: String },
    UnexpectedResponseError(Vec<u8>),
}

/// Card details of a card payment.
#[derive(Clone, Debug)]
pub struct Card {
    pub card_number: String,
    pub card_exp_month: String,
    pub card_exp_year: String,
    pub card_cvc: String,
}

/// Wallet payment data.
#[derive(Clone, Debug)]
pub enum WalletData {
    /// A Google Pay token.
    GooglePay { token: String },
    /// An Apple Pay payment data blob.
    ApplePay { payment_data: String },
    /// Any other wallet (redirect and SDK flows).
    Other,
}

/// Payment method data of a payment.
#[derive(Clone, Debug)]
pub enum PaymentMethodData {
    Card(Card),
    Wallet(WalletData),
    /// A payment method of another kind than card or wallet.
    Other(PaymentMethod),
}

/// A postal address.
#[derive(Clone, Debug)]
pub struct AddressDetails {
    pub city: Option<String>,
    pub country: Option<CountryAlpha2>,
    pub line1: Option<String>,
    pub line2: Option<String>,
    pub line3: Option<String>,
    pub zip: Option<String>,
    pub state: Option<String>,
    pub first_name: Option<String>,
    pub last_name: Option<String>,
}

/// A billing or shipping address as the payment core holds it.
#[derive(Clone, Debug)]
pub struct Address {
    pub address: Option<AddressDetails>,
    pub phone_number: Option<String>,
    pub email: Option<String>,
}

/// What the shopper's browser told about itself.
#[derive(Clone, Debug)]
pub struct BrowserInformation {
    pub ip_address: Option<String>,
    pub user_agent: Option<String>,
    pub language: Option<String>,
}

/// A value of the payment metadata object.
#[derive(Clone, Debug)]
pub enum MetadataValue {
    Str(String),
    Bool(bool),
    /// Any other JSON value, held as its JSON text.
    Other(String),
}

/// One key of the payment metadata object.
#[derive(Clone, Debug)]
pub struct MetadataEntry {
    pub key: String,
    pub value: MetadataValue,
}

fn copy_metadata_value(v: &MetadataValue) -> (r: MetadataValue)
    ensures
        r == *v,
{
    match v {
        MetadataValue::Str(t) => MetadataValue::Str(t.clone()),
        MetadataValue::Bool(b) => MetadataValue::Bool(*b),
        MetadataValue::Other(t) => MetadataValue::Other(t.clone()),
    }
}

impl Clone for Metadata {
    fn clone(&self) -> (r: Self)
        ensures
            r@ == self@,
    {
        self.copy()
    }
}

/// Whether no key occurs twice among metadata entries.
pub open spec fn metadata_keys_unique(entries: Seq<MetadataEntry>) -> bool {
    forall|i: int, j: int| 0 <= i < j < entries.len() ==> (#[trigger] entries[i]).key@ != (#[trigger] entries[j]).key@
}

/// The payment metadata object: its entries, no key twice, as in a JSON
/// object.
#[derive(Debug)]
pub struct Metadata {
    entries: Vec<MetadataEntry>,
}

impl View for Metadata {
    type V = Seq<MetadataEntry>;

    closed spec fn view(&self) -> Seq<MetadataEntry> {
        self.entries@
    }
}

impl Metadata {
    #[verifier::type_invariant]
    spec fn keys_unique(self) -> bool {
        metadata_keys_unique(self.entries@)
    }

    /// The metadata object of entries; none where a key occurs twice.
    pub fn new(entries: Vec<MetadataEntry>) -> (r: Option<Metadata>)
        ensures
            r is Some <==> metadata_keys_unique(entries@),
            r matches Some(m) ==> m@ == entries@,
    {
        let n = entries.len();
        let mut i: usize = 0;
        while i < n
            invariant
                n == entries@.len(),
                i <= n,
                forall|a: int, b: int| 0 <= a < b < n && a < i ==> (#[trigger] entries@[a]).key@ != (#[trigger] entries@[b]).key@,
            decreases n - i,
        {
            let mut j: usize = i + 1;
            while j < n
                invariant
                    n == entries@.len(),
                    i < n,
                    i < j <= n,
                    forall|a: int, b: int| 0 <= a < b < n && a < i ==> (#[trigger] entries@[a]).key@ != (#[trigger] entries@[b]).key@,
                    forall|b: int| i < b < j ==> entries@[i as int].key@ != (#[trigger] entries@[b]).key@,
                decreases n - j,
            {
                if str_eq(entries[i].key.as_str(), entries[j].key.as_str()) {
                    return None;
                }
                j = j + 1;
            }
            i = i + 1;
        }
        assert(metadata_keys_unique(entries@));
        Some(Metadata { entries })
    }

    /// A copy of the object.
    pub fn copy(&self) -> (r: Metadata)
        ensures
            r@ == self@,
    {
        proof {
            use_type_invariant(self);
        }
        let mut out: Vec<MetadataEntry> = Vec::new();
        let n = self.entries.len();
        let mut i: usize = 0;
        while i < n
            invariant
                n == self.entries@.len(),
                i <= n,
                out@ == self.entries@.take(i as int),
            decreases n - i,
        {
            let e = &self.entries[i];
            out.push(MetadataEntry { key: e.key.clone(), value: copy_metadata_value(&e.value) });
            proof {
                assert(out@ =~= self.entries@.take(i + 1));
            }
            i = i + 1;
        }
        assert(out@ =~= self.entries@);
        Metadata { entries: out }
    }

    /// The entries of the object.
    pub fn entries(&self) -> (r: &Vec<MetadataEntry>)
        ensures
            r@ == self@,
            metadata_keys_unique(r@),
    {
        proof {
            use_type_invariant(self);
        }
        &self.entries
    }
}

/// The value a metadata object holds under a key (its first entry with that key).
pub open spec fn metadata_lookup(entries: Seq<MetadataEntry>, key: Seq<char>) -> Option<MetadataValue>
    decreases entries.len(),
{
    if entries.len() == 0 {
        None
    } else if entries[0].key@ == key {
        Some(entries[0].value)
    } else {
        metadata_lookup(entries.drop_first(), key)
    }
}

/// Identifier of a transaction at the connector.
#[derive(Clone, Debug)]
pub enum ResponseId {
    ConnectorTransactionId(String),
    EncodedData(String),
    NoResponseId,
}

/// HTTP method of a redirection form.
#[derive(Clone, Copy, Debug, PartialEq, Eq, Structural)]
pub enum Method {
    Get,
    Post,
    Put,
    Delete,
    Patch,
}

/// Where and how a customer is redirected to complete a payment.
#[derive(Clone, Debug)]
pub enum RedirectForm {
    Form { endpoint: String, method: Method, form_fields: Vec<(String, String)> },
    Html { html_data: String },
}

/// A mandate a connector created for future payments.
#[derive(Clone, Debug)]
pub struct MandateReference {
    pub connector_mandate_id: Option<String>,
    pub payment_method_id: Option<String>,
}

/// Intent a payment was created with, kept for later synchronisation.
#[derive(Clone, Copy, Debug, PartialEq, Eq, Structural)]
pub enum CheckoutPaymentIntent {
    Capture,
    Authorize,
}

/// Connector-specific metadata attached to a transaction response.
#[derive(Clone, Debug)]
pub enum ConnectorMetadata {
    /// The flow a later payment sync follows.
    CheckoutMeta(crate::connectors::checkout::CheckoutMeta),
    /// A wait screen shown between the two timestamps (nanoseconds since the epoch).
    WaitScreen(crate::connectors::adyen::WaitScreenData),
    /// An Elavon payment answer, as the connector returned it.
    ElavonPayment(crate::connectors::elavon::PaymentResponse),
    /// An Elavon transaction query answer, as the connector returned it.
    ElavonSync(crate::connectors::elavon::ElavonPSyncResponse),
}

/// The response data of a successful payment operation.
#[derive(Clone, Debug)]
pub struct TransactionResponseData {
    pub resource_id: ResponseId,
    pub redirection_data: Option<RedirectForm>,
    pub mandate_reference: Option<MandateReference>,
    pub connector_metadata: Option<ConnectorMetadata>,
    pub network_txn_id: Option<String>,
    pub connector_response_reference_id: Option<String>,
    pub status_code: u16,
    pub raw_connector_response: Option<String>,
}

/// The response data of a successful refund operation.
#[derive(Clone, Debug)]
pub struct RefundsResponseData {
    pub connector_refund_id: String,
    pub refund_status: RefundStatus,
    pub status_code: u16,
    pub raw_connector_response: Option<String>,
}

/// The response data of a successful dispute operation.
#[derive(Clone, Debug)]
pub struct DisputeResponseData {
    pub dispute_status: DisputeStatus,
    pub connector_dispute_id: String,
}

/// An error a connector answered with.
#[derive(Clone, Debug)]
pub struct ErrorResponse {
    pub code: String,
    pub message: String,
    pub reason: Option<String>,
    pub status_code: u16,
    pub attempt_status: Option<AttemptStatus>,
    pub connector_transaction_id: Option<String>,
    pub raw_connector_response: Option<String>,
}

/// The outcome of a payment flow: the new attempt status and the response.
pub struct PaymentsOutcome {
    pub status: AttemptStatus,
    pub response: Result<TransactionResponseData, ErrorResponse>,
}

/// The outcome of a refund flow: the new refund status and the response.
pub struct RefundsOutcome {
    pub status: RefundStatus,
    pub response: Result<RefundsResponseData, ErrorResponse>,
}

/// The request data of an authorization.
#[derive(Clone, Debug)]
pub struct PaymentsAuthorizeData {
    pub connector_auth_type: ConnectorAuthType,
    pub connector_request_reference_id: String,
    pub payment_id: String,
    pub merchant_id: String,
    pub description: Option<String>,
    pub customer_id: Option<String>,
    pub customer_name: Option<String>,
    pub email: Option<String>,
    pub currency: Currency,
    pub minor_amount: i64,
    pub payment_method_data: PaymentMethodData,
    pub payment_method_type: Option<PaymentMethodType>,
    pub capture_method: Option<CaptureMethod>,
    pub setup_future_usage: Option<FutureUsage>,
    pub off_session: Option<bool>,
    /// Whether the payment references an existing mandate.
    pub has_mandate_reference: bool,
    pub auth_type: AuthenticationType,
    pub billing: Option<Address>,
    pub metadata: Option<Metadata>,
    pub router_return_url: Option<String>,
    pub webhook_url: Option<String>,
    pub statement_descriptor: Option<String>,
    pub merchant_order_reference_id: Option<String>,
    pub test_mode: Option<bool>,
    /// The metadata of the merchant's account at the connector.
    pub connector_meta_data: Option<MetadataValue>,
    pub browser_info: Option<BrowserInformation>,
    /// Whether the card is enrolled for 3-D Secure.
    pub enrolled_for_3ds: bool,
    /// An access token obtained from the connector beforehand.
    pub access_token: Option<String>,
}

/// The request data of a capture.
#[derive(Clone, Debug)]
pub struct PaymentsCaptureData {
    pub connector_auth_type: ConnectorAuthType,
    pub connector_request_reference_id: String,
    pub connector_transaction_id: ResponseId,
    pub currency: Currency,
    pub minor_amount_to_capture: i64,
    /// The reference of this capture when the payment is captured in parts.
    pub multiple_capture_reference: Option<String>,
    /// The metadata of the merchant's account at the connector.
    pub connector_meta_data: Option<MetadataValue>,
    /// The metadata the connector attached to the payment.
    pub connector_metadata: Option<MetadataValue>,
}

/// The request data of a void.
#[derive(Clone, Debug)]
pub struct PaymentVoidData {
    pub connector_auth_type: ConnectorAuthType,
    pub connector_request_reference_id: String,
    pub connector_transaction_id: String,
    pub cancellation_reason: Option<String>,
    /// The metadata of the merchant's account at the connector.
    pub connector_meta_data: Option<MetadataValue>,
}

/// The request data of a payment sync.
#[derive(Clone, Debug)]
pub struct PaymentsSyncData {
    pub connector_auth_type: ConnectorAuthType,
    pub connector_transaction_id: ResponseId,
    pub capture_method: Option<CaptureMethod>,
    /// The metadata the connector attached to the payment's earlier response.
    pub connector_meta: Option<ConnectorMetadata>,
}

/// The request data of a refund.
#[derive(Clone, Debug)]
pub struct RefundsData {
    pub connector_auth_type: ConnectorAuthType,
    pub refund_id: String,
    pub connector_transaction_id: String,
    pub currency: Currency,
    pub minor_refund_amount: i64,
    pub reason: Option<String>,
    /// The metadata the connector attached to the payment.
    pub connector_metadata: Option<MetadataValue>,
}

/// The request data of a refund sync.
#[derive(Clone, Debug)]
pub struct RefundSyncData {
    pub connector_auth_type: ConnectorAuthType,
    pub connector_transaction_id: String,
    pub connector_refund_id: String,
}

/// The mandate a repeat payment is charged against.
#[derive(Clone, Debug)]
pub enum MandateReferenceId {
    /// A mandate stored at the connector, with its id when it is known.
    ConnectorMandateId(Option<String>),
    /// A network mandate id.
    NetworkMandateId(String),
    /// A network token with a network transaction id.
    NetworkTokenWithNTI,
}

/// The request data of a repeat payment against a stored mandate.
#[derive(Clone, Debug)]
pub struct RepeatPaymentData {
    pub connector_auth_type: ConnectorAuthType,
    pub connector_request_reference_id: String,
    pub payment_id: String,
    pub description: Option<String>,
    pub currency: Currency,
    pub minor_amount: i64,
    pub mandate_reference: MandateReferenceId,
    pub metadata: Option<Metadata>,
}

/// The request data of a mandate setup.
#[derive(Clone, Debug)]
pub struct SetupMandateRequestData {
    pub connector_auth_type: ConnectorAuthType,
    pub connector_request_reference_id: String,
    pub merchant_id: String,
    pub customer_id: Option<String>,
    pub customer_name: Option<String>,
    pub email: Option<String>,
    pub currency: Currency,
    pub amount: Option<i64>,
    pub payment_method_data: PaymentMethodData,
    pub payment_method_type: Option<PaymentMethodType>,
    pub capture_method: Option<CaptureMethod>,
    pub setup_future_usage: Option<FutureUsage>,
    pub off_session: Option<bool>,
    /// Whether the setup references an existing mandate.
    pub has_mandate_reference: bool,
    pub auth_type: AuthenticationType,
    pub billing: Option<Address>,
    pub metadata: Option<Metadata>,
    pub router_return_url: Option<String>,
    pub statement_descriptor: Option<String>,
    pub merchant_order_reference_id: Option<String>,
    pub test_mode: Option<bool>,
}


/// An incoming webhook request: its headers, in the order they came, and its body.
#[derive(Clone, Debug)]
pub struct RequestDetails {
    pub headers: Vec<(String, String)>,
    pub body: Vec<u8>,
}

/// The secret a merchant shares with a connector to sign webhooks.
#[derive(Clone, Debug)]
pub struct ConnectorWebhookSecrets {
    pub secret: Vec<u8>,
}

/// What an incoming webhook is about.
#[derive(Clone, Copy, Debug, PartialEq, Eq, Structural)]
pub enum EventType {
    Payment,
    Refund,
    Dispute,
}

/// The value of the first header with a given name.
pub open spec fn header_value(headers: Seq<(String, String)>, name: Seq<char>) -> Option<Seq<char>>
    decreases headers.len(),
{
    if headers.len() == 0 {
        None
    } else if headers[0].0@ == name {
        Some(headers[0].1@)
    } else {
        header_value(headers.drop_first(), name)
    }
}

/// Looks up the value of a header by its exact name.
pub fn get_header(headers: &Vec<(String, String)>, name: &str) -> (r: Option<String>)
    ensures
        opt_str(r) == header_value(headers@, name@),
{
    let n = headers.len();
    let mut i: usize = 0;
    assert(headers@.subrange(0, n as int) =~= headers@);
    while i < n
        invariant
            n == headers@.len(),
            i <= n,
            header_value(headers@, name@) == header_value(headers@.subrange(i as int, n as int), name@),
        decreases n - i,
    {
        assert(headers@.subrange(i as int, n as int).drop_first() =~= headers@.subrange(
            i + 1,
            n as int,
        ));
        if str_eq(headers[i].0.as_str(), name) {
            return Some(headers[i].1.clone());
        }
        i = i + 1;
    }
    None
}


/// The text a metadata object holds under a key, when that value is a string.
pub open spec fn metadata_str(entries: Seq<MetadataEntry>, key: Seq<char>) -> Option<Seq<char>> {
    match metadata_lookup(entries, key) {
        Some(MetadataValue::Str(s)) => Some(s@),
        _ => None,
    }
}

/// The flag a metadata object holds under a key, when that value is a boolean.
pub open spec fn metadata_bool(entries: Seq<MetadataEntry>, key: Seq<char>) -> Option<bool> {
    match metadata_lookup(entries, key) {
        Some(MetadataValue::Bool(b)) => Some(b),
        _ => None,
    }
}

/// The position of the entry a metadata lookup finds.
fn lookup_index(entries: &Vec<MetadataEntry>, key: &str) -> (r: Option<usize>)
    ensures
        match r {
            Some(i) => i < entries@.len() && metadata_lookup(entries@, key@) == Some(entries@[i as int].value),
            None => metadata_lookup(entries@, key@) is None,
        },
{
    let n = entries.len();
    let mut i: usize = 0;
    assert(entries@.subrange(0, n as int) =~= entries@);
    while i < n
        invariant
            n == entries@.len(),
            i <= n,
            metadata_lookup(entries@, key@) == metadata_lookup(entries@.subrange(i as int, n as int), key@),
        decreases n - i,
    {
        assert(entries@.subrange(i as int, n as int).drop_first() =~= entries@.subrange(i + 1, n as int));
        if str_eq(entries[i].key.as_str(), key) {
            return Some(i);
        }
        i = i + 1;
    }
    None
}

/// The text a metadata object holds under a key.
pub fn get_str(key: &str, metadata: &Metadata) -> (r: Option<String>)
    ensures
        opt_str(r) == metadata_str(metadata@, key@),
{
    let metadata = metadata.entries();
    match lookup_index(metadata, key) {
        Some(i) => match &metadata[i].value {
            MetadataValue::Str(s) => Some(s.clone()),
            _ => None,
        },
        None => None,
    }
}

/// The flag a metadata object holds under a key.
pub fn get_bool(key: &str, metadata: &Metadata) -> (r: Option<bool>)
    ensures
        r == metadata_bool(metadata@, key@),
{
    let metadata = metadata.entries();
    match lookup_index(metadata, key) {
        Some(i) => match &metadata[i].value {
            MetadataValue::Bool(b) => Some(*b),
            _ => None,
        },
        None => None,
    }
}


/// The request data of accepting a dispute.
#[derive(Clone, Debug)]
pub struct AcceptDisputeData {
    pub connector_auth_type: ConnectorAuthType,
    pub connector_dispute_id: String,
}

/// The request data of defending a dispute.
#[derive(Clone, Debug)]
pub struct DisputeDefendData {
    pub connector_auth_type: ConnectorAuthType,
    pub connector_dispute_id: String,
    pub defense_reason_code: String,
}

/// The request data of submitting evidence for a dispute: each kind of
/// document, with its file type.
#[derive(Clone, Debug)]
pub struct SubmitEvidenceData {
    pub connector_auth_type: ConnectorAuthType,
    pub connector_dispute_id: String,
    pub shipping_documentation: Option<Vec<u8>>,
    pub shipping_documentation_provider_file_id: Option<String>,
    pub receipt: Option<Vec<u8>>,
    pub receipt_file_type: Option<String>,
    pub invoice_showing_distinct_transactions: Option<Vec<u8>>,
    pub invoice_showing_distinct_transactions_file_type: Option<String>,
    pub customer_communication: Option<Vec<u8>>,
    pub customer_communication_file_type: Option<String>,
    pub refund_policy: Option<Vec<u8>>,
    pub refund_policy_file_type: Option<String>,
    pub recurring_transaction_agreement: Option<Vec<u8>>,
    pub recurring_transaction_agreement_file_type: Option<String>,
    pub uncategorized_file: Option<Vec<u8>>,
    pub uncategorized_file_type: Option<String>,
    pub cancellation_policy: Option<Vec<u8>>,
    pub cancellation_policy_file_type: Option<String>,
    pub customer_signature: Option<Vec<u8>>,
    pub customer_signature_file_type: Option<String>,
    pub service_documentation: Option<Vec<u8>>,
    pub service_documentation_file_type: Option<String>,
}

} // verus!
