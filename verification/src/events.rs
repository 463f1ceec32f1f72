//! Events of the service: the kind of API event a value stands for, the names
//! of flows and stages, and the configuration of event publishing.

use vstd::prelude::*;

use crate::common_enums::{PaymentMethod, PaymentMethodType};
use crate::ids::{
    AlphaNumericId, ApiKeyId, ClientSecretId, GlobalCustomerId, GlobalId, GlobalPaymentId,
    GlobalPaymentMethodId, GlobalPaymentMethodSessionId, GlobalRefundId, GlobalTokenId, LengthId,
    MerchantConnectorAccountId, MerchantId, ProfileAcquirerId, ProfileId,
};

verus! {

/// The kind of API event, with the ids it is about.
#[derive(Clone, Debug, PartialEq, Eq)]
pub enum ApiEventsType {
    Payout { payout_id: String },
    Payment { payment_id: GlobalPaymentId },
    Refund { payment_id: Option<GlobalPaymentId>, refund_id: GlobalRefundId },
    PaymentMethod {
        payment_method_id: GlobalPaymentMethodId,
        payment_method_type: Option<PaymentMethod>,
        payment_method_subtype: Option<PaymentMethodType>,
    },
    PaymentMethodCreate,
    Customer { customer_id: Option<GlobalCustomerId> },
    BusinessProfile { profile_id: ProfileId },
    ApiKey { key_id: ApiKeyId },
    User { user_id: String },
    PaymentMethodList { payment_id: Option<String> },
    PaymentMethodListForPaymentMethods { payment_method_id: GlobalPaymentMethodId },
    Webhooks { connector: MerchantConnectorAccountId, payment_id: Option<GlobalPaymentId> },
    Routing,
    ResourceListAPI,
    PaymentRedirectionResponse { payment_id: GlobalPaymentId },
    Gsm,
    Miscellaneous,
    Keymanager,
    RustLocker,
    ApplePayCertificatesMigration,
    FraudCheck,
    Recon,
    ExternalServiceAuth,
    Dispute { dispute_id: String },
    Events { merchant_id: MerchantId },
    PaymentMethodCollectLink { link_id: String },
    Poll { poll_id: String },
    Analytics,
    ClientSecret { key_id: ClientSecretId },
    PaymentMethodSession { payment_method_session_id: GlobalPaymentMethodSessionId },
    Token { token_id: Option<GlobalTokenId> },
    ProcessTracker,
    ProfileAcquirer { profile_acquirer_id: ProfileAcquirerId },
    ThreeDsDecisionRule,
}

/// A value that may stand for an API event.
pub trait ApiEventMetric {
    /// The kind of API event the value stands for, if any; by default none.
    fn get_api_event_type(&self) -> (r: Option<ApiEventsType>)
        default_ensures
            r is None,
    {
        None
    }
}

fn copy_length_id<const MAX_LENGTH: u8, const MIN_LENGTH: u8>(id: &LengthId<MAX_LENGTH, MIN_LENGTH>) -> (r: LengthId<MAX_LENGTH, MIN_LENGTH>)
    ensures
        r == *id,
{
    LengthId(AlphaNumericId(id.0.0.clone()))
}

fn copy_global_id(id: &GlobalId) -> (r: GlobalId)
    ensures
        r == *id,
{
    GlobalId(copy_length_id(&id.0))
}

impl ApiEventMetric for () {}

impl ApiEventMetric for GlobalPaymentId {
    /// A payment event about this payment.
    fn get_api_event_type(&self) -> (r: Option<ApiEventsType>)
        ensures
            r == Some(ApiEventsType::Payment { payment_id: *self }),
    {
        Some(ApiEventsType::Payment { payment_id: GlobalPaymentId(copy_global_id(&self.0)) })
    }
}

impl ApiEventMetric for GlobalPaymentMethodSessionId {
    /// A payment method session event about this session.
    fn get_api_event_type(&self) -> (r: Option<ApiEventsType>)
        ensures
            r == Some(ApiEventsType::PaymentMethodSession { payment_method_session_id: *self }),
    {
        Some(ApiEventsType::PaymentMethodSession {
            payment_method_session_id: GlobalPaymentMethodSessionId(copy_global_id(&self.0)),
        })
    }
}

impl ApiEventMetric for ProfileId {
    /// A business profile event about this profile.
    fn get_api_event_type(&self) -> (r: Option<ApiEventsType>)
        ensures
            r == Some(ApiEventsType::BusinessProfile { profile_id: *self }),
    {
        Some(ApiEventsType::BusinessProfile { profile_id: ProfileId(copy_length_id(&self.0)) })
    }
}

impl ApiEventMetric for ClientSecretId {
    /// A client secret event about this key.
    fn get_api_event_type(&self) -> (r: Option<ApiEventsType>)
        ensures
            r == Some(ApiEventsType::ClientSecret { key_id: *self }),
    {
        Some(ApiEventsType::ClientSecret { key_id: ClientSecretId(copy_length_id(&self.0)) })
    }
}

impl ApiEventMetric for ApiKeyId {
    /// An API key event about this key.
    fn get_api_event_type(&self) -> (r: Option<ApiEventsType>)
        ensures
            r == Some(ApiEventsType::ApiKey { key_id: *self }),
    {
        Some(ApiEventsType::ApiKey { key_id: ApiKeyId(copy_length_id(&self.0)) })
    }
}

impl ApiEventMetric for (MerchantId, ApiKeyId) {
    /// An API key event about the key of the pair.
    fn get_api_event_type(&self) -> (r: Option<ApiEventsType>)
        ensures
            r == Some(ApiEventsType::ApiKey { key_id: self.1 }),
    {
        Some(ApiEventsType::ApiKey { key_id: ApiKeyId(copy_length_id(&self.1.0)) })
    }
}

impl ApiEventMetric for ProfileAcquirerId {
    /// A profile acquirer event about this id.
    fn get_api_event_type(&self) -> (r: Option<ApiEventsType>)
        ensures
            r == Some(ApiEventsType::ProfileAcquirer { profile_acquirer_id: *self }),
    {
        Some(ApiEventsType::ProfileAcquirer { profile_acquirer_id: ProfileAcquirerId(copy_length_id(&self.0)) })
    }
}

impl<Q: ApiEventMetric, E> ApiEventMetric for Result<Q, E> {
    /// The event of the success value; none for an error.
    fn get_api_event_type(&self) -> (r: Option<ApiEventsType>)
        ensures
            self is Err ==> r is None,
            self matches Ok(q) ==> call_ensures(Q::get_api_event_type, (&q,), r),
    {
        match self {
            Ok(q) => q.get_api_event_type(),
            Err(_) => None,
        }
    }
}

impl<'a, T: ApiEventMetric> ApiEventMetric for &'a T {
    /// The event of the value referred to.
    fn get_api_event_type(&self) -> (r: Option<ApiEventsType>)
        ensures
            call_ensures(T::get_api_event_type, (*self,), r),
    {
        T::get_api_event_type(*self)
    }
}

impl<T> ApiEventMetric for Vec<T> {
    /// Any list is a miscellaneous event.
    fn get_api_event_type(&self) -> (r: Option<ApiEventsType>)
        ensures
            r == Some(ApiEventsType::Miscellaneous),
    {
        Some(ApiEventsType::Miscellaneous)
    }
}

impl ApiEventMetric for String {
    /// Any text is a miscellaneous event.
    fn get_api_event_type(&self) -> (r: Option<ApiEventsType>)
        ensures
            r == Some(ApiEventsType::Miscellaneous),
    {
        Some(ApiEventsType::Miscellaneous)
    }
}

impl ApiEventMetric for MerchantId {
    /// A merchant id is a miscellaneous event.
    fn get_api_event_type(&self) -> (r: Option<ApiEventsType>)
        ensures
            r == Some(ApiEventsType::Miscellaneous),
    {
        Some(ApiEventsType::Miscellaneous)
    }
}

impl ApiEventMetric for (Option<i64>, Option<i64>, String) {
    /// A range with a text is a miscellaneous event.
    fn get_api_event_type(&self) -> (r: Option<ApiEventsType>)
        ensures
            r == Some(ApiEventsType::Miscellaneous),
    {
        Some(ApiEventsType::Miscellaneous)
    }
}

impl ApiEventMetric for (Option<i64>, Option<i64>, MerchantId) {
    /// A range with a merchant id is a miscellaneous event.
    fn get_api_event_type(&self) -> (r: Option<ApiEventsType>)
        ensures
            r == Some(ApiEventsType::Miscellaneous),
    {
        Some(ApiEventsType::Miscellaneous)
    }
}

impl ApiEventMetric for bool {
    /// A flag is a miscellaneous event.
    fn get_api_event_type(&self) -> (r: Option<ApiEventsType>)
        ensures
            r == Some(ApiEventsType::Miscellaneous),
    {
        Some(ApiEventsType::Miscellaneous)
    }
}

/// The flow a connector call belongs to.
#[derive(Clone, Copy, Debug, PartialEq, Eq, Structural)]
pub enum FlowName {
    Authorize,
    Refund,
    Capture,
    Void,
    Psync,
    Rsync,
    AcceptDispute,
    SubmitEvidence,
    DefendDispute,
    Dsync,
    IncomingWebhook,
    SetupMandate,
    RepeatPayment,
    CreateOrder,
    CreateSessionToken,
    Unknown,
}

impl FlowName {
    /// The name of the flow, as it is written in events.
    pub open spec fn spec_name(self) -> Seq<char> {
        match self {
            FlowName::Authorize => "Authorize"@,
            FlowName::Refund => "Refund"@,
            FlowName::Capture => "Capture"@,
            FlowName::Void => "Void"@,
            FlowName::Psync => "Psync"@,
            FlowName::Rsync => "Rsync"@,
            FlowName::AcceptDispute => "AcceptDispute"@,
            FlowName::SubmitEvidence => "SubmitEvidence"@,
            FlowName::DefendDispute => "DefendDispute"@,
            FlowName::Dsync => "Dsync"@,
            FlowName::IncomingWebhook => "IncomingWebhook"@,
            FlowName::SetupMandate => "SetupMandate"@,
            FlowName::RepeatPayment => "RepeatPayment"@,
            FlowName::CreateOrder => "CreateOrder"@,
            FlowName::CreateSessionToken => "CreateSessionToken"@,
            FlowName::Unknown => "Unknown"@,
        }
    }

    /// The name of the flow.
    pub fn as_str(&self) -> (r: &'static str)
        ensures
            r@ == self.spec_name(),
    {
        match self {
            FlowName::Authorize => "Authorize",
            FlowName::Refund => "Refund",
            FlowName::Capture => "Capture",
            FlowName::Void => "Void",
            FlowName::Psync => "Psync",
            FlowName::Rsync => "Rsync",
            FlowName::AcceptDispute => "AcceptDispute",
            FlowName::SubmitEvidence => "SubmitEvidence",
            FlowName::DefendDispute => "DefendDispute",
            FlowName::Dsync => "Dsync",
            FlowName::IncomingWebhook => "IncomingWebhook",
            FlowName::SetupMandate => "SetupMandate",
            FlowName::RepeatPayment => "RepeatPayment",
            FlowName::CreateOrder => "CreateOrder",
            FlowName::CreateSessionToken => "CreateSessionToken",
            FlowName::Unknown => "Unknown",
        }
    }
}

/// The stage of a flow an event is recorded at.
#[derive(Clone, Copy, Debug, PartialEq, Eq, Structural)]
pub enum EventStage {
    ConnectorCall,
}

impl EventStage {
    /// The name of the stage.
    pub fn as_str(&self) -> (r: &'static str)
        ensures
            r@ == "CONNECTOR_CALL"@,
    {
        match self {
            EventStage::ConnectorCall => "CONNECTOR_CALL",
        }
    }
}

/// Configuration of event publishing. The rewrites are lists of a target path
/// and what is written there: a top-level field of the event, a fixed text, or
/// a path into the request data.
#[derive(Clone, Debug)]
pub struct EventConfig {
    pub enabled: bool,
    pub topic: String,
    pub brokers: Vec<String>,
    pub partition_key_field: String,
    pub transformations: Vec<(String, String)>,
    pub static_values: Vec<(String, String)>,
    pub extractions: Vec<(String, String)>,
}

impl Default for EventConfig {
    /// Publishing off, to the topic `events` on a local broker, keyed by the request id.
    fn default() -> (r: Self)
        ensures
            !r.enabled,
            r.topic@ == "events"@,
            r.brokers@.len() == 1,
            r.brokers@[0]@ == "localhost:9092"@,
            r.partition_key_field@ == "request_id"@,
            r.transformations@.len() == 0,
            r.static_values@.len() == 0,
            r.extractions@.len() == 0,
    {
        let mut brokers: Vec<String> = Vec::new();
        brokers.push(String::from_str("localhost:9092"));
        EventConfig {
            enabled: false,
            topic: String::from_str("events"),
            brokers,
            partition_key_field: String::from_str("request_id"),
            transformations: Vec::new(),
            static_values: Vec::new(),
            extractions: Vec::new(),
        }
    }
}

} // verus!
