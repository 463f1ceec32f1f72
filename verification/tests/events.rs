use connector_service::event_publisher::{
    check_publisher_config, extract_from_request, partition_key, process_event, set_nested_value,
    EventPublisherError,
};
use connector_service::events::{ApiEventMetric, ApiEventsType, EventConfig, EventStage, FlowName};
use connector_service::ids::{ApiKeyId, GlobalPaymentId, MerchantId, ProfileId};
use connector_service::json::JsonValue;

fn text(s: &str) -> JsonValue {
    JsonValue::Text(s.to_string())
}

fn object(fields: Vec<(&str, JsonValue)>) -> JsonValue {
    JsonValue::Object(fields.into_iter().map(|(k, v)| (k.to_string(), v)).collect())
}

fn field<'a>(v: &'a JsonValue, key: &str) -> Option<&'a JsonValue> {
    v.get(key)
}

fn text_of(v: Option<&JsonValue>) -> Option<String> {
    match v {
        Some(JsonValue::Text(s)) => Some(s.clone()),
        _ => None,
    }
}

fn sample_event() -> JsonValue {
    object(vec![
        ("request_id", text("req-1")),
        ("connector", text("adyen")),
        ("flow_type", text("Authorize")),
        (
            "request_data",
            object(vec![("merchant", object(vec![("id", text("m-42"))])), ("amount", JsonValue::Number("1000".to_string()))]),
        ),
    ])
}

#[test]
fn flow_names_and_stage() {
    assert_eq!(FlowName::Authorize.as_str(), "Authorize");
    assert_eq!(FlowName::CreateSessionToken.as_str(), "CreateSessionToken");
    assert_eq!(FlowName::Unknown.as_str(), "Unknown");
    assert_eq!(EventStage::ConnectorCall.as_str(), "CONNECTOR_CALL");
}

#[test]
fn default_event_config() {
    let config = EventConfig::default();
    assert!(!config.enabled);
    assert_eq!(config.topic, "events");
    assert_eq!(config.brokers, vec!["localhost:9092".to_string()]);
    assert_eq!(config.partition_key_field, "request_id");
    assert!(config.transformations.is_empty());
    assert!(config.static_values.is_empty());
    assert!(config.extractions.is_empty());
}

#[test]
fn api_event_types_of_values() {
    assert_eq!(vec![1, 2, 3].get_api_event_type(), Some(ApiEventsType::Miscellaneous));
    assert_eq!("x".to_string().get_api_event_type(), Some(ApiEventsType::Miscellaneous));
    assert_eq!(true.get_api_event_type(), Some(ApiEventsType::Miscellaneous));
    assert_eq!(().get_api_event_type(), None);
    let merchant = MerchantId::from_str("merchant_1").unwrap();
    assert_eq!(merchant.get_api_event_type(), Some(ApiEventsType::Miscellaneous));
    let profile = ProfileId::try_from("pro_123".to_string()).unwrap();
    assert_eq!(profile.get_api_event_type(), Some(ApiEventsType::BusinessProfile { profile_id: profile.clone() }));
    let key = ApiKeyId::try_from("key_1".to_string()).unwrap();
    assert_eq!(key.get_api_event_type(), Some(ApiEventsType::ApiKey { key_id: key.clone() }));
    let ok: Result<ApiKeyId, String> = Ok(key.clone());
    assert_eq!(ok.get_api_event_type(), Some(ApiEventsType::ApiKey { key_id: key.clone() }));
    let err: Result<ApiKeyId, String> = Err("e".to_string());
    assert_eq!(err.get_api_event_type(), None);
}

#[test]
fn api_event_type_of_payment_id() {
    let id = connector_service::ids::GlobalId::from_string("cell1_pay_0123456789abcdef0123456789abcdef".to_string()).unwrap();
    let payment = GlobalPaymentId(id);
    assert_eq!(payment.get_api_event_type(), Some(ApiEventsType::Payment { payment_id: payment.clone() }));
}

#[test]
fn publisher_config_checks() {
    let mut config = EventConfig::default();
    assert!(check_publisher_config(&config).is_ok());
    config.topic = String::new();
    match check_publisher_config(&config) {
        Err(EventPublisherError::InvalidConfiguration { message }) => assert_eq!(message, "topic cannot be empty"),
        _ => panic!("an empty topic is refused"),
    }
    config.brokers = vec![];
    match check_publisher_config(&config) {
        Err(EventPublisherError::InvalidConfiguration { message }) => assert_eq!(message, "brokers list cannot be empty"),
        _ => panic!("an empty broker list is refused"),
    }
}

#[test]
fn set_nested_value_writes_and_reads_back() {
    let mut event = sample_event();
    set_nested_value(&mut event, "a.b.c", text("deep")).unwrap();
    let a = field(&event, "a").unwrap();
    let b = field(a, "b").unwrap();
    assert_eq!(text_of(field(b, "c")), Some("deep".to_string()));
    // Other fields are kept.
    assert_eq!(text_of(field(&event, "request_id")), Some("req-1".to_string()));
    // Empty segments are skipped.
    set_nested_value(&mut event, ".top..", text("t")).unwrap();
    assert_eq!(text_of(field(&event, "top")), Some("t".to_string()));
    // A field that is not an object is replaced on the way down.
    set_nested_value(&mut event, "connector.name", text("n")).unwrap();
    let connector = field(&event, "connector").unwrap();
    assert_eq!(text_of(field(connector, "name")), Some("n".to_string()));
}

#[test]
fn set_nested_value_refuses_empty_path() {
    let mut event = sample_event();
    match set_nested_value(&mut event, "..", text("x")) {
        Err(EventPublisherError::InvalidPath { path }) => assert_eq!(path, ".."),
        _ => panic!("a path without keys is refused"),
    }
    assert_eq!(text_of(field(&event, "connector")), Some("adyen".to_string()));
}

#[test]
fn set_nested_value_on_null_makes_an_object() {
    let mut value = JsonValue::Null;
    set_nested_value(&mut value, "k", text("v")).unwrap();
    assert_eq!(text_of(field(&value, "k")), Some("v".to_string()));
}

#[test]
fn extraction_reads_request_data() {
    let event = sample_event();
    let picked = extract_from_request(&event, "req.merchant.id");
    assert_eq!(text_of(picked.as_ref()), Some("m-42".to_string()));
    assert!(extract_from_request(&event, "res.merchant.id").is_none());
    assert!(extract_from_request(&event, "req.missing").is_none());
    match extract_from_request(&event, "req") {
        Some(JsonValue::Object(fields)) => assert_eq!(fields.len(), 2),
        _ => panic!("the whole request data"),
    }
}

#[test]
fn process_event_applies_rules_in_order() {
    let mut config = EventConfig::default();
    config.transformations = vec![("meta.connector_name".to_string(), "connector".to_string()), ("x".to_string(), "absent".to_string())];
    config.static_values = vec![("env".to_string(), "sandbox".to_string())];
    config.extractions = vec![("merchant_id".to_string(), "req.merchant.id".to_string()), ("y".to_string(), "req.nothing".to_string())];
    let processed = process_event(sample_event(), &config);
    let meta = field(&processed, "meta").unwrap();
    assert_eq!(text_of(field(meta, "connector_name")), Some("adyen".to_string()));
    assert!(field(&processed, "x").is_none());
    assert_eq!(text_of(field(&processed, "env")), Some("sandbox".to_string()));
    assert_eq!(text_of(field(&processed, "merchant_id")), Some("m-42".to_string()));
    assert!(field(&processed, "y").is_none());
}

#[test]
fn process_event_without_rules_keeps_event() {
    let config = EventConfig::default();
    let processed = process_event(sample_event(), &config);
    match processed {
        JsonValue::Object(fields) => assert_eq!(fields.len(), 4),
        _ => panic!("an object stays an object"),
    }
}

#[test]
fn partition_key_reads_text_field() {
    let event = sample_event();
    assert_eq!(partition_key(&event, "request_id"), Some("req-1".to_string()));
    assert_eq!(partition_key(&event, "request_data"), None);
    assert_eq!(partition_key(&event, "nope"), None);
    assert_eq!(partition_key(&JsonValue::Null, "request_id"), None);
}

#[test]
fn json_object_last_field_wins() {
    let value = object(vec![("k", text("first")), ("k", text("second"))]);
    assert_eq!(text_of(field(&value, "k")), Some("second".to_string()));
    let copy = value.copy();
    assert_eq!(text_of(field(&copy, "k")), Some("second".to_string()));
}
