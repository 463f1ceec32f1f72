//! Payment connector service core: currency and status enumerations, identifier
//! types, request lineage, PII masking, event configuration, and the request and
//! response transformations of the card payment connectors.

use vstd::prelude::*;

pub mod common_enums;
pub mod connectors;
pub mod consts;
pub mod encoding;
pub mod entries;
pub mod event_publisher;
pub mod events;
pub mod ids;
pub mod json;
pub mod lineage;
pub mod pii;
pub mod router_data;
pub mod runtime_values;
pub mod signing;
pub mod text;

verus! {

} // verus!
