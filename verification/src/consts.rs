//! Constants of the connector service: id lengths, header names, default
//! error texts, card number limits, log field names, and the build environment.

use vstd::prelude::*;

verus! {

pub const ID_LENGTH: usize = 20;

/// Characters generated ids are made of.
pub const ALPHABETS: [char; 62] = [
    '0', '1', '2', '3', '4', '5', '6', '7', '8', '9', 'a', 'b', 'c', 'd', 'e', 'f', 'g', 'h', 'i',
    'j', 'k', 'l', 'm', 'n', 'o', 'p', 'q', 'r', 's', 't', 'u', 'v', 'w', 'x', 'y', 'z', 'A', 'B',
    'C', 'D', 'E', 'F', 'G', 'H', 'I', 'J', 'K', 'L', 'M', 'N', 'O', 'P', 'Q', 'R', 'S', 'T', 'U',
    'V', 'W', 'X', 'Y', 'Z',
];

/// Max Length for MerchantReferenceId
pub const MAX_ALLOWED_MERCHANT_REFERENCE_ID_LENGTH: u8 = 64;

/// Minimum allowed length for MerchantReferenceId
pub const MIN_REQUIRED_MERCHANT_REFERENCE_ID_LENGTH: u8 = 1;

/// Length of a cell identifier in a distributed system
pub const CELL_IDENTIFIER_LENGTH: u8 = 5;

/// Maximum length allowed for a global id
pub const MAX_GLOBAL_ID_LENGTH: u8 = 64;

/// Minimum length required for a global id
pub const MIN_GLOBAL_ID_LENGTH: u8 = 32;

/// Header key for tenant identification
pub const X_TENANT_ID: &'static str = "x-tenant-id";

/// Header key for request ID
pub const X_REQUEST_ID: &'static str = "x-request-id";

/// Header key for connector identification
pub const X_CONNECTOR: &'static str = "x-connector";

/// Header key for merchant identification
pub const X_MERCHANT_ID: &'static str = "x-merchant-id";

/// Authentication header
pub const X_AUTH: &'static str = "x-auth";

/// API key header for authentication
pub const X_API_KEY: &'static str = "x-api-key";

/// API key header variant
pub const X_KEY1: &'static str = "x-key1";

/// API key header variant
pub const X_KEY2: &'static str = "x-key2";

/// API secret header
pub const X_API_SECRET: &'static str = "x-api-secret";

/// No error message string const
pub const NO_ERROR_MESSAGE: &'static str = "No error message";

/// No error code string const
pub const NO_ERROR_CODE: &'static str = "No error code";

/// A string constant representing a redacted or masked value
pub const REDACTED: &'static str = "Redacted";

/// Minimum limit of a card number will not be less than 8 by ISO standards
pub const MIN_CARD_NUMBER_LENGTH: usize = 8;

/// Maximum limit of a card number will not exceed 19 by ISO standards
pub const MAX_CARD_NUMBER_LENGTH: usize = 19;

/// Log field for message content
pub const LOG_MESSAGE: &'static str = "message";

/// Log field for hostname
pub const LOG_HOSTNAME: &'static str = "hostname";

/// Log field for process ID
pub const LOG_PID: &'static str = "pid";

/// Log field for log level
pub const LOG_LEVEL: &'static str = "level";

/// Log field for target
pub const LOG_TARGET: &'static str = "target";

/// Log field for service name
pub const LOG_SERVICE: &'static str = "service";

/// Log field for line number
pub const LOG_LINE: &'static str = "line";

/// Log field for file name
pub const LOG_FILE: &'static str = "file";

/// Log field for function name
pub const LOG_FN: &'static str = "fn";

/// Log field for full name
pub const LOG_FULL_NAME: &'static str = "full_name";

/// Log field for timestamp
pub const LOG_TIME: &'static str = "time";

/// Constant variable for name
pub const NAME: &'static str = "UCS";

/// Constant variable for payment service name
pub const PAYMENT_SERVICE_NAME: &'static str = "payment_service";


/// The environment the service runs in.
#[derive(Debug, Clone, Copy, PartialEq, Eq, Structural)]
pub enum Env {
    Development,
    Release,
}

impl Env {
    /// The configuration file of the environment.
    pub fn config_path(self) -> (r: &'static str)
        ensures
            r@ == (match self {
                Env::Development => "development.toml"@,
                Env::Release => "production.toml"@,
            }),
    {
        match self {
            Env::Development => "development.toml",
            Env::Release => "production.toml",
        }
    }

    /// The name of the environment as it is displayed.
    pub fn as_str(self) -> (r: &'static str)
        ensures
            r@ == (match self {
                Env::Development => "development"@,
                Env::Release => "release"@,
            }),
    {
        match self {
            Env::Development => "development",
            Env::Release => "release",
        }
    }
}

} // verus!
