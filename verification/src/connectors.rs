//! Request and response transformations of the payment connectors.

pub mod authorizedotnet;
pub mod checkout;
pub mod adyen;
pub mod elavon;
pub mod fiserv;
pub mod fiuu;
pub mod bitpay;
pub mod airwallex;
