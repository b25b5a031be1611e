//! Value types shared by the request and response bodies.

use vstd::prelude::*;

verus! {

/// A payment amount in the minor unit of its currency.
pub type Amount = u64;

/// Three-letter ISO 4217 currency codes accepted by the API.
#[derive(Debug, Clone, Copy, PartialEq, Eq, Structural)]
pub enum Currency {
    AUD,
    CAD,
    CHF,
    EUR,
    GBP,
    JPY,
    SEK,
    USD,
}

/// How the cardholder takes part in the payment.
#[derive(Debug, Clone, Copy, PartialEq, Eq, Structural)]
pub enum PaymentType {
    /// A payment initiated by a present cardholder.
    Regular,
    /// One of a series of payments under a standing agreement.
    Recurring,
    /// A mail order or telephone order payment.
    MOTO,
    /// One of a fixed number of instalments.
    Installment,
    /// A merchant-initiated payment at no fixed interval.
    Unscheduled,
}

/// A postal address.
#[derive(Debug, Clone)]
pub struct Address {
    pub address_line1: Option<String>,
    pub address_line2: Option<String>,
    pub city: Option<String>,
    pub state: Option<String>,
    pub zip: Option<String>,
    /// Two-letter ISO country code.
    pub country: Option<String>,
}

/// The billing details of a payment session.
#[derive(Debug, Clone)]
pub struct BillingInformation {
    pub address: Option<Address>,
}

/// A dynamic descriptor shown on the account owner's statement.
#[derive(Debug, Clone)]
pub struct BillingDescriptor {
    pub name: String,
    pub city: String,
}

/// The customer taking part in a payment.
#[derive(Debug, Clone)]
pub struct CustomerDescriptor {
    /// The identifier of an existing customer (`cus_*`).
    pub id: Option<String>,
    pub email: Option<String>,
    pub name: Option<String>,
}

/// Where goods are shipped.
#[derive(Debug, Clone)]
pub struct ShippingDescriptor {
    pub address: Option<Address>,
}

/// Information for 3D Secure authentication.
#[derive(Debug, Clone)]
#[allow(non_camel_case_types)]
pub struct _3DSRequest {
    pub enabled: bool,
    pub attempt_n3d: Option<bool>,
}

/// Configuration of the risk assessment.
#[derive(Debug, Clone)]
pub struct RiskRequest {
    pub enabled: bool,
}

/// The source of a payment, identified by its type and reference.
#[derive(Debug, Clone)]
pub struct PaymentRequestSource {
    /// The source type, such as `token`, `id` or `customer`.
    pub source_type: String,
    pub id: Option<String>,
    pub token: Option<String>,
}

/// The destination of a payout, identified by its type and reference.
#[derive(Debug, Clone)]
pub struct PaymentRequestDestination {
    /// The destination type, such as `token` or `id`.
    pub destination_type: String,
    pub id: Option<String>,
    pub token: Option<String>,
}

/// The recipient of a payment's funds.
#[derive(Debug, Clone)]
pub struct PaymentRecipient {
    pub account_number: Option<String>,
    pub first_name: Option<String>,
    pub last_name: Option<String>,
    pub zip: Option<String>,
}

/// Overrides of the data sent during card processing.
#[derive(Debug, Clone)]
pub struct PaymentProcessingDescriptor {
    pub mid: Option<String>,
    pub aft: Option<bool>,
}

/// Details of a payout instruction.
#[derive(Debug, Clone)]
pub struct DestinationInstruction {
    pub purpose: Option<String>,
}

/// The sender of a payout.
#[derive(Debug, Clone)]
pub struct PaymentSenderDetails {
    /// The sender type, such as `individual` or `corporate`.
    pub sender_type: String,
    pub first_name: Option<String>,
    pub last_name: Option<String>,
}

/// Custom key-value pairs attached to a request.
#[derive(Debug, Clone)]
pub struct Metadata {
    pub entries: Vec<(String, String)>,
}

/// Links to related resources.
#[derive(Debug, Clone)]
pub struct Links {
    /// The address of the resource itself.
    pub self_href: Option<String>,
}

} // verus!
