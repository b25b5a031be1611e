pub mod request_settings;
pub mod requests;

pub use crate::models::shared::{
    Amount, BillingDescriptor, Currency, CustomerDescriptor, DestinationInstruction, Metadata,
    PaymentProcessingDescriptor, PaymentRecipient, PaymentRequestDestination, PaymentRequestSource,
    PaymentSenderDetails, PaymentType, RiskRequest, ShippingDescriptor, _3DSRequest,
};
