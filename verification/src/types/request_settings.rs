//! A model of the builder's setter calls: which field each one fills, and with
//! what. The laws of the builder are stated and proved over it.

use vstd::prelude::*;

use super::requests::CreatePaymentRequest;
use super::{
    Amount, BillingDescriptor, CustomerDescriptor, DestinationInstruction, Metadata,
    PaymentProcessingDescriptor, PaymentRecipient, PaymentRequestDestination, PaymentRequestSource,
    PaymentSenderDetails, PaymentType, RiskRequest, ShippingDescriptor, _3DSRequest,
};

verus! {

/// A field of a payment request that the builder has a setter for.
pub enum PaymentRequestField {
    Source,
    Destination,
    Amount,
    PaymentType,
    MerchantInitiated,
    Reference,
    Description,
    Capture,
    CaptureOn,
    Customer,
    BillingDescriptor,
    Shipping,
    ThreeDs,
    PreviousPaymentId,
    Risk,
    SuccessUrl,
    FailureUrl,
    PaymentIp,
    Recipient,
    Processing,
    Instruction,
    Sender,
    Metadata,
}

/// One setter call on the builder, with its argument.
pub enum PaymentRequestSetting {
    Source(PaymentRequestSource),
    Destination(PaymentRequestDestination),
    Amount(Amount),
    PaymentType(PaymentType),
    MerchantInitiated(bool),
    Reference(String),
    Description(String),
    Capture(bool),
    CaptureOn(String),
    Customer(CustomerDescriptor),
    BillingDescriptor(BillingDescriptor),
    Shipping(ShippingDescriptor),
    ThreeDs(_3DSRequest),
    PreviousPaymentId(String),
    Risk(RiskRequest),
    SuccessUrl(String),
    FailureUrl(String),
    PaymentIp(String),
    Recipient(PaymentRecipient),
    Processing(PaymentProcessingDescriptor),
    Instruction(DestinationInstruction),
    Sender(PaymentSenderDetails),
    Metadata(Metadata),
}

/// The field that a setting fills.
#[verifier::opaque]
pub open spec fn setting_field(setting: PaymentRequestSetting) -> PaymentRequestField {
    match setting {
        PaymentRequestSetting::Source(_) => PaymentRequestField::Source,
        PaymentRequestSetting::Destination(_) => PaymentRequestField::Destination,
        PaymentRequestSetting::Amount(_) => PaymentRequestField::Amount,
        PaymentRequestSetting::PaymentType(_) => PaymentRequestField::PaymentType,
        PaymentRequestSetting::MerchantInitiated(_) => PaymentRequestField::MerchantInitiated,
        PaymentRequestSetting::Reference(_) => PaymentRequestField::Reference,
        PaymentRequestSetting::Description(_) => PaymentRequestField::Description,
        PaymentRequestSetting::Capture(_) => PaymentRequestField::Capture,
        PaymentRequestSetting::CaptureOn(_) => PaymentRequestField::CaptureOn,
        PaymentRequestSetting::Customer(_) => PaymentRequestField::Customer,
        PaymentRequestSetting::BillingDescriptor(_) => PaymentRequestField::BillingDescriptor,
        PaymentRequestSetting::Shipping(_) => PaymentRequestField::Shipping,
        PaymentRequestSetting::ThreeDs(_) => PaymentRequestField::ThreeDs,
        PaymentRequestSetting::PreviousPaymentId(_) => PaymentRequestField::PreviousPaymentId,
        PaymentRequestSetting::Risk(_) => PaymentRequestField::Risk,
        PaymentRequestSetting::SuccessUrl(_) => PaymentRequestField::SuccessUrl,
        PaymentRequestSetting::FailureUrl(_) => PaymentRequestField::FailureUrl,
        PaymentRequestSetting::PaymentIp(_) => PaymentRequestField::PaymentIp,
        PaymentRequestSetting::Recipient(_) => PaymentRequestField::Recipient,
        PaymentRequestSetting::Processing(_) => PaymentRequestField::Processing,
        PaymentRequestSetting::Instruction(_) => PaymentRequestField::Instruction,
        PaymentRequestSetting::Sender(_) => PaymentRequestField::Sender,
        PaymentRequestSetting::Metadata(_) => PaymentRequestField::Metadata,
    }
}

/// The request with one setting applied: its field filled with the setting's
/// value, every other field as it was.
#[verifier::opaque]
pub open spec fn apply_setting(request: CreatePaymentRequest, setting: PaymentRequestSetting) -> CreatePaymentRequest {
    match setting {
        PaymentRequestSetting::Source(value) => CreatePaymentRequest { source: Some(value), ..request },
        PaymentRequestSetting::Destination(value) => CreatePaymentRequest { destination: Some(value), ..request },
        PaymentRequestSetting::Amount(value) => CreatePaymentRequest { amount: Some(value), ..request },
        PaymentRequestSetting::PaymentType(value) => CreatePaymentRequest { payment_type: value, ..request },
        PaymentRequestSetting::MerchantInitiated(value) => CreatePaymentRequest { merchant_initiated: value, ..request },
        PaymentRequestSetting::Reference(value) => CreatePaymentRequest { reference: Some(value), ..request },
        PaymentRequestSetting::Description(value) => CreatePaymentRequest { description: Some(value), ..request },
        PaymentRequestSetting::Capture(value) => CreatePaymentRequest { capture: Some(value), ..request },
        PaymentRequestSetting::CaptureOn(value) => CreatePaymentRequest { capture_on: Some(value), ..request },
        PaymentRequestSetting::Customer(value) => CreatePaymentRequest { customer: Some(value), ..request },
        PaymentRequestSetting::BillingDescriptor(value) => CreatePaymentRequest { billing_descriptor: Some(value), ..request },
        PaymentRequestSetting::Shipping(value) => CreatePaymentRequest { shipping: Some(value), ..request },
        PaymentRequestSetting::ThreeDs(value) => CreatePaymentRequest { three_ds: Some(value), ..request },
        PaymentRequestSetting::PreviousPaymentId(value) => CreatePaymentRequest { previous_payment_id: Some(value), ..request },
        PaymentRequestSetting::Risk(value) => CreatePaymentRequest { risk: Some(value), ..request },
        PaymentRequestSetting::SuccessUrl(value) => CreatePaymentRequest { success_url: Some(value), ..request },
        PaymentRequestSetting::FailureUrl(value) => CreatePaymentRequest { failure_url: Some(value), ..request },
        PaymentRequestSetting::PaymentIp(value) => CreatePaymentRequest { payment_ip: Some(value), ..request },
        PaymentRequestSetting::Recipient(value) => CreatePaymentRequest { recipient: Some(value), ..request },
        PaymentRequestSetting::Processing(value) => CreatePaymentRequest { processing: Some(value), ..request },
        PaymentRequestSetting::Instruction(value) => CreatePaymentRequest { instruction: Some(value), ..request },
        PaymentRequestSetting::Sender(value) => CreatePaymentRequest { sender: Some(value), ..request },
        PaymentRequestSetting::Metadata(value) => CreatePaymentRequest { metadata: Some(value), ..request },
    }
}

/// The request with a sequence of settings applied in order.
pub open spec fn apply_settings(request: CreatePaymentRequest, settings: Seq<PaymentRequestSetting>) -> CreatePaymentRequest
    decreases settings.len(),
{
    if settings.len() == 0 {
        request
    } else {
        apply_setting(apply_settings(request, settings.drop_last()), settings.last())
    }
}

/// The request's field holds the value that the setting gives it.
#[verifier::opaque]
pub open spec fn setting_holds(request: CreatePaymentRequest, setting: PaymentRequestSetting) -> bool {
    match setting {
        PaymentRequestSetting::Source(value) => request.source == Some(value),
        PaymentRequestSetting::Destination(value) => request.destination == Some(value),
        PaymentRequestSetting::Amount(value) => request.amount == Some(value),
        PaymentRequestSetting::PaymentType(value) => request.payment_type == value,
        PaymentRequestSetting::MerchantInitiated(value) => request.merchant_initiated == value,
        PaymentRequestSetting::Reference(value) => request.reference == Some(value),
        PaymentRequestSetting::Description(value) => request.description == Some(value),
        PaymentRequestSetting::Capture(value) => request.capture == Some(value),
        PaymentRequestSetting::CaptureOn(value) => request.capture_on == Some(value),
        PaymentRequestSetting::Customer(value) => request.customer == Some(value),
        PaymentRequestSetting::BillingDescriptor(value) => request.billing_descriptor == Some(value),
        PaymentRequestSetting::Shipping(value) => request.shipping == Some(value),
        PaymentRequestSetting::ThreeDs(value) => request.three_ds == Some(value),
        PaymentRequestSetting::PreviousPaymentId(value) => request.previous_payment_id == Some(value),
        PaymentRequestSetting::Risk(value) => request.risk == Some(value),
        PaymentRequestSetting::SuccessUrl(value) => request.success_url == Some(value),
        PaymentRequestSetting::FailureUrl(value) => request.failure_url == Some(value),
        PaymentRequestSetting::PaymentIp(value) => request.payment_ip == Some(value),
        PaymentRequestSetting::Recipient(value) => request.recipient == Some(value),
        PaymentRequestSetting::Processing(value) => request.processing == Some(value),
        PaymentRequestSetting::Instruction(value) => request.instruction == Some(value),
        PaymentRequestSetting::Sender(value) => request.sender == Some(value),
        PaymentRequestSetting::Metadata(value) => request.metadata == Some(value),
    }
}

/// The two requests agree on `field`.
#[verifier::opaque]
pub open spec fn field_agrees(first: CreatePaymentRequest, second: CreatePaymentRequest, field: PaymentRequestField) -> bool {
    match field {
        PaymentRequestField::Source => first.source == second.source,
        PaymentRequestField::Destination => first.destination == second.destination,
        PaymentRequestField::Amount => first.amount == second.amount,
        PaymentRequestField::PaymentType => first.payment_type == second.payment_type,
        PaymentRequestField::MerchantInitiated => first.merchant_initiated == second.merchant_initiated,
        PaymentRequestField::Reference => first.reference == second.reference,
        PaymentRequestField::Description => first.description == second.description,
        PaymentRequestField::Capture => first.capture == second.capture,
        PaymentRequestField::CaptureOn => first.capture_on == second.capture_on,
        PaymentRequestField::Customer => first.customer == second.customer,
        PaymentRequestField::BillingDescriptor => first.billing_descriptor == second.billing_descriptor,
        PaymentRequestField::Shipping => first.shipping == second.shipping,
        PaymentRequestField::ThreeDs => first.three_ds == second.three_ds,
        PaymentRequestField::PreviousPaymentId => first.previous_payment_id == second.previous_payment_id,
        PaymentRequestField::Risk => first.risk == second.risk,
        PaymentRequestField::SuccessUrl => first.success_url == second.success_url,
        PaymentRequestField::FailureUrl => first.failure_url == second.failure_url,
        PaymentRequestField::PaymentIp => first.payment_ip == second.payment_ip,
        PaymentRequestField::Recipient => first.recipient == second.recipient,
        PaymentRequestField::Processing => first.processing == second.processing,
        PaymentRequestField::Instruction => first.instruction == second.instruction,
        PaymentRequestField::Sender => first.sender == second.sender,
        PaymentRequestField::Metadata => first.metadata == second.metadata,
    }
}

/// Applying a setting fills its field and leaves every other field, the
/// currency and the processing channel as they were.
proof fn apply_setting_fills_only_its_field(request: CreatePaymentRequest, setting: PaymentRequestSetting)
    ensures
        setting_holds(apply_setting(request, setting), setting),
        apply_setting(request, setting).currency == request.currency,
        apply_setting(request, setting).processing_channel_id == request.processing_channel_id,
        forall|field: PaymentRequestField| field != setting_field(setting)
            ==> #[trigger] field_agrees(apply_setting(request, setting), request, field),
{
    reveal(apply_setting);
    reveal(setting_holds);
    reveal(field_agrees);
    reveal(setting_field);
}

/// Whether a setting holds depends only on the field that it fills.
proof fn setting_holds_on_its_field(first: CreatePaymentRequest, second: CreatePaymentRequest, setting: PaymentRequestSetting)
    requires
        field_agrees(first, second, setting_field(setting)),
    ensures
        setting_holds(first, setting) == setting_holds(second, setting),
{
    reveal(setting_holds);
    reveal(field_agrees);
    reveal(setting_field);
}

/// Agreement on a field is reflexive and transitive.
proof fn field_agreement_is_an_equivalence(
    first: CreatePaymentRequest,
    second: CreatePaymentRequest,
    third: CreatePaymentRequest,
    field: PaymentRequestField,
)
    ensures
        field_agrees(first, first, field),
        field_agrees(first, second, field) && field_agrees(second, third, field)
            ==> field_agrees(first, third, field),
{
    reveal(field_agrees);
}

/// What a builder holds after any sequence of setter calls: each field holds
/// the value of the last call that sets it, and a field that no call sets
/// keeps the value it had (for a fresh builder, `None`, or `Regular` and
/// `false` for the payment type and the merchant flag). The currency and the
/// processing channel never change.
pub proof fn settings_last_call_wins(request: CreatePaymentRequest, settings: Seq<PaymentRequestSetting>)
    ensures
        apply_settings(request, settings).currency == request.currency,
        apply_settings(request, settings).processing_channel_id == request.processing_channel_id,
        forall|i: int|
            0 <= i < settings.len() && (forall|j: int| i < j < settings.len()
                ==> setting_field(#[trigger] settings[j]) != setting_field(settings[i]))
            ==> setting_holds(apply_settings(request, settings), #[trigger] settings[i]),
        forall|field: PaymentRequestField|
            (forall|i: int| 0 <= i < settings.len() ==> setting_field(#[trigger] settings[i]) != field)
            ==> #[trigger] field_agrees(apply_settings(request, settings), request, field),
    decreases settings.len(),
{
    if settings.len() == 0 {
        assert forall|field: PaymentRequestField|
            (forall|i: int| 0 <= i < settings.len() ==> setting_field(#[trigger] settings[i]) != field)
            implies #[trigger] field_agrees(apply_settings(request, settings), request, field) by {
            field_agreement_is_an_equivalence(request, request, request, field);
        }
    } else {
        let earlier = settings.drop_last();
        let last = settings.last();
        let before = apply_settings(request, earlier);
        let after = apply_settings(request, settings);
        settings_last_call_wins(request, earlier);
        apply_setting_fills_only_its_field(before, last);
        assert(after == apply_setting(before, last));
        assert forall|i: int|
            0 <= i < settings.len() && (forall|j: int| i < j < settings.len()
                ==> setting_field(#[trigger] settings[j]) != setting_field(settings[i]))
            implies setting_holds(after, #[trigger] settings[i]) by {
            if i < settings.len() - 1 {
                assert(earlier[i] == settings[i]);
                assert forall|j: int| i < j < earlier.len()
                    implies setting_field(#[trigger] earlier[j]) != setting_field(earlier[i]) by {
                    assert(earlier[j] == settings[j]);
                }
                assert(setting_field(settings[settings.len() - 1]) != setting_field(settings[i]));
                assert(field_agrees(after, before, setting_field(settings[i])));
                setting_holds_on_its_field(after, before, settings[i]);
            }
        }
        assert forall|field: PaymentRequestField|
            (forall|i: int| 0 <= i < settings.len() ==> setting_field(#[trigger] settings[i]) != field)
            implies #[trigger] field_agrees(after, request, field) by {
            assert forall|i: int| 0 <= i < earlier.len()
                implies setting_field(#[trigger] earlier[i]) != field by {
                assert(earlier[i] == settings[i]);
            }
            assert(setting_field(settings[settings.len() - 1]) != field);
            assert(field_agrees(before, request, field));
            assert(field_agrees(after, before, field));
            field_agreement_is_an_equivalence(after, before, request, field);
        }
    }
}

/// Setter calls on different fields commute: either order builds the same
/// request.
#[verifier::rlimit(60)]
pub proof fn settings_of_different_fields_commute(
    request: CreatePaymentRequest,
    first: PaymentRequestSetting,
    second: PaymentRequestSetting,
)
    requires
        setting_field(first) != setting_field(second),
    ensures
        apply_setting(apply_setting(request, first), second)
            == apply_setting(apply_setting(request, second), first),
{
    reveal(apply_setting);
    reveal(setting_field);
}

} // verus!
