//! Request bodies of the payment operations, and a builder for payment
//! requests.

use vstd::prelude::*;

use super::request_settings::{apply_setting, PaymentRequestSetting};
use super::{
    Amount, BillingDescriptor, Currency, CustomerDescriptor, DestinationInstruction, Metadata,
    PaymentProcessingDescriptor, PaymentRecipient, PaymentRequestDestination, PaymentRequestSource,
    PaymentSenderDetails, PaymentType, RiskRequest, ShippingDescriptor, _3DSRequest,
};

verus! {

/// The request body to be used to authenticate
#[derive(Debug, Clone)]
pub struct OAuthTokenRequest {
    /// Probably "`client_credentials`"
    pub grant_type: String,

    /// Determines what endpoints the requested token can access
    ///
    /// See [Authentication](https://api-reference.checkout.com/preview/crusoe/#section/Authentication)
    /// for possible scopes
    pub scope: String,
}

/// Request body for a payment or payout
///
/// To accept payments from cards, digital wallets and many alternative payment
/// methods, specify the `source.type` field, along with the source-specific
/// data.
///
/// To pay out to a card, specify the destination of your payout using the
/// `destination.type` field, along with the destination-specific data.
///
/// See: [Payment Methods](https://docs.checkout.com/payments/payment-methods)
#[derive(Debug, Clone)]
pub struct CreatePaymentRequest {
    /// The source of the payment. Use to request a payment.
    pub source: Option<PaymentRequestSource>,

    /// The destination of the payout. Use to pay out to a card.
    pub destination: Option<PaymentRequestDestination>,

    /// The payment amount. The exact format depends on the currency. Omit the
    /// amount or provide a value of 0 to perform a card verification.
    ///
    /// See: [Calculating the value](https://docs.checkout.com/resources/calculating-the-value)
    pub amount: Option<Amount>,

    /// The three-letter ISO country code
    pub currency: Currency,

    /// This must be specified for card payments where the cardholder is not
    /// present (i.e., recurring or mail order / telephone order) (default:
    /// Regular)
    pub payment_type: PaymentType,

    /// Flags the payment as a merchant-initiated transaction (MIT). Must be
    /// set to true for all MITs.
    ///
    /// See: [Requirements for stored payment details](https://docs.checkout.com/payments/store-payment-details/requirements-for-stored-payment-details)
    pub merchant_initiated: bool,

    /// A reference you can later use to identify this payment, such as an
    /// order number. Required when processing via dLocal or Bambora. (<= 50
    /// characters)
    pub reference: Option<String>,

    /// A description of the payment (<= 100 characters)
    pub description: Option<String>,

    /// Whether to capture the payment (if applicable) (default: true)
    pub capture: Option<bool>,

    /// A timestamp (ISO 8601 code) that determines when the payment should be
    /// captured. Providing this field will automatically set capture to true
    pub capture_on: Option<String>,

    /// The customer's details
    pub customer: Option<CustomerDescriptor>,

    /// An optional dynamic billing descriptor displayed on the account owner's
    /// statement
    pub billing_descriptor: Option<BillingDescriptor>,

    /// The shipping details
    pub shipping: Option<ShippingDescriptor>,

    /// Information required for 3D Secure payments
    pub three_ds: Option<_3DSRequest>,

    /// For payments that use stored card details, such as recurring payments –
    /// an existing payment identifier from the recurring series or the Scheme
    /// Transaction Id (<= 100 characters)
    ///
    /// See: [Requirements for stored payment details](https://docs.checkout.com/payments/store-payment-details/requirements-for-stored-payment-details)
    pub previous_payment_id: Option<String>,

    /// Configures the risk assessment performed during the processing of the
    /// payment
    pub risk: Option<RiskRequest>,

    /// For redirect payment methods, this overrides the default success
    /// redirect URL configured on your account (<= 255 characters)
    pub success_url: Option<String>,

    /// For redirect payment methods, this overrides the default failure
    /// redirect URL configured on your account (<= 255 characters)
    pub failure_url: Option<String>,

    /// The IP address used to make the payment. Required for some risk checks
    /// (<= 45 characters)
    pub payment_ip: Option<String>,

    /// Information about the recipient of the payment's funds. Relevant for
    /// both Account Funding Transactions and VISA or `MasterCard` domestic UK
    /// transactions processed by Financial Institutions.
    ///
    /// See: [Account Funding Transactions](https://docs.checkout.com/payments/manage-payments/account-funding-transactions)
    /// and [Requirements for financial institutions](https://docs.checkout.com/risk-management/requirements-for-financial-institutions)
    pub recipient: Option<PaymentRecipient>,

    /// Use the processing object to influence or override the data sent during
    /// card processing
    pub processing: Option<PaymentProcessingDescriptor>,

    /// The processing channel to be used for the payment
    ///
    /// This can be found under a Payment Method in the Checkout dashboard.
    pub processing_channel_id: String,

    /// Additional details about the payout instruction.
    pub instruction: Option<DestinationInstruction>,

    /// The sender of the payout.
    ///
    /// This field is required for money transfer card payouts.
    pub sender: Option<PaymentSenderDetails>,

    /// Allows you to store additional information about a transaction with
    /// custom fields and up to five user-defined fields (`udf1` to `udf5`),
    /// which can be used for reporting purposes. `udf1` is also used for some
    /// of our risk rules.
    pub metadata: Option<Metadata>,
}

/// A builder for `CreatePaymentRequest`.
#[derive(Debug, Clone)]
pub struct CreatePaymentRequestBuilder {
    source: Option<PaymentRequestSource>,
    destination: Option<PaymentRequestDestination>,
    amount: Option<Amount>,
    currency: Currency,
    payment_type: PaymentType,
    merchant_initiated: bool,
    reference: Option<String>,
    description: Option<String>,
    capture: Option<bool>,
    capture_on: Option<String>,
    customer: Option<CustomerDescriptor>,
    billing_descriptor: Option<BillingDescriptor>,
    shipping: Option<ShippingDescriptor>,
    three_ds: Option<_3DSRequest>,
    previous_payment_id: Option<String>,
    risk: Option<RiskRequest>,
    success_url: Option<String>,
    failure_url: Option<String>,
    payment_ip: Option<String>,
    recipient: Option<PaymentRecipient>,
    processing: Option<PaymentProcessingDescriptor>,
    processing_channel_id: String,
    instruction: Option<DestinationInstruction>,
    sender: Option<PaymentSenderDetails>,
    metadata: Option<Metadata>,
}

impl View for CreatePaymentRequestBuilder {
    type V = CreatePaymentRequest;

    /// The request that `build` makes of the builder as it stands.
    closed spec fn view(&self) -> CreatePaymentRequest {
        CreatePaymentRequest {
            source: self.source,
            destination: self.destination,
            amount: self.amount,
            currency: self.currency,
            payment_type: self.payment_type,
            merchant_initiated: self.merchant_initiated,
            reference: self.reference,
            description: self.description,
            capture: self.capture,
            capture_on: self.capture_on,
            customer: self.customer,
            billing_descriptor: self.billing_descriptor,
            shipping: self.shipping,
            three_ds: self.three_ds,
            previous_payment_id: self.previous_payment_id,
            risk: self.risk,
            success_url: self.success_url,
            failure_url: self.failure_url,
            payment_ip: self.payment_ip,
            recipient: self.recipient,
            processing: self.processing,
            processing_channel_id: self.processing_channel_id,
            instruction: self.instruction,
            sender: self.sender,
            metadata: self.metadata,
        }
    }
}

/// The request that a fresh builder holds: a regular, customer-initiated
/// payment in `currency` through `processing_channel_id`, with every optional
/// field unset.
pub open spec fn fresh_payment_request(currency: Currency, processing_channel_id: String) -> CreatePaymentRequest {
    CreatePaymentRequest {
        source: None,
        destination: None,
        amount: None,
        currency: currency,
        payment_type: PaymentType::Regular,
        merchant_initiated: false,
        reference: None,
        description: None,
        capture: None,
        capture_on: None,
        customer: None,
        billing_descriptor: None,
        shipping: None,
        three_ds: None,
        previous_payment_id: None,
        risk: None,
        success_url: None,
        failure_url: None,
        payment_ip: None,
        recipient: None,
        processing: None,
        processing_channel_id: processing_channel_id,
        instruction: None,
        sender: None,
        metadata: None,
    }
}

/// A payment built straight from a fresh builder is a regular payment that
/// the customer initiates, for no stated amount, from no stated source, and
/// with the currency and processing channel that the builder was given.
pub proof fn fresh_payment_is_regular_and_customer_initiated(currency: Currency, processing_channel_id: String)
    ensures
        ({
            let request = fresh_payment_request(currency, processing_channel_id);
            &&& request.payment_type == PaymentType::Regular
            &&& !request.merchant_initiated
            &&& request.amount is None
            &&& request.source is None
            &&& request.destination is None
            &&& request.capture is None
            &&& request.currency == currency
            &&& request.processing_channel_id == processing_channel_id
        }),
{
}

impl CreatePaymentRequestBuilder {
    /// Creates a new `CreatePaymentRequestBuilder`.
    #[must_use]
    pub fn new(currency: Currency, processing_channel_id: String) -> (builder: Self)
        ensures
            builder@ == fresh_payment_request(currency, processing_channel_id),
    {
        Self {
            source: None,
            destination: None,
            amount: None,
            currency,
            payment_type: PaymentType::Regular,
            merchant_initiated: false,
            reference: None,
            description: None,
            capture: None,
            capture_on: None,
            customer: None,
            billing_descriptor: None,
            shipping: None,
            three_ds: None,
            previous_payment_id: None,
            risk: None,
            success_url: None,
            failure_url: None,
            payment_ip: None,
            recipient: None,
            processing: None,
            processing_channel_id,
            instruction: None,
            sender: None,
            metadata: None,
        }
    }

    /// Sets the source of the payment.
    #[must_use]
    pub fn source(self, source: PaymentRequestSource) -> (builder: Self)
        ensures
            builder@ == apply_setting(self@, PaymentRequestSetting::Source(source)),
    {
        proof {
            reveal(apply_setting);
        }
        let mut updated = self;
        updated.source = Some(source);
        updated
    }

    /// Sets the destination of the payment.
    #[must_use]
    pub fn destination(self, destination: PaymentRequestDestination) -> (builder: Self)
        ensures
            builder@ == apply_setting(self@, PaymentRequestSetting::Destination(destination)),
    {
        proof {
            reveal(apply_setting);
        }
        let mut updated = self;
        updated.destination = Some(destination);
        updated
    }

    /// Sets the amount of the payment.
    #[must_use]
    pub fn amount(self, amount: Amount) -> (builder: Self)
        ensures
            builder@ == apply_setting(self@, PaymentRequestSetting::Amount(amount)),
    {
        proof {
            reveal(apply_setting);
        }
        let mut updated = self;
        updated.amount = Some(amount);
        updated
    }

    /// Sets the payment type.
    #[must_use]
    pub fn payment_type(self, payment_type: PaymentType) -> (builder: Self)
        ensures
            builder@ == apply_setting(self@, PaymentRequestSetting::PaymentType(payment_type)),
    {
        proof {
            reveal(apply_setting);
        }
        let mut updated = self;
        updated.payment_type = payment_type;
        updated
    }

    /// Sets whether the payment is merchant-initiated.
    #[must_use]
    pub fn merchant_initiated(self, merchant_initiated: bool) -> (builder: Self)
        ensures
            builder@ == apply_setting(self@, PaymentRequestSetting::MerchantInitiated(merchant_initiated)),
    {
        proof {
            reveal(apply_setting);
        }
        let mut updated = self;
        updated.merchant_initiated = merchant_initiated;
        updated
    }

    /// Sets the reference for the payment.
    #[must_use]
    pub fn reference(self, reference: String) -> (builder: Self)
        ensures
            builder@ == apply_setting(self@, PaymentRequestSetting::Reference(reference)),
    {
        proof {
            reveal(apply_setting);
        }
        let mut updated = self;
        updated.reference = Some(reference);
        updated
    }

    /// Sets the description for the payment.
    #[must_use]
    pub fn description(self, description: String) -> (builder: Self)
        ensures
            builder@ == apply_setting(self@, PaymentRequestSetting::Description(description)),
    {
        proof {
            reveal(apply_setting);
        }
        let mut updated = self;
        updated.description = Some(description);
        updated
    }

    /// Sets whether to capture the payment.
    #[must_use]
    pub fn capture(self, capture: bool) -> (builder: Self)
        ensures
            builder@ == apply_setting(self@, PaymentRequestSetting::Capture(capture)),
    {
        proof {
            reveal(apply_setting);
        }
        let mut updated = self;
        updated.capture = Some(capture);
        updated
    }

    /// Sets the capture timestamp for the payment.
    #[must_use]
    pub fn capture_on(self, capture_on: String) -> (builder: Self)
        ensures
            builder@ == apply_setting(self@, PaymentRequestSetting::CaptureOn(capture_on)),
    {
        proof {
            reveal(apply_setting);
        }
        let mut updated = self;
        updated.capture_on = Some(capture_on);
        updated
    }

    /// Sets the customer for the payment.
    #[must_use]
    pub fn customer(self, customer: CustomerDescriptor) -> (builder: Self)
        ensures
            builder@ == apply_setting(self@, PaymentRequestSetting::Customer(customer)),
    {
        proof {
            reveal(apply_setting);
        }
        let mut updated = self;
        updated.customer = Some(customer);
        updated
    }

    /// Sets the billing descriptor for the payment.
    #[must_use]
    pub fn billing_descriptor(self, billing_descriptor: BillingDescriptor) -> (builder: Self)
        ensures
            builder@ == apply_setting(self@, PaymentRequestSetting::BillingDescriptor(billing_descriptor)),
    {
        proof {
            reveal(apply_setting);
        }
        let mut updated = self;
        updated.billing_descriptor = Some(billing_descriptor);
        updated
    }

    /// Sets the shipping details for the payment.
    #[must_use]
    pub fn shipping(self, shipping: ShippingDescriptor) -> (builder: Self)
        ensures
            builder@ == apply_setting(self@, PaymentRequestSetting::Shipping(shipping)),
    {
        proof {
            reveal(apply_setting);
        }
        let mut updated = self;
        updated.shipping = Some(shipping);
        updated
    }

    /// Sets the 3D Secure details for the payment.
    #[must_use]
    pub fn three_ds(self, three_ds: _3DSRequest) -> (builder: Self)
        ensures
            builder@ == apply_setting(self@, PaymentRequestSetting::ThreeDs(three_ds)),
    {
        proof {
            reveal(apply_setting);
        }
        let mut updated = self;
        updated.three_ds = Some(three_ds);
        updated
    }

    /// Sets the previous payment ID for the payment.
    #[must_use]
    pub fn previous_payment_id(self, previous_payment_id: String) -> (builder: Self)
        ensures
            builder@ == apply_setting(self@, PaymentRequestSetting::PreviousPaymentId(previous_payment_id)),
    {
        proof {
            reveal(apply_setting);
        }
        let mut updated = self;
        updated.previous_payment_id = Some(previous_payment_id);
        updated
    }

    /// Sets the risk request for the payment.
    #[must_use]
    pub fn risk(self, risk: RiskRequest) -> (builder: Self)
        ensures
            builder@ == apply_setting(self@, PaymentRequestSetting::Risk(risk)),
    {
        proof {
            reveal(apply_setting);
        }
        let mut updated = self;
        updated.risk = Some(risk);
        updated
    }

    /// Sets the success URL for the payment.
    #[must_use]
    pub fn success_url(self, success_url: String) -> (builder: Self)
        ensures
            builder@ == apply_setting(self@, PaymentRequestSetting::SuccessUrl(success_url)),
    {
        proof {
            reveal(apply_setting);
        }
        let mut updated = self;
        updated.success_url = Some(success_url);
        updated
    }

    /// Sets the failure URL for the payment.
    #[must_use]
    pub fn failure_url(self, failure_url: String) -> (builder: Self)
        ensures
            builder@ == apply_setting(self@, PaymentRequestSetting::FailureUrl(failure_url)),
    {
        proof {
            reveal(apply_setting);
        }
        let mut updated = self;
        updated.failure_url = Some(failure_url);
        updated
    }

    /// Sets the payment IP for the payment.
    #[must_use]
    pub fn payment_ip(self, payment_ip: String) -> (builder: Self)
        ensures
            builder@ == apply_setting(self@, PaymentRequestSetting::PaymentIp(payment_ip)),
    {
        proof {
            reveal(apply_setting);
        }
        let mut updated = self;
        updated.payment_ip = Some(payment_ip);
        updated
    }

    /// Sets the recipient for the payment.
    #[must_use]
    pub fn recipient(self, recipient: PaymentRecipient) -> (builder: Self)
        ensures
            builder@ == apply_setting(self@, PaymentRequestSetting::Recipient(recipient)),
    {
        proof {
            reveal(apply_setting);
        }
        let mut updated = self;
        updated.recipient = Some(recipient);
        updated
    }

    /// Sets the processing descriptor for the payment.
    #[must_use]
    pub fn processing(self, processing: PaymentProcessingDescriptor) -> (builder: Self)
        ensures
            builder@ == apply_setting(self@, PaymentRequestSetting::Processing(processing)),
    {
        proof {
            reveal(apply_setting);
        }
        let mut updated = self;
        updated.processing = Some(processing);
        updated
    }

    /// Sets the instruction for the payment.
    #[must_use]
    pub fn instruction(self, instruction: DestinationInstruction) -> (builder: Self)
        ensures
            builder@ == apply_setting(self@, PaymentRequestSetting::Instruction(instruction)),
    {
        proof {
            reveal(apply_setting);
        }
        let mut updated = self;
        updated.instruction = Some(instruction);
        updated
    }

    /// Sets the sender details for the payment.
    #[must_use]
    pub fn sender(self, sender: PaymentSenderDetails) -> (builder: Self)
        ensures
            builder@ == apply_setting(self@, PaymentRequestSetting::Sender(sender)),
    {
        proof {
            reveal(apply_setting);
        }
        let mut updated = self;
        updated.sender = Some(sender);
        updated
    }

    /// Sets the metadata for the payment.
    #[must_use]
    pub fn metadata(self, metadata: Metadata) -> (builder: Self)
        ensures
            builder@ == apply_setting(self@, PaymentRequestSetting::Metadata(metadata)),
    {
        proof {
            reveal(apply_setting);
        }
        let mut updated = self;
        updated.metadata = Some(metadata);
        updated
    }

    /// Builds the `CreatePaymentRequest`.
    #[must_use]
    pub fn build(self) -> (request: CreatePaymentRequest)
        ensures
            request == self@,
    {
        CreatePaymentRequest {
            source: self.source,
            destination: self.destination,
            amount: self.amount,
            currency: self.currency,
            payment_type: self.payment_type,
            merchant_initiated: self.merchant_initiated,
            reference: self.reference,
            description: self.description,
            capture: self.capture,
            capture_on: self.capture_on,
            customer: self.customer,
            billing_descriptor: self.billing_descriptor,
            shipping: self.shipping,
            three_ds: self.three_ds,
            previous_payment_id: self.previous_payment_id,
            risk: self.risk,
            success_url: self.success_url,
            failure_url: self.failure_url,
            payment_ip: self.payment_ip,
            recipient: self.recipient,
            processing: self.processing,
            processing_channel_id: self.processing_channel_id,
            instruction: self.instruction,
            sender: self.sender,
            metadata: self.metadata,
        }
    }
}

/// Body used in the request to capture a payment
#[derive(Debug, Clone)]
pub struct CapturePaymentBody {
    /// The amount to capture. If not specified, the full payment amount will
    /// be captured
    pub amount: Option<u64>,

    /// A reference you can later use to identify this capture request
    pub reference: Option<String>,

    /// A set of key-value pairs that you can attach to the capture request.
    /// This can be useful for storing additional information in a structured
    /// format
    pub metadata: Option<Metadata>,
}

/// Body used in the request to refund a payment
#[derive(Debug, Clone)]
pub struct RefundPaymentBody {
    /// The amount to refund. If not specified, the full payment amount will
    /// be refunded
    pub amount: Option<u64>,

    /// A reference you can later use to identify this refund request
    pub reference: Option<String>,

    /// A set of key-value pairs that you can attach to the refund request.
    /// This can be useful for storing additional information in a structured
    /// format
    pub metadata: Option<Metadata>,
}

/// Request body for creating a payment session
#[derive(Debug, Clone)]
pub struct CreatePaymentSessionRequest {
    /// The payment amount
    pub amount: u64,

    /// The three-letter ISO currency code
    pub currency: Currency,

    /// A reference you can later use to identify this payment session
    pub reference: String,

    /// The billing details
    pub billing: Option<BillingDescriptor>,

    /// The customer's details
    pub customer: Option<CustomerDescriptor>,

    /// The URL to redirect to if the payment is successful
    pub success_url: String,

    /// The URL to redirect to if the payment fails
    pub failure_url: String,
}

/// Body used in the request to void a payment
#[derive(Debug, Clone)]
pub struct VoidPaymentBody {
    /// A reference you can later use to identify this void request
    pub reference: Option<String>,

    /// A set of key-value pairs that you can attach to the void request.
    /// This can be useful for storing additional information in a structured
    /// format
    pub metadata: Option<Metadata>,
}

/// Request body to create an instrument
#[derive(Debug, Clone)]
pub struct CreateInstrumentBody {
    /// The instrument type
    ty: String,
}

} // verus!
