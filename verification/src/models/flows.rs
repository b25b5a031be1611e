//! Bodies of the payment-session requests and their responses.

use vstd::prelude::*;

use crate::models::shared::{
    BillingDescriptor, BillingInformation, Currency, CustomerDescriptor, DestinationInstruction,
    Links, Metadata, PaymentRecipient, PaymentSenderDetails, PaymentType, RiskRequest,
    ShippingDescriptor, _3DSRequest,
};

verus! {
// ---------------------------------------------------------------------------
// Create Payment Session
// ---------------------------------------------------------------------------

/// Request body for creating a payment session
///
/// [`POST /payment-sessions`](https://api-reference.checkout.com/#operation/CreatePaymentSession)
#[derive(Debug, Clone)]
pub struct CreatePaymentSessionRequest {
    /// The payment amount
    pub amount: u64,

    /// The three-letter ISO currency code
    pub currency: Currency,

    /// The processing channel to be used for the payment
    pub processing_channel_id: String,

    /// A reference you can later use to identify this payment session
    pub reference: String,

    /// The billing details
    pub billing: BillingInformation,

    /// The customer's details
    pub customer: Option<CustomerDescriptor>,

    /// The URL to redirect to if the payment is successful
    pub success_url: String,

    /// The URL to redirect to if the payment fails
    pub failure_url: String,

    /// The payment type (e.g., Regular, Recurring, MOTO)
    pub payment_type: Option<PaymentType>,

    /// A description of the purchase, displayed on the customer's statement
    pub billing_descriptor: Option<BillingDescriptor>,

    /// A description for the payment
    pub description: Option<String>,

    /// The shipping details
    pub shipping: Option<ShippingDescriptor>,

    /// Information about the recipient of the payment's funds
    pub recipient: Option<PaymentRecipient>,

    /// Use the processing object to influence or override the data sent during
    /// card processing
    pub processing: Option<serde_json::Value>,

    /// Details about the payment instruction
    pub instruction: Option<DestinationInstruction>,

    /// The line items in the order
    pub items: Option<Vec<serde_json::Value>>,

    /// The sub-entities that the payment is being processed on behalf of
    pub amount_allocations: Option<Vec<serde_json::Value>>,

    /// Configures the risk assessment performed during payment processing
    pub risk: Option<RiskRequest>,

    /// The merchant's display name
    pub display_name: Option<String>,

    /// Allows you to store additional information about a transaction
    pub metadata: Option<Metadata>,

    /// Creates a translated version of the page in the specified language
    pub locale: Option<String>,

    /// Information required for 3D Secure authentication payments
    pub three_ds: Option<_3DSRequest>,

    /// The sender of the payment
    pub sender: Option<PaymentSenderDetails>,

    /// Specifies whether to capture the payment, if applicable
    pub capture: Option<bool>,

    /// A timestamp specifying when to capture the payment (ISO 8601)
    pub capture_on: Option<String>,

    /// A timestamp specifying when the PaymentSession should expire (ISO 8601)
    pub expires_on: Option<String>,

    /// Specifies which payment method options to present to the customer
    pub enabled_payment_methods: Option<Vec<String>>,

    /// Specifies which payment method options to not present to the customer
    pub disabled_payment_methods: Option<Vec<String>>,

    /// Configurations for payment method-specific settings
    pub payment_method_configuration: Option<serde_json::Value>,

    /// Configuration for asynchronous retries
    pub customer_retry: Option<serde_json::Value>,

    /// The Customer's IP address (IPv4 or IPv6)
    pub ip_address: Option<String>,
}

/// Response for creating a payment session
#[derive(Debug, Clone)]
pub struct CreatePaymentSessionResponse {
    /// The payment session identifier
    pub id: String,

    /// A unique token representing the payment session, used to initialize Flow
    pub payment_session_token: String,

    /// The payment session secret
    pub payment_session_secret: String,

    /// The links related to the payment session
    pub links: Links,
}

// ---------------------------------------------------------------------------
// Submit Payment Session
// ---------------------------------------------------------------------------

/// Request body for submitting a payment attempt for an existing payment session.
///
/// [`PUT /payment-sessions/{id}/submit`](https://api-reference.checkout.com/#operation/SubmitPaymentSession)
#[derive(Debug, Clone)]
pub struct SubmitPaymentSessionRequest {
    /// A unique token representing the additional customer data captured by
    /// Flow, as received from the handleSubmit callback. Do not log or store
    /// this value.
    pub session_data: String,

    /// The payment amount override (minor currency unit)
    pub amount: Option<u64>,

    /// Overrides the default success redirect URL
    pub success_url: Option<String>,

    /// Overrides the default failure redirect URL
    pub failure_url: Option<String>,

    /// The payment type (e.g., Regular, Recurring, MOTO)
    pub payment_type: Option<PaymentType>,

    /// A description of the purchase, displayed on the customer's statement
    pub billing_descriptor: Option<BillingDescriptor>,

    /// A reference you can use to identify the payment
    pub reference: Option<String>,

    /// The line items in the order
    pub items: Option<Vec<serde_json::Value>>,

    /// Information required for 3D Secure authentication payments
    pub three_ds: Option<_3DSRequest>,

    /// The Customer's IP address (IPv4 or IPv6)
    pub ip_address: Option<String>,

    /// Configurations for payment method-specific settings
    pub payment_method_configuration: Option<serde_json::Value>,

    /// Information about the recipient of the payment's funds
    pub recipient: Option<PaymentRecipient>,

    /// Details about the payment instruction
    pub instruction: Option<DestinationInstruction>,

    /// The sender of the payment
    pub sender: Option<PaymentSenderDetails>,

    /// Specifies whether to capture the payment, if applicable
    pub capture: Option<bool>,

    /// A timestamp specifying when to capture the payment (ISO 8601)
    pub capture_on: Option<String>,
}

/// Response for submitting a payment session.
///
/// Returned for both 201 (processed) and 202 (async/redirect) responses.
#[derive(Debug, Clone)]
pub struct SubmitPaymentSessionResponse {
    /// The payment's unique identifier (format: `pay_*`)
    pub id: String,

    /// The status of the payment (e.g., "Approved", "Pending")
    pub status: String,

    /// The payment method type used (e.g., "card", "applepay", "alipay_cn")
    pub payment_type: Option<String>,
}

// ---------------------------------------------------------------------------
// Create and Submit Payment Session
// ---------------------------------------------------------------------------

/// Request body for creating a payment session and submitting a payment attempt
/// in a single request.
///
/// [`POST /payment-sessions/submit`](https://api-reference.checkout.com/#operation/CreateAndSubmitPaymentSession)
#[derive(Debug, Clone)]
pub struct CreateAndSubmitPaymentSessionRequest {
    /// A unique token representing the additional customer data captured by
    /// Flow, as received from the handleSubmit callback. Do not log or store
    /// this value.
    pub session_data: String,

    /// The payment amount (minor currency unit)
    pub amount: u64,

    /// The three-letter ISO currency code
    pub currency: Currency,

    /// The processing channel to be used for the payment
    pub processing_channel_id: String,

    /// A reference you can later use to identify this payment
    pub reference: String,

    /// The billing details
    pub billing: BillingInformation,

    /// The customer's details
    pub customer: Option<CustomerDescriptor>,

    /// The URL to redirect to if the payment is successful
    pub success_url: String,

    /// The URL to redirect to if the payment fails
    pub failure_url: String,

    /// The payment type (e.g., Regular, Recurring, MOTO)
    pub payment_type: Option<PaymentType>,

    /// A description of the purchase, displayed on the customer's statement
    pub billing_descriptor: Option<BillingDescriptor>,

    /// A description for the payment
    pub description: Option<String>,

    /// The shipping details
    pub shipping: Option<ShippingDescriptor>,

    /// Information about the recipient of the payment's funds
    pub recipient: Option<PaymentRecipient>,

    /// Use the processing object to influence or override the data sent during
    /// card processing
    pub processing: Option<serde_json::Value>,

    /// Details about the payment instruction
    pub instruction: Option<DestinationInstruction>,

    /// The line items in the order
    pub items: Option<Vec<serde_json::Value>>,

    /// The sub-entities that the payment is being processed on behalf of
    pub amount_allocations: Option<Vec<serde_json::Value>>,

    /// Configures the risk assessment performed during payment processing
    pub risk: Option<RiskRequest>,

    /// The merchant's display name
    pub display_name: Option<String>,

    /// Allows you to store additional information about a transaction
    pub metadata: Option<Metadata>,

    /// Creates a translated version of the page in the specified language
    pub locale: Option<String>,

    /// Information required for 3D Secure authentication payments
    pub three_ds: Option<_3DSRequest>,

    /// The sender of the payment
    pub sender: Option<PaymentSenderDetails>,

    /// Specifies whether to capture the payment, if applicable
    pub capture: Option<bool>,

    /// A timestamp specifying when to capture the payment (ISO 8601)
    pub capture_on: Option<String>,
}

/// Response for creating and submitting a payment session in a single request.
///
/// Returned for both 201 (processed) and 202 (async/redirect) responses.
#[derive(Debug, Clone)]
pub struct CreateAndSubmitPaymentSessionResponse {
    /// The payment's unique identifier (format: `pay_*`)
    pub id: String,

    /// The status of the payment (e.g., "Approved", "Pending")
    pub status: String,

    /// The payment method type used (e.g., "card", "applepay", "alipay_cn")
    pub payment_type: Option<String>,

    /// The payment session identifier (format: `ps_*`)
    pub payment_session_id: Option<String>,

    /// The payment session secret
    pub payment_session_secret: Option<String>,
}

// ---------------------------------------------------------------------------
// Builders
// ---------------------------------------------------------------------------

/// A builder for the request body of creating a payment session: each field holds
/// the value set so far, if any. The required fields are `amount`, `currency`, `processing_channel_id`, `reference`, `billing`, `success_url`, `failure_url`.
#[derive(Debug, Clone)]
pub struct CreatePaymentSessionRequestBuilder {
    pub amount: Option<u64>,
    pub currency: Option<Currency>,
    pub processing_channel_id: Option<String>,
    pub reference: Option<String>,
    pub billing: Option<BillingInformation>,
    pub customer: Option<CustomerDescriptor>,
    pub success_url: Option<String>,
    pub failure_url: Option<String>,
    pub payment_type: Option<PaymentType>,
    pub billing_descriptor: Option<BillingDescriptor>,
    pub description: Option<String>,
    pub shipping: Option<ShippingDescriptor>,
    pub recipient: Option<PaymentRecipient>,
    pub processing: Option<serde_json::Value>,
    pub instruction: Option<DestinationInstruction>,
    pub items: Option<Vec<serde_json::Value>>,
    pub amount_allocations: Option<Vec<serde_json::Value>>,
    pub risk: Option<RiskRequest>,
    pub display_name: Option<String>,
    pub metadata: Option<Metadata>,
    pub locale: Option<String>,
    pub three_ds: Option<_3DSRequest>,
    pub sender: Option<PaymentSenderDetails>,
    pub capture: Option<bool>,
    pub capture_on: Option<String>,
    pub expires_on: Option<String>,
    pub enabled_payment_methods: Option<Vec<String>>,
    pub disabled_payment_methods: Option<Vec<String>>,
    pub payment_method_configuration: Option<serde_json::Value>,
    pub customer_retry: Option<serde_json::Value>,
    pub ip_address: Option<String>,
}

/// A builder with no field set.
pub open spec fn unset_create_payment_session_request_builder() -> CreatePaymentSessionRequestBuilder {
    CreatePaymentSessionRequestBuilder {
        amount: None,
        currency: None,
        processing_channel_id: None,
        reference: None,
        billing: None,
        customer: None,
        success_url: None,
        failure_url: None,
        payment_type: None,
        billing_descriptor: None,
        description: None,
        shipping: None,
        recipient: None,
        processing: None,
        instruction: None,
        items: None,
        amount_allocations: None,
        risk: None,
        display_name: None,
        metadata: None,
        locale: None,
        three_ds: None,
        sender: None,
        capture: None,
        capture_on: None,
        expires_on: None,
        enabled_payment_methods: None,
        disabled_payment_methods: None,
        payment_method_configuration: None,
        customer_retry: None,
        ip_address: None,
    }
}

impl CreatePaymentSessionRequestBuilder {
    /// The request that the builder makes: `None` while a required field is
    /// unset, else the request holding every field as set.
    pub open spec fn built_request(self) -> Option<CreatePaymentSessionRequest> {
        if self.amount is Some && self.currency is Some && self.processing_channel_id is Some && self.reference is Some && self.billing is Some && self.success_url is Some && self.failure_url is Some {
            Some(CreatePaymentSessionRequest {
                amount: self.amount->0,
                currency: self.currency->0,
                processing_channel_id: self.processing_channel_id->0,
                reference: self.reference->0,
                billing: self.billing->0,
                customer: self.customer,
                success_url: self.success_url->0,
                failure_url: self.failure_url->0,
                payment_type: self.payment_type,
                billing_descriptor: self.billing_descriptor,
                description: self.description,
                shipping: self.shipping,
                recipient: self.recipient,
                processing: self.processing,
                instruction: self.instruction,
                items: self.items,
                amount_allocations: self.amount_allocations,
                risk: self.risk,
                display_name: self.display_name,
                metadata: self.metadata,
                locale: self.locale,
                three_ds: self.three_ds,
                sender: self.sender,
                capture: self.capture,
                capture_on: self.capture_on,
                expires_on: self.expires_on,
                enabled_payment_methods: self.enabled_payment_methods,
                disabled_payment_methods: self.disabled_payment_methods,
                payment_method_configuration: self.payment_method_configuration,
                customer_retry: self.customer_retry,
                ip_address: self.ip_address,
            })
        } else {
            None
        }
    }

    /// Sets `amount`.
    pub fn amount(self, amount: u64) -> (builder: Self)
        ensures
            builder == (CreatePaymentSessionRequestBuilder { amount: Some(amount), ..self }),
    {
        let mut updated = self;
        updated.amount = Some(amount);
        updated
    }

    /// Sets `currency`.
    pub fn currency(self, currency: Currency) -> (builder: Self)
        ensures
            builder == (CreatePaymentSessionRequestBuilder { currency: Some(currency), ..self }),
    {
        let mut updated = self;
        updated.currency = Some(currency);
        updated
    }

    /// Sets `processing_channel_id`.
    pub fn processing_channel_id(self, processing_channel_id: String) -> (builder: Self)
        ensures
            builder == (CreatePaymentSessionRequestBuilder { processing_channel_id: Some(processing_channel_id), ..self }),
    {
        let mut updated = self;
        updated.processing_channel_id = Some(processing_channel_id);
        updated
    }

    /// Sets `reference`.
    pub fn reference(self, reference: String) -> (builder: Self)
        ensures
            builder == (CreatePaymentSessionRequestBuilder { reference: Some(reference), ..self }),
    {
        let mut updated = self;
        updated.reference = Some(reference);
        updated
    }

    /// Sets `billing`.
    pub fn billing(self, billing: BillingInformation) -> (builder: Self)
        ensures
            builder == (CreatePaymentSessionRequestBuilder { billing: Some(billing), ..self }),
    {
        let mut updated = self;
        updated.billing = Some(billing);
        updated
    }

    /// Sets `customer`.
    pub fn customer(self, customer: CustomerDescriptor) -> (builder: Self)
        ensures
            builder == (CreatePaymentSessionRequestBuilder { customer: Some(customer), ..self }),
    {
        let mut updated = self;
        updated.customer = Some(customer);
        updated
    }

    /// Sets `success_url`.
    pub fn success_url(self, success_url: String) -> (builder: Self)
        ensures
            builder == (CreatePaymentSessionRequestBuilder { success_url: Some(success_url), ..self }),
    {
        let mut updated = self;
        updated.success_url = Some(success_url);
        updated
    }

    /// Sets `failure_url`.
    pub fn failure_url(self, failure_url: String) -> (builder: Self)
        ensures
            builder == (CreatePaymentSessionRequestBuilder { failure_url: Some(failure_url), ..self }),
    {
        let mut updated = self;
        updated.failure_url = Some(failure_url);
        updated
    }

    /// Sets `payment_type`.
    pub fn payment_type(self, payment_type: PaymentType) -> (builder: Self)
        ensures
            builder == (CreatePaymentSessionRequestBuilder { payment_type: Some(payment_type), ..self }),
    {
        let mut updated = self;
        updated.payment_type = Some(payment_type);
        updated
    }

    /// Sets `billing_descriptor`.
    pub fn billing_descriptor(self, billing_descriptor: BillingDescriptor) -> (builder: Self)
        ensures
            builder == (CreatePaymentSessionRequestBuilder { billing_descriptor: Some(billing_descriptor), ..self }),
    {
        let mut updated = self;
        updated.billing_descriptor = Some(billing_descriptor);
        updated
    }

    /// Sets `description`.
    pub fn description(self, description: String) -> (builder: Self)
        ensures
            builder == (CreatePaymentSessionRequestBuilder { description: Some(description), ..self }),
    {
        let mut updated = self;
        updated.description = Some(description);
        updated
    }

    /// Sets `shipping`.
    pub fn shipping(self, shipping: ShippingDescriptor) -> (builder: Self)
        ensures
            builder == (CreatePaymentSessionRequestBuilder { shipping: Some(shipping), ..self }),
    {
        let mut updated = self;
        updated.shipping = Some(shipping);
        updated
    }

    /// Sets `recipient`.
    pub fn recipient(self, recipient: PaymentRecipient) -> (builder: Self)
        ensures
            builder == (CreatePaymentSessionRequestBuilder { recipient: Some(recipient), ..self }),
    {
        let mut updated = self;
        updated.recipient = Some(recipient);
        updated
    }

    /// Sets `processing`.
    pub fn processing(self, processing: serde_json::Value) -> (builder: Self)
        ensures
            builder == (CreatePaymentSessionRequestBuilder { processing: Some(processing), ..self }),
    {
        let mut updated = self;
        updated.processing = Some(processing);
        updated
    }

    /// Sets `instruction`.
    pub fn instruction(self, instruction: DestinationInstruction) -> (builder: Self)
        ensures
            builder == (CreatePaymentSessionRequestBuilder { instruction: Some(instruction), ..self }),
    {
        let mut updated = self;
        updated.instruction = Some(instruction);
        updated
    }

    /// Sets `items`.
    pub fn items(self, items: Vec<serde_json::Value>) -> (builder: Self)
        ensures
            builder == (CreatePaymentSessionRequestBuilder { items: Some(items), ..self }),
    {
        let mut updated = self;
        updated.items = Some(items);
        updated
    }

    /// Sets `amount_allocations`.
    pub fn amount_allocations(self, amount_allocations: Vec<serde_json::Value>) -> (builder: Self)
        ensures
            builder == (CreatePaymentSessionRequestBuilder { amount_allocations: Some(amount_allocations), ..self }),
    {
        let mut updated = self;
        updated.amount_allocations = Some(amount_allocations);
        updated
    }

    /// Sets `risk`.
    pub fn risk(self, risk: RiskRequest) -> (builder: Self)
        ensures
            builder == (CreatePaymentSessionRequestBuilder { risk: Some(risk), ..self }),
    {
        let mut updated = self;
        updated.risk = Some(risk);
        updated
    }

    /// Sets `display_name`.
    pub fn display_name(self, display_name: String) -> (builder: Self)
        ensures
            builder == (CreatePaymentSessionRequestBuilder { display_name: Some(display_name), ..self }),
    {
        let mut updated = self;
        updated.display_name = Some(display_name);
        updated
    }

    /// Sets `metadata`.
    pub fn metadata(self, metadata: Metadata) -> (builder: Self)
        ensures
            builder == (CreatePaymentSessionRequestBuilder { metadata: Some(metadata), ..self }),
    {
        let mut updated = self;
        updated.metadata = Some(metadata);
        updated
    }

    /// Sets `locale`.
    pub fn locale(self, locale: String) -> (builder: Self)
        ensures
            builder == (CreatePaymentSessionRequestBuilder { locale: Some(locale), ..self }),
    {
        let mut updated = self;
        updated.locale = Some(locale);
        updated
    }

    /// Sets `three_ds`.
    pub fn three_ds(self, three_ds: _3DSRequest) -> (builder: Self)
        ensures
            builder == (CreatePaymentSessionRequestBuilder { three_ds: Some(three_ds), ..self }),
    {
        let mut updated = self;
        updated.three_ds = Some(three_ds);
        updated
    }

    /// Sets `sender`.
    pub fn sender(self, sender: PaymentSenderDetails) -> (builder: Self)
        ensures
            builder == (CreatePaymentSessionRequestBuilder { sender: Some(sender), ..self }),
    {
        let mut updated = self;
        updated.sender = Some(sender);
        updated
    }

    /// Sets `capture`.
    pub fn capture(self, capture: bool) -> (builder: Self)
        ensures
            builder == (CreatePaymentSessionRequestBuilder { capture: Some(capture), ..self }),
    {
        let mut updated = self;
        updated.capture = Some(capture);
        updated
    }

    /// Sets `capture_on`.
    pub fn capture_on(self, capture_on: String) -> (builder: Self)
        ensures
            builder == (CreatePaymentSessionRequestBuilder { capture_on: Some(capture_on), ..self }),
    {
        let mut updated = self;
        updated.capture_on = Some(capture_on);
        updated
    }

    /// Sets `expires_on`.
    pub fn expires_on(self, expires_on: String) -> (builder: Self)
        ensures
            builder == (CreatePaymentSessionRequestBuilder { expires_on: Some(expires_on), ..self }),
    {
        let mut updated = self;
        updated.expires_on = Some(expires_on);
        updated
    }

    /// Sets `enabled_payment_methods`.
    pub fn enabled_payment_methods(self, enabled_payment_methods: Vec<String>) -> (builder: Self)
        ensures
            builder == (CreatePaymentSessionRequestBuilder { enabled_payment_methods: Some(enabled_payment_methods), ..self }),
    {
        let mut updated = self;
        updated.enabled_payment_methods = Some(enabled_payment_methods);
        updated
    }

    /// Sets `disabled_payment_methods`.
    pub fn disabled_payment_methods(self, disabled_payment_methods: Vec<String>) -> (builder: Self)
        ensures
            builder == (CreatePaymentSessionRequestBuilder { disabled_payment_methods: Some(disabled_payment_methods), ..self }),
    {
        let mut updated = self;
        updated.disabled_payment_methods = Some(disabled_payment_methods);
        updated
    }

    /// Sets `payment_method_configuration`.
    pub fn payment_method_configuration(self, payment_method_configuration: serde_json::Value) -> (builder: Self)
        ensures
            builder == (CreatePaymentSessionRequestBuilder { payment_method_configuration: Some(payment_method_configuration), ..self }),
    {
        let mut updated = self;
        updated.payment_method_configuration = Some(payment_method_configuration);
        updated
    }

    /// Sets `customer_retry`.
    pub fn customer_retry(self, customer_retry: serde_json::Value) -> (builder: Self)
        ensures
            builder == (CreatePaymentSessionRequestBuilder { customer_retry: Some(customer_retry), ..self }),
    {
        let mut updated = self;
        updated.customer_retry = Some(customer_retry);
        updated
    }

    /// Sets `ip_address`.
    pub fn ip_address(self, ip_address: String) -> (builder: Self)
        ensures
            builder == (CreatePaymentSessionRequestBuilder { ip_address: Some(ip_address), ..self }),
    {
        let mut updated = self;
        updated.ip_address = Some(ip_address);
        updated
    }

    /// Builds the request; `None` while a required field is unset.
    pub fn build(self) -> (request: Option<CreatePaymentSessionRequest>)
        ensures
            request == self.built_request(),
    {
        if self.amount.is_none() || self.currency.is_none() || self.processing_channel_id.is_none() || self.reference.is_none() || self.billing.is_none() || self.success_url.is_none() || self.failure_url.is_none() {
            return None;
        }
        Some(CreatePaymentSessionRequest {
            amount: self.amount.unwrap(),
            currency: self.currency.unwrap(),
            processing_channel_id: self.processing_channel_id.unwrap(),
            reference: self.reference.unwrap(),
            billing: self.billing.unwrap(),
            customer: self.customer,
            success_url: self.success_url.unwrap(),
            failure_url: self.failure_url.unwrap(),
            payment_type: self.payment_type,
            billing_descriptor: self.billing_descriptor,
            description: self.description,
            shipping: self.shipping,
            recipient: self.recipient,
            processing: self.processing,
            instruction: self.instruction,
            items: self.items,
            amount_allocations: self.amount_allocations,
            risk: self.risk,
            display_name: self.display_name,
            metadata: self.metadata,
            locale: self.locale,
            three_ds: self.three_ds,
            sender: self.sender,
            capture: self.capture,
            capture_on: self.capture_on,
            expires_on: self.expires_on,
            enabled_payment_methods: self.enabled_payment_methods,
            disabled_payment_methods: self.disabled_payment_methods,
            payment_method_configuration: self.payment_method_configuration,
            customer_retry: self.customer_retry,
            ip_address: self.ip_address,
        })
    }
}

impl CreatePaymentSessionRequest {
    /// Starts a builder for the request, with no field set.
    pub fn builder() -> (builder: CreatePaymentSessionRequestBuilder)
        ensures
            builder == unset_create_payment_session_request_builder(),
    {
        CreatePaymentSessionRequestBuilder {
            amount: None,
            currency: None,
            processing_channel_id: None,
            reference: None,
            billing: None,
            customer: None,
            success_url: None,
            failure_url: None,
            payment_type: None,
            billing_descriptor: None,
            description: None,
            shipping: None,
            recipient: None,
            processing: None,
            instruction: None,
            items: None,
            amount_allocations: None,
            risk: None,
            display_name: None,
            metadata: None,
            locale: None,
            three_ds: None,
            sender: None,
            capture: None,
            capture_on: None,
            expires_on: None,
            enabled_payment_methods: None,
            disabled_payment_methods: None,
            payment_method_configuration: None,
            customer_retry: None,
            ip_address: None,
        }
    }
}

/// A builder for the request body of submitting a payment attempt for a payment session: each field holds
/// the value set so far, if any. The required fields are `session_data`.
#[derive(Debug, Clone)]
pub struct SubmitPaymentSessionRequestBuilder {
    pub session_data: Option<String>,
    pub amount: Option<u64>,
    pub success_url: Option<String>,
    pub failure_url: Option<String>,
    pub payment_type: Option<PaymentType>,
    pub billing_descriptor: Option<BillingDescriptor>,
    pub reference: Option<String>,
    pub items: Option<Vec<serde_json::Value>>,
    pub three_ds: Option<_3DSRequest>,
    pub ip_address: Option<String>,
    pub payment_method_configuration: Option<serde_json::Value>,
    pub recipient: Option<PaymentRecipient>,
    pub instruction: Option<DestinationInstruction>,
    pub sender: Option<PaymentSenderDetails>,
    pub capture: Option<bool>,
    pub capture_on: Option<String>,
}

/// A builder with no field set.
pub open spec fn unset_submit_payment_session_request_builder() -> SubmitPaymentSessionRequestBuilder {
    SubmitPaymentSessionRequestBuilder {
        session_data: None,
        amount: None,
        success_url: None,
        failure_url: None,
        payment_type: None,
        billing_descriptor: None,
        reference: None,
        items: None,
        three_ds: None,
        ip_address: None,
        payment_method_configuration: None,
        recipient: None,
        instruction: None,
        sender: None,
        capture: None,
        capture_on: None,
    }
}

impl SubmitPaymentSessionRequestBuilder {
    /// The request that the builder makes: `None` while a required field is
    /// unset, else the request holding every field as set.
    pub open spec fn built_request(self) -> Option<SubmitPaymentSessionRequest> {
        if self.session_data is Some {
            Some(SubmitPaymentSessionRequest {
                session_data: self.session_data->0,
                amount: self.amount,
                success_url: self.success_url,
                failure_url: self.failure_url,
                payment_type: self.payment_type,
                billing_descriptor: self.billing_descriptor,
                reference: self.reference,
                items: self.items,
                three_ds: self.three_ds,
                ip_address: self.ip_address,
                payment_method_configuration: self.payment_method_configuration,
                recipient: self.recipient,
                instruction: self.instruction,
                sender: self.sender,
                capture: self.capture,
                capture_on: self.capture_on,
            })
        } else {
            None
        }
    }

    /// Sets `session_data`.
    pub fn session_data(self, session_data: String) -> (builder: Self)
        ensures
            builder == (SubmitPaymentSessionRequestBuilder { session_data: Some(session_data), ..self }),
    {
        let mut updated = self;
        updated.session_data = Some(session_data);
        updated
    }

    /// Sets `amount`.
    pub fn amount(self, amount: u64) -> (builder: Self)
        ensures
            builder == (SubmitPaymentSessionRequestBuilder { amount: Some(amount), ..self }),
    {
        let mut updated = self;
        updated.amount = Some(amount);
        updated
    }

    /// Sets `success_url`.
    pub fn success_url(self, success_url: String) -> (builder: Self)
        ensures
            builder == (SubmitPaymentSessionRequestBuilder { success_url: Some(success_url), ..self }),
    {
        let mut updated = self;
        updated.success_url = Some(success_url);
        updated
    }

    /// Sets `failure_url`.
    pub fn failure_url(self, failure_url: String) -> (builder: Self)
        ensures
            builder == (SubmitPaymentSessionRequestBuilder { failure_url: Some(failure_url), ..self }),
    {
        let mut updated = self;
        updated.failure_url = Some(failure_url);
        updated
    }

    /// Sets `payment_type`.
    pub fn payment_type(self, payment_type: PaymentType) -> (builder: Self)
        ensures
            builder == (SubmitPaymentSessionRequestBuilder { payment_type: Some(payment_type), ..self }),
    {
        let mut updated = self;
        updated.payment_type = Some(payment_type);
        updated
    }

    /// Sets `billing_descriptor`.
    pub fn billing_descriptor(self, billing_descriptor: BillingDescriptor) -> (builder: Self)
        ensures
            builder == (SubmitPaymentSessionRequestBuilder { billing_descriptor: Some(billing_descriptor), ..self }),
    {
        let mut updated = self;
        updated.billing_descriptor = Some(billing_descriptor);
        updated
    }

    /// Sets `reference`.
    pub fn reference(self, reference: String) -> (builder: Self)
        ensures
            builder == (SubmitPaymentSessionRequestBuilder { reference: Some(reference), ..self }),
    {
        let mut updated = self;
        updated.reference = Some(reference);
        updated
    }

    /// Sets `items`.
    pub fn items(self, items: Vec<serde_json::Value>) -> (builder: Self)
        ensures
            builder == (SubmitPaymentSessionRequestBuilder { items: Some(items), ..self }),
    {
        let mut updated = self;
        updated.items = Some(items);
        updated
    }

    /// Sets `three_ds`.
    pub fn three_ds(self, three_ds: _3DSRequest) -> (builder: Self)
        ensures
            builder == (SubmitPaymentSessionRequestBuilder { three_ds: Some(three_ds), ..self }),
    {
        let mut updated = self;
        updated.three_ds = Some(three_ds);
        updated
    }

    /// Sets `ip_address`.
    pub fn ip_address(self, ip_address: String) -> (builder: Self)
        ensures
            builder == (SubmitPaymentSessionRequestBuilder { ip_address: Some(ip_address), ..self }),
    {
        let mut updated = self;
        updated.ip_address = Some(ip_address);
        updated
    }

    /// Sets `payment_method_configuration`.
    pub fn payment_method_configuration(self, payment_method_configuration: serde_json::Value) -> (builder: Self)
        ensures
            builder == (SubmitPaymentSessionRequestBuilder { payment_method_configuration: Some(payment_method_configuration), ..self }),
    {
        let mut updated = self;
        updated.payment_method_configuration = Some(payment_method_configuration);
        updated
    }

    /// Sets `recipient`.
    pub fn recipient(self, recipient: PaymentRecipient) -> (builder: Self)
        ensures
            builder == (SubmitPaymentSessionRequestBuilder { recipient: Some(recipient), ..self }),
    {
        let mut updated = self;
        updated.recipient = Some(recipient);
        updated
    }

    /// Sets `instruction`.
    pub fn instruction(self, instruction: DestinationInstruction) -> (builder: Self)
        ensures
            builder == (SubmitPaymentSessionRequestBuilder { instruction: Some(instruction), ..self }),
    {
        let mut updated = self;
        updated.instruction = Some(instruction);
        updated
    }

    /// Sets `sender`.
    pub fn sender(self, sender: PaymentSenderDetails) -> (builder: Self)
        ensures
            builder == (SubmitPaymentSessionRequestBuilder { sender: Some(sender), ..self }),
    {
        let mut updated = self;
        updated.sender = Some(sender);
        updated
    }

    /// Sets `capture`.
    pub fn capture(self, capture: bool) -> (builder: Self)
        ensures
            builder == (SubmitPaymentSessionRequestBuilder { capture: Some(capture), ..self }),
    {
        let mut updated = self;
        updated.capture = Some(capture);
        updated
    }

    /// Sets `capture_on`.
    pub fn capture_on(self, capture_on: String) -> (builder: Self)
        ensures
            builder == (SubmitPaymentSessionRequestBuilder { capture_on: Some(capture_on), ..self }),
    {
        let mut updated = self;
        updated.capture_on = Some(capture_on);
        updated
    }

    /// Builds the request; `None` while a required field is unset.
    pub fn build(self) -> (request: Option<SubmitPaymentSessionRequest>)
        ensures
            request == self.built_request(),
    {
        if self.session_data.is_none() {
            return None;
        }
        Some(SubmitPaymentSessionRequest {
            session_data: self.session_data.unwrap(),
            amount: self.amount,
            success_url: self.success_url,
            failure_url: self.failure_url,
            payment_type: self.payment_type,
            billing_descriptor: self.billing_descriptor,
            reference: self.reference,
            items: self.items,
            three_ds: self.three_ds,
            ip_address: self.ip_address,
            payment_method_configuration: self.payment_method_configuration,
            recipient: self.recipient,
            instruction: self.instruction,
            sender: self.sender,
            capture: self.capture,
            capture_on: self.capture_on,
        })
    }
}

impl SubmitPaymentSessionRequest {
    /// Starts a builder for the request, with no field set.
    pub fn builder() -> (builder: SubmitPaymentSessionRequestBuilder)
        ensures
            builder == unset_submit_payment_session_request_builder(),
    {
        SubmitPaymentSessionRequestBuilder {
            session_data: None,
            amount: None,
            success_url: None,
            failure_url: None,
            payment_type: None,
            billing_descriptor: None,
            reference: None,
            items: None,
            three_ds: None,
            ip_address: None,
            payment_method_configuration: None,
            recipient: None,
            instruction: None,
            sender: None,
            capture: None,
            capture_on: None,
        }
    }
}

/// A builder for the request body of creating a payment session and submitting a payment attempt in one request: each field holds
/// the value set so far, if any. The required fields are `session_data`, `amount`, `currency`, `processing_channel_id`, `reference`, `billing`, `success_url`, `failure_url`.
#[derive(Debug, Clone)]
pub struct CreateAndSubmitPaymentSessionRequestBuilder {
    pub session_data: Option<String>,
    pub amount: Option<u64>,
    pub currency: Option<Currency>,
    pub processing_channel_id: Option<String>,
    pub reference: Option<String>,
    pub billing: Option<BillingInformation>,
    pub customer: Option<CustomerDescriptor>,
    pub success_url: Option<String>,
    pub failure_url: Option<String>,
    pub payment_type: Option<PaymentType>,
    pub billing_descriptor: Option<BillingDescriptor>,
    pub description: Option<String>,
    pub shipping: Option<ShippingDescriptor>,
    pub recipient: Option<PaymentRecipient>,
    pub processing: Option<serde_json::Value>,
    pub instruction: Option<DestinationInstruction>,
    pub items: Option<Vec<serde_json::Value>>,
    pub amount_allocations: Option<Vec<serde_json::Value>>,
    pub risk: Option<RiskRequest>,
    pub display_name: Option<String>,
    pub metadata: Option<Metadata>,
    pub locale: Option<String>,
    pub three_ds: Option<_3DSRequest>,
    pub sender: Option<PaymentSenderDetails>,
    pub capture: Option<bool>,
    pub capture_on: Option<String>,
}

/// A builder with no field set.
pub open spec fn unset_create_and_submit_payment_session_request_builder() -> CreateAndSubmitPaymentSessionRequestBuilder {
    CreateAndSubmitPaymentSessionRequestBuilder {
        session_data: None,
        amount: None,
        currency: None,
        processing_channel_id: None,
        reference: None,
        billing: None,
        customer: None,
        success_url: None,
        failure_url: None,
        payment_type: None,
        billing_descriptor: None,
        description: None,
        shipping: None,
        recipient: None,
        processing: None,
        instruction: None,
        items: None,
        amount_allocations: None,
        risk: None,
        display_name: None,
        metadata: None,
        locale: None,
        three_ds: None,
        sender: None,
        capture: None,
        capture_on: None,
    }
}

impl CreateAndSubmitPaymentSessionRequestBuilder {
    /// The request that the builder makes: `None` while a required field is
    /// unset, else the request holding every field as set.
    pub open spec fn built_request(self) -> Option<CreateAndSubmitPaymentSessionRequest> {
        if self.session_data is Some && self.amount is Some && self.currency is Some && self.processing_channel_id is Some && self.reference is Some && self.billing is Some && self.success_url is Some && self.failure_url is Some {
            Some(CreateAndSubmitPaymentSessionRequest {
                session_data: self.session_data->0,
                amount: self.amount->0,
                currency: self.currency->0,
                processing_channel_id: self.processing_channel_id->0,
                reference: self.reference->0,
                billing: self.billing->0,
                customer: self.customer,
                success_url: self.success_url->0,
                failure_url: self.failure_url->0,
                payment_type: self.payment_type,
                billing_descriptor: self.billing_descriptor,
                description: self.description,
                shipping: self.shipping,
                recipient: self.recipient,
                processing: self.processing,
                instruction: self.instruction,
                items: self.items,
                amount_allocations: self.amount_allocations,
                risk: self.risk,
                display_name: self.display_name,
                metadata: self.metadata,
                locale: self.locale,
                three_ds: self.three_ds,
                sender: self.sender,
                capture: self.capture,
                capture_on: self.capture_on,
            })
        } else {
            None
        }
    }

    /// Sets `session_data`.
    pub fn session_data(self, session_data: String) -> (builder: Self)
        ensures
            builder == (CreateAndSubmitPaymentSessionRequestBuilder { session_data: Some(session_data), ..self }),
    {
        let mut updated = self;
        updated.session_data = Some(session_data);
        updated
    }

    /// Sets `amount`.
    pub fn amount(self, amount: u64) -> (builder: Self)
        ensures
            builder == (CreateAndSubmitPaymentSessionRequestBuilder { amount: Some(amount), ..self }),
    {
        let mut updated = self;
        updated.amount = Some(amount);
        updated
    }

    /// Sets `currency`.
    pub fn currency(self, currency: Currency) -> (builder: Self)
        ensures
            builder == (CreateAndSubmitPaymentSessionRequestBuilder { currency: Some(currency), ..self }),
    {
        let mut updated = self;
        updated.currency = Some(currency);
        updated
    }

    /// Sets `processing_channel_id`.
    pub fn processing_channel_id(self, processing_channel_id: String) -> (builder: Self)
        ensures
            builder == (CreateAndSubmitPaymentSessionRequestBuilder { processing_channel_id: Some(processing_channel_id), ..self }),
    {
        let mut updated = self;
        updated.processing_channel_id = Some(processing_channel_id);
        updated
    }

    /// Sets `reference`.
    pub fn reference(self, reference: String) -> (builder: Self)
        ensures
            builder == (CreateAndSubmitPaymentSessionRequestBuilder { reference: Some(reference), ..self }),
    {
        let mut updated = self;
        updated.reference = Some(reference);
        updated
    }

    /// Sets `billing`.
    pub fn billing(self, billing: BillingInformation) -> (builder: Self)
        ensures
            builder == (CreateAndSubmitPaymentSessionRequestBuilder { billing: Some(billing), ..self }),
    {
        let mut updated = self;
        updated.billing = Some(billing);
        updated
    }

    /// Sets `customer`.
    pub fn customer(self, customer: CustomerDescriptor) -> (builder: Self)
        ensures
            builder == (CreateAndSubmitPaymentSessionRequestBuilder { customer: Some(customer), ..self }),
    {
        let mut updated = self;
        updated.customer = Some(customer);
        updated
    }

    /// Sets `success_url`.
    pub fn success_url(self, success_url: String) -> (builder: Self)
        ensures
            builder == (CreateAndSubmitPaymentSessionRequestBuilder { success_url: Some(success_url), ..self }),
    {
        let mut updated = self;
        updated.success_url = Some(success_url);
        updated
    }

    /// Sets `failure_url`.
    pub fn failure_url(self, failure_url: String) -> (builder: Self)
        ensures
            builder == (CreateAndSubmitPaymentSessionRequestBuilder { failure_url: Some(failure_url), ..self }),
    {
        let mut updated = self;
        updated.failure_url = Some(failure_url);
        updated
    }

    /// Sets `payment_type`.
    pub fn payment_type(self, payment_type: PaymentType) -> (builder: Self)
        ensures
            builder == (CreateAndSubmitPaymentSessionRequestBuilder { payment_type: Some(payment_type), ..self }),
    {
        let mut updated = self;
        updated.payment_type = Some(payment_type);
        updated
    }

    /// Sets `billing_descriptor`.
    pub fn billing_descriptor(self, billing_descriptor: BillingDescriptor) -> (builder: Self)
        ensures
            builder == (CreateAndSubmitPaymentSessionRequestBuilder { billing_descriptor: Some(billing_descriptor), ..self }),
    {
        let mut updated = self;
        updated.billing_descriptor = Some(billing_descriptor);
        updated
    }

    /// Sets `description`.
    pub fn description(self, description: String) -> (builder: Self)
        ensures
            builder == (CreateAndSubmitPaymentSessionRequestBuilder { description: Some(description), ..self }),
    {
        let mut updated = self;
        updated.description = Some(description);
        updated
    }

    /// Sets `shipping`.
    pub fn shipping(self, shipping: ShippingDescriptor) -> (builder: Self)
        ensures
            builder == (CreateAndSubmitPaymentSessionRequestBuilder { shipping: Some(shipping), ..self }),
    {
        let mut updated = self;
        updated.shipping = Some(shipping);
        updated
    }

    /// Sets `recipient`.
    pub fn recipient(self, recipient: PaymentRecipient) -> (builder: Self)
        ensures
            builder == (CreateAndSubmitPaymentSessionRequestBuilder { recipient: Some(recipient), ..self }),
    {
        let mut updated = self;
        updated.recipient = Some(recipient);
        updated
    }

    /// Sets `processing`.
    pub fn processing(self, processing: serde_json::Value) -> (builder: Self)
        ensures
            builder == (CreateAndSubmitPaymentSessionRequestBuilder { processing: Some(processing), ..self }),
    {
        let mut updated = self;
        updated.processing = Some(processing);
        updated
    }

    /// Sets `instruction`.
    pub fn instruction(self, instruction: DestinationInstruction) -> (builder: Self)
        ensures
            builder == (CreateAndSubmitPaymentSessionRequestBuilder { instruction: Some(instruction), ..self }),
    {
        let mut updated = self;
        updated.instruction = Some(instruction);
        updated
    }

    /// Sets `items`.
    pub fn items(self, items: Vec<serde_json::Value>) -> (builder: Self)
        ensures
            builder == (CreateAndSubmitPaymentSessionRequestBuilder { items: Some(items), ..self }),
    {
        let mut updated = self;
        updated.items = Some(items);
        updated
    }

    /// Sets `amount_allocations`.
    pub fn amount_allocations(self, amount_allocations: Vec<serde_json::Value>) -> (builder: Self)
        ensures
            builder == (CreateAndSubmitPaymentSessionRequestBuilder { amount_allocations: Some(amount_allocations), ..self }),
    {
        let mut updated = self;
        updated.amount_allocations = Some(amount_allocations);
        updated
    }

    /// Sets `risk`.
    pub fn risk(self, risk: RiskRequest) -> (builder: Self)
        ensures
            builder == (CreateAndSubmitPaymentSessionRequestBuilder { risk: Some(risk), ..self }),
    {
        let mut updated = self;
        updated.risk = Some(risk);
        updated
    }

    /// Sets `display_name`.
    pub fn display_name(self, display_name: String) -> (builder: Self)
        ensures
            builder == (CreateAndSubmitPaymentSessionRequestBuilder { display_name: Some(display_name), ..self }),
    {
        let mut updated = self;
        updated.display_name = Some(display_name);
        updated
    }

    /// Sets `metadata`.
    pub fn metadata(self, metadata: Metadata) -> (builder: Self)
        ensures
            builder == (CreateAndSubmitPaymentSessionRequestBuilder { metadata: Some(metadata), ..self }),
    {
        let mut updated = self;
        updated.metadata = Some(metadata);
        updated
    }

    /// Sets `locale`.
    pub fn locale(self, locale: String) -> (builder: Self)
        ensures
            builder == (CreateAndSubmitPaymentSessionRequestBuilder { locale: Some(locale), ..self }),
    {
        let mut updated = self;
        updated.locale = Some(locale);
        updated
    }

    /// Sets `three_ds`.
    pub fn three_ds(self, three_ds: _3DSRequest) -> (builder: Self)
        ensures
            builder == (CreateAndSubmitPaymentSessionRequestBuilder { three_ds: Some(three_ds), ..self }),
    {
        let mut updated = self;
        updated.three_ds = Some(three_ds);
        updated
    }

    /// Sets `sender`.
    pub fn sender(self, sender: PaymentSenderDetails) -> (builder: Self)
        ensures
            builder == (CreateAndSubmitPaymentSessionRequestBuilder { sender: Some(sender), ..self }),
    {
        let mut updated = self;
        updated.sender = Some(sender);
        updated
    }

    /// Sets `capture`.
    pub fn capture(self, capture: bool) -> (builder: Self)
        ensures
            builder == (CreateAndSubmitPaymentSessionRequestBuilder { capture: Some(capture), ..self }),
    {
        let mut updated = self;
        updated.capture = Some(capture);
        updated
    }

    /// Sets `capture_on`.
    pub fn capture_on(self, capture_on: String) -> (builder: Self)
        ensures
            builder == (CreateAndSubmitPaymentSessionRequestBuilder { capture_on: Some(capture_on), ..self }),
    {
        let mut updated = self;
        updated.capture_on = Some(capture_on);
        updated
    }

    /// Builds the request; `None` while a required field is unset.
    pub fn build(self) -> (request: Option<CreateAndSubmitPaymentSessionRequest>)
        ensures
            request == self.built_request(),
    {
        if self.session_data.is_none() || self.amount.is_none() || self.currency.is_none() || self.processing_channel_id.is_none() || self.reference.is_none() || self.billing.is_none() || self.success_url.is_none() || self.failure_url.is_none() {
            return None;
        }
        Some(CreateAndSubmitPaymentSessionRequest {
            session_data: self.session_data.unwrap(),
            amount: self.amount.unwrap(),
            currency: self.currency.unwrap(),
            processing_channel_id: self.processing_channel_id.unwrap(),
            reference: self.reference.unwrap(),
            billing: self.billing.unwrap(),
            customer: self.customer,
            success_url: self.success_url.unwrap(),
            failure_url: self.failure_url.unwrap(),
            payment_type: self.payment_type,
            billing_descriptor: self.billing_descriptor,
            description: self.description,
            shipping: self.shipping,
            recipient: self.recipient,
            processing: self.processing,
            instruction: self.instruction,
            items: self.items,
            amount_allocations: self.amount_allocations,
            risk: self.risk,
            display_name: self.display_name,
            metadata: self.metadata,
            locale: self.locale,
            three_ds: self.three_ds,
            sender: self.sender,
            capture: self.capture,
            capture_on: self.capture_on,
        })
    }
}

impl CreateAndSubmitPaymentSessionRequest {
    /// Starts a builder for the request, with no field set.
    pub fn builder() -> (builder: CreateAndSubmitPaymentSessionRequestBuilder)
        ensures
            builder == unset_create_and_submit_payment_session_request_builder(),
    {
        CreateAndSubmitPaymentSessionRequestBuilder {
            session_data: None,
            amount: None,
            currency: None,
            processing_channel_id: None,
            reference: None,
            billing: None,
            customer: None,
            success_url: None,
            failure_url: None,
            payment_type: None,
            billing_descriptor: None,
            description: None,
            shipping: None,
            recipient: None,
            processing: None,
            instruction: None,
            items: None,
            amount_allocations: None,
            risk: None,
            display_name: None,
            metadata: None,
            locale: None,
            three_ds: None,
            sender: None,
            capture: None,
            capture_on: None,
        }
    }
}

// ---------------------------------------------------------------------------
// Laws of the builders
// ---------------------------------------------------------------------------

/// A payment-session builder builds a request exactly when every required field
/// (`amount`, `currency`, `processing_channel_id`, `reference`, `billing`, `success_url`, `failure_url`) is set, and the request it builds
/// carries every field as the builder holds it: each required field is the
/// value set, each optional field is the value set or `None`. No field is
/// dropped, defaulted or taken from another field.
pub proof fn create_payment_session_request_builder_keeps_every_field(builder: CreatePaymentSessionRequestBuilder)
    ensures
        builder.built_request() is Some <==> (builder.amount is Some && builder.currency is Some && builder.processing_channel_id is Some && builder.reference is Some && builder.billing is Some && builder.success_url is Some && builder.failure_url is Some),
        builder.built_request() is Some ==> ({
            let request = builder.built_request()->0;
            &&& Some(request.amount) == builder.amount
            &&& Some(request.currency) == builder.currency
            &&& Some(request.processing_channel_id) == builder.processing_channel_id
            &&& Some(request.reference) == builder.reference
            &&& Some(request.billing) == builder.billing
            &&& request.customer == builder.customer
            &&& Some(request.success_url) == builder.success_url
            &&& Some(request.failure_url) == builder.failure_url
            &&& request.payment_type == builder.payment_type
            &&& request.billing_descriptor == builder.billing_descriptor
            &&& request.description == builder.description
            &&& request.shipping == builder.shipping
            &&& request.recipient == builder.recipient
            &&& request.processing == builder.processing
            &&& request.instruction == builder.instruction
            &&& request.items == builder.items
            &&& request.amount_allocations == builder.amount_allocations
            &&& request.risk == builder.risk
            &&& request.display_name == builder.display_name
            &&& request.metadata == builder.metadata
            &&& request.locale == builder.locale
            &&& request.three_ds == builder.three_ds
            &&& request.sender == builder.sender
            &&& request.capture == builder.capture
            &&& request.capture_on == builder.capture_on
            &&& request.expires_on == builder.expires_on
            &&& request.enabled_payment_methods == builder.enabled_payment_methods
            &&& request.disabled_payment_methods == builder.disabled_payment_methods
            &&& request.payment_method_configuration == builder.payment_method_configuration
            &&& request.customer_retry == builder.customer_retry
            &&& request.ip_address == builder.ip_address
        }),
{
}

/// A submit builder builds a request exactly when every required field
/// (`session_data`) is set, and the request it builds
/// carries every field as the builder holds it: each required field is the
/// value set, each optional field is the value set or `None`. No field is
/// dropped, defaulted or taken from another field.
pub proof fn submit_payment_session_request_builder_keeps_every_field(builder: SubmitPaymentSessionRequestBuilder)
    ensures
        builder.built_request() is Some <==> (builder.session_data is Some),
        builder.built_request() is Some ==> ({
            let request = builder.built_request()->0;
            &&& Some(request.session_data) == builder.session_data
            &&& request.amount == builder.amount
            &&& request.success_url == builder.success_url
            &&& request.failure_url == builder.failure_url
            &&& request.payment_type == builder.payment_type
            &&& request.billing_descriptor == builder.billing_descriptor
            &&& request.reference == builder.reference
            &&& request.items == builder.items
            &&& request.three_ds == builder.three_ds
            &&& request.ip_address == builder.ip_address
            &&& request.payment_method_configuration == builder.payment_method_configuration
            &&& request.recipient == builder.recipient
            &&& request.instruction == builder.instruction
            &&& request.sender == builder.sender
            &&& request.capture == builder.capture
            &&& request.capture_on == builder.capture_on
        }),
{
}

/// A create-and-submit builder builds a request exactly when every required field
/// (`session_data`, `amount`, `currency`, `processing_channel_id`, `reference`, `billing`, `success_url`, `failure_url`) is set, and the request it builds
/// carries every field as the builder holds it: each required field is the
/// value set, each optional field is the value set or `None`. No field is
/// dropped, defaulted or taken from another field.
pub proof fn create_and_submit_payment_session_request_builder_keeps_every_field(builder: CreateAndSubmitPaymentSessionRequestBuilder)
    ensures
        builder.built_request() is Some <==> (builder.session_data is Some && builder.amount is Some && builder.currency is Some && builder.processing_channel_id is Some && builder.reference is Some && builder.billing is Some && builder.success_url is Some && builder.failure_url is Some),
        builder.built_request() is Some ==> ({
            let request = builder.built_request()->0;
            &&& Some(request.session_data) == builder.session_data
            &&& Some(request.amount) == builder.amount
            &&& Some(request.currency) == builder.currency
            &&& Some(request.processing_channel_id) == builder.processing_channel_id
            &&& Some(request.reference) == builder.reference
            &&& Some(request.billing) == builder.billing
            &&& request.customer == builder.customer
            &&& Some(request.success_url) == builder.success_url
            &&& Some(request.failure_url) == builder.failure_url
            &&& request.payment_type == builder.payment_type
            &&& request.billing_descriptor == builder.billing_descriptor
            &&& request.description == builder.description
            &&& request.shipping == builder.shipping
            &&& request.recipient == builder.recipient
            &&& request.processing == builder.processing
            &&& request.instruction == builder.instruction
            &&& request.items == builder.items
            &&& request.amount_allocations == builder.amount_allocations
            &&& request.risk == builder.risk
            &&& request.display_name == builder.display_name
            &&& request.metadata == builder.metadata
            &&& request.locale == builder.locale
            &&& request.three_ds == builder.three_ds
            &&& request.sender == builder.sender
            &&& request.capture == builder.capture
            &&& request.capture_on == builder.capture_on
        }),
{
}

} // verus!
