use checkout::types::requests::{CreatePaymentRequest, CreatePaymentRequestBuilder};
use checkout::types::{
    BillingDescriptor, Currency, CustomerDescriptor, Metadata, PaymentRequestSource, PaymentType,
    RiskRequest, _3DSRequest,
};

fn fresh() -> CreatePaymentRequest {
    CreatePaymentRequestBuilder::new(Currency::GBP, "pc_123".to_string()).build()
}

#[test]
fn fresh_builder_builds_regular_customer_initiated_payment() {
    let request = fresh();
    assert_eq!(request.currency, Currency::GBP);
    assert_eq!(request.processing_channel_id, "pc_123");
    assert_eq!(request.payment_type, PaymentType::Regular);
    assert!(!request.merchant_initiated);
    assert!(request.source.is_none());
    assert!(request.destination.is_none());
    assert!(request.amount.is_none());
    assert!(request.reference.is_none());
    assert!(request.description.is_none());
    assert!(request.capture.is_none());
    assert!(request.capture_on.is_none());
    assert!(request.customer.is_none());
    assert!(request.billing_descriptor.is_none());
    assert!(request.shipping.is_none());
    assert!(request.three_ds.is_none());
    assert!(request.previous_payment_id.is_none());
    assert!(request.risk.is_none());
    assert!(request.success_url.is_none());
    assert!(request.failure_url.is_none());
    assert!(request.payment_ip.is_none());
    assert!(request.recipient.is_none());
    assert!(request.processing.is_none());
    assert!(request.instruction.is_none());
    assert!(request.sender.is_none());
    assert!(request.metadata.is_none());
}

#[test]
fn setters_fill_their_own_fields() {
    let request = CreatePaymentRequestBuilder::new(Currency::USD, "pc_abc".to_string())
        .source(PaymentRequestSource {
            source_type: "token".to_string(),
            id: None,
            token: Some("tok_1".to_string()),
        })
        .amount(2000)
        .payment_type(PaymentType::Recurring)
        .merchant_initiated(true)
        .reference("order-1".to_string())
        .description("a book".to_string())
        .capture(false)
        .capture_on("2030-01-01T00:00:00Z".to_string())
        .customer(CustomerDescriptor {
            id: None,
            email: Some("test@example.com".to_string()),
            name: Some("Test User".to_string()),
        })
        .billing_descriptor(BillingDescriptor { name: "Shop".to_string(), city: "London".to_string() })
        .three_ds(_3DSRequest { enabled: true, attempt_n3d: None })
        .previous_payment_id("pay_prev".to_string())
        .risk(RiskRequest { enabled: false })
        .success_url("https://example.com/success".to_string())
        .failure_url("https://example.com/failure".to_string())
        .payment_ip("127.0.0.1".to_string())
        .metadata(Metadata { entries: vec![("udf1".to_string(), "x".to_string())] })
        .build();
    assert_eq!(request.currency, Currency::USD);
    assert_eq!(request.processing_channel_id, "pc_abc");
    assert_eq!(request.source.unwrap().token.as_deref(), Some("tok_1"));
    assert_eq!(request.amount, Some(2000));
    assert_eq!(request.payment_type, PaymentType::Recurring);
    assert!(request.merchant_initiated);
    assert_eq!(request.reference.as_deref(), Some("order-1"));
    assert_eq!(request.description.as_deref(), Some("a book"));
    assert_eq!(request.capture, Some(false));
    assert_eq!(request.capture_on.as_deref(), Some("2030-01-01T00:00:00Z"));
    assert_eq!(request.customer.unwrap().email.as_deref(), Some("test@example.com"));
    assert_eq!(request.billing_descriptor.unwrap().city, "London");
    assert!(request.three_ds.unwrap().enabled);
    assert_eq!(request.previous_payment_id.as_deref(), Some("pay_prev"));
    assert!(!request.risk.unwrap().enabled);
    assert_eq!(request.success_url.as_deref(), Some("https://example.com/success"));
    assert_eq!(request.failure_url.as_deref(), Some("https://example.com/failure"));
    assert_eq!(request.payment_ip.as_deref(), Some("127.0.0.1"));
    assert_eq!(request.metadata.unwrap().entries.len(), 1);
    assert!(request.destination.is_none());
    assert!(request.shipping.is_none());
    assert!(request.recipient.is_none());
    assert!(request.processing.is_none());
    assert!(request.instruction.is_none());
    assert!(request.sender.is_none());
}

#[test]
fn the_last_value_set_wins() {
    let request = CreatePaymentRequestBuilder::new(Currency::EUR, "pc_1".to_string())
        .amount(100)
        .reference("first".to_string())
        .amount(250)
        .reference("second".to_string())
        .build();
    assert_eq!(request.amount, Some(250));
    assert_eq!(request.reference.as_deref(), Some("second"));
}

#[test]
fn zero_amount_is_kept_for_card_verification() {
    let request = CreatePaymentRequestBuilder::new(Currency::USD, "pc_1".to_string())
        .amount(0)
        .build();
    assert_eq!(request.amount, Some(0));
}

#[test]
fn setters_of_different_fields_commute() {
    let first = CreatePaymentRequestBuilder::new(Currency::USD, "pc".to_string())
        .success_url("https://example.com/success".to_string())
        .failure_url("https://example.com/failure".to_string())
        .build();
    let second = CreatePaymentRequestBuilder::new(Currency::USD, "pc".to_string())
        .failure_url("https://example.com/failure".to_string())
        .success_url("https://example.com/success".to_string())
        .build();
    assert_eq!(first.success_url, second.success_url);
    assert_eq!(first.failure_url, second.failure_url);
    assert_eq!(first.success_url.as_deref(), Some("https://example.com/success"));
}
