use checkout::models::flows::{
    CreateAndSubmitPaymentSessionRequest, CreatePaymentSessionRequest, SubmitPaymentSessionRequest,
};
use checkout::models::shared::{Address, BillingInformation, Currency, CustomerDescriptor};

fn valid_billing() -> BillingInformation {
    BillingInformation {
        address: Some(Address {
            address_line1: Some("123 Test St".to_string()),
            address_line2: None,
            city: Some("London".to_string()),
            state: None,
            zip: Some("W1T 4TJ".to_string()),
            country: Some("GB".to_string()),
        }),
    }
}

#[test]
fn payment_session_request_with_required_fields_builds() {
    let request = CreatePaymentSessionRequest::builder()
        .amount(2000)
        .currency(Currency::USD)
        .processing_channel_id("pc_test".to_string())
        .reference("rust-sdk-test".to_string())
        .billing(valid_billing())
        .success_url("https://example.com/success".to_string())
        .failure_url("https://example.com/failure".to_string())
        .build()
        .unwrap();
    assert_eq!(request.amount, 2000);
    assert_eq!(request.currency, Currency::USD);
    assert_eq!(request.processing_channel_id, "pc_test");
    assert_eq!(request.reference, "rust-sdk-test");
    assert_eq!(request.success_url, "https://example.com/success");
    assert_eq!(request.failure_url, "https://example.com/failure");
    assert!(request.customer.is_none());
    assert!(request.payment_type.is_none());
    assert!(request.ip_address.is_none());
}

#[test]
fn payment_session_request_keeps_optional_customer() {
    let request = CreatePaymentSessionRequest::builder()
        .amount(0)
        .currency(Currency::USD)
        .processing_channel_id("invalid_channel_id".to_string())
        .reference("rust-sdk-test-invalid-processing-channel-id".to_string())
        .billing(valid_billing())
        .customer(CustomerDescriptor {
            id: None,
            email: Some("test@example.com".to_string()),
            name: Some("Test User".to_string()),
        })
        .success_url("https://example.com/success".to_string())
        .failure_url("https://example.com/failure".to_string())
        .build()
        .unwrap();
    assert_eq!(request.amount, 0);
    assert_eq!(request.customer.unwrap().name.as_deref(), Some("Test User"));
}

#[test]
fn payment_session_request_without_a_required_field_does_not_build() {
    let missing_billing = CreatePaymentSessionRequest::builder()
        .amount(2000)
        .currency(Currency::USD)
        .processing_channel_id("pc_test".to_string())
        .reference("rust-sdk-test".to_string())
        .success_url("https://example.com/success".to_string())
        .failure_url("https://example.com/failure".to_string())
        .build();
    assert!(missing_billing.is_none());
    assert!(CreatePaymentSessionRequest::builder().build().is_none());
}

#[test]
fn submit_request_needs_only_session_data() {
    let request = SubmitPaymentSessionRequest::builder()
        .session_data("fake_session_data_token".to_string())
        .build()
        .unwrap();
    assert_eq!(request.session_data, "fake_session_data_token");
    assert!(request.amount.is_none());
    assert!(request.reference.is_none());
    assert!(SubmitPaymentSessionRequest::builder().amount(10).build().is_none());
}

#[test]
fn submit_request_with_amount_override() {
    let request = SubmitPaymentSessionRequest::builder()
        .session_data("invalid_session_data".to_string())
        .amount(4500_u64)
        .reference("overridden-ref".to_string())
        .build()
        .unwrap();
    assert_eq!(request.amount, Some(4500));
    assert_eq!(request.reference.as_deref(), Some("overridden-ref"));
}

#[test]
fn create_and_submit_request_builds_with_required_fields() {
    let request = CreateAndSubmitPaymentSessionRequest::builder()
        .session_data("fake_session_data_token".to_string())
        .amount(2000)
        .currency(Currency::USD)
        .processing_channel_id("invalid_channel_id".to_string())
        .reference("rust-sdk-test-cas-invalid-channel".to_string())
        .billing(valid_billing())
        .success_url("https://example.com/success".to_string())
        .failure_url("https://example.com/failure".to_string())
        .build()
        .unwrap();
    assert_eq!(request.session_data, "fake_session_data_token");
    assert_eq!(request.processing_channel_id, "invalid_channel_id");
    assert!(request.customer.is_none());
    let missing_session_data = CreateAndSubmitPaymentSessionRequest::builder()
        .amount(2000)
        .currency(Currency::USD)
        .processing_channel_id("pc".to_string())
        .reference("r".to_string())
        .billing(valid_billing())
        .success_url("s".to_string())
        .failure_url("f".to_string())
        .build();
    assert!(missing_session_data.is_none());
}
