use checkout::apis::flows::{HttpMethod, PAYMENT_SESSIONS_SCOPE};
use checkout::models::flows::{
    CreateAndSubmitPaymentSessionRequest, CreatePaymentSessionRequest, SubmitPaymentSessionRequest,
};
use checkout::models::shared::{Address, BillingInformation, Currency};
use checkout::{Client, Environment};

fn billing() -> BillingInformation {
    BillingInformation {
        address: Some(Address {
            address_line1: Some("123 Test St".to_string()),
            address_line2: None,
            city: Some("London".to_string()),
            state: None,
            zip: Some("W1T 4TJ".to_string()),
            country: Some("GB".to_string()),
        }),
    }
}

fn session_request() -> CreatePaymentSessionRequest {
    CreatePaymentSessionRequest {
        amount: 2000,
        currency: Currency::USD,
        processing_channel_id: "pc_test".to_string(),
        reference: "rust-sdk-test".to_string(),
        billing: billing(),
        customer: None,
        success_url: "https://example.com/success".to_string(),
        failure_url: "https://example.com/failure".to_string(),
        payment_type: None,
        billing_descriptor: None,
        description: None,
        shipping: None,
        recipient: None,
        processing: None,
        instruction: None,
        items: None,
        amount_allocations: None,
        risk: None,
        display_name: None,
        metadata: None,
        locale: None,
        three_ds: None,
        sender: None,
        capture: None,
        capture_on: None,
        expires_on: None,
        enabled_payment_methods: None,
        disabled_payment_methods: None,
        payment_method_configuration: None,
        customer_retry: None,
        ip_address: None,
    }
}

fn submit_request() -> SubmitPaymentSessionRequest {
    SubmitPaymentSessionRequest {
        session_data: "fake_session_data_token".to_string(),
        amount: Some(4500),
        success_url: None,
        failure_url: None,
        payment_type: None,
        billing_descriptor: None,
        reference: Some("overridden-ref".to_string()),
        items: None,
        three_ds: None,
        ip_address: None,
        payment_method_configuration: None,
        recipient: None,
        instruction: None,
        sender: None,
        capture: None,
        capture_on: None,
    }
}

fn create_and_submit_request() -> CreateAndSubmitPaymentSessionRequest {
    CreateAndSubmitPaymentSessionRequest {
        session_data: "fake_session_data_token".to_string(),
        amount: 2000,
        currency: Currency::USD,
        processing_channel_id: "invalid_channel_id".to_string(),
        reference: "rust-sdk-test-cas-invalid-channel".to_string(),
        billing: billing(),
        customer: None,
        success_url: "https://example.com/success".to_string(),
        failure_url: "https://example.com/failure".to_string(),
        payment_type: None,
        billing_descriptor: None,
        description: None,
        shipping: None,
        recipient: None,
        processing: None,
        instruction: None,
        items: None,
        amount_allocations: None,
        risk: None,
        display_name: None,
        metadata: None,
        locale: None,
        three_ds: None,
        sender: None,
        capture: None,
        capture_on: None,
    }
}

#[test]
fn environments_have_their_api_addresses() {
    assert_eq!(Environment::Sandbox.api_url(), "https://api.sandbox.checkout.com");
    assert_eq!(Environment::Production.api_url(), "https://api.checkout.com");
}

#[test]
fn create_payment_session_posts_to_payment_sessions() {
    let client = Client::new(Environment::Sandbox);
    let request = session_request();
    let post = client.flows().create_payment_session(&request);
    assert_eq!(post.scope, "payment-sessions");
    assert_eq!(post.scope, PAYMENT_SESSIONS_SCOPE);
    assert_eq!(post.method, HttpMethod::Post);
    assert_eq!(post.url, "https://api.sandbox.checkout.com/payment-sessions");
    assert_eq!(post.body.reference, "rust-sdk-test");
    assert_eq!(post.body.amount, 2000);
}

#[test]
fn submit_payment_session_puts_to_the_named_session() {
    let client = Client::new(Environment::Production);
    let request = submit_request();
    let post = client.flows().submit_payment_session("ps_nonexistent_id", &request);
    assert_eq!(post.scope, "payment-sessions");
    assert_eq!(post.method, HttpMethod::Put);
    assert_eq!(post.url, "https://api.checkout.com/payment-sessions/ps_nonexistent_id/submit");
    assert_eq!(post.body.amount, Some(4500));
    assert_eq!(post.body.session_data, "fake_session_data_token");
}

#[test]
fn submit_addresses_differ_for_different_sessions() {
    let client = Client::new(Environment::Sandbox);
    let request = submit_request();
    let first = client.flows().submit_payment_session("ps_1", &request);
    let second = client.flows().submit_payment_session("ps_2", &request);
    assert_ne!(first.url, second.url);
}

#[test]
fn create_and_submit_posts_to_payment_sessions_submit() {
    let client = Client::new(Environment::Sandbox);
    let request = create_and_submit_request();
    let post = client.flows().create_and_submit_payment_session(&request);
    assert_eq!(post.scope, "payment-sessions");
    assert_eq!(post.method, HttpMethod::Post);
    assert_eq!(post.url, "https://api.sandbox.checkout.com/payment-sessions/submit");
    assert_eq!(post.body.processing_channel_id, "invalid_channel_id");
}
