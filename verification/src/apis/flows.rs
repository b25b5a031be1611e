//! The payment-session endpoints of the Flows API.
//!
//! Each operation works out the request to send: its HTTP method, the OAuth
//! scope that it needs, its address, and the body. Sending it and reading the
//! reply is left to the caller's HTTP transport.

use vstd::prelude::*;
use vstd::string::StringExecFns;

use crate::client::{Client, Environment};
use crate::models::flows::{
    CreateAndSubmitPaymentSessionRequest, CreatePaymentSessionRequest, SubmitPaymentSessionRequest,
};

verus! {

/// The OAuth scope that the payment-session endpoints require.
pub const PAYMENT_SESSIONS_SCOPE: &'static str = "payment-sessions";

/// The address of `POST /payment-sessions`.
pub open spec fn payment_sessions_url(api_url: Seq<char>) -> Seq<char> {
    api_url + "/payment-sessions"@
}

/// The address of `PUT /payment-sessions/{id}/submit`.
pub open spec fn submit_payment_session_url(api_url: Seq<char>, payment_session_id: Seq<char>) -> Seq<char> {
    api_url + "/payment-sessions/"@ + payment_session_id + "/submit"@
}

/// The address of `POST /payment-sessions/submit`.
pub open spec fn create_and_submit_payment_session_url(api_url: Seq<char>) -> Seq<char> {
    api_url + "/payment-sessions/submit"@
}

/// The HTTP method of a request.
#[derive(Debug, Clone, Copy, PartialEq, Eq, Structural)]
pub enum HttpMethod {
    Post,
    Put,
}

/// A request to send: its method, the scope it needs, its address and its
/// body, which is sent as JSON.
#[derive(Debug)]
pub struct ApiRequest<'b, T> {
    pub method: HttpMethod,
    pub scope: &'static str,
    pub url: String,
    pub body: &'b T,
}

/// Access the Flows API.
#[derive(Debug, Clone)]
pub struct Flows<'a> {
    client: &'a Client,
}

impl<'a> Flows<'a> {
    /// The client whose environment the requests address.
    pub closed spec fn client(&self) -> &'a Client {
        self.client
    }

    pub(crate) fn new(client: &'a Client) -> (flows: Self)
        ensures
            flows.client() == client,
    {
        Self { client }
    }

    /// Creates a payment session for the Flow integration.
    ///
    /// The values you provide in the request will be used to determine the
    /// payment methods available to Flow. You must supply the unmodified
    /// response body when you initialize Flow.
    ///
    /// [`POST /payment-sessions`](https://api-reference.checkout.com/#operation/CreatePaymentSession)
    pub fn create_payment_session<'b>(
        &self,
        request: &'b CreatePaymentSessionRequest,
    ) -> (post: ApiRequest<'b, CreatePaymentSessionRequest>)
        ensures
            post.method == HttpMethod::Post,
            post.scope@ == PAYMENT_SESSIONS_SCOPE@,
            post.url@ == payment_sessions_url(self.client().environment.spec_api_url()),
            post.body == request,
    {
        let mut url = String::from_str(self.client.environment.api_url());
        url.append("/payment-sessions");
        ApiRequest { method: HttpMethod::Post, scope: PAYMENT_SESSIONS_SCOPE, url, body: request }
    }

    /// Submit a payment attempt for an existing payment session.
    ///
    /// This request works with the Flow `handleSubmit` callback, where you can
    /// perform a customized payment submission. You must send the unmodified
    /// response body as the response of the `handleSubmit` callback.
    ///
    /// [`PUT /payment-sessions/{id}/submit`](https://api-reference.checkout.com/#operation/SubmitPaymentSession)
    pub fn submit_payment_session<'b>(
        &self,
        payment_session_id: &str,
        request: &'b SubmitPaymentSessionRequest,
    ) -> (put: ApiRequest<'b, SubmitPaymentSessionRequest>)
        ensures
            put.method == HttpMethod::Put,
            put.scope@ == PAYMENT_SESSIONS_SCOPE@,
            put.url@ == submit_payment_session_url(
                self.client().environment.spec_api_url(),
                payment_session_id@,
            ),
            put.body == request,
    {
        let mut url = String::from_str(self.client.environment.api_url());
        url.append("/payment-sessions/");
        url.append(payment_session_id);
        url.append("/submit");
        ApiRequest { method: HttpMethod::Put, scope: PAYMENT_SESSIONS_SCOPE, url, body: request }
    }

    /// Create a payment session and submit a payment attempt in a single
    /// request.
    ///
    /// This request works with the advanced Flow integration, where you do not
    /// need to create a payment session for initializing Flow. You must send
    /// the unmodified response body as the response of the `handleSubmit`
    /// callback.
    ///
    /// [`POST /payment-sessions/submit`](https://api-reference.checkout.com/#operation/CreateAndSubmitPaymentSession)
    pub fn create_and_submit_payment_session<'b>(
        &self,
        request: &'b CreateAndSubmitPaymentSessionRequest,
    ) -> (post: ApiRequest<'b, CreateAndSubmitPaymentSessionRequest>)
        ensures
            post.method == HttpMethod::Post,
            post.scope@ == PAYMENT_SESSIONS_SCOPE@,
            post.url@ == create_and_submit_payment_session_url(
                self.client().environment.spec_api_url(),
            ),
            post.body == request,
    {
        let mut url = String::from_str(self.client.environment.api_url());
        url.append("/payment-sessions/submit");
        ApiRequest { method: HttpMethod::Post, scope: PAYMENT_SESSIONS_SCOPE, url, body: request }
    }
}

/// A submission reaches the payment session that it names: under one base
/// address, two session identifiers give the same submit address only if they
/// are the same identifier.
pub proof fn submit_address_names_one_session(api_url: Seq<char>, first_id: Seq<char>, second_id: Seq<char>)
    requires
        submit_payment_session_url(api_url, first_id) == submit_payment_session_url(api_url, second_id),
    ensures
        first_id == second_id,
{
    let prefix = api_url + "/payment-sessions/"@;
    let suffix = "/submit"@;
    let first = submit_payment_session_url(api_url, first_id);
    assert(first.len() == prefix.len() + first_id.len() + suffix.len());
    assert(first_id.len() == second_id.len());
    assert(first.subrange(prefix.len() as int, prefix.len() + first_id.len() as int) =~= first_id);
    assert(first.subrange(prefix.len() as int, prefix.len() + second_id.len() as int) =~= second_id);
}

/// Every request goes to the client's own environment: its address begins
/// with the environment's base address, followed by the operation's path, for
/// every base address.
pub proof fn addresses_extend_the_base_address(api_url: Seq<char>, payment_session_id: Seq<char>)
    ensures
        payment_sessions_url(api_url).len() == api_url.len() as int + 17,
        payment_sessions_url(api_url).subrange(0, api_url.len() as int) == api_url,
        payment_sessions_url(api_url).subrange(api_url.len() as int, api_url.len() as int + 17)
            == "/payment-sessions"@,
        create_and_submit_payment_session_url(api_url).len() == api_url.len() as int + 24,
        create_and_submit_payment_session_url(api_url).subrange(0, api_url.len() as int) == api_url,
        create_and_submit_payment_session_url(api_url).subrange(api_url.len() as int, api_url.len() as int + 24)
            == "/payment-sessions/submit"@,
        submit_payment_session_url(api_url, payment_session_id).len()
            == api_url.len() as int + 18 + payment_session_id.len() as int + 7,
        submit_payment_session_url(api_url, payment_session_id).subrange(0, api_url.len() as int) == api_url,
        submit_payment_session_url(api_url, payment_session_id).subrange(
            api_url.len() as int,
            api_url.len() as int + 18,
        ) == "/payment-sessions/"@,
        submit_payment_session_url(api_url, payment_session_id).subrange(
            api_url.len() as int + 18,
            api_url.len() as int + 18 + payment_session_id.len() as int,
        ) == payment_session_id,
        submit_payment_session_url(api_url, payment_session_id).subrange(
            api_url.len() as int + 18 + payment_session_id.len() as int,
            api_url.len() as int + 18 + payment_session_id.len() as int + 7,
        ) == "/submit"@,
{
    reveal_strlit("/payment-sessions");
    reveal_strlit("/payment-sessions/submit");
    reveal_strlit("/payment-sessions/");
    reveal_strlit("/submit");
    let create = payment_sessions_url(api_url);
    assert(create.subrange(0, api_url.len() as int) =~= api_url);
    assert(create.subrange(api_url.len() as int, api_url.len() as int + 17) =~= "/payment-sessions"@);
    let combined = create_and_submit_payment_session_url(api_url);
    assert(combined.subrange(0, api_url.len() as int) =~= api_url);
    assert(combined.subrange(api_url.len() as int, api_url.len() as int + 24) =~= "/payment-sessions/submit"@);
    let submit = submit_payment_session_url(api_url, payment_session_id);
    let k = api_url.len() as int + 18;
    let m = k + payment_session_id.len() as int;
    assert(submit.subrange(0, api_url.len() as int) =~= api_url);
    assert(submit.subrange(api_url.len() as int, k) =~= "/payment-sessions/"@);
    assert(submit.subrange(k, m) =~= payment_session_id);
    assert(submit.subrange(m, m + 7) =~= "/submit"@);
}

/// Clients of different environments send every request to different
/// addresses: a production client never reaches the sandbox, nor the reverse.
pub proof fn environments_reach_different_addresses(first: Environment, second: Environment, payment_session_id: Seq<char>)
    requires
        first != second,
    ensures
        payment_sessions_url(first.spec_api_url()) != payment_sessions_url(second.spec_api_url()),
        create_and_submit_payment_session_url(first.spec_api_url())
            != create_and_submit_payment_session_url(second.spec_api_url()),
        submit_payment_session_url(first.spec_api_url(), payment_session_id)
            != submit_payment_session_url(second.spec_api_url(), payment_session_id),
{
    reveal_strlit("https://api.sandbox.checkout.com");
    reveal_strlit("https://api.checkout.com");
    addresses_extend_the_base_address(first.spec_api_url(), payment_session_id);
    addresses_extend_the_base_address(second.spec_api_url(), payment_session_id);
}

} // verus!
