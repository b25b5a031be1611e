# checkout

A client library for the Checkout.com payments API and its Flow web component,
written in Verus.

- `src/types/requests.rs`: payment request bodies and `CreatePaymentRequestBuilder`,
  whose contracts say exactly which field each setter fills and that `build`
  returns what the builder holds; `src/types/request_settings.rs` models sequences
  of setter calls and proves what any sequence leaves and that setters of
  different fields commute.
- `src/models/`: the payment-session request and response bodies with their
  builders, and the value types they share.
- `src/apis/flows.rs`: the payment-session operations, each of which works out the
  request to send (method, scope, address, body).
- `src/frontend.rs`: the page that hosts Flow, the reading of the payment session
  from its Base64 argument, and the serving program's address and startup lines.
- `src/codec.rs`: the calls into `base64` and `serde_json`, with the contracts
  that the library relies on.
- `app/main.rs`: the program that serves the Flow page (command line, environment,
  HTTP server).
