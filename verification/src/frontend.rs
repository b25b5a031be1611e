//! The page that hosts the Flow web component for one payment session, and
//! the values that the serving program works out before it starts: the payment
//! session handed to it as Base64-encoded JSON, its listening address and its
//! startup report.

use vstd::prelude::*;
use vstd::string::StringExecFns;

use crate::codec::{compact_json, compact_json_text, decode_standard_base64, standard_base64_decoding};

verus! {

/// The page up to the public key, which is set inside a JavaScript string.
pub const FLOW_PAGE_HEAD: &'static str = r#"<!doctype html>
<html lang="en">
<head>
    <meta charset="utf-8" />
    <meta name="viewport" content="width=device-width, initial-scale=1.0" />
    <title>Checkout Flow</title>
    <style>
        *, *::before, *::after { box-sizing: border-box; margin: 0; padding: 0; }
        body {
            font-family: -apple-system, BlinkMacSystemFont, 'Segoe UI', Roboto, sans-serif;
            background: #f5f5f5;
            display: flex;
            justify-content: center;
            align-items: flex-start;
            min-height: 100vh;
            padding: 2rem;
        }
        .container {
            background: #fff;
            border-radius: 12px;
            box-shadow: 0 2px 12px rgba(0,0,0,0.08);
            padding: 2rem;
            width: 100%;
            max-width: 480px;
        }
        .toast {
            position: fixed; top: 1rem; right: 1rem;
            padding: 0.75rem 1.5rem;
            border-radius: 8px;
            color: #fff;
            font-weight: 600;
            opacity: 0;
            transition: opacity 0.3s;
            pointer-events: none;
            z-index: 100;
        }
        .toast.success { background: #16a34a; }
        .toast.failed  { background: #dc2626; }
        .toast.show    { opacity: 1; pointer-events: auto; }
    </style>
</head>
<body>
    <div id="successToast" class="toast success">
        <span>The payment was successful</span>
    </div>
    <div id="failedToast" class="toast failed">
        <span>The payment failed, try again</span>
    </div>

    <form>
        <div class="container">
            <div id="flow-container"></div>
        </div>
        <span id="error-message"></span>
    </form>

    <script>
        window._capturedLogs = [];
        const originalError = console.error;
        const originalWarn = console.warn;
        console.error = function(...args) { window._capturedLogs.push("ERROR: " + args.join(" ")); originalError.apply(console, args); };
        console.warn = function(...args) { window._capturedLogs.push("WARN: " + args.join(" ")); originalWarn.apply(console, args); };
        window.addEventListener('unhandledrejection', function(event) {
            window._capturedLogs.push("REJECTION: " + JSON.stringify(event.reason, Object.getOwnPropertyNames(event.reason)));
        });
    </script>
    <script src="https://checkout-web-components.checkout.com/index.js"></script>
    <script>
        (async () => {
            try {
                console.warn("Starting initialization");
                const publicKey  = '"#;

/// The page between the public key and the payment session, which is set as a
/// JavaScript object literal.
pub const FLOW_PAGE_MIDDLE: &'static str = r#"';
                const paymentSession = "#;

/// The page after the payment session.
pub const FLOW_PAGE_TAIL: &'static str = r#";
    
                const checkout = await CheckoutWebComponents({
                    paymentSession,
                    publicKey,
                    environment: 'sandbox',
                });
                
                console.warn("Checkout component initialized");
    
                const flow = checkout.create('flow');
                flow.mount('#flow-container');
                console.warn("Flow mounted");
            } catch (err) {
                console.error("Mount error: " + err.message + "\n" + err.stack);
            }
        })();
    </script>
</body>
</html>"#;

/// The page that mounts Flow for `payment_session_json` with `public_key`.
pub open spec fn flow_page(public_key: Seq<char>, payment_session_json: Seq<char>) -> Seq<char> {
    FLOW_PAGE_HEAD@ + public_key + FLOW_PAGE_MIDDLE@ + payment_session_json + FLOW_PAGE_TAIL@
}

/// Renders the page that initialises Flow in the sandbox environment with
/// `public_key` and the payment session `payment_session_json`, both set into
/// the page's script as they are.
pub fn render_flow_page(public_key: &str, payment_session_json: &str) -> (page: String)
    ensures
        page@ == flow_page(public_key@, payment_session_json@),
{
    let mut page = String::from_str(FLOW_PAGE_HEAD);
    page.append(public_key);
    page.append(FLOW_PAGE_MIDDLE);
    page.append(payment_session_json);
    page.append(FLOW_PAGE_TAIL);
    page
}

/// The page hands Flow the public key and the payment session unmodified: each
/// stands in the page, character for character, right after the template text
/// that precedes it.
pub proof fn flow_page_embeds_key_and_session(public_key: Seq<char>, payment_session_json: Seq<char>)
    ensures
        ({
            let page = flow_page(public_key, payment_session_json);
            let key_start = FLOW_PAGE_HEAD@.len() as int;
            let session_start = key_start + public_key.len() + FLOW_PAGE_MIDDLE@.len();
            &&& page.subrange(key_start, key_start + public_key.len()) == public_key
            &&& page.subrange(session_start, session_start + payment_session_json.len())
                == payment_session_json
            &&& page.subrange(0, key_start) == FLOW_PAGE_HEAD@
            &&& page.len() == FLOW_PAGE_HEAD@.len() + public_key.len() + FLOW_PAGE_MIDDLE@.len()
                + payment_session_json.len() + FLOW_PAGE_TAIL@.len()
        }),
{
    let page = flow_page(public_key, payment_session_json);
    let key_start = FLOW_PAGE_HEAD@.len() as int;
    let session_start = key_start + public_key.len() + FLOW_PAGE_MIDDLE@.len();
    assert(page.subrange(key_start, key_start + public_key.len()) =~= public_key);
    assert(page.subrange(session_start, session_start + payment_session_json.len())
        =~= payment_session_json);
    assert(page.subrange(0, key_start) =~= FLOW_PAGE_HEAD@);
}

/// Why the payment-session argument cannot be used.
#[derive(Debug, Clone, Copy, PartialEq, Eq, Structural)]
pub enum SessionArgumentError {
    /// The argument is not standard Base64 text.
    InvalidBase64,
    /// The decoded bytes are not one JSON document.
    InvalidJson,
}

/// What the payment-session argument `argument` gives: the compact JSON text
/// of the document that its Base64 text encodes, or why it gives none.
pub open spec fn payment_session_from_argument(argument: Seq<char>) -> Result<Seq<char>, SessionArgumentError> {
    match standard_base64_decoding(argument) {
        None => Err(SessionArgumentError::InvalidBase64),
        Some(bytes) => payment_session_from_bytes(bytes),
    }
}

/// What decoded bytes give as a payment session: the compact JSON text of the
/// document they hold, or `InvalidJson`.
pub open spec fn payment_session_from_bytes(bytes: Seq<u8>) -> Result<Seq<char>, SessionArgumentError> {
    match compact_json_text(bytes) {
        None => Err(SessionArgumentError::InvalidJson),
        Some(text) => Ok(text),
    }
}

/// The views of an outcome that holds a `String`.
pub open spec fn outcome_view(outcome: Result<String, SessionArgumentError>) -> Result<Seq<char>, SessionArgumentError> {
    match outcome {
        Ok(text) => Ok(text@),
        Err(e) => Err(e),
    }
}

/// Turns the outcome of printing the decoded session as compact JSON into the
/// session text, or `InvalidJson` where there was no JSON document.
pub fn payment_session_from_compacted(compacted: Option<String>) -> (session: Result<String, SessionArgumentError>)
    ensures
        session == match compacted {
            Some(text) => Ok(text),
            None => Err::<String, SessionArgumentError>(SessionArgumentError::InvalidJson),
        },
{
    match compacted {
        Some(text) => Ok(text),
        None => Err(SessionArgumentError::InvalidJson),
    }
}

/// Turns the outcome of decoding the Base64 argument into the session text:
/// `InvalidBase64` where nothing was decoded, else the compact JSON of the
/// decoded bytes.
pub fn payment_session_from_decoded(decoded: Option<Vec<u8>>) -> (session: Result<String, SessionArgumentError>)
    ensures
        outcome_view(session) == match decoded {
            None => Err(SessionArgumentError::InvalidBase64),
            Some(bytes) => payment_session_from_bytes(bytes@),
        },
{
    match decoded {
        None => Err(SessionArgumentError::InvalidBase64),
        Some(bytes) => payment_session_from_compacted(compact_json(bytes.as_slice())),
    }
}

/// Reads the payment session from its command-line argument: Base64 text of
/// the JSON of a created payment session. Returns the compact JSON text of
/// that document, which the page embeds.
pub fn payment_session_json(argument: &str) -> (session: Result<String, SessionArgumentError>)
    ensures
        outcome_view(session) == payment_session_from_argument(argument@),
{
    payment_session_from_decoded(decode_standard_base64(argument))
}

/// The character of a decimal digit `d` (below ten).
pub open spec fn digit_char(d: nat) -> char {
    (48 + d) as char
}

/// The value of a decimal digit character.
pub open spec fn digit_value(c: char) -> int {
    c as int - 48
}

/// The decimal numeral of `n`, without leading zeros.
pub open spec fn decimal_digits(n: nat) -> Seq<char>
    decreases n,
{
    if n < 10 {
        seq![digit_char(n)]
    } else {
        decimal_digits(n / 10).push(digit_char(n % 10))
    }
}

/// The number that a string of decimal digits denotes.
pub open spec fn decimal_value(digits: Seq<char>) -> int
    decreases digits.len(),
{
    if digits.len() == 0 {
        0
    } else {
        decimal_value(digits.drop_last()) * 10 + digit_value(digits.last())
    }
}

/// Returns the one-character text of the decimal digit `d`.
fn digit_text(d: u16) -> (text: &'static str)
    requires
        d < 10,
    ensures
        text@ == seq![digit_char(d as nat)],
{
    proof {
        reveal_strlit("0");
        reveal_strlit("1");
        reveal_strlit("2");
        reveal_strlit("3");
        reveal_strlit("4");
        reveal_strlit("5");
        reveal_strlit("6");
        reveal_strlit("7");
        reveal_strlit("8");
        reveal_strlit("9");
    }
    match d {
        0 => "0",
        1 => "1",
        2 => "2",
        3 => "3",
        4 => "4",
        5 => "5",
        6 => "6",
        7 => "7",
        8 => "8",
        _ => "9",
    }
}

/// Appends the decimal numeral of `n` to `out`.
fn append_decimal(out: &mut String, n: u16)
    ensures
        final(out)@ == old(out)@ + decimal_digits(n as nat),
    decreases n,
{
    if n >= 10 {
        append_decimal(out, n / 10);
    }
    out.append(digit_text(n % 10));
    proof {
        if n >= 10 {
            assert(decimal_digits(n as nat) == decimal_digits((n / 10) as nat).push(digit_char((n % 10) as nat)));
        }
    }
}

/// A port number printed in decimal reads back as the same number, and its
/// numeral holds decimal digits only, with no leading zero.
pub proof fn decimal_digits_read_back(n: nat)
    ensures
        decimal_value(decimal_digits(n)) == n,
        decimal_digits(n).len() >= 1,
        forall|i: int| 0 <= i < decimal_digits(n).len() ==> '0' <= #[trigger] decimal_digits(n)[i] <= '9',
        n > 0 ==> decimal_digits(n)[0] != '0',
    decreases n,
{
    let d = (n % 10) as nat;
    assert(digit_value(digit_char(d)) == d);
    let digits = decimal_digits(n);
    if n >= 10 {
        decimal_digits_read_back(n / 10);
        assert(digits.drop_last() =~= decimal_digits(n / 10));
        assert(digits.last() == digit_char(d));
        assert(decimal_value(digits) == decimal_value(decimal_digits(n / 10)) * 10 + digit_value(digit_char(d)));
    } else {
        assert(digits.drop_last() =~= Seq::<char>::empty());
        assert(decimal_value(digits) == decimal_value(Seq::<char>::empty()) * 10 + digit_value(digit_char(d)));
    }
}

/// The address that the server listens on: every interface, at `port`.
pub open spec fn listen_address_text(port: nat) -> Seq<char> {
    "0.0.0.0:"@ + decimal_digits(port)
}

/// Returns the address that the server binds to: every interface, at `port`
/// (port 0 asks the system for a free port).
pub fn listen_address(port: u16) -> (address: String)
    ensures
        address@ == listen_address_text(port as nat),
{
    let mut address = String::from_str("0.0.0.0:");
    append_decimal(&mut address, port);
    address
}

/// The lines that the server prints once it listens on `port`. The first,
/// `LISTENING_PORT=` and the port, is the one that a harness reads.
pub open spec fn startup_report(port: nat, payment_session_json: Seq<char>, public_key: Seq<char>) -> Seq<Seq<char>> {
    seq![
        "LISTENING_PORT="@ + decimal_digits(port),
        "Listening on http://localhost:"@ + decimal_digits(port),
        "Payment session: "@ + payment_session_json,
        "Public key: "@ + public_key,
    ]
}

/// Returns the lines that the server prints once it listens on `port`.
pub fn startup_lines(port: u16, payment_session_json: &str, public_key: &str) -> (lines: Vec<String>)
    ensures
        lines@.len() == 4,
        forall|i: int| 0 <= i < 4 ==> #[trigger] lines@[i]@ == startup_report(port as nat, payment_session_json@, public_key@)[i],
{
    let mut port_line = String::from_str("LISTENING_PORT=");
    append_decimal(&mut port_line, port);
    let mut address_line = String::from_str("Listening on http://localhost:");
    append_decimal(&mut address_line, port);
    let mut session_line = String::from_str("Payment session: ");
    session_line.append(payment_session_json);
    let mut key_line = String::from_str("Public key: ");
    key_line.append(public_key);
    let mut lines: Vec<String> = Vec::new();
    lines.push(port_line);
    lines.push(address_line);
    lines.push(session_line);
    lines.push(key_line);
    lines
}

} // verus!
