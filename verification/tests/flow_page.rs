use checkout::frontend::{
    listen_address, payment_session_from_compacted, payment_session_from_decoded,
    payment_session_json, render_flow_page, startup_lines, SessionArgumentError, FLOW_PAGE_HEAD,
    FLOW_PAGE_MIDDLE, FLOW_PAGE_TAIL,
};

#[test]
fn page_sets_key_and_session_into_the_script() {
    let page = render_flow_page("pk_sbox_123", "{\"id\":\"ps_1\"}");
    assert_eq!(
        page,
        format!("{}pk_sbox_123{}{{\"id\":\"ps_1\"}}{}", FLOW_PAGE_HEAD, FLOW_PAGE_MIDDLE, FLOW_PAGE_TAIL)
    );
    assert!(page.contains("const publicKey  = 'pk_sbox_123';"));
    assert!(page.contains("const paymentSession = {\"id\":\"ps_1\"};"));
    assert!(page.starts_with("<!doctype html>"));
    assert!(page.ends_with("</html>"));
    assert!(page.contains("<div id=\"flow-container\"></div>"));
    assert!(page.contains("environment: 'sandbox',"));
    assert!(page.contains("*, *::before, *::after { box-sizing: border-box; margin: 0; padding: 0; }"));
}

#[test]
fn page_with_empty_values() {
    let page = render_flow_page("", "");
    assert_eq!(page, format!("{}{}{}", FLOW_PAGE_HEAD, FLOW_PAGE_MIDDLE, FLOW_PAGE_TAIL));
}

#[test]
fn session_argument_is_decoded_and_compacted() {
    // {"id": "ps_1", "payment_session_secret": "pss_2"}
    let argument = "eyJpZCI6ICJwc18xIiwgInBheW1lbnRfc2Vzc2lvbl9zZWNyZXQiOiAicHNzXzIifQ==";
    assert_eq!(
        payment_session_json(argument),
        Ok("{\"id\":\"ps_1\",\"payment_session_secret\":\"pss_2\"}".to_string())
    );
}

#[test]
fn session_argument_that_is_not_base64() {
    assert_eq!(payment_session_json("not base64!"), Err(SessionArgumentError::InvalidBase64));
    // non-canonical padding is refused too
    assert_eq!(payment_session_json("e30"), Err(SessionArgumentError::InvalidBase64));
}

#[test]
fn session_argument_that_is_not_json() {
    // "hello"
    assert_eq!(payment_session_json("aGVsbG8="), Err(SessionArgumentError::InvalidJson));
}

#[test]
fn empty_session_argument_is_not_json() {
    assert_eq!(payment_session_json(""), Err(SessionArgumentError::InvalidJson));
}

#[test]
fn decoded_bytes_are_compacted() {
    assert_eq!(
        payment_session_from_decoded(Some(b"{ \"a\" : [1, 2] }".to_vec())),
        Ok("{\"a\":[1,2]}".to_string())
    );
    assert_eq!(payment_session_from_decoded(None), Err(SessionArgumentError::InvalidBase64));
    assert_eq!(
        payment_session_from_decoded(Some(b"{".to_vec())),
        Err(SessionArgumentError::InvalidJson)
    );
}

#[test]
fn compacted_outcome_is_the_session() {
    assert_eq!(payment_session_from_compacted(Some("{}".to_string())), Ok("{}".to_string()));
    assert_eq!(payment_session_from_compacted(None), Err(SessionArgumentError::InvalidJson));
}

#[test]
fn listen_address_covers_every_interface() {
    assert_eq!(listen_address(0), "0.0.0.0:0");
    assert_eq!(listen_address(8080), "0.0.0.0:8080");
    assert_eq!(listen_address(65535), "0.0.0.0:65535");
    assert_eq!(listen_address(10), "0.0.0.0:10");
}

#[test]
fn startup_lines_report_port_session_and_key() {
    let lines = startup_lines(34365, "{\"id\":\"ps_1\"}", "pk_test");
    assert_eq!(
        lines,
        vec![
            "LISTENING_PORT=34365".to_string(),
            "Listening on http://localhost:34365".to_string(),
            "Payment session: {\"id\":\"ps_1\"}".to_string(),
            "Public key: pk_test".to_string(),
        ]
    );
}

#[test]
fn port_line_reads_back_as_the_port() {
    for port in [0u16, 1, 9, 10, 99, 100, 4444, 65535] {
        let lines = startup_lines(port, "", "");
        let digits = lines[0].strip_prefix("LISTENING_PORT=").unwrap();
        assert_eq!(digits.parse::<u16>().unwrap(), port);
        assert!(port == 0 || !digits.starts_with('0'));
    }
}
