use acme_proxy::dns::{
    classify_clear_response, classify_set_response, duckdns_clear_url, duckdns_set_url,
    subdomain_label,
};

#[test]
fn subdomain_label_strips_provider_suffix() {
    assert_eq!(subdomain_label("jelly-tea.duckdns.org"), "jelly-tea");
    assert_eq!(subdomain_label("other.example.com"), "other.example.com");
    assert_eq!(subdomain_label(".duckdns.org"), "");
}

#[test]
fn set_url_shape() {
    assert_eq!(
        duckdns_set_url("myhost.duckdns.org", "tok123", "challenge-value"),
        "https://www.duckdns.org/update?domains=myhost&token=tok123&txt=challenge-value&verbose=true"
    );
}

#[test]
fn clear_url_shape() {
    assert_eq!(
        duckdns_clear_url("myhost.duckdns.org", "tok123"),
        "https://www.duckdns.org/update?domains=myhost&token=tok123&txt=&clear=true"
    );
}

#[test]
fn set_response_success_needs_marker_prefix() {
    assert!(classify_set_response("OK").is_ok());
    assert!(classify_set_response("OK\n127.0.0.1\nUPDATED").is_ok());
    assert!(classify_set_response("KO").is_err());
    assert!(classify_set_response("").is_err());
    assert!(classify_set_response("O").is_err());
}

#[test]
fn set_response_error_carries_body_verbatim() {
    let body = "KO\nsomething went wrong";
    match classify_set_response(body) {
        Ok(_) => panic!("expected an error"),
        Err(e) => assert_eq!(e.body, body),
    }
}

#[test]
fn clear_response_never_errors() {
    assert!(classify_clear_response("OK"));
    assert!(!classify_clear_response("KO"));
    assert!(!classify_clear_response(""));
}
