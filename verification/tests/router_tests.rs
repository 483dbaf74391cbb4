use acme_proxy::config::{BackendConfig, DomainEntry, ProxyConfig};
use acme_proxy::router::{choose_host, upstream_header_plan, DomainRouter};

fn backend(host: &str, port: u16, tls: bool, sni: Option<&str>) -> BackendConfig {
    BackendConfig { host: host.to_string(), port, tls, sni: sni.map(|s| s.to_string()) }
}

fn config(entries: Vec<(&str, BackendConfig)>, default: Option<BackendConfig>) -> ProxyConfig {
    ProxyConfig {
        listen_addr: "0.0.0.0:8080".to_string(),
        tls_listen_addr: None,
        tls: None,
        debug_mode: false,
        domains: entries
            .into_iter()
            .map(|(k, b)| DomainEntry { key: k.to_string(), backend: b })
            .collect(),
        default_backend: default,
    }
}

#[test]
fn route_case_insensitive_and_port_stripped() {
    let router = DomainRouter::new(config(
        vec![("app1.example.com", backend("backend1", 8080, false, None))],
        None,
    ));
    let t = match router.route("App1.Example.com:8443") {
        Ok(t) => t,
        Err(_) => panic!("expected a match"),
    };
    assert_eq!(t.upstream_addr, "backend1:8080");
    assert!(!t.tls);
    assert_eq!(t.sni, "backend1");
}

#[test]
fn route_wildcard_matches_subdomain_only() {
    let router = DomainRouter::new(config(
        vec![("*.wild.example.com", backend("w", 9000, false, None))],
        None,
    ));
    let t = match router.route("x.wild.example.com") {
        Ok(t) => t,
        Err(_) => panic!("wildcard should match a subdomain"),
    };
    assert_eq!(t.upstream_addr, "w:9000");
    assert!(router.route("wild.example.com").is_err());
}

#[test]
fn route_no_match_no_default_fails() {
    let router = DomainRouter::new(config(
        vec![("app1.example.com", backend("backend1", 8080, false, None))],
        None,
    ));
    assert!(router.route("unknown.test").is_err());
}

#[test]
fn route_falls_back_to_default_backend() {
    let router = DomainRouter::new(config(
        vec![("app1.example.com", backend("backend1", 8080, false, None))],
        Some(backend("fallback", 3000, false, None)),
    ));
    let t = router.route("unknown.test").map_err(|_| ()).unwrap();
    assert_eq!(t.upstream_addr, "fallback:3000");
}

#[test]
fn route_exact_match_beats_wildcard() {
    let router = DomainRouter::new(config(
        vec![
            ("*.example.com", backend("wild", 1000, false, None)),
            ("a.example.com", backend("exact", 2000, false, None)),
        ],
        None,
    ));
    let t = router.route("a.example.com").map_err(|_| ()).unwrap();
    assert_eq!(t.upstream_addr, "exact:2000");
}

#[test]
fn route_first_wildcard_in_config_order_wins() {
    let router = DomainRouter::new(config(
        vec![
            ("*.a.example.com", backend("narrow", 1000, false, None)),
            ("*.example.com", backend("wide", 2000, false, None)),
        ],
        None,
    ));
    let t = router.route("x.a.example.com").map_err(|_| ()).unwrap();
    assert_eq!(t.upstream_addr, "narrow:1000");
}

#[test]
fn route_propagates_backend_tls_and_sni() {
    let router = DomainRouter::new(config(
        vec![("s.example.com", backend("secure-host", 443, true, Some("sni.example.com")))],
        None,
    ));
    let t = router.route("s.example.com").map_err(|_| ()).unwrap();
    assert_eq!(t.upstream_addr, "secure-host:443");
    assert!(t.tls);
    assert_eq!(t.sni, "sni.example.com");
}

#[test]
fn choose_host_priority_order() {
    assert_eq!(
        choose_host(
            Some("h.example.com".to_string()),
            Some("a.example.com".to_string()),
            Some("u.example.com".to_string()),
        ),
        Some("h.example.com".to_string())
    );
    assert_eq!(
        choose_host(None, Some("a.example.com".to_string()), Some("u.example.com".to_string())),
        Some("a.example.com".to_string())
    );
    assert_eq!(choose_host(None, None, Some("u.example.com".to_string())), Some("u.example.com".to_string()));
    assert_eq!(choose_host(None, None, None), None);
}

#[test]
fn choose_host_skips_empty_values() {
    assert_eq!(
        choose_host(Some(String::new()), Some("a.example.com".to_string()), None),
        Some("a.example.com".to_string())
    );
    assert_eq!(choose_host(Some(String::new()), None, None), None);
}

#[test]
fn upstream_header_plan_full() {
    let plan = upstream_header_plan(Some("app1.example.com:8443".to_string()), Some("10.0.0.9:5313".to_string()));
    assert_eq!(plan.len(), 3);
    assert_eq!(plan[0], ("Host".to_string(), "app1.example.com:8443".to_string()));
    assert_eq!(plan[1], ("X-Forwarded-For".to_string(), "10.0.0.9:5313".to_string()));
    assert_eq!(plan[2], ("X-Forwarded-Proto".to_string(), "http".to_string()));
}

#[test]
fn upstream_header_plan_partial() {
    let plan = upstream_header_plan(None, None);
    assert_eq!(plan.len(), 1);
    assert_eq!(plan[0], ("X-Forwarded-Proto".to_string(), "http".to_string()));
    let plan = upstream_header_plan(Some("h".to_string()), None);
    assert_eq!(plan.len(), 2);
    assert_eq!(plan[0], ("Host".to_string(), "h".to_string()));
}
