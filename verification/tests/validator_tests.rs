use acme_proxy::validator::cert_covers_domains;

fn pem_for(sans: Vec<&str>) -> Vec<u8> {
    let names: Vec<String> = sans.into_iter().map(|s| s.to_string()).collect();
    let ck = rcgen::generate_simple_self_signed(names).unwrap();
    ck.cert.pem().into_bytes()
}

fn strings(v: Vec<&str>) -> Vec<String> {
    v.into_iter().map(|s| s.to_string()).collect()
}

#[test]
fn covers_exact_set_in_any_order() {
    let pem = pem_for(vec!["a.example.com", "b.example.com"]);
    assert!(cert_covers_domains(Some(&pem), &strings(vec!["b.example.com", "a.example.com"])));
    assert!(cert_covers_domains(Some(&pem), &strings(vec!["a.example.com", "b.example.com"])));
}

#[test]
fn covers_rejects_superset_and_subset() {
    let pem = pem_for(vec!["a.example.com"]);
    assert!(cert_covers_domains(Some(&pem), &strings(vec!["a.example.com"])));
    assert!(!cert_covers_domains(Some(&pem), &strings(vec!["a.example.com", "b.example.com"])));
    let pem2 = pem_for(vec!["a.example.com", "b.example.com"]);
    assert!(!cert_covers_domains(Some(&pem2), &strings(vec!["a.example.com"])));
}

#[test]
fn covers_missing_file_is_false() {
    assert!(!cert_covers_domains(None, &strings(vec!["a.example.com"])));
    assert!(!cert_covers_domains(None, &strings(vec![])));
}

#[test]
fn covers_unparsable_data_is_false() {
    let junk = b"this is not a certificate".to_vec();
    assert!(!cert_covers_domains(Some(&junk), &strings(vec!["a.example.com"])));
    assert!(!cert_covers_domains(Some(&junk), &strings(vec![])));
}

#[test]
fn covers_reads_names_out_of_the_certificate() {
    // Different certificates must decide differently against the same
    // required set: the decision depends on what is inside the bytes.
    let pem_a = pem_for(vec!["a.example.com"]);
    let pem_b = pem_for(vec!["b.example.com"]);
    let required = strings(vec!["a.example.com"]);
    assert!(cert_covers_domains(Some(&pem_a), &required));
    assert!(!cert_covers_domains(Some(&pem_b), &required));
}
