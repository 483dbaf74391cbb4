use vstd::prelude::*;

verus! {

// ---------------------------------------------------------------------------
// Trusted view of the certificate parsers.
// ---------------------------------------------------------------------------

/// The character views of a list of strings.
pub open spec fn domain_views(v: Seq<String>) -> Seq<Seq<char>> {
    Seq::new(v.len(), |i: int| v[i]@)
}

/// The DER bytes of the first certificate section of a PEM text, when the
/// text holds one.
pub uninterp spec fn first_certificate_der(pem: Seq<u8>) -> Option<Seq<u8>>;

/// The DNS entries of a certificate's subject-alternative-name extension,
/// in certificate order; `None` when the DER does not parse as a certificate
/// or the certificate carries no such extension.
pub uninterp spec fn certificate_dns_names_spec(der: Seq<u8>) -> Option<Seq<Seq<char>>>;

/// Relies on rustls_pemfile::certs: scans the PEM text and yields its
/// certificate sections; the first one is returned as DER bytes.
#[verifier::external_body]
fn pem_first_certificate(pem: &[u8]) -> (r: Option<Vec<u8>>)
    ensures
        r is Some <==> first_certificate_der(pem@) is Some,
        r matches Some(der) ==> first_certificate_der(pem@) == Some(der@),
{
    let mut reader: &[u8] = pem;
    let first = rustls_pemfile::certs(&mut reader).filter_map(|c| c.ok()).next();
    first.map(|c| c.as_ref().to_vec())
}

/// Relies on x509_parser::parse_x509_certificate and
/// X509Certificate::subject_alternative_name: the certificate's DNS-type
/// subject-alternative names, or `None` when it does not parse or has no
/// subject-alternative-name extension.
#[verifier::external_body]
fn certificate_dns_names(der: &[u8]) -> (r: Option<Vec<String>>)
    ensures
        r is Some <==> certificate_dns_names_spec(der@) is Some,
        r matches Some(names) ==> certificate_dns_names_spec(der@) == Some(domain_views(names@)),
{
    let (_, cert) = x509_parser::parse_x509_certificate(der).ok()?;
    let san = cert.subject_alternative_name().ok()??;
    let mut names = Vec::new();
    for name in &san.value.general_names {
        match name {
            x509_parser::extensions::GeneralName::DNSName(dns) => names.push(dns.to_string()),
            _ => {},
        }
    }
    Some(names)
}

// ---------------------------------------------------------------------------
// Comparing domain lists as sets.
// ---------------------------------------------------------------------------

fn contains_string(v: &Vec<String>, s: &String) -> (r: bool)
    ensures
        r == domain_views(v@).to_set().contains(s@),
{
    let n = v.len();
    let mut i: usize = 0;
    while i < n
        invariant
            n == v@.len(),
            0 <= i <= n,
            forall|k: int| 0 <= k < i ==> domain_views(v@)[k] != s@,
        decreases n - i,
    {
        if v[i] == *s {
            assert(domain_views(v@)[i as int] == s@);
            assert(domain_views(v@).contains(s@));
            return true;
        }
        i += 1;
    }
    assert(forall|k: int| 0 <= k < domain_views(v@).len() ==> domain_views(v@)[k] != s@);
    assert(!domain_views(v@).contains(s@));
    false
}

/// Whether `a` and `b` hold the same strings, compared as sets.
fn string_set_eq(a: &Vec<String>, b: &Vec<String>) -> (r: bool)
    ensures
        r == (domain_views(a@).to_set() == domain_views(b@).to_set()),
{
    let mut i: usize = 0;
    let n = a.len();
    while i < n
        invariant
            n == a@.len(),
            0 <= i <= n,
            forall|k: int| 0 <= k < i ==> domain_views(b@).to_set().contains(#[trigger] domain_views(a@)[k]),
        decreases n - i,
    {
        if !contains_string(b, &a[i]) {
            proof {
                assert(domain_views(a@)[i as int] == a[i as int]@);
                assert(domain_views(a@).to_set().contains(domain_views(a@)[i as int]));
                assert(!domain_views(b@).to_set().contains(domain_views(a@)[i as int]));
            }
            return false;
        }
        proof {
            assert(domain_views(a@)[i as int] == a[i as int]@);
        }
        i += 1;
    }
    let mut j: usize = 0;
    let m = b.len();
    while j < m
        invariant
            m == b@.len(),
            0 <= j <= m,
            forall|k: int|
                0 <= k < domain_views(a@).len() ==> domain_views(b@).to_set().contains(
                    #[trigger] domain_views(a@)[k],
                ),
            forall|k: int| 0 <= k < j ==> domain_views(a@).to_set().contains(#[trigger] domain_views(b@)[k]),
        decreases m - j,
    {
        if !contains_string(a, &b[j]) {
            proof {
                assert(domain_views(b@)[j as int] == b[j as int]@);
                assert(domain_views(b@).to_set().contains(domain_views(b@)[j as int]));
                assert(!domain_views(a@).to_set().contains(domain_views(b@)[j as int]));
            }
            return false;
        }
        proof {
            assert(domain_views(b@)[j as int] == b[j as int]@);
        }
        j += 1;
    }
    proof {
        assert forall|x: Seq<char>| domain_views(a@).to_set().contains(x) implies domain_views(b@).to_set().contains(x) by {
            let k = choose|k: int| 0 <= k < domain_views(a@).len() && domain_views(a@)[k] == x;
            assert(domain_views(a@).contains(x));
            assert(0 <= k < domain_views(a@).len() && domain_views(a@)[k] == x);
        }
        assert forall|x: Seq<char>| domain_views(b@).to_set().contains(x) implies domain_views(a@).to_set().contains(x) by {
            let k = choose|k: int| 0 <= k < domain_views(b@).len() && domain_views(b@)[k] == x;
            assert(domain_views(b@).contains(x));
            assert(0 <= k < domain_views(b@).len() && domain_views(b@)[k] == x);
        }
        assert(domain_views(a@).to_set() =~= domain_views(b@).to_set());
    }
    true
}

// ---------------------------------------------------------------------------
// Coverage.
// ---------------------------------------------------------------------------

/// What the certificate data covers: `false` when the file was missing or
/// unreadable, when no certificate parses out of it, or when it has no
/// subject-alternative-name extension; otherwise whether its DNS names
/// equal `required` exactly as sets — neither a superset nor a subset
/// satisfies coverage.
pub open spec fn covers_spec(cert_data: Option<Seq<u8>>, required: Seq<Seq<char>>) -> bool {
    match cert_data {
        None => false,
        Some(pem) => match first_certificate_der(pem) {
            None => false,
            Some(der) => match certificate_dns_names_spec(der) {
                None => false,
                Some(sans) => sans.to_set() == required.to_set(),
            },
        },
    }
}

/// The view of the certificate file's read result.
pub open spec fn read_view(cert_data: Option<&Vec<u8>>) -> Option<Seq<u8>> {
    match cert_data {
        Some(v) => Some(v@),
        None => None,
    }
}

/// Decides whether an existing certificate already covers the required
/// domain set. `cert_data` is the certificate file's content, `None` when
/// the file is missing or unreadable — which signals "provisioning
/// required", never an error.
pub fn cert_covers_domains(cert_data: Option<&Vec<u8>>, required_domains: &Vec<String>) -> (r: bool)
    ensures
        r == covers_spec(read_view(cert_data), domain_views(required_domains@)),
{
    let data = match cert_data {
        Some(d) => d,
        None => {
            return false;
        },
    };
    let der = match pem_first_certificate(data.as_slice()) {
        Some(der) => der,
        None => {
            return false;
        },
    };
    let sans = match certificate_dns_names(der.as_slice()) {
        Some(sans) => sans,
        None => {
            return false;
        },
    };
    string_set_eq(&sans, required_domains)
}

} // verus!
