use vstd::prelude::*;

verus! {

/// One upstream target that requests can be forwarded to.
#[derive(Debug, Clone)]
pub struct BackendConfig {
    /// Hostname or IP address of the backend service.
    pub host: String,
    /// Port the backend service is listening on.
    pub port: u16,
    /// Whether to use TLS when connecting to the backend.
    pub tls: bool,
    /// SNI hostname for TLS connections; defaults to `host` when absent.
    pub sni: Option<String>,
}

impl BackendConfig {
    /// The server name announced when connecting to this backend over TLS:
    /// the explicit `sni` override when present, otherwise the backend host.
    pub open spec fn spec_sni(&self) -> Seq<char> {
        match self.sni {
            Some(s) => s@,
            None => self.host@,
        }
    }

    pub fn effective_sni(&self) -> (r: &String)
        ensures
            r@ == self.spec_sni(),
    {
        match &self.sni {
            Some(s) => s,
            None => &self.host,
        }
    }
}

/// TLS settings of the listener, including the knobs of automatic
/// certificate provisioning.
#[derive(Debug, Clone)]
pub struct TlsConfig {
    /// Path of the PEM certificate chain file.
    pub cert_path: String,
    /// Path of the PEM private key file.
    pub key_path: String,
    /// Whether HTTP/2 is offered on the TLS listener.
    pub enable_h2: bool,
    /// Provider API token; its presence is the sole trigger for
    /// automatic certificate provisioning.
    pub duckdns_token: Option<String>,
    /// Order against the production directory instead of staging.
    pub acme_production: bool,
    /// Seconds to wait for a published TXT record to propagate.
    pub dns_wait_seconds: u64,
}

/// A configured virtual-host entry: a domain key and the backend it routes to.
/// A key starting with `*.` is a wildcard entry.
#[derive(Debug, Clone)]
pub struct DomainEntry {
    pub key: String,
    pub backend: BackendConfig,
}

/// The whole proxy configuration, resolved to concrete values at load time.
#[derive(Debug, Clone)]
pub struct ProxyConfig {
    /// Address of the plain HTTP listener.
    pub listen_addr: String,
    /// Address of the HTTPS listener, when TLS is configured.
    pub tls_listen_addr: Option<String>,
    /// TLS settings; required when `tls_listen_addr` is set.
    pub tls: Option<TlsConfig>,
    /// Log every request in detail.
    pub debug_mode: bool,
    /// Domain-to-backend mapping; keys are unique.
    pub domains: Vec<DomainEntry>,
    /// Backend used when no domain entry matches.
    pub default_backend: Option<BackendConfig>,
}

impl ProxyConfig {
    /// Well-formedness: the configured domain keys are pairwise distinct.
    pub open spec fn wf(&self) -> bool {
        forall|i: int, j: int|
            0 <= i < j < self.domains@.len() ==> self.domains@[i].key@ != self.domains@[j].key@
    }
}

/// The default of `TlsConfig::dns_wait_seconds` when the configuration
/// leaves it out.
pub fn default_dns_wait() -> (r: u64)
    ensures
        r == 30,
{
    30
}

/// The default of `TlsConfig::enable_h2` when the configuration leaves it out.
pub fn default_true() -> (r: bool)
    ensures
        r,
{
    true
}

/// Everything one certificate-provisioning run needs.
#[derive(Debug, Clone)]
pub struct AcmeConfig {
    /// The domains to provision, one order each.
    pub domains: Vec<String>,
    /// DNS provider API token.
    pub duckdns_token: String,
    /// Path of the default certificate file.
    pub cert_path: String,
    /// Path of the default private key file.
    pub key_path: String,
    /// Order against the production directory instead of staging.
    pub production: bool,
    /// Seconds to wait for a published TXT record to propagate.
    pub dns_wait_seconds: u64,
    /// Path of the persisted account credentials, when configured.
    pub account_path: Option<String>,
}

/// Command-line options of the standalone provisioning run.
#[derive(Debug, Clone)]
pub struct Options {
    /// Domain names to provision.
    pub domains: Vec<String>,
    /// DNS provider API token.
    pub duckdns_token: String,
    /// Directory the certificate files are written to.
    pub output_dir: String,
    /// Order against the production directory instead of staging.
    pub production: bool,
    /// Seconds to wait for a published TXT record to propagate.
    pub dns_wait: u64,
}

} // verus!
