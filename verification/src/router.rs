use vstd::prelude::*;
use vstd::string::StrSliceExecFns;
use vstd::string::StringExecFns;

use crate::config::{BackendConfig, DomainEntry, ProxyConfig};

verus! {

// ---------------------------------------------------------------------------
// Host normalization: lower-casing and port stripping.
// ---------------------------------------------------------------------------

/// The code point of `c` after ASCII lower-casing.
pub open spec fn lower_code(c: char) -> int {
    if 65 <= c as u32 && c as u32 <= 90 {
        c as u32 + 32
    } else {
        c as u32 as int
    }
}

/// The index of the first `:` in `s`, or `s.len()` when there is none.
pub open spec fn colon_idx(s: Seq<char>) -> int
    decreases s.len(),
{
    if s.len() == 0 {
        0
    } else if s[0] == ':' {
        0
    } else {
        1 + colon_idx(s.skip(1))
    }
}

/// `s` up to but not including its first `:`: the host with any trailing
/// `:port` suffix stripped.
pub open spec fn host_part(s: Seq<char>) -> Seq<char> {
    s.take(colon_idx(s))
}

proof fn lemma_colon_idx(s: Seq<char>)
    ensures
        0 <= colon_idx(s) <= s.len(),
        colon_idx(s) < s.len() ==> s[colon_idx(s)] == ':',
        forall|k: int| 0 <= k < colon_idx(s) ==> s[k] != ':',
    decreases s.len(),
{
    if s.len() == 0 {
    } else if s[0] == ':' {
    } else {
        lemma_colon_idx(s.skip(1));
        assert forall|k: int| 0 <= k < colon_idx(s) implies s[k] != ':' by {
            if k > 0 {
                assert(s.skip(1)[k - 1] == s[k]);
            }
        }
    }
}

// ---------------------------------------------------------------------------
// Matching a host against configured keys.
// ---------------------------------------------------------------------------

/// The lower-cased `host` equals `key`, character for character.
pub open spec fn eq_ci(host: Seq<char>, key: Seq<char>) -> bool {
    &&& host.len() == key.len()
    &&& forall|i: int| 0 <= i < host.len() ==> lower_code(host[i]) == key[i] as u32 as int
}

/// A configured key of the shape `*.suffix`.
pub open spec fn is_wildcard_key(key: Seq<char>) -> bool {
    key.len() >= 2 && key[0] == '*' && key[1] == '.'
}

/// The lower-cased `host` ends with the wildcard key's suffix (the key
/// without its leading `*`). The suffix keeps its dot, so the bare root
/// does not match.
pub open spec fn wildcard_matches(host: Seq<char>, key: Seq<char>) -> bool {
    &&& is_wildcard_key(key)
    &&& host.len() >= key.len() - 1
    &&& eq_ci(host.skip(host.len() - (key.len() - 1)), key.skip(1))
}

/// The position of the first entry whose key exactly matches `host`.
pub open spec fn first_exact(doms: Seq<DomainEntry>, host: Seq<char>) -> Option<int>
    decreases doms.len(),
{
    if doms.len() == 0 {
        None
    } else if eq_ci(host, doms[0].key@) {
        Some(0int)
    } else {
        match first_exact(doms.skip(1), host) {
            Some(i) => Some(i + 1),
            None => None,
        }
    }
}

/// The position of the first wildcard entry that matches `host`.
pub open spec fn first_wildcard(doms: Seq<DomainEntry>, host: Seq<char>) -> Option<int>
    decreases doms.len(),
{
    if doms.len() == 0 {
        None
    } else if wildcard_matches(host, doms[0].key@) {
        Some(0int)
    } else {
        match first_wildcard(doms.skip(1), host) {
            Some(i) => Some(i + 1),
            None => None,
        }
    }
}

proof fn lemma_first_exact(doms: Seq<DomainEntry>, host: Seq<char>)
    ensures
        match first_exact(doms, host) {
            Some(i) => 0 <= i < doms.len() && eq_ci(host, doms[i].key@) && forall|k: int|
                0 <= k < i ==> !eq_ci(host, doms[k].key@),
            None => forall|k: int| 0 <= k < doms.len() ==> !eq_ci(host, doms[k].key@),
        },
    decreases doms.len(),
{
    if doms.len() != 0 && !eq_ci(host, doms[0].key@) {
        lemma_first_exact(doms.skip(1), host);
        assert(forall|k: int| 1 <= k < doms.len() ==> doms.skip(1)[k - 1] == doms[k]);
    }
}

proof fn lemma_first_wildcard(doms: Seq<DomainEntry>, host: Seq<char>)
    ensures
        match first_wildcard(doms, host) {
            Some(i) => 0 <= i < doms.len() && wildcard_matches(host, doms[i].key@) && forall|
                k: int,
            | 0 <= k < i ==> !wildcard_matches(host, doms[k].key@),
            None => forall|k: int| 0 <= k < doms.len() ==> !wildcard_matches(host, doms[k].key@),
        },
    decreases doms.len(),
{
    if doms.len() != 0 && !wildcard_matches(host, doms[0].key@) {
        lemma_first_wildcard(doms.skip(1), host);
        assert(forall|k: int| 1 <= k < doms.len() ==> doms.skip(1)[k - 1] == doms[k]);
    }
}

/// The configured domain keys are unique, so at most one entry can match a
/// host exactly: any two exactly-matching positions are the same position.
pub proof fn lemma_exact_match_unique(
    config: ProxyConfig,
    host: Seq<char>,
    i: int,
    j: int,
)
    requires
        config.wf(),
        0 <= i < config.domains@.len(),
        0 <= j < config.domains@.len(),
        eq_ci(host, config.domains@[i].key@),
        eq_ci(host, config.domains@[j].key@),
    ensures
        i == j,
{
    if i != j {
        let ki = config.domains@[i].key@;
        let kj = config.domains@[j].key@;
        assert forall|p: int| 0 <= p < ki.len() implies ki[p] == kj[p] by {
            assert(lower_code(host[p]) == ki[p] as u32 as int);
            assert(lower_code(host[p]) == kj[p] as u32 as int);
            vstd::utf8::char_u32_cast(ki[p], ki[p] as u32);
            vstd::utf8::char_u32_cast(kj[p], ki[p] as u32);
        }
        assert(ki =~= kj);
        assert(false);
    }
}

/// The backend that `host` (already stripped of its port) routes to:
/// the first exact match, else the first wildcard match, else the
/// default backend, else none.
pub open spec fn find_backend_spec(config: ProxyConfig, host: Seq<char>) -> Option<BackendConfig> {
    match first_exact(config.domains@, host) {
        Some(i) => Some(config.domains@[i].backend),
        None => match first_wildcard(config.domains@, host) {
            Some(i) => Some(config.domains@[i].backend),
            None => config.default_backend,
        },
    }
}

// ---------------------------------------------------------------------------
// Executable matching helpers.
// ---------------------------------------------------------------------------

/// Whether the lower-cased `c` carries the same code point as `k`.
fn char_eq_ci(c: char, k: char) -> (r: bool)
    ensures
        r == (lower_code(c) == k as u32 as int),
{
    let cu = c as u32;
    let lu: u32 = if 65 <= cu && cu <= 90 {
        cu + 32
    } else {
        cu
    };
    lu == k as u32
}

/// Whether the lower-cased window of `host` starting at `hstart` equals
/// `key` from `kstart` on.
fn range_eq_ci(host: &str, hstart: usize, key: &str, kstart: usize) -> (r: bool)
    requires
        hstart <= host@.len(),
        kstart <= key@.len(),
        host@.len() - hstart == key@.len() - kstart,
    ensures
        r == eq_ci(host@.skip(hstart as int), key@.skip(kstart as int)),
{
    let hlen = host.unicode_len();
    let klen = key.unicode_len();
    let n = hlen - hstart;
    let mut j: usize = 0;
    while j < n
        invariant
            0 <= j <= n,
            hlen == host@.len(),
            klen == key@.len(),
            hstart + n == hlen,
            kstart + n == klen,
            forall|i: int|
                hstart <= i < hstart + j ==> #[trigger] lower_code(host@[i]) == key@[i + kstart
                    - hstart] as u32 as int,
        decreases n - j,
    {
        let c = host.get_char(hstart + j);
        let k = key.get_char(kstart + j);
        if !char_eq_ci(c, k) {
            assert(host@.skip(hstart as int)[j as int] == host@[hstart + j]);
            assert(key@.skip(kstart as int)[j as int] == key@[kstart + j]);
            return false;
        }
        j += 1;
    }
    assert forall|i: int| 0 <= i < host@.skip(hstart as int).len() implies lower_code(
        host@.skip(hstart as int)[i],
    ) == key@.skip(kstart as int)[i] as u32 as int by {
        assert(host@.skip(hstart as int)[i] == host@[hstart + i]);
        assert(key@.skip(kstart as int)[i] == key@[kstart + i]);
        assert(lower_code(host@[hstart + i]) == key@[hstart + i + kstart - hstart] as u32 as int);
    }
    true
}

/// Whether the lower-cased `host` equals `key` in full.
fn str_eq_ci(host: &str, key: &str) -> (r: bool)
    ensures
        r == eq_ci(host@, key@),
{
    let hlen = host.unicode_len();
    let klen = key.unicode_len();
    if hlen != klen {
        return false;
    }
    let r = range_eq_ci(host, 0, key, 0);
    assert(host@.skip(0) == host@);
    assert(key@.skip(0) == key@);
    r
}

/// Whether the wildcard `key` matches `host`.
fn str_wildcard_matches(host: &str, key: &str) -> (r: bool)
    ensures
        r == wildcard_matches(host@, key@),
{
    let klen = key.unicode_len();
    if klen < 2 {
        return false;
    }
    if key.get_char(0) != '*' || key.get_char(1) != '.' {
        return false;
    }
    let hlen = host.unicode_len();
    if hlen < klen - 1 {
        return false;
    }
    range_eq_ci(host, hlen - (klen - 1), key, 1)
}

// ---------------------------------------------------------------------------
// Decimal rendering of a port number.
// ---------------------------------------------------------------------------

/// The decimal digit character of `d`.
pub open spec fn dec_digit(d: int) -> char {
    if d == 0 {
        '0'
    } else if d == 1 {
        '1'
    } else if d == 2 {
        '2'
    } else if d == 3 {
        '3'
    } else if d == 4 {
        '4'
    } else if d == 5 {
        '5'
    } else if d == 6 {
        '6'
    } else if d == 7 {
        '7'
    } else if d == 8 {
        '8'
    } else {
        '9'
    }
}

/// The decimal digits of `n`, most significant first, without leading zeros
/// (a single `0` for zero).
pub open spec fn dec_str(n: int) -> Seq<char>
    recommends
        n >= 0,
    decreases n,
{
    if n < 10 {
        seq![dec_digit(n)]
    } else {
        dec_str(n / 10) + seq![dec_digit(n % 10)]
    }
}

fn append_digit(s: &mut String, d: u16)
    requires
        d < 10,
    ensures
        final(s)@ == old(s)@ + seq![dec_digit(d as int)],
{
    proof {
        reveal_strlit("0");
        reveal_strlit("1");
        reveal_strlit("2");
        reveal_strlit("3");
        reveal_strlit("4");
        reveal_strlit("5");
        reveal_strlit("6");
        reveal_strlit("7");
        reveal_strlit("8");
        reveal_strlit("9");
    }
    if d == 0 {
        s.append("0");
        proof {
            assert("0"@ =~= seq![dec_digit(0int)]);
        }
    } else if d == 1 {
        s.append("1");
        proof {
            assert("1"@ =~= seq![dec_digit(1int)]);
        }
    } else if d == 2 {
        s.append("2");
        proof {
            assert("2"@ =~= seq![dec_digit(2int)]);
        }
    } else if d == 3 {
        s.append("3");
        proof {
            assert("3"@ =~= seq![dec_digit(3int)]);
        }
    } else if d == 4 {
        s.append("4");
        proof {
            assert("4"@ =~= seq![dec_digit(4int)]);
        }
    } else if d == 5 {
        s.append("5");
        proof {
            assert("5"@ =~= seq![dec_digit(5int)]);
        }
    } else if d == 6 {
        s.append("6");
        proof {
            assert("6"@ =~= seq![dec_digit(6int)]);
        }
    } else if d == 7 {
        s.append("7");
        proof {
            assert("7"@ =~= seq![dec_digit(7int)]);
        }
    } else if d == 8 {
        s.append("8");
        proof {
            assert("8"@ =~= seq![dec_digit(8int)]);
        }
    } else {
        s.append("9");
        proof {
            assert("9"@ =~= seq![dec_digit(9int)]);
        }
    }
}

/// Appends the decimal rendering of `n` to `s`.
fn push_decimal(s: &mut String, n: u16)
    ensures
        final(s)@ == old(s)@ + dec_str(n as int),
    decreases n,
{
    if n < 10 {
        append_digit(s, n);
    } else {
        let q = n / 10;
        proof {
            assert(1 <= q < n) by (nonlinear_arith)
                requires
                    q == n / 10,
                    10 <= n,
            ;
        }
        push_decimal(s, q);
        append_digit(s, n % 10);
        proof {
            assert((old(s)@ + dec_str(q as int)) + seq![dec_digit((n % 10) as int)] =~= old(s)@
                + (dec_str(q as int) + seq![dec_digit((n % 10) as int)]));
        }
    }
}

// ---------------------------------------------------------------------------
// The router.
// ---------------------------------------------------------------------------

/// Everything the proxy runtime needs to forward one request upstream.
pub struct RouteTarget {
    /// The upstream address, `host:port` of the chosen backend.
    pub upstream_addr: String,
    /// Whether to connect to the backend over TLS.
    pub tls: bool,
    /// The server name announced during the TLS handshake to the backend.
    pub sni: String,
}

impl RouteTarget {
    /// This target forwards to backend `b`.
    pub open spec fn describes(&self, b: BackendConfig) -> bool {
        &&& self.upstream_addr@ == b.host@ + seq![':'] + dec_str(b.port as int)
        &&& self.tls == b.tls
        &&& self.sni@ == b.spec_sni()
    }
}

/// No domain entry matched and no default backend is configured.
pub struct RoutingError {}

/// Routes inbound requests to backends by virtual host.
pub struct DomainRouter {
    pub config: ProxyConfig,
}

impl DomainRouter {
    pub fn new(config: ProxyConfig) -> (r: Self)
        ensures
            r.config == config,
    {
        DomainRouter { config }
    }

    /// The backend for `host`, which must already be lower-cased only in the
    /// sense that matching lowers it on the fly: first the exact entry, then
    /// the first matching wildcard entry, then the default backend.
    pub fn find_backend<'a>(&'a self, host: &str) -> (r: Option<&'a BackendConfig>)
        ensures
            match r {
                Some(b) => find_backend_spec(self.config, host@) == Some(*b),
                None => find_backend_spec(self.config, host@) is None,
            },
    {
        let n = self.config.domains.len();
        let mut i: usize = 0;
        while i < n
            invariant
                n == self.config.domains@.len(),
                0 <= i <= n,
                forall|k: int| 0 <= k < i ==> !eq_ci(host@, self.config.domains@[k].key@),
            decreases n - i,
        {
            let e = &self.config.domains[i];
            if str_eq_ci(host, e.key.as_str()) {
                proof {
                    lemma_first_exact(self.config.domains@, host@);
                    let spec_i = first_exact(self.config.domains@, host@);
                    assert(spec_i is Some);
                    let j = spec_i->0;
                    if j < i {
                        assert(eq_ci(host@, self.config.domains@[j].key@));
                        assert(false);
                    }
                    if j > i {
                        assert(!eq_ci(host@, self.config.domains@[i as int].key@));
                        assert(false);
                    }
                }
                return Some(&self.config.domains[i].backend);
            }
            i += 1;
        }
        let mut i: usize = 0;
        while i < n
            invariant
                n == self.config.domains@.len(),
                0 <= i <= n,
                forall|k: int| 0 <= k < n ==> !eq_ci(host@, self.config.domains@[k].key@),
                forall|k: int| 0 <= k < i ==> !wildcard_matches(host@, self.config.domains@[k].key@),
            decreases n - i,
        {
            let e = &self.config.domains[i];
            if str_wildcard_matches(host, e.key.as_str()) {
                proof {
                    lemma_first_exact(self.config.domains@, host@);
                    lemma_first_wildcard(self.config.domains@, host@);
                    let spec_i = first_wildcard(self.config.domains@, host@);
                    assert(spec_i is Some);
                    let j = spec_i->0;
                    if j < i {
                        assert(wildcard_matches(host@, self.config.domains@[j].key@));
                        assert(false);
                    }
                    if j > i {
                        assert(!wildcard_matches(host@, self.config.domains@[i as int].key@));
                        assert(false);
                    }
                }
                return Some(&self.config.domains[i].backend);
            }
            i += 1;
        }
        proof {
            lemma_first_exact(self.config.domains@, host@);
            lemma_first_wildcard(self.config.domains@, host@);
            let se = first_exact(self.config.domains@, host@);
            let sw = first_wildcard(self.config.domains@, host@);
            if se is Some {
                assert(eq_ci(host@, self.config.domains@[se->0].key@));
                assert(false);
            }
            if sw is Some {
                assert(wildcard_matches(host@, self.config.domains@[sw->0].key@));
                assert(false);
            }
        }
        match &self.config.default_backend {
            Some(b) => Some(b),
            None => None,
        }
    }

    /// Routes the raw inbound `host`: strips any `:port` suffix, matches the
    /// lower-cased remainder against the configured entries, and builds the
    /// forwarding target (upstream `host:port` address, TLS flag, SNI).
    pub fn route(&self, host: &str) -> (r: Result<RouteTarget, RoutingError>)
        ensures
            match find_backend_spec(self.config, host_part(host@)) {
                Some(b) => match r {
                    Ok(t) => t.describes(b),
                    Err(_) => false,
                },
                None => r is Err,
            },
    {
        let hlen = host.unicode_len();
        let mut cut: usize = 0;
        while cut < hlen && host.get_char(cut) != ':'
            invariant
                hlen == host@.len(),
                0 <= cut <= hlen,
                forall|k: int| 0 <= k < cut ==> host@[k] != ':',
            decreases hlen - cut,
        {
            cut += 1;
        }
        proof {
            lemma_colon_idx(host@);
            let ci = colon_idx(host@);
            if ci < cut {
                assert(host@[ci] == ':');
                assert(false);
            }
            if cut < ci {
                assert(host@[cut as int] != ':');
                assert(cut < hlen);
                assert(false);
            }
        }
        let stripped = host.substring_char(0, cut);
        proof {
            assert(stripped@ =~= host_part(host@));
        }
        match self.find_backend(stripped) {
            Some(b) => {
                let mut addr = b.host.clone();
                proof {
                    reveal_strlit(":");
                }
                addr.append(":");
                proof {
                    assert(":"@ =~= seq![':']);
                }
                push_decimal(&mut addr, b.port);
                let sni = b.effective_sni().clone();
                proof {
                    assert(addr@ =~= b.host@ + seq![':'] + dec_str(b.port as int));
                }
                Ok(RouteTarget { upstream_addr: addr, tls: b.tls, sni })
            },
            None => Err(RoutingError {}),
        }
    }
}

// ---------------------------------------------------------------------------
// Host selection from the request's candidate values.
// ---------------------------------------------------------------------------

/// The host an inbound request names: the `Host` header, else the HTTP/2
/// authority, else the request-target URI's host; the first value that is
/// present and non-empty wins.
pub open spec fn chosen_host_spec(
    host_header: Option<Seq<char>>,
    authority: Option<Seq<char>>,
    uri_host: Option<Seq<char>>,
) -> Option<Seq<char>> {
    match host_header {
        Some(h) => if h.len() > 0 {
            Some(h)
        } else {
            chosen_host_tail(authority, uri_host)
        },
        None => chosen_host_tail(authority, uri_host),
    }
}

pub open spec fn chosen_host_tail(
    authority: Option<Seq<char>>,
    uri_host: Option<Seq<char>>,
) -> Option<Seq<char>> {
    match authority {
        Some(a) => if a.len() > 0 {
            Some(a)
        } else {
            chosen_host_last(uri_host)
        },
        None => chosen_host_last(uri_host),
    }
}

pub open spec fn chosen_host_last(uri_host: Option<Seq<char>>) -> Option<Seq<char>> {
    match uri_host {
        Some(u) => if u.len() > 0 {
            Some(u)
        } else {
            None
        },
        None => None,
    }
}

/// The view of an optional string.
pub open spec fn opt_view(o: Option<String>) -> Option<Seq<char>> {
    match o {
        Some(s) => Some(s@),
        None => None,
    }
}

/// Picks the request's host from the candidate values, in priority order.
pub fn choose_host(
    host_header: Option<String>,
    authority: Option<String>,
    uri_host: Option<String>,
) -> (r: Option<String>)
    ensures
        match r {
            Some(s) => chosen_host_spec(
                opt_view(host_header),
                opt_view(authority),
                opt_view(uri_host),
            ) == Some(s@),
            None => chosen_host_spec(
                opt_view(host_header),
                opt_view(authority),
                opt_view(uri_host),
            ) is None,
        },
{
    match host_header {
        Some(h) => {
            if !h.as_str().is_empty() {
                return Some(h);
            }
        },
        None => {},
    }
    match authority {
        Some(a) => {
            if !a.as_str().is_empty() {
                return Some(a);
            }
        },
        None => {},
    }
    match uri_host {
        Some(u) => {
            if !u.as_str().is_empty() {
                return Some(u);
            }
        },
        None => {},
    }
    None
}

// ---------------------------------------------------------------------------
// Headers forced onto the outbound request.
// ---------------------------------------------------------------------------

/// The header values to set on the outbound request before forwarding:
/// the original inbound `Host` (for backends doing their own virtual-host
/// dispatch), the client's address as the forwarded-for header, and the
/// forwarded-proto header.
pub fn upstream_header_plan(inbound_host: Option<String>, client_addr: Option<String>) -> (r: Vec<
    (String, String),
>)
    ensures
        match (inbound_host, client_addr) {
            (Some(h), Some(c)) => {
                &&& r@.len() == 3
                &&& r@[0].0@ == "Host"@ && r@[0].1@ == h@
                &&& r@[1].0@ == "X-Forwarded-For"@ && r@[1].1@ == c@
                &&& r@[2].0@ == "X-Forwarded-Proto"@ && r@[2].1@ == "http"@
            },
            (Some(h), None) => {
                &&& r@.len() == 2
                &&& r@[0].0@ == "Host"@ && r@[0].1@ == h@
                &&& r@[1].0@ == "X-Forwarded-Proto"@ && r@[1].1@ == "http"@
            },
            (None, Some(c)) => {
                &&& r@.len() == 2
                &&& r@[0].0@ == "X-Forwarded-For"@ && r@[0].1@ == c@
                &&& r@[1].0@ == "X-Forwarded-Proto"@ && r@[1].1@ == "http"@
            },
            (None, None) => {
                &&& r@.len() == 1
                &&& r@[0].0@ == "X-Forwarded-Proto"@ && r@[0].1@ == "http"@
            },
        },
{
    let mut v: Vec<(String, String)> = Vec::new();
    match inbound_host {
        Some(h) => {
            v.push(("Host".to_owned(), h));
        },
        None => {},
    }
    match client_addr {
        Some(c) => {
            v.push(("X-Forwarded-For".to_owned(), c));
        },
        None => {},
    }
    v.push(("X-Forwarded-Proto".to_owned(), "http".to_owned()));
    v
}

} // verus!
