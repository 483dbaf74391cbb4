use vstd::prelude::*;
use vstd::string::StrSliceExecFns;
use vstd::string::StringExecFns;

verus! {

// ---------------------------------------------------------------------------
// Deriving the provider's subdomain label from a domain.
// ---------------------------------------------------------------------------

/// The domain with the provider's fixed suffix stripped when it ends with
/// it, otherwise the domain unchanged.
pub open spec fn subdomain_spec(domain: Seq<char>) -> Seq<char> {
    let suffix = ".duckdns.org"@;
    if domain.len() >= suffix.len() && domain.skip(domain.len() - suffix.len()) == suffix {
        domain.take(domain.len() - suffix.len())
    } else {
        domain
    }
}

/// Whether `s` ends with `suffix`.
fn str_ends_with(s: &str, suffix: &str) -> (r: bool)
    ensures
        r == (s@.len() >= suffix@.len() && s@.skip(s@.len() - suffix@.len()) == suffix@),
{
    let slen = s.unicode_len();
    let xlen = suffix.unicode_len();
    if slen < xlen {
        return false;
    }
    let off = slen - xlen;
    let mut j: usize = 0;
    while j < xlen
        invariant
            slen == s@.len(),
            xlen == suffix@.len(),
            off == slen - xlen,
            0 <= j <= xlen,
            forall|k: int| off <= k < off + j ==> #[trigger] s@[k] == suffix@[k - off],
        decreases xlen - j,
    {
        if s.get_char(off + j) != suffix.get_char(j) {
            assert(s@.skip(off as int)[j as int] == s@[off + j]);
            return false;
        }
        j += 1;
    }
    assert forall|i: int| 0 <= i < s@.skip(off as int).len() implies s@.skip(off as int)[i]
        == suffix@[i] by {
        assert(s@[off + i] == suffix@[off + i - off]);
    }
    assert(s@.skip(off as int) =~= suffix@);
    true
}

/// Derives the subdomain label the provider's update endpoint expects.
pub fn subdomain_label(domain: &str) -> (r: String)
    ensures
        r@ == subdomain_spec(domain@),
{
    let suffix = ".duckdns.org";
    if str_ends_with(domain, suffix) {
        let dlen = domain.unicode_len();
        let cut = dlen - suffix.unicode_len();
        let stripped = domain.substring_char(0, cut);
        proof {
            assert(stripped@ =~= subdomain_spec(domain@));
        }
        stripped.to_owned()
    } else {
        domain.to_owned()
    }
}

// ---------------------------------------------------------------------------
// The update endpoint's URLs.
// ---------------------------------------------------------------------------

/// The URL that sets the TXT record of `domain` to `txt`.
pub open spec fn set_url_spec(domain: Seq<char>, token: Seq<char>, txt: Seq<char>) -> Seq<char> {
    "https://www.duckdns.org/update?domains="@ + subdomain_spec(domain) + "&token="@ + token
        + "&txt="@ + txt + "&verbose=true"@
}

/// The URL that clears the TXT record of `domain`: the same endpoint shape
/// with an empty TXT value and the clear flag.
pub open spec fn clear_url_spec(domain: Seq<char>, token: Seq<char>) -> Seq<char> {
    "https://www.duckdns.org/update?domains="@ + subdomain_spec(domain) + "&token="@ + token
        + "&txt=&clear=true"@
}

/// Builds the URL of the update call that publishes `txt` for `domain`.
pub fn duckdns_set_url(domain: &str, token: &str, txt: &str) -> (r: String)
    ensures
        r@ == set_url_spec(domain@, token@, txt@),
{
    let mut url = "https://www.duckdns.org/update?domains=".to_owned();
    let label = subdomain_label(domain);
    url.append(label.as_str());
    url.append("&token=");
    url.append(token);
    url.append("&txt=");
    url.append(txt);
    url.append("&verbose=true");
    proof {
        assert(url@ =~= set_url_spec(domain@, token@, txt@));
    }
    url
}

/// Builds the URL of the update call that clears the TXT record of `domain`.
pub fn duckdns_clear_url(domain: &str, token: &str) -> (r: String)
    ensures
        r@ == clear_url_spec(domain@, token@),
{
    let mut url = "https://www.duckdns.org/update?domains=".to_owned();
    let label = subdomain_label(domain);
    url.append(label.as_str());
    url.append("&token=");
    url.append(token);
    url.append("&txt=&clear=true");
    proof {
        assert(url@ =~= clear_url_spec(domain@, token@));
    }
    url
}

// ---------------------------------------------------------------------------
// Classifying the endpoint's plain-text response.
// ---------------------------------------------------------------------------

/// A response body that signals success: it begins with the fixed marker.
pub open spec fn is_success_body(body: Seq<char>) -> bool {
    body.len() >= 2 && body.take(2) == "OK"@
}

/// A failed TXT update; carries the provider's response text verbatim.
pub struct DnsError {
    pub body: String,
}

fn body_is_success(body: &str) -> (r: bool)
    ensures
        r == is_success_body(body@),
{
    proof {
        reveal_strlit("OK");
    }
    if body.unicode_len() < 2 {
        return false;
    }
    let r = body.get_char(0) == 'O' && body.get_char(1) == 'K';
    proof {
        if r {
            assert(body@.take(2) =~= "OK"@);
        } else {
            assert(body@.take(2)[0] == body@[0]);
            assert(body@.take(2)[1] == body@[1]);
        }
    }
    r
}

/// Classifies the response of a TXT-setting call: success exactly when the
/// body begins with the success marker; any other body becomes an error
/// carrying the response text verbatim.
pub fn classify_set_response(body: &str) -> (r: Result<(), DnsError>)
    ensures
        r is Ok <==> is_success_body(body@),
        r matches Err(e) ==> e.body@ == body@,
{
    if body_is_success(body) {
        Ok(())
    } else {
        Err(DnsError { body: body.to_owned() })
    }
}

/// Classifies the response of a TXT-clearing call. Clearing is best-effort
/// cleanup: a non-success body is reported to the caller as `false`, never
/// as an error.
pub fn classify_clear_response(body: &str) -> (r: bool)
    ensures
        r == is_success_body(body@),
{
    body_is_success(body)
}

} // verus!
