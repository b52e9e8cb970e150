//! The network gateway policy: domain allow-listing, the private-range
//! block, HTTP-method screening, and the exact rejection messages handed
//! back to a script.
//!
//! The checks run in a fixed order and short-circuit at the first failure:
//! URL parsing, host presence, allowlist membership, the private-range
//! block, then the method. The private-range block runs *after* allowlist
//! matching on purpose: an allow-listed private host is still refused.
use vstd::prelude::*;
use crate::text::{
    spec_prefix_of, spec_suffix_of, str_eq, str_starts_with, str_ends_with, ascii_upper,
    spec_ascii_upper,
};

verus! {

/// `host` matches one allow-list entry: exactly, or as a dot-separated
/// subdomain of it.
pub open spec fn spec_host_matches(host: Seq<char>, domain: Seq<char>) -> bool {
    host == domain || spec_suffix_of("."@ + domain, host)
}

/// `host` matches some entry of the allow-list.
pub open spec fn spec_host_allowed(host: Seq<char>, domains: Seq<Seq<char>>) -> bool {
    exists|i: int| 0 <= i < domains.len() && spec_host_matches(host, domains[i])
}

/// `host` names the loopback interface or sits in a private address range.
pub open spec fn spec_private_host(host: Seq<char>) -> bool {
    ||| host == "localhost"@
    ||| host == "0.0.0.0"@
    ||| spec_prefix_of("127."@, host)
    ||| spec_prefix_of("10."@, host)
    ||| spec_prefix_of("192.168."@, host)
    ||| spec_prefix_of("172.16."@, host)
}

/// Does `host` match the allow-list entry `domain`?
pub fn host_matches(host: &str, domain: &str) -> (r: bool)
    ensures
        r == spec_host_matches(host@, domain@),
{
    if str_eq(host, domain) {
        return true;
    }
    let mut dotted = String::from_str(".");
    dotted.append(domain);
    str_ends_with(host, dotted.as_str())
}

/// Does `host` match some entry of the allow-list?
pub fn host_allowed(host: &str, domains: &Vec<String>) -> (r: bool)
    ensures
        r == spec_host_allowed(host@, domains@.map_values(|d: String| d@)),
{
    let ghost dviews = domains@.map_values(|d: String| d@);
    let mut i: usize = 0;
    while i < domains.len()
        invariant
            dviews == domains@.map_values(|d: String| d@),
            i <= domains@.len(),
            forall|j: int| 0 <= j < i ==> !spec_host_matches(host@, dviews[j]),
        decreases domains@.len() - i,
    {
        if host_matches(host, domains[i].as_str()) {
            proof {
                assert(0 <= i < dviews.len() && spec_host_matches(host@, dviews[i as int]));
            }
            return true;
        }
        i = i + 1;
    }
    false
}

/// Is `host` blocked by the private-range rule?
pub fn is_private_host(host: &str) -> (r: bool)
    ensures
        r == spec_private_host(host@),
{
    str_eq(host, "localhost") || str_eq(host, "0.0.0.0") || str_starts_with(host, "127.")
        || str_starts_with(host, "10.") || str_starts_with(host, "192.168.")
        || str_starts_with(host, "172.16.")
}

/// The HTTP verbs the gateway will issue.
#[derive(Clone, Copy, PartialEq, Eq, Structural, Debug)]
pub enum HttpMethod {
    Get,
    Post,
    Put,
    Delete,
    Patch,
    Head,
}

/// The verb named by an already upper-cased method string, if supported.
pub open spec fn spec_method_of(m: Seq<char>) -> Option<HttpMethod> {
    if m == "GET"@ {
        Some(HttpMethod::Get)
    } else if m == "POST"@ {
        Some(HttpMethod::Post)
    } else if m == "PUT"@ {
        Some(HttpMethod::Put)
    } else if m == "DELETE"@ {
        Some(HttpMethod::Delete)
    } else if m == "PATCH"@ {
        Some(HttpMethod::Patch)
    } else if m == "HEAD"@ {
        Some(HttpMethod::Head)
    } else {
        None
    }
}

/// Resolves an already upper-cased method string to a verb.
pub fn method_of_upper(m: &str) -> (r: Option<HttpMethod>)
    ensures
        r == spec_method_of(m@),
{
    if str_eq(m, "GET") {
        Some(HttpMethod::Get)
    } else if str_eq(m, "POST") {
        Some(HttpMethod::Post)
    } else if str_eq(m, "PUT") {
        Some(HttpMethod::Put)
    } else if str_eq(m, "DELETE") {
        Some(HttpMethod::Delete)
    } else if str_eq(m, "PATCH") {
        Some(HttpMethod::Patch)
    } else if str_eq(m, "HEAD") {
        Some(HttpMethod::Head)
    } else {
        None
    }
}

/// The canonical name of a verb.
pub open spec fn spec_method_name(m: HttpMethod) -> Seq<char> {
    match m {
        HttpMethod::Get => "GET"@,
        HttpMethod::Post => "POST"@,
        HttpMethod::Put => "PUT"@,
        HttpMethod::Delete => "DELETE"@,
        HttpMethod::Patch => "PATCH"@,
        HttpMethod::Head => "HEAD"@,
    }
}

/// The canonical name of a verb.
pub fn method_name(m: HttpMethod) -> (r: &'static str)
    ensures
        r@ == spec_method_name(m),
{
    match m {
        HttpMethod::Get => "GET",
        HttpMethod::Post => "POST",
        HttpMethod::Put => "PUT",
        HttpMethod::Delete => "DELETE",
        HttpMethod::Patch => "PATCH",
        HttpMethod::Head => "HEAD",
    }
}

/// What `url::Url::parse` followed by `url::Url::host_str` yields on a
/// given URL string: `None` when parsing fails, `Some(None)` for a URL
/// without a host, and `Some(Some(host))` otherwise. Parsing depends on
/// the URL string alone.
pub uninterp spec fn url_host_of(s: Seq<char>) -> Option<Option<Seq<char>>>;

/// How a URL string resolved to a host.
pub enum HostLookup {
    /// The URL failed to parse; the field carries the parser's description.
    Invalid(String),
    /// The URL parsed but names no host.
    NoHost,
    /// The URL parsed and names this host.
    Host(String),
}

/// Relies on `url::Url::parse` for URL validity and on `url::Url::host_str`
/// for the host of a parsed URL; both depend only on the URL string.
#[verifier::external_body]
pub(crate) fn lookup_url_host(url: &str) -> (r: HostLookup)
    ensures
        match r {
            HostLookup::Invalid(_) => url_host_of(url@) is None,
            HostLookup::NoHost => url_host_of(url@) == Some(None::<Seq<char>>),
            HostLookup::Host(h) => url_host_of(url@) == Some(Some(h@)),
        },
{
    match url::Url::parse(url) {
        Ok(parsed) => match parsed.host_str() {
            Some(h) => HostLookup::Host(h.to_string()),
            None => HostLookup::NoHost,
        },
        Err(e) => HostLookup::Invalid(e.to_string()),
    }
}

/// The gateway's verdict on one fetch request, before any socket opens.
pub enum FetchCheck {
    /// Every check passed: the request may be issued to `host` with `method`.
    Approved { host: String, method: HttpMethod },
    /// The URL failed to parse; the field carries the parser's description.
    InvalidUrl { detail: String },
    /// The URL has no host.
    NoHost,
    /// `host` matches no allow-list entry.
    DomainNotAllowed { host: String },
    /// The host is loopback or private, whatever the allow-list says.
    PrivateHost,
    /// The (upper-cased) method string names no supported verb.
    UnsupportedMethod { name: String },
}

/// Screens one fetch request: URL parsing, host presence, the allow-list,
/// the private-range block, then the method, in that order, stopping at
/// the first failure. `method` is the script's `options.method` if it gave
/// one; the verb defaults to `GET` and is read case-insensitively.
pub fn check_fetch(url: &str, method: Option<&str>, domains: &Vec<String>) -> (r: FetchCheck)
    ensures
        ({
            let dviews = domains@.map_values(|d: String| d@);
            let upper = spec_ascii_upper(
                match method {
                    Some(m) => m@,
                    None => "GET"@,
                },
            );
            match url_host_of(url@) {
                None => r is InvalidUrl,
                Some(None) => r is NoHost,
                Some(Some(h)) => {
                    if !spec_host_allowed(h, dviews) {
                        r matches FetchCheck::DomainNotAllowed { host } && host@ == h
                    } else if spec_private_host(h) {
                        r is PrivateHost
                    } else {
                        match spec_method_of(upper) {
                            None => r matches FetchCheck::UnsupportedMethod { name: m }
                                && m@ == upper,
                            Some(verb) => r matches FetchCheck::Approved { host, method }
                                && host@ == h && method == verb,
                        }
                    }
                },
            }
        }),
{
    let host = match lookup_url_host(url) {
        HostLookup::Invalid(detail) => {
            return FetchCheck::InvalidUrl { detail };
        },
        HostLookup::NoHost => {
            return FetchCheck::NoHost;
        },
        HostLookup::Host(h) => h,
    };
    if !host_allowed(host.as_str(), domains) {
        return FetchCheck::DomainNotAllowed { host };
    }
    if is_private_host(host.as_str()) {
        return FetchCheck::PrivateHost;
    }
    let upper = match method {
        Some(m) => ascii_upper(m),
        None => ascii_upper("GET"),
    };
    match method_of_upper(upper.as_str()) {
        Some(verb) => FetchCheck::Approved { host, method: verb },
        None => FetchCheck::UnsupportedMethod { name: upper },
    }
}

/// The exact message a rejected fetch hands to the script, and `None` for
/// an approved one.
pub fn rejection_message(check: &FetchCheck) -> (r: Option<String>)
    ensures
        match check {
            FetchCheck::Approved { .. } => r is None,
            FetchCheck::InvalidUrl { detail } => r matches Some(msg) && msg@ == "Invalid URL: "@
                + detail@,
            FetchCheck::NoHost => r matches Some(msg) && msg@ == "Invalid URL: no host"@,
            FetchCheck::DomainNotAllowed { host } => r matches Some(msg) && msg@ == "Domain '"@
                + host@ + "' is not in the allowlist"@,
            FetchCheck::PrivateHost => r matches Some(msg) && msg@
                == "Requests to private IP ranges are not allowed"@,
            FetchCheck::UnsupportedMethod { name } => r matches Some(msg) && msg@
                == "Unsupported HTTP method: "@ + name@,
        },
{
    match check {
        FetchCheck::Approved { .. } => None,
        FetchCheck::InvalidUrl { detail } => {
            let mut msg = String::from_str("Invalid URL: ");
            msg.append(detail.as_str());
            Some(msg)
        },
        FetchCheck::NoHost => Some(String::from_str("Invalid URL: no host")),
        FetchCheck::DomainNotAllowed { host } => {
            let mut msg = String::from_str("Domain '");
            msg.append(host.as_str());
            msg.append("' is not in the allowlist");
            Some(msg)
        },
        FetchCheck::PrivateHost => Some(
            String::from_str("Requests to private IP ranges are not allowed"),
        ),
        FetchCheck::UnsupportedMethod { name } => {
            let mut msg = String::from_str("Unsupported HTTP method: ");
            msg.append(name.as_str());
            Some(msg)
        },
    }
}

/// Fixed ceiling on one outbound request, in seconds, independent of the
/// script's own overall deadline.
pub fn fetch_request_timeout_secs() -> (r: u64)
    ensures
        r == 5u64,
{
    5
}

/// A failure of the outbound request itself, after every policy check
/// passed; each variant carries the transport's own description.
#[derive(Debug)]
pub enum TransportFailure {
    /// The HTTP client could not be built.
    ClientBuild(String),
    /// Sending the request failed.
    Send(String),
    /// Reading the response body failed.
    BodyRead(String),
}

impl TransportFailure {
    /// The message delivered to the script for this failure.
    pub fn message(&self) -> (r: String)
        ensures
            match self {
                TransportFailure::ClientBuild(d) => r@ == "Failed to create HTTP client: "@ + d@,
                TransportFailure::Send(d) => r@ == "HTTP request failed: "@ + d@,
                TransportFailure::BodyRead(d) => r@ == "Failed to read response: "@ + d@,
            },
    {
        match self {
            TransportFailure::ClientBuild(d) => {
                let mut msg = String::from_str("Failed to create HTTP client: ");
                msg.append(d.as_str());
                msg
            },
            TransportFailure::Send(d) => {
                let mut msg = String::from_str("HTTP request failed: ");
                msg.append(d.as_str());
                msg
            },
            TransportFailure::BodyRead(d) => {
                let mut msg = String::from_str("Failed to read response: ");
                msg.append(d.as_str());
                msg
            },
        }
    }
}

/// One response of the gateway, as the script sees it.
pub struct NetworkResponse {
    /// The HTTP status code.
    pub status: u16,
    /// Success flag: a status in the 2xx range.
    pub ok: bool,
    /// The full response body.
    pub body_text: String,
}

/// `ok` holds exactly of the 2xx statuses.
pub open spec fn spec_response_wf(r: NetworkResponse) -> bool {
    r.ok == (200 <= r.status < 300)
}

impl NetworkResponse {
    /// Packages a status code and body; the `ok` flag is derived, never
    /// caller-chosen.
    pub fn assemble(status: u16, body_text: String) -> (r: NetworkResponse)
        ensures
            spec_response_wf(r),
            r.status == status,
            r.body_text@ == body_text@,
    {
        NetworkResponse { status, ok: 200 <= status && status < 300, body_text }
    }
}

/// The private-range block cannot be bypassed by allow-listing: whatever
/// the allow-list holds, a loopback or private host never passes both the
/// allow-list stage and the private-range stage.
pub proof fn lemma_private_block_not_bypassable(host: Seq<char>, domains: Seq<Seq<char>>)
    requires
        spec_private_host(host),
    ensures
        !(spec_host_allowed(host, domains) && !spec_private_host(host)),
{
}

/// Exactly which allow-lists admit the host `api.example.com`: those
/// holding the host itself or a dot-suffix of it.
pub proof fn lemma_allowlist_exact(domains: Seq<Seq<char>>)
    ensures
        spec_host_allowed("api.example.com"@, domains) <==> (domains.contains("api.example.com"@)
            || domains.contains("example.com"@) || domains.contains("com"@)),
{
    reveal_strlit("api.example.com");
    reveal_strlit("example.com");
    reveal_strlit("com");
    reveal_strlit(".");
    let host = "api.example.com"@;
    assert forall|i: int| 0 <= i < domains.len() && spec_host_matches(host, domains[i]) implies (
    domains[i] == "api.example.com"@ || domains[i] == "example.com"@ || domains[i] == "com"@) by {
        let d = domains[i];
        if d != host {
            let dotted = "."@ + d;
            assert(dotted.is_suffix_of(host));
            let k = host.len() - dotted.len();
            assert(dotted =~= host.skip(k as int));
            assert forall|j: int| 0 <= j < d.len() implies d[j] == host[k + 1 + j] by {
                assert(d[j] == dotted[j + 1]);
                assert(dotted[j + 1] == host.skip(k as int)[j + 1]);
            }
            assert(host[k as int] == dotted[0]);
            assert(dotted[0] == '.');
            // The dots of the host sit at offsets 3 and 11 only.
            assert(k == 3 || k == 11);
            if k == 3 {
                assert(d =~= "example.com"@);
            } else {
                assert(d =~= "com"@);
            }
        }
    }
    if domains.contains("api.example.com"@) {
        let i = choose|i: int| 0 <= i < domains.len() && domains[i] == "api.example.com"@;
        assert(spec_host_matches(host, domains[i]));
    }
    if domains.contains("example.com"@) {
        let i = choose|i: int| 0 <= i < domains.len() && domains[i] == "example.com"@;
        assert(("."@ + domains[i]).is_suffix_of(host)) by {
            assert(("."@ + "example.com"@) =~= host.skip(3));
            assert(host.skip(3).is_suffix_of(host));
        }
        assert(spec_host_matches(host, domains[i]));
    }
    if domains.contains("com"@) {
        let i = choose|i: int| 0 <= i < domains.len() && domains[i] == "com"@;
        assert(("."@ + domains[i]).is_suffix_of(host)) by {
            assert(("."@ + "com"@) =~= host.skip(11));
            assert(host.skip(11).is_suffix_of(host));
        }
        assert(spec_host_matches(host, domains[i]));
    }
}

} // verus!
