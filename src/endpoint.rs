//! Endpoints: what the load logic reads of a URL, as plain values, and the
//! choice of one resolved address by family.
use vstd::prelude::*;

verus! {

/// Whether `url::Url::parse` accepts the text.
pub uninterp spec fn url_valid(s: Seq<char>) -> bool;

/// `Url::scheme` of the parsed text.
pub uninterp spec fn url_scheme(s: Seq<char>) -> Seq<char>;

/// `Url::host_str` of the parsed text.
pub uninterp spec fn url_host(s: Seq<char>) -> Option<Seq<char>>;

/// `Url::port_or_known_default` of the parsed text.
pub uninterp spec fn url_port(s: Seq<char>) -> Option<u16>;

/// `Url::path` of the parsed text.
pub uninterp spec fn url_path(s: Seq<char>) -> Seq<char>;

/// The parts of a parsed URL that the measurement reads.
pub struct UrlParts {
    pub scheme: String,
    pub host: Option<String>,
    pub port: Option<u16>,
    pub path: String,
}

/// Relies on `url::Url::parse` and, on the parsed URL, `scheme`, `host_str`,
/// `port_or_known_default` and `path`; each result is a function of the text.
#[verifier::external_body]
fn parse_url(s: &str) -> (r: Option<UrlParts>)
    ensures
        r is Some <==> url_valid(s@),
        r is Some ==> r->0.scheme@ == url_scheme(s@),
        r is Some ==> (r->0.host is Some <==> url_host(s@) is Some),
        r is Some && r->0.host is Some ==> r->0.host->0@ == url_host(s@)->0,
        r is Some ==> r->0.port == url_port(s@),
        r is Some ==> r->0.path@ == url_path(s@),
{
    let u = url::Url::parse(s).ok()?;
    Some(
        UrlParts {
            scheme: u.scheme().to_string(),
            host: u.host_str().map(|h| h.to_string()),
            port: u.port_or_known_default(),
            path: u.path().to_string(),
        },
    )
}

/// A URL that names a host and a port.
pub open spec fn is_endpoint(s: Seq<char>) -> bool {
    url_valid(s) && url_host(s) is Some && url_port(s) is Some
}

/// A load target: transport security, host, port and path.
pub struct Endpoint {
    pub tls: bool,
    pub host: String,
    pub port: u16,
    pub path: String,
}

impl Endpoint {
    /// What `parse` yields for the URL text `s`.
    pub open spec fn of(self, s: Seq<char>) -> bool {
        &&& self.tls == (url_scheme(s) == "https"@)
        &&& self.host@ == url_host(s)->0
        &&& self.port == url_port(s)->0
        &&& self.path@ == url_path(s)
    }

    /// The endpoint of a URL; `None` when it does not parse or lacks a host or
    /// a port. Transport security is used exactly for the `https` scheme.
    pub fn parse(url: &str) -> (r: Option<Endpoint>)
        ensures
            r is Some <==> is_endpoint(url@),
            r is Some ==> r->0.of(url@),
    {
        let parts = match parse_url(url) {
            Some(p) => p,
            None => {
                return None;
            },
        };
        let host = match parts.host {
            Some(h) => h,
            None => {
                return None;
            },
        };
        let port = match parts.port {
            Some(p) => p,
            None => {
                return None;
            },
        };
        let tls = parts.scheme == String::from_str("https");
        Some(Endpoint { tls, host, port, path: parts.path })
    }
}

/// An IP address, as the integer of its octets.
#[derive(PartialEq, Eq, Structural, Clone, Copy, Debug)]
pub enum IpAddress {
    V4(u32),
    V6(u128),
}

/// A resolved socket address.
#[derive(PartialEq, Eq, Structural, Clone, Copy, Debug)]
pub struct SocketAddress {
    pub ip: IpAddress,
    pub port: u16,
}

impl SocketAddress {
    pub open spec fn spec_is_ipv6(&self) -> bool {
        self.ip is V6
    }

    #[verifier::when_used_as_spec(spec_is_ipv6)]
    pub fn is_ipv6(&self) -> (r: bool)
        ensures
            r == self.ip is V6,
    {
        match self.ip {
            IpAddress::V6(_) => true,
            IpAddress::V4(_) => false,
        }
    }
}

/// The first resolved address of the wanted family (IPv6 when `ipv6`, else
/// IPv4); `None` when there is none.
pub fn get_address(addrs: &Vec<SocketAddress>, ipv6: bool) -> (r: Option<SocketAddress>)
    ensures
        r is None <==> forall|i: int| 0 <= i < addrs@.len() ==> #[trigger] addrs@[i].is_ipv6()
            != ipv6,
        r is Some ==> exists|i: int|
            0 <= i < addrs@.len() && addrs@[i] == r->0 && #[trigger] addrs@[i].is_ipv6() == ipv6
                && forall|j: int| 0 <= j < i ==> #[trigger] addrs@[j].is_ipv6() != ipv6,
{
    let mut i: usize = 0;
    while i < addrs.len()
        invariant
            i <= addrs@.len(),
            forall|j: int| 0 <= j < i ==> #[trigger] addrs@[j].is_ipv6() != ipv6,
        decreases addrs@.len() - i,
    {
        if addrs[i].is_ipv6() == ipv6 {
            let a = addrs[i];
            assert(addrs@[i as int].is_ipv6() == ipv6 && addrs@[i as int] == a);
            return Some(a);
        }
        i = i + 1;
    }
    None
}

} // verus!
