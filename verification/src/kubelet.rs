//! Talking to the kubelet of the scraper's own node: where it is reached and
//! how its certificate is checked.
use vstd::prelude::*;

use crate::cli_args::KubeletServerIdentity;
use crate::http::{
    accept_invalid_certs, certificates_from_pem_bundle, get_request, no_proxy,
    pem_bundle_certificate_count, skip_hostname_check, trust_only, with_bearer_auth, ClientModel,
    ClientSetting, HttpClient, HttpClientBuilder, HttpMethod, HttpRequest, RequestModel, RequestStep,
};
use crate::text::{concat, opt_string_view, owned, trim_white_space, trimmed};

verus! {

/// Port on which the kubelet serves its API.
pub const KUBELET_PORT: u16 = 10250;

/// How the kubelet's host name is checked against its certificate.
#[derive(Clone, Copy, Debug, PartialEq, Eq, Structural)]
pub enum HostnameCheck {
    /// Against the node's IP address.
    NodeIp,
    /// Against the node's name, which resolves to the node's IP address.
    NodeName,
    /// Not at all: only the certificate chain is checked.
    Skip,
}

/// How the kubelet's certificate is checked.
#[derive(Clone, Debug)]
pub enum KubeletTls {
    /// No CA bundle is configured: any certificate is accepted.
    AcceptInvalidCerts,
    /// The certificates of this bundle file are the only trusted roots.
    TrustBundle { bundle_file: String, hostname: HostnameCheck },
}

/// How to connect to the kubelet.
#[derive(Clone, Debug)]
pub struct KubeletConnectionPlan {
    pub tls: KubeletTls,
    /// The URL that request paths are appended to.
    pub base_url: String,
}

/// The hostname check for a server identity.
pub open spec fn hostname_check_for(identity: KubeletServerIdentity) -> HostnameCheck {
    match identity {
        KubeletServerIdentity::NodeIp => HostnameCheck::NodeIp,
        KubeletServerIdentity::NodeName => HostnameCheck::NodeName,
        KubeletServerIdentity::CaOnly => HostnameCheck::Skip,
    }
}

/// The host of a URL for the IP address written `ip` (as `IpAddr` writes
/// it): an IPv6 address, whose text holds colons, in square brackets; an IPv4
/// address as it is.
pub open spec fn spec_url_host(ip: Seq<char>) -> Seq<char> {
    if ip.contains(':') {
        "["@ + ip + "]"@
    } else {
        ip
    }
}

/// The base URL for the kubelet at the IP address written `ip`, on the
/// kubelet's port.
pub open spec fn spec_ip_base_url(ip: Seq<char>) -> Seq<char> {
    "https://"@ + spec_url_host(ip) + ":10250"@
}

/// The base URL for an IP address: an address written with a colon anywhere
/// in it (every IPv6 address) is put in square brackets before the port, so
/// that the port is not read as part of it; one without a colon (an IPv4
/// address) is written as it is.
pub proof fn law_ip_base_url_brackets_ipv6(ip: Seq<char>)
    ensures
        (exists|k: int| 0 <= k < ip.len() && ip[k] == ':') ==> spec_ip_base_url(ip) == "https://["@
            + ip + "]:10250"@,
        (forall|k: int| 0 <= k < ip.len() ==> ip[k] != ':') ==> spec_ip_base_url(ip) == "https://"@
            + ip + ":10250"@,
{
    reveal_strlit("https://[");
    reveal_strlit("https://");
    reveal_strlit("]:10250");
    reveal_strlit(":10250");
    reveal_strlit("[");
    reveal_strlit("]");
    if exists|k: int| 0 <= k < ip.len() && ip[k] == ':' {
        let k = choose|k: int| 0 <= k < ip.len() && ip[k] == ':';
        assert(ip.contains(':')) by {
            assert(ip[k] == ':');
        }
        assert(spec_ip_base_url(ip) =~= "https://["@ + ip + "]:10250"@);
    } else {
        assert(!ip.contains(':'));
    }
}

/// The base URL for the kubelet reached by the node's name.
pub open spec fn spec_name_base_url(node_name: Seq<char>) -> Seq<char> {
    "https://"@ + node_name + ":10250"@
}

/// Whether `s` holds a colon.
fn holds_colon(s: &str) -> (r: bool)
    ensures
        r == s@.contains(':'),
{
    let n = s.unicode_len();
    let mut i: usize = 0;
    while i < n
        invariant
            i <= n,
            n == s@.len(),
            forall|j: int| 0 <= j < i ==> s@[j] != ':',
        decreases n - i,
    {
        if s.get_char(i) == ':' {
            assert(s@[i as int] == ':');
            return true;
        }
        i = i + 1;
    }
    false
}

/// The base URL for the kubelet at the IP address written `ip` (as `IpAddr`
/// writes it), on the kubelet's port; an IPv6 address is put in square
/// brackets.
pub fn ip_base_url(ip: &str) -> (r: String)
    ensures
        r@ == spec_ip_base_url(ip@),
{
    let host = if holds_colon(ip) {
        let opened = concat("[", ip);
        concat(opened.as_str(), "]")
    } else {
        owned(ip)
    };
    let with_scheme = concat("https://", host.as_str());
    let r = concat(with_scheme.as_str(), ":10250");
    proof {
        reveal_strlit(":10250");
    }
    r
}

/// Plans the connection to the kubelet. Without a CA bundle, certificates are
/// not checked and the kubelet is reached at the node's IP address. With one,
/// its certificates are the only trusted roots and the server identity
/// decides the host name: the node's name for `NodeName`, else its IP address
/// (for `CaOnly` without checking the host name).
pub fn plan_kubelet_connection(
    ca_cert_file: &Option<String>,
    identity: KubeletServerIdentity,
    node_name: &str,
    node_ip: &str,
) -> (p: KubeletConnectionPlan)
    ensures
        match opt_string_view(*ca_cert_file) {
            None => {
                &&& p.tls is AcceptInvalidCerts
                &&& p.base_url@ == spec_ip_base_url(node_ip@)
            },
            Some(file) => {
                &&& p.tls matches KubeletTls::TrustBundle { bundle_file, hostname } && bundle_file@
                    == file && hostname == hostname_check_for(identity)
                &&& p.base_url@ == (if identity == KubeletServerIdentity::NodeName {
                    spec_name_base_url(node_name@)
                } else {
                    spec_ip_base_url(node_ip@)
                })
            },
        },
{
    match ca_cert_file {
        None => KubeletConnectionPlan {
            tls: KubeletTls::AcceptInvalidCerts,
            base_url: ip_base_url(node_ip),
        },
        Some(file) => {
            let hostname = match identity {
                KubeletServerIdentity::NodeIp => HostnameCheck::NodeIp,
                KubeletServerIdentity::NodeName => HostnameCheck::NodeName,
                KubeletServerIdentity::CaOnly => HostnameCheck::Skip,
            };
            let base_url = match identity {
                KubeletServerIdentity::NodeName => {
                    let with_host = concat("https://", node_name);
                    concat(with_host.as_str(), ":10250")
                },
                _ => ip_base_url(node_ip),
            };
            KubeletConnectionPlan {
                tls: KubeletTls::TrustBundle { bundle_file: file.clone(), hostname },
                base_url,
            }
        },
    }
}

/// Why the kubelet's HTTP client could not be configured.
#[derive(Clone, Copy, Debug, PartialEq, Eq, Structural)]
pub enum KubeletTlsError {
    /// The plan trusts a CA bundle, but none was given.
    MissingCaBundle,
    /// The CA bundle is no PEM bundle.
    InvalidCaBundle,
}

/// `settings` are those a plan that trusts a CA bundle asks for: no proxy;
/// the bundle's certificates (`count` of them) as the only trusted roots; and,
/// where the host name is not checked, that.
pub open spec fn trust_bundle_settings(hostname: HostnameCheck, count: nat, settings: Seq<ClientSetting>) -> bool {
    &&& settings.len() == (if hostname == HostnameCheck::Skip {
        3int
    } else {
        2int
    })
    &&& settings[0] is NoProxy
    &&& settings[1] matches ClientSetting::TrustOnly(certificates) && certificates.len() == count
    &&& hostname == HostnameCheck::Skip ==> settings[2] is SkipHostnameCheck
}

/// The bytes of an optional CA bundle.
pub open spec fn opt_pem_view(o: Option<&[u8]>) -> Option<Seq<u8>> {
    match o {
        Some(b) => Some(b@),
        None => None,
    }
}

/// Configures the kubelet's HTTP client as `plan` asks, going on from `base`,
/// on which the caller has set the node name's address where the plan checks
/// the host name against the node name (that needs `std::net`). No proxy is
/// used. Without a CA bundle any certificate is accepted. With one, the
/// certificates of `bundle_pem` (the bundle file's bytes) are the only trusted
/// roots, and for `HostnameCheck::Skip` the host name is not checked.
pub fn kubelet_client_builder(
    base: reqwest::ClientBuilder,
    plan: &KubeletConnectionPlan,
    bundle_pem: Option<&[u8]>,
) -> (r: Result<HttpClientBuilder, KubeletTlsError>)
    ensures
        r matches Ok(b) ==> !b.model().from_defaults,
        match plan.tls {
            KubeletTls::AcceptInvalidCerts => r matches Ok(b) && b.model().settings == seq![
                ClientSetting::NoProxy,
                ClientSetting::AcceptInvalidCerts,
            ],
            KubeletTls::TrustBundle { hostname, .. } => match opt_pem_view(bundle_pem) {
                None => r matches Err(e) && e == KubeletTlsError::MissingCaBundle,
                Some(pem) => match pem_bundle_certificate_count(pem) {
                    None => r matches Err(e) && e == KubeletTlsError::InvalidCaBundle,
                    Some(n) => r matches Ok(b) && trust_bundle_settings(hostname, n, b.model().settings),
                },
            },
        },
{
    let builder = no_proxy(HttpClientBuilder::from_base(base));
    match &plan.tls {
        KubeletTls::AcceptInvalidCerts => {
            let b = accept_invalid_certs(builder);
            assert(b.model().settings =~= seq![
                ClientSetting::NoProxy,
                ClientSetting::AcceptInvalidCerts,
            ]);
            Ok(b)
        },
        KubeletTls::TrustBundle { hostname, .. } => {
            let pem = match bundle_pem {
                Some(pem) => pem,
                None => {
                    return Err(KubeletTlsError::MissingCaBundle);
                },
            };
            let certificates = match certificates_from_pem_bundle(pem) {
                Some(certificates) => certificates,
                None => {
                    return Err(KubeletTlsError::InvalidCaBundle);
                },
            };
            let b = trust_only(builder, certificates);
            match hostname {
                HostnameCheck::Skip => Ok(skip_hostname_check(b)),
                _ => Ok(b),
            }
        },
    }
}

/// A client for the kubelet of the scraper's node.
#[derive(Clone)]
pub struct KubeletClient {
    client: HttpClient,
    base_url: String,
    node_name: String,
}

impl KubeletClient {
    /// The URL that request paths are appended to.
    pub closed spec fn spec_base_url(&self) -> Seq<char> {
        self.base_url@
    }

    /// The name of the node.
    pub closed spec fn spec_node_name(&self) -> Seq<char> {
        self.node_name@
    }

    /// How the client's HTTP client is configured.
    pub closed spec fn spec_client_model(&self) -> ClientModel {
        self.client.model()
    }

    /// A client that sends its requests with `client` to the kubelet at
    /// `base_url`.
    pub fn new(client: HttpClient, base_url: String, node_name: String) -> (c: Self)
        ensures
            c.spec_client_model() == client.model(),
            c.spec_base_url() == base_url@,
            c.spec_node_name() == node_name@,
    {
        KubeletClient { client, base_url, node_name }
    }

    /// A GET request for `path` on the kubelet, sent with this client's HTTP
    /// client.
    pub fn get(&self, path: &str) -> (r: HttpRequest)
        ensures
            r.model() == (RequestModel {
                client: self.spec_client_model(),
                method: HttpMethod::Get,
                url: self.spec_base_url() + path@,
                steps: Seq::empty(),
            }),
    {
        let url = self.url(path);
        get_request(&self.client, url.as_str())
    }

    /// A GET request for `path` on the kubelet that authenticates with the
    /// service account's `token` (as read from its file, so white space at
    /// either end is cut off).
    pub fn authorized_get(&self, path: &str, token: &str) -> (r: HttpRequest)
        ensures
            r.model() == (RequestModel {
                client: self.spec_client_model(),
                method: HttpMethod::Get,
                url: self.spec_base_url() + path@,
                steps: seq![RequestStep::BearerAuth(trimmed(token@))],
            }),
    {
        let request = with_bearer_auth(self.get(path), trim_white_space(token));
        assert(request.model().steps =~= seq![RequestStep::BearerAuth(trimmed(token@))]);
        request
    }

    /// The URL of `path` on the kubelet.
    pub fn url(&self, path: &str) -> (r: String)
        ensures
            r@ == self.spec_base_url() + path@,
    {
        concat(self.base_url.as_str(), path)
    }

    /// The name of the node.
    pub fn node_name(&self) -> (r: &str)
        ensures
            r@ == self.spec_node_name(),
    {
        self.node_name.as_str()
    }

    /// The URL that request paths are appended to.
    pub fn base_url(&self) -> (r: &str)
        ensures
            r@ == self.spec_base_url(),
    {
        self.base_url.as_str()
    }
}

} // verus!
