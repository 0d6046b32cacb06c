//! The OTel client, which exports OTLP metrics to an OTel collector over
//! OTLP/http.
use opentelemetry_proto::tonic::collector::metrics::v1::ExportMetricsServiceRequest;
use vstd::prelude::*;
use vstd::string::*;

use crate::http::{
    build_client, certificates_from_pem_bundle, client_builder, encode_export_request, export_request_encoding,
    pem_bundle_certificate_count, post_request, trust_also, with_basic_auth, with_body,
    with_header, with_step, ClientModel, ClientSetting, HttpClient, HttpMethod, HttpRequest,
    RequestModel, RequestStep,
};
use crate::text::{concat, opt_str_view, opt_string_view, owned};

verus! {

/// Basic-auth credentials for the OTel collector.
#[derive(Debug)]
pub struct BasicAuth {
    pub username: String,
    pub password: Option<String>,
}

/// The user name and password of optional credentials.
pub open spec fn auth_view(a: Option<BasicAuth>) -> Option<(Seq<char>, Option<Seq<char>>)> {
    match a {
        Some(auth) => Some((auth.username@, opt_string_view(auth.password))),
        None => None,
    }
}

/// Why no client could be made.
#[derive(Clone, Copy, Debug, PartialEq, Eq, Structural)]
pub enum OtelClientError {
    /// The CA bundle is no PEM bundle.
    InvalidCaBundle,
    /// The CA bundle holds no certificate.
    EmptyCaBundle,
    /// The HTTP client could not be built.
    ClientBuild,
}

/// What each error says.
pub open spec fn error_message(e: OtelClientError) -> Seq<char> {
    match e {
        OtelClientError::InvalidCaBundle => "could not parse OTel CA bundle"@,
        OtelClientError::EmptyCaBundle => "OTel CA bundle contains no certificates"@,
        OtelClientError::ClientBuild => "could not build OTel HTTP client"@,
    }
}

impl OtelClientError {
    /// What the error says.
    pub fn message(&self) -> (r: &'static str)
        ensures
            r@ == error_message(*self),
    {
        match self {
            OtelClientError::InvalidCaBundle => "could not parse OTel CA bundle",
            OtelClientError::EmptyCaBundle => "OTel CA bundle contains no certificates",
            OtelClientError::ClientBuild => "could not build OTel HTTP client",
        }
    }
}

/// `s` without the `/` characters at its end.
pub open spec fn without_trailing_slashes(s: Seq<char>) -> Seq<char>
    decreases s.len(),
{
    if s.len() > 0 && s.last() == '/' {
        without_trailing_slashes(s.drop_last())
    } else {
        s
    }
}

/// The URL that metrics are exported to, for the collector at `endpoint`.
pub open spec fn spec_export_url(endpoint: Seq<char>) -> Seq<char> {
    without_trailing_slashes(endpoint) + "/v1/metrics"@
}

/// `s` without the `/` characters at its end (`str::trim_end_matches('/')`).
fn trim_trailing_slashes(s: &str) -> (r: &str)
    ensures
        r@ == without_trailing_slashes(s@),
{
    let mut k = s.unicode_len();
    assert(s@.take(k as int) =~= s@);
    while k > 0 && s.get_char(k - 1) == '/'
        invariant
            k <= s@.len(),
            without_trailing_slashes(s@) == without_trailing_slashes(s@.take(k as int)),
        decreases k,
    {
        assert(s@.take(k as int).drop_last() =~= s@.take(k - 1));
        k = k - 1;
    }
    s.substring_char(0, k)
}


/// Slashes at the end of the endpoint do not change the export URL.
pub proof fn law_trailing_slashes_do_not_change_export_url(endpoint: Seq<char>)
    ensures
        spec_export_url(endpoint.push('/')) == spec_export_url(endpoint),
{
    assert(endpoint.push('/').drop_last() =~= endpoint);
}

/// The export URL ends in `/v1/metrics`, and the part before it ends in no `/`.
pub proof fn law_export_url_shape(endpoint: Seq<char>)
    ensures
        spec_export_url(endpoint).len() >= 11,
        spec_export_url(endpoint).skip(spec_export_url(endpoint).len() - 11) == "/v1/metrics"@,
        without_trailing_slashes(endpoint).len() == 0 || without_trailing_slashes(endpoint).last() != '/',
    decreases endpoint.len(),
{
    reveal_strlit("/v1/metrics");
    let base = without_trailing_slashes(endpoint);
    assert((base + "/v1/metrics"@).skip(base.len() as int) =~= "/v1/metrics"@);
    if endpoint.len() > 0 && endpoint.last() == '/' {
        law_export_url_shape(endpoint.drop_last());
    }
}

/// The URL that metrics are exported to, for the collector at `endpoint`:
/// the endpoint without trailing slashes, then `/v1/metrics`.
pub fn export_url(endpoint: &str) -> (r: String)
    ensures
        r@ == spec_export_url(endpoint@),
{
    concat(trim_trailing_slashes(endpoint), "/v1/metrics")
}

/// The certificates of a parsed CA bundle, provided it parsed and holds at
/// least one.
pub fn checked_ca_certificates(parsed: Option<Vec<reqwest::Certificate>>) -> (r: Result<
    Vec<reqwest::Certificate>,
    OtelClientError,
>)
    ensures
        match parsed {
            None => r matches Err(e) && e == OtelClientError::InvalidCaBundle,
            Some(certificates) => if certificates@.len() == 0 {
                r matches Err(e) && e == OtelClientError::EmptyCaBundle
            } else {
                r matches Ok(v) && v@ == certificates@
            },
        },
{
    match parsed {
        None => Err(OtelClientError::InvalidCaBundle),
        Some(certificates) => {
            if certificates.len() == 0 {
                Err(OtelClientError::EmptyCaBundle)
            } else {
                Ok(certificates)
            }
        },
    }
}

/// The export request of a client configured as `client`, with export URL
/// `url` and credentials `auth`, for the encoded metrics `body`: a POST to the
/// export URL with the protobuf content type and the body, then the
/// credentials as basic authentication where there are any.
pub open spec fn export_request_model(
    client: ClientModel,
    url: Seq<char>,
    auth: Option<(Seq<char>, Option<Seq<char>>)>,
    body: Seq<u8>,
) -> RequestModel {
    let base = RequestModel {
        client,
        method: HttpMethod::Post,
        url,
        steps: seq![
            RequestStep::Header("content-type"@, "application/x-protobuf"@),
            RequestStep::Body(body),
        ],
    };
    match auth {
        Some(credentials) => with_step(base, RequestStep::BasicAuth(credentials.0, credentials.1)),
        None => base,
    }
}

/// Every export request is a POST to the export URL, on the client's own HTTP
/// client, that first sets the protobuf content type and then the body, both
/// whatever the credentials; credentials add exactly one basic-auth step
/// after them (the password is handed on as given), and without credentials
/// nothing more is added.
pub proof fn law_export_request_carries_protobuf_body(
    client: ClientModel,
    url: Seq<char>,
    auth: Option<(Seq<char>, Option<Seq<char>>)>,
    body: Seq<u8>,
)
    ensures
        ({
            let r = export_request_model(client, url, auth, body);
            &&& r.client == client
            &&& r.method == HttpMethod::Post
            &&& r.url == url
            &&& r.steps.len() >= 2
            &&& r.steps[0] == RequestStep::Header("content-type"@, "application/x-protobuf"@)
            &&& r.steps[1] == RequestStep::Body(body)
            &&& match auth {
                None => r.steps.len() == 2,
                Some((user, password)) => r.steps.len() == 3 && r.steps[2]
                    == RequestStep::BasicAuth(user, password),
            }
        }),
{
}

/// The client settings for an optional CA bundle: none without one; with one,
/// its certificates trusted besides the default roots.
pub open spec fn otel_client_settings_fit(ca_bundle: Option<Seq<u8>>, settings: Seq<ClientSetting>) -> bool {
    match ca_bundle {
        None => settings == Seq::<ClientSetting>::empty(),
        Some(pem) => {
            &&& settings.len() == 1
            &&& settings[0] matches ClientSetting::TrustAlso(certificates)
                && pem_bundle_certificate_count(pem) == Some(certificates.len())
        },
    }
}

/// The bytes of an optional CA bundle.
pub open spec fn opt_bytes_view(o: Option<&[u8]>) -> Option<Seq<u8>> {
    match o {
        Some(b) => Some(b@),
        None => None,
    }
}

/// A client to export OTLP metrics to an OTel collector over OTLP/http.
pub struct OtelClient {
    client: HttpClient,
    export_url: String,
    basic_auth: Option<BasicAuth>,
}

impl OtelClient {
    /// The URL that metrics are exported to.
    pub closed spec fn spec_export_url_of(&self) -> Seq<char> {
        self.export_url@
    }

    /// The credentials sent with each export.
    pub closed spec fn spec_basic_auth(&self) -> Option<(Seq<char>, Option<Seq<char>>)> {
        auth_view(self.basic_auth)
    }

    /// How the HTTP client is configured.
    pub closed spec fn spec_client_model(&self) -> ClientModel {
        self.client.model()
    }

    /// A client for the collector at `endpoint`. Where a CA bundle (the
    /// bundle file's bytes) is given, its certificates are trusted besides
    /// the default roots; it must parse and hold at least one certificate.
    pub fn new(endpoint: &str, ca_bundle: Option<&[u8]>, basic_auth: Option<BasicAuth>) -> (r: Result<
        OtelClient,
        OtelClientError,
    >)
        ensures
            r matches Ok(c) ==> c.spec_export_url_of() == spec_export_url(endpoint@)
                && c.spec_basic_auth() == auth_view(basic_auth) && c.spec_client_model().from_defaults
                && otel_client_settings_fit(opt_bytes_view(ca_bundle), c.spec_client_model().settings),
            match ca_bundle {
                None => r is Ok || (r matches Err(e) && e == OtelClientError::ClientBuild),
                Some(pem) => match pem_bundle_certificate_count(pem@) {
                    None => r matches Err(e) && e == OtelClientError::InvalidCaBundle,
                    Some(n) => if n == 0 {
                        r matches Err(e) && e == OtelClientError::EmptyCaBundle
                    } else {
                        r is Ok || (r matches Err(e) && e == OtelClientError::ClientBuild)
                    },
                },
            },
    {
        let mut builder = client_builder();
        match ca_bundle {
            Some(pem) => {
                let parsed = certificates_from_pem_bundle(pem);
                let certificates = checked_ca_certificates(parsed)?;
                builder = trust_also(builder, certificates);
                assert(builder.model().settings =~= seq![ClientSetting::TrustAlso(certificates@)]);
            },
            None => {
                assert(builder.model().settings =~= Seq::<ClientSetting>::empty());
            },
        }
        let client = match build_client(builder) {
            Some(client) => client,
            None => {
                return Err(OtelClientError::ClientBuild);
            },
        };
        Ok(OtelClient { client, export_url: export_url(endpoint), basic_auth })
    }

    /// The URL that metrics are exported to.
    pub fn export_url(&self) -> (r: &str)
        ensures
            r@ == self.spec_export_url_of(),
    {
        self.export_url.as_str()
    }

    /// The export request for the encoded metrics `body`: a POST of the
    /// protobuf body to the export URL, with the credentials as basic
    /// authentication if there are any.
    pub fn export_request_for_body(&self, body: Vec<u8>) -> (r: HttpRequest)
        ensures
            r.model() == export_request_model(
                self.spec_client_model(),
                self.spec_export_url_of(),
                self.spec_basic_auth(),
                body@,
            ),
    {
        let ghost content = body@;
        let mut request = post_request(&self.client, self.export_url.as_str());
        request = with_header(request, "content-type", "application/x-protobuf");
        request = with_body(request, body);
        assert(request.model().steps =~= seq![
            RequestStep::Header("content-type"@, "application/x-protobuf"@),
            RequestStep::Body(content),
        ]);
        match &self.basic_auth {
            Some(auth) => {
                let password = match &auth.password {
                    Some(p) => Some(p.as_str()),
                    None => None,
                };
                assert(opt_str_view(password) == opt_string_view(auth.password));
                request = with_basic_auth(request, auth.username.as_str(), password);
            },
            None => {},
        }
        request
    }

    /// Builds the export request for a metrics message, carrying the
    /// basic-auth header if credentials are configured; the body is the
    /// message's protobuf encoding.
    pub fn export_request(&self, request: ExportMetricsServiceRequest) -> (r: HttpRequest)
        ensures
            r.model() == export_request_model(
                self.spec_client_model(),
                self.spec_export_url_of(),
                self.spec_basic_auth(),
                export_request_encoding(request),
            ),
    {
        let body = encode_export_request(&request);
        self.export_request_for_body(body)
    }
}

/// The collector refused an export.
#[derive(Debug)]
pub struct ExportRejected {
    pub status: u16,
    pub body: String,
}

/// Whether the collector took the export: its status is a success (2xx).
pub fn export_accepted(status: u16) -> (r: bool)
    ensures
        r == (200 <= status && status <= 299),
{
    200 <= status && status <= 299
}

/// The refusal of an export with the given status and the response body, or
/// where the body could not be read, a note saying so.
pub fn export_rejected(status: u16, body: Option<String>) -> (r: ExportRejected)
    ensures
        r.status == status,
        r.body@ == (match opt_string_view(body) {
            Some(b) => b,
            None => "<failed to read body>"@,
        }),
{
    match body {
        Some(b) => ExportRejected { status, body: b },
        None => ExportRejected { status, body: owned("<failed to read body>") },
    }
}

} // verus!
