//! The calls into the HTTP client (`reqwest`), the protobuf encoder (`prost`)
//! and the JSON writer (`serde_json`) that the library makes, with what each is
//! claimed to do. None of these is proved here.
use opentelemetry_proto::tonic::collector::metrics::v1::ExportMetricsServiceRequest;
use prost::Message;
use vstd::prelude::*;

use crate::text::opt_str_view;

verus! {

/// `reqwest::Client`, carried through unopened.
#[verifier::external_type_specification]
#[verifier::external_body]
pub struct ExReqwestClient(reqwest::Client);

/// `reqwest::ClientBuilder`, carried through unopened.
#[verifier::external_type_specification]
#[verifier::external_body]
pub struct ExReqwestClientBuilder(reqwest::ClientBuilder);

/// `reqwest::RequestBuilder`, carried through unopened.
#[verifier::external_type_specification]
#[verifier::external_body]
pub struct ExReqwestRequestBuilder(reqwest::RequestBuilder);

/// `reqwest::Certificate`, carried through unopened.
#[verifier::external_type_specification]
#[verifier::external_body]
pub struct ExReqwestCertificate(reqwest::Certificate);

/// The OTLP metrics export request, carried through unopened.
#[verifier::external_type_specification]
#[verifier::external_body]
pub struct ExExportMetricsServiceRequest(ExportMetricsServiceRequest);

/// `Clone` for `reqwest::Client`: another handle to the same client. Nothing is
/// claimed of it.
pub assume_specification[ <reqwest::Client as Clone>::clone ](client: &reqwest::Client) -> reqwest::Client;

/// How many certificates `reqwest::Certificate::from_pem_bundle` reads from
/// the PEM bundle `pem`, or `None` where it fails on it.
pub uninterp spec fn pem_bundle_certificate_count(pem: Seq<u8>) -> Option<nat>;

/// `reqwest::Certificate::from_pem_bundle`: the certificates of a PEM bundle.
/// Claimed: it succeeds or fails, and reads how many certificates, as a
/// function of the bytes alone (it parses them and nothing else). Not stated:
/// which bundles it accepts.
#[verifier::external_body]
pub(crate) fn certificates_from_pem_bundle(pem: &[u8]) -> (r: Option<Vec<reqwest::Certificate>>)
    ensures
        match r {
            Some(certificates) => pem_bundle_certificate_count(pem@) == Some(
                certificates@.len(),
            ),
            None => pem_bundle_certificate_count(pem@) is None,
        },
{
    reqwest::Certificate::from_pem_bundle(pem).ok()
}

/// The HTTP methods that the library sends.
#[derive(Clone, Copy, Debug, PartialEq, Eq, Structural)]
pub enum HttpMethod {
    Get,
    Post,
}

/// One setting applied to an HTTP client builder.
pub enum ClientSetting {
    /// No proxy is used, not even the system's (`no_proxy`).
    NoProxy,
    /// Any server certificate is accepted (`danger_accept_invalid_certs(true)`).
    AcceptInvalidCerts,
    /// These certificates are trusted besides the roots already trusted
    /// (`tls_certs_merge`).
    TrustAlso(Seq<reqwest::Certificate>),
    /// These certificates are added to the trusted roots, and only the roots
    /// given this way are trusted (`tls_certs_only`).
    TrustOnly(Seq<reqwest::Certificate>),
    /// The server's host name is not checked against its certificate
    /// (`tls_danger_accept_invalid_hostnames(true)`).
    SkipHostnameCheck,
}

/// How an HTTP client is configured: it starts from reqwest's defaults, or
/// from a builder that the caller handed in, and then has `settings` applied
/// in order.
pub struct ClientModel {
    pub from_defaults: bool,
    pub settings: Seq<ClientSetting>,
}

/// One change applied to a request.
pub enum RequestStep {
    /// A header is appended (`header`).
    Header(Seq<char>, Seq<char>),
    /// The body is set (`body`).
    Body(Seq<u8>),
    /// HTTP basic authentication with this user and password (`basic_auth`).
    BasicAuth(Seq<char>, Option<Seq<char>>),
    /// HTTP bearer authentication with this token (`bearer_auth`).
    BearerAuth(Seq<char>),
}

/// What a request is: sent by a client configured as `client`, with `method`
/// to `url` (as reqwest reads a URL), then with `steps` applied in order.
pub struct RequestModel {
    pub client: ClientModel,
    pub method: HttpMethod,
    pub url: Seq<char>,
    pub steps: Seq<RequestStep>,
}

/// A reqwest client builder, with what has been done to it.
pub struct HttpClientBuilder {
    inner: reqwest::ClientBuilder,
    state: Ghost<ClientModel>,
}

/// A reqwest client, with how it was configured.
#[derive(Clone)]
pub struct HttpClient {
    inner: reqwest::Client,
    state: Ghost<ClientModel>,
}

/// A reqwest request builder, with what the request is.
pub struct HttpRequest {
    inner: reqwest::RequestBuilder,
    state: Ghost<RequestModel>,
}

impl HttpClientBuilder {
    /// How the client that this builds is configured.
    pub closed spec fn model(&self) -> ClientModel {
        self.state@
    }

    /// A builder with reqwest's defaults.
    pub fn new() -> (b: HttpClientBuilder)
        ensures
            b.model() == (ClientModel { from_defaults: true, settings: Seq::empty() }),
    {
        client_builder()
    }

    /// A builder that goes on from `base`, a builder on which the caller set
    /// what the library cannot (such as DNS overrides, which need
    /// `std::net`).
    pub fn from_base(base: reqwest::ClientBuilder) -> (b: HttpClientBuilder)
        ensures
            b.model() == (ClientModel { from_defaults: false, settings: Seq::empty() }),
    {
        HttpClientBuilder {
            inner: base,
            state: Ghost(ClientModel { from_defaults: false, settings: Seq::empty() }),
        }
    }

    /// The client, or `None` where building fails.
    pub fn build(self) -> (r: Option<HttpClient>)
        ensures
            r matches Some(c) ==> c.model() == self.model(),
    {
        build_client(self)
    }
}

impl HttpClient {
    /// How the client is configured.
    pub closed spec fn model(&self) -> ClientModel {
        self.state@
    }
}

impl HttpRequest {
    /// What the request is.
    pub closed spec fn model(&self) -> RequestModel {
        self.state@
    }

    /// The reqwest request builder, to send or build the request.
    pub fn into_reqwest(self) -> reqwest::RequestBuilder {
        self.inner
    }
}

/// The builder after one more setting.
pub open spec fn with_setting(m: ClientModel, s: ClientSetting) -> ClientModel {
    ClientModel { from_defaults: m.from_defaults, settings: m.settings.push(s) }
}

/// The request after one more step.
pub open spec fn with_step(m: RequestModel, s: RequestStep) -> RequestModel {
    RequestModel { client: m.client, method: m.method, url: m.url, steps: m.steps.push(s) }
}

/// `reqwest::Client::builder`: a builder with reqwest's defaults.
#[verifier::external_body]
pub(crate) fn client_builder() -> (b: HttpClientBuilder)
    ensures
        b.model() == (ClientModel { from_defaults: true, settings: Seq::empty() }),
{
    HttpClientBuilder {
        inner: reqwest::Client::builder(),
        state: Ghost(ClientModel { from_defaults: true, settings: Seq::empty() }),
    }
}

/// `reqwest::ClientBuilder::no_proxy`: no proxy is used.
#[verifier::external_body]
pub(crate) fn no_proxy(b: HttpClientBuilder) -> (r: HttpClientBuilder)
    ensures
        r.model() == with_setting(b.model(), ClientSetting::NoProxy),
{
    HttpClientBuilder {
        inner: b.inner.no_proxy(),
        state: Ghost(with_setting(b.state@, ClientSetting::NoProxy)),
    }
}

/// `reqwest::ClientBuilder::danger_accept_invalid_certs(true)`: any server
/// certificate is accepted.
#[verifier::external_body]
pub(crate) fn accept_invalid_certs(b: HttpClientBuilder) -> (r: HttpClientBuilder)
    ensures
        r.model() == with_setting(b.model(), ClientSetting::AcceptInvalidCerts),
{
    HttpClientBuilder {
        inner: b.inner.danger_accept_invalid_certs(true),
        state: Ghost(with_setting(b.state@, ClientSetting::AcceptInvalidCerts)),
    }
}

/// `reqwest::ClientBuilder::tls_certs_merge`: the certificates are trusted
/// besides the roots already trusted.
#[verifier::external_body]
pub(crate) fn trust_also(b: HttpClientBuilder, certificates: Vec<reqwest::Certificate>) -> (r:
    HttpClientBuilder)
    ensures
        r.model() == with_setting(b.model(), ClientSetting::TrustAlso(certificates@)),
{
    let state = Ghost(with_setting(b.state@, ClientSetting::TrustAlso(certificates@)));
    HttpClientBuilder { inner: b.inner.tls_certs_merge(certificates), state }
}

/// `reqwest::ClientBuilder::tls_certs_only`: the certificates are added to the
/// trusted roots, and only roots given this way are trusted.
#[verifier::external_body]
pub(crate) fn trust_only(b: HttpClientBuilder, certificates: Vec<reqwest::Certificate>) -> (r:
    HttpClientBuilder)
    ensures
        r.model() == with_setting(b.model(), ClientSetting::TrustOnly(certificates@)),
{
    let state = Ghost(with_setting(b.state@, ClientSetting::TrustOnly(certificates@)));
    HttpClientBuilder { inner: b.inner.tls_certs_only(certificates), state }
}

/// `reqwest::ClientBuilder::tls_danger_accept_invalid_hostnames(true)`: the
/// host name is not checked against the certificate.
#[verifier::external_body]
pub(crate) fn skip_hostname_check(b: HttpClientBuilder) -> (r: HttpClientBuilder)
    ensures
        r.model() == with_setting(b.model(), ClientSetting::SkipHostnameCheck),
{
    HttpClientBuilder {
        inner: b.inner.tls_danger_accept_invalid_hostnames(true),
        state: Ghost(with_setting(b.state@, ClientSetting::SkipHostnameCheck)),
    }
}

/// `reqwest::ClientBuilder::build`: the client, configured as the builder
/// was, or `None` where building fails (which can depend on the machine's TLS
/// setup). Nothing is claimed of when it fails.
#[verifier::external_body]
pub(crate) fn build_client(b: HttpClientBuilder) -> (r: Option<HttpClient>)
    ensures
        r matches Some(c) ==> c.model() == b.model(),
{
    let state = b.state;
    b.inner.build().ok().map(|inner| HttpClient { inner, state })
}

/// `reqwest::Client::get`: a GET request to `url`, sent by `client`.
#[verifier::external_body]
pub(crate) fn get_request(client: &HttpClient, url: &str) -> (r: HttpRequest)
    ensures
        r.model() == (RequestModel {
            client: client.model(),
            method: HttpMethod::Get,
            url: url@,
            steps: Seq::empty(),
        }),
{
    let state = Ghost(RequestModel {
        client: client.state@,
        method: HttpMethod::Get,
        url: url@,
        steps: Seq::empty(),
    });
    HttpRequest { inner: client.inner.get(url), state }
}

/// `reqwest::Client::post`: a POST request to `url`, sent by `client`.
#[verifier::external_body]
pub(crate) fn post_request(client: &HttpClient, url: &str) -> (r: HttpRequest)
    ensures
        r.model() == (RequestModel {
            client: client.model(),
            method: HttpMethod::Post,
            url: url@,
            steps: Seq::empty(),
        }),
{
    let state = Ghost(RequestModel {
        client: client.state@,
        method: HttpMethod::Post,
        url: url@,
        steps: Seq::empty(),
    });
    HttpRequest { inner: client.inner.post(url), state }
}

/// `reqwest::RequestBuilder::header`: appends a header.
#[verifier::external_body]
pub(crate) fn with_header(request: HttpRequest, name: &str, value: &str) -> (r: HttpRequest)
    ensures
        r.model() == with_step(request.model(), RequestStep::Header(name@, value@)),
{
    let state = Ghost(with_step(request.state@, RequestStep::Header(name@, value@)));
    HttpRequest { inner: request.inner.header(name, value), state }
}

/// `reqwest::RequestBuilder::body`: sets the body.
#[verifier::external_body]
pub(crate) fn with_body(request: HttpRequest, body: Vec<u8>) -> (r: HttpRequest)
    ensures
        r.model() == with_step(request.model(), RequestStep::Body(body@)),
{
    let state = Ghost(with_step(request.state@, RequestStep::Body(body@)));
    HttpRequest { inner: request.inner.body(body), state }
}

/// `reqwest::RequestBuilder::basic_auth`: HTTP basic authentication.
#[verifier::external_body]
pub(crate) fn with_basic_auth(request: HttpRequest, username: &str, password: Option<&str>) -> (r:
    HttpRequest)
    ensures
        r.model() == with_step(
            request.model(),
            RequestStep::BasicAuth(username@, opt_str_view(password)),
        ),
{
    let state = Ghost(
        with_step(request.state@, RequestStep::BasicAuth(username@, opt_str_view(password))),
    );
    HttpRequest { inner: request.inner.basic_auth(username, password), state }
}

/// `reqwest::RequestBuilder::bearer_auth`: HTTP bearer authentication.
#[verifier::external_body]
pub(crate) fn with_bearer_auth(request: HttpRequest, token: &str) -> (r: HttpRequest)
    ensures
        r.model() == with_step(request.model(), RequestStep::BearerAuth(token@)),
{
    let state = Ghost(with_step(request.state@, RequestStep::BearerAuth(token@)));
    HttpRequest { inner: request.inner.bearer_auth(token), state }
}

/// The bytes of the protobuf encoding of an OTLP metrics export request, as
/// prost writes them.
pub uninterp spec fn export_request_encoding(request: ExportMetricsServiceRequest) -> Seq<u8>;

/// `prost::Message::encode_to_vec`: the protobuf encoding of the request.
/// Claimed: the bytes are determined by the message alone (the message type
/// has no map fields, so no iteration order enters). Not stated: what the
/// bytes are.
#[verifier::external_body]
pub(crate) fn encode_export_request(request: &ExportMetricsServiceRequest) -> (r: Vec<u8>)
    ensures
        r@ == export_request_encoding(*request),
{
    request.encode_to_vec()
}

/// The hexadecimal digit for `d < 16`, in lower case.
pub open spec fn hex_digit(d: u32) -> char {
    if d < 10 {
        (d + ('0' as u32)) as char
    } else {
        (d - 10 + ('a' as u32)) as char
    }
}

/// How a JSON string literal writes the character `c`: `"` and `\` and the
/// control characters below U+0020 are escaped (backspace, tab, line feed,
/// form feed and carriage return by letter, the others as `\u00XX`); every
/// other character stands for itself.
pub open spec fn json_escaped_char(c: char) -> Seq<char> {
    let n = c as u32;
    if n == 0x22 {
        seq!['\\', '"']
    } else if n == 0x5c {
        seq!['\\', '\\']
    } else if n == 0x08 {
        seq!['\\', 'b']
    } else if n == 0x09 {
        seq!['\\', 't']
    } else if n == 0x0a {
        seq!['\\', 'n']
    } else if n == 0x0c {
        seq!['\\', 'f']
    } else if n == 0x0d {
        seq!['\\', 'r']
    } else if n < 0x20 {
        seq!['\\', 'u', '0', '0', hex_digit(n / 16), hex_digit(n % 16)]
    } else {
        seq![c]
    }
}

/// The characters of `s`, each written as a JSON string literal writes it.
pub open spec fn json_escaped(s: Seq<char>) -> Seq<char>
    decreases s.len(),
{
    if s.len() == 0 {
        Seq::empty()
    } else {
        json_escaped_char(s[0]) + json_escaped(s.drop_first())
    }
}

/// The JSON string literal for `s`, as `serde_json` writes it.
pub open spec fn json_string(s: Seq<char>) -> Seq<char> {
    seq!['"'] + json_escaped(s) + seq!['"']
}

/// `serde_json::to_string` on a string: its JSON literal. Claimed: the
/// literal is `json_string(s@)` (serde_json's escape table and its escape
/// writer), and the call succeeds.
/// (`serde_json` writes a string into a `Vec<u8>`; its only errors are those
/// of the writer, and writing to a `Vec<u8>` does not fail.)
#[verifier::external_body]
pub(crate) fn json_string_literal(s: &str) -> (r: Option<String>)
    ensures
        r is Some,
        r matches Some(t) ==> t@ == json_string(s@),
{
    serde_json::to_string(s).ok()
}

} // verus!
