//! The request dispatcher's decisions: parsing and classifying the
//! destination, decoding optional trust-certificate material with a fixed
//! precedence, planning the HTTP client configuration (direct or through the
//! local SOCKS endpoint), and assembling the reply. The network send itself is
//! I/O and stays outside the library; everything that decides is here.

use vstd::prelude::*;

use crate::config::Identity;
use crate::messages::ResMessage;
use crate::state::BridgeState;
use crate::text::{dec_digits, ends_with, ends_with_str, opt_str_view, u32_to_dec};

verus! {

use vstd::string::StringExecFns;

#[verifier::external_type_specification]
#[verifier::external_body]
pub struct ExCertificate(reqwest::Certificate);

#[verifier::external_type_specification]
#[verifier::external_body]
pub struct ExProxy(reqwest::Proxy);

#[verifier::external_type_specification]
#[verifier::external_body]
pub struct ExClient(reqwest::blocking::Client);

#[verifier::external_type_specification]
#[verifier::external_body]
pub struct ExClientBuilder(reqwest::blocking::ClientBuilder);

#[verifier::external_type_specification]
#[verifier::external_body]
pub struct ExReqwestError(reqwest::Error);

/// What parsing `s` as a URL yields: nothing if it is malformed, otherwise
/// its domain name if its host is one.
pub uninterp spec fn url_domain_of(s: Seq<char>) -> Option<Option<Seq<char>>>;

pub open spec fn opt_opt_str_view(r: Option<Option<String>>) -> Option<Option<Seq<char>>> {
    match r {
        None => None,
        Some(None) => Some(None),
        Some(Some(s)) => Some(Some(s@)),
    }
}

/// Relies on `reqwest::Url::parse` and `Url::domain`: both are pure functions
/// of the URL text; `parse` fails exactly on malformed URLs, and `domain`
/// yields the host when it is a domain name (not an IP address, not absent).
#[verifier::external_body]
fn url_domain(url: &str) -> (r: Option<Option<String>>)
    ensures
        opt_opt_str_view(r) == url_domain_of(url@),
{
    match reqwest::Url::parse(url) {
        Ok(u) => Some(u.domain().map(|d| d.to_string())),
        Err(_) => None,
    }
}

/// What URL-safe-alphabet base64 decoding of `s` yields, if it decodes.
pub uninterp spec fn urlsafe_b64(s: Seq<char>) -> Option<Seq<u8>>;

/// What standard-alphabet base64 decoding of `s` yields, if it decodes.
pub uninterp spec fn standard_b64(s: Seq<char>) -> Option<Seq<u8>>;

pub open spec fn opt_bytes_view(r: Option<Vec<u8>>) -> Option<Seq<u8>> {
    match r {
        None => None,
        Some(b) => Some(b@),
    }
}

/// Relies on `base64::decode_config` with the `URL_SAFE` alphabet: a pure
/// function of the input text that fails exactly on text that is not valid
/// base64 in that alphabet.
#[verifier::external_body]
fn b64_urlsafe_decode(s: &str) -> (r: Option<Vec<u8>>)
    ensures
        opt_bytes_view(r) == urlsafe_b64(s@),
{
    base64::decode_config(s, base64::URL_SAFE).ok()
}

/// Relies on `base64::decode` with the standard alphabet: a pure function of
/// the input text that fails exactly on text that is not valid base64.
#[verifier::external_body]
fn b64_standard_decode(s: &str) -> (r: Option<Vec<u8>>)
    ensures
        opt_bytes_view(r) == standard_b64(s@),
{
    base64::decode(s).ok()
}

/// Whether `reqwest::Certificate::from_der` accepts these bytes.
pub uninterp spec fn der_cert_ok(b: Seq<u8>) -> bool;

/// Whether `reqwest::Certificate::from_pem` accepts this text's bytes.
pub uninterp spec fn pem_cert_ok(s: Seq<char>) -> bool;

/// Relies on `reqwest::Certificate::from_der`: whether it accepts the bytes
/// is deterministic in the bytes alone. With the rustls backend this crate
/// builds against, it stores the bytes and accepts unconditionally; the bytes
/// are only validated later, inside `ClientBuilder::build`.
#[verifier::external_body]
fn cert_from_der(b: &Vec<u8>) -> (r: Option<reqwest::Certificate>)
    ensures
        r is Some <==> der_cert_ok(b@),
{
    reqwest::Certificate::from_der(b.as_slice()).ok()
}

/// Relies on `reqwest::Certificate::from_pem`: whether it accepts the text's
/// bytes is deterministic in the text alone. With the rustls backend this
/// crate builds against, it stores the bytes and accepts unconditionally; the
/// bytes are only validated later, inside `ClientBuilder::build`.
#[verifier::external_body]
fn cert_from_pem(s: &str) -> (r: Option<reqwest::Certificate>)
    ensures
        r is Some <==> pem_cert_ok(s@),
{
    reqwest::Certificate::from_pem(s.as_bytes()).ok()
}

/// Which path accepted the supplied certificate material.
#[derive(Clone, Copy, Debug, PartialEq, Eq, Structural)]
pub enum CertSource {
    /// URL-safe base64 that decoded and parsed as DER.
    UrlSafeDer,
    /// Standard base64 that decoded and parsed as DER.
    StandardDer,
    /// The raw text parsed as PEM.
    Pem,
}

/// The certificate-injection precedence: URL-safe base64 DER first; standard
/// base64 DER only where the URL-safe alphabet rejected the text; PEM as the
/// last resort. With a TLS backend that accepts any bytes at decode time (as
/// the rustls one here does), a DER path wins whenever its base64 decoding
/// succeeds, and bytes that are no certificate fail the whole client build
/// instead of falling through to PEM.
pub open spec fn cert_decision(s: Seq<char>) -> Option<CertSource> {
    match urlsafe_b64(s) {
        Some(b) => if der_cert_ok(b) {
            Some(CertSource::UrlSafeDer)
        } else if pem_cert_ok(s) {
            Some(CertSource::Pem)
        } else {
            None
        },
        None => match standard_b64(s) {
            Some(b) => if der_cert_ok(b) {
                Some(CertSource::StandardDer)
            } else if pem_cert_ok(s) {
                Some(CertSource::Pem)
            } else {
                None
            },
            None => if pem_cert_ok(s) {
                Some(CertSource::Pem)
            } else {
                None
            },
        },
    }
}

/// A certificate accepted for injection, and which path accepted it.
pub struct DecodedCert {
    pub cert: reqwest::Certificate,
    pub source: CertSource,
}

/// Decodes supplied certificate material, trying the paths in their fixed
/// order of precedence.
pub fn decode_certificate(cert_str: &str) -> (r: Option<DecodedCert>)
    ensures
        match r {
            Some(d) => cert_decision(cert_str@) == Some(d.source),
            None => cert_decision(cert_str@) is None,
        },
{
    match b64_urlsafe_decode(cert_str) {
        Some(bytes) => match cert_from_der(&bytes) {
            Some(cert) => Some(DecodedCert { cert, source: CertSource::UrlSafeDer }),
            None => pem_fallback(cert_str),
        },
        None => match b64_standard_decode(cert_str) {
            Some(bytes) => match cert_from_der(&bytes) {
                Some(cert) => Some(DecodedCert { cert, source: CertSource::StandardDer }),
                None => pem_fallback(cert_str),
            },
            None => pem_fallback(cert_str),
        },
    }
}

/// The last resort of the precedence: the raw text as PEM.
fn pem_fallback(cert_str: &str) -> (r: Option<DecodedCert>)
    ensures
        match r {
            Some(d) => d.source == CertSource::Pem && pem_cert_ok(cert_str@),
            None => !pem_cert_ok(cert_str@),
        },
{
    match cert_from_pem(cert_str) {
        Some(cert) => Some(DecodedCert { cert, source: CertSource::Pem }),
        None => None,
    }
}

/// Certificate precedence law, DER side: material the URL-safe alphabet
/// decodes into acceptable DER is taken on that path, and PEM parsing is
/// never consulted.
pub proof fn lemma_urlsafe_der_takes_precedence(s: Seq<char>)
    requires
        urlsafe_b64(s) matches Some(b) && der_cert_ok(b),
    ensures
        cert_decision(s) == Some(CertSource::UrlSafeDer),
{
}

/// Certificate precedence law, PEM side: material that no base64-DER path
/// accepts, but PEM does, is taken on the PEM fallback.
pub proof fn lemma_pem_fallback(s: Seq<char>)
    requires
        pem_cert_ok(s),
        match urlsafe_b64(s) {
            Some(b) => !der_cert_ok(b),
            None => match standard_b64(s) {
                Some(b) => !der_cert_ok(b),
                None => true,
            },
        },
    ensures
        cert_decision(s) == Some(CertSource::Pem),
{
}

/// The anonymizing network's private top-level domain.
pub open spec fn is_onion_host(h: Seq<char>) -> bool {
    ends_with(h, ".onion"@)
}

pub fn host_is_onion(h: &str) -> (r: bool)
    ensures
        r == is_onion_host(h@),
{
    ends_with_str(h, ".onion")
}

/// Where a request goes.
#[derive(Clone, Copy, Debug, PartialEq, Eq, Structural)]
pub enum Route {
    /// Straight to the public network, system trust store.
    Direct,
    /// Through the local SOCKS endpoint of the proxy subprocess.
    Proxied,
}

/// Routing classification: a malformed URL routes nowhere; a host inside the
/// private top-level domain is proxied; every other destination is direct.
pub open spec fn route_of(domain: Option<Option<Seq<char>>>) -> Option<Route> {
    match domain {
        None => None,
        Some(None) => Some(Route::Direct),
        Some(Some(h)) => if is_onion_host(h) {
            Some(Route::Proxied)
        } else {
            Some(Route::Direct)
        },
    }
}

/// Classifies a destination URL.
pub fn classify_url(url: &str) -> (r: Option<Route>)
    ensures
        r == route_of(url_domain_of(url@)),
{
    match url_domain(url) {
        None => None,
        Some(None) => Some(Route::Direct),
        Some(Some(h)) => {
            if host_is_onion(h.as_str()) {
                Some(Route::Proxied)
            } else {
                Some(Route::Direct)
            }
        },
    }
}

/// The dispatcher's error: a transport error from the HTTP layer, or the
/// bridge's own description of what went wrong.
pub enum ReqError {
    ClientError(reqwest::Error),
    Message(String),
}

impl From<reqwest::Error> for ReqError {
    fn from(err: reqwest::Error) -> (r: Self) {
        ReqError::ClientError(err)
    }
}

impl vstd::std_specs::convert::FromSpecImpl<reqwest::Error> for ReqError {
    open spec fn obeys_from_spec() -> bool {
        true
    }

    open spec fn from_spec(err: reqwest::Error) -> Self {
        ReqError::ClientError(err)
    }
}

/// Relies on the `Debug` rendering of `reqwest::Error` for a diagnostic
/// description of a transport failure.
#[verifier::external_body]
fn reqwest_error_text(e: &reqwest::Error) -> String {
    format!("{:#?}", e)
}

/// A printable description of a dispatcher error.
pub fn req_error_text(e: &ReqError) -> (r: String)
    ensures
        e matches ReqError::Message(m) ==> r@ == m@,
{
    match e {
        ReqError::ClientError(err) => reqwest_error_text(err),
        ReqError::Message(m) => m.clone(),
    }
}

/// The local SOCKS endpoint for a given port.
pub open spec fn socks_url_of(port: u16) -> Seq<char> {
    "socks5h://127.0.0.1:"@ + dec_digits(port as nat)
}

pub fn socks_url(port: u16) -> (r: String)
    ensures
        r@ == socks_url_of(port),
{
    let mut s = "socks5h://127.0.0.1:".to_owned();
    let d = u32_to_dec(port as u32);
    s.append(d.as_str());
    s
}

/// Relies on `reqwest::blocking::Client::builder`: a fresh default builder.
#[verifier::external_body]
fn new_client_builder() -> reqwest::blocking::ClientBuilder {
    reqwest::blocking::Client::builder()
}

/// Relies on `ClientBuilder::timeout`: sets the whole-request timeout.
#[verifier::external_body]
fn builder_timeout_secs(
    b: reqwest::blocking::ClientBuilder,
    secs: u64,
) -> reqwest::blocking::ClientBuilder {
    b.timeout(Some(std::time::Duration::from_secs(secs)))
}

/// Relies on `ClientBuilder::add_root_certificate`: adds one more trusted
/// root without touching validation otherwise.
#[verifier::external_body]
fn builder_add_root_certificate(
    b: reqwest::blocking::ClientBuilder,
    cert: reqwest::Certificate,
) -> reqwest::blocking::ClientBuilder {
    b.add_root_certificate(cert)
}

/// Relies on `ClientBuilder::danger_accept_invalid_certs`: relaxes
/// certificate validation.
#[verifier::external_body]
fn builder_accept_invalid_certs(
    b: reqwest::blocking::ClientBuilder,
    accept: bool,
) -> reqwest::blocking::ClientBuilder {
    b.danger_accept_invalid_certs(accept)
}

/// Relies on `ClientBuilder::proxy`: routes every request of the client
/// through the given proxy.
#[verifier::external_body]
fn builder_proxy(
    b: reqwest::blocking::ClientBuilder,
    p: reqwest::Proxy,
) -> reqwest::blocking::ClientBuilder {
    b.proxy(p)
}

/// Relies on `ClientBuilder::build`: assembles the client, failing on an
/// unusable configuration or TLS backend. reqwest documents that a blocking
/// client build panics when called from within an async runtime — an ambient
/// condition no `requires` over the arguments can state; this bridge is
/// synchronous throughout, so no caller stands in one.
#[verifier::external_body]
fn builder_build(b: reqwest::blocking::ClientBuilder) -> Result<
    reqwest::blocking::Client,
    reqwest::Error,
> {
    b.build()
}

/// Relies on `reqwest::Proxy::all`: a proxy for every scheme, from the given
/// endpoint URL; fails on an endpoint it cannot parse.
#[verifier::external_body]
fn proxy_all(url: &str) -> Result<reqwest::Proxy, reqwest::Error> {
    reqwest::Proxy::all(url)
}

/// Relies on `Proxy::basic_auth`: attaches the credentials to the proxy.
#[verifier::external_body]
fn proxy_with_basic_auth(p: reqwest::Proxy, user: &str, pass: &str) -> reqwest::Proxy {
    p.basic_auth(user, pass)
}

/// The whole-request timeout, in seconds.
pub open spec fn request_timeout_secs() -> u64 {
    75
}

/// Everything that decides the HTTP client's configuration.
pub struct ClientPlan {
    pub proxied: bool,
    pub cert: Option<DecodedCert>,
    pub accept_invalid_certs: bool,
    pub timeout_secs: u64,
    pub socks_port: u16,
    pub socks_username: String,
    pub socks_password: String,
}

/// Plans the client for a classified request: a proxied request goes through
/// the local SOCKS endpoint with this process's credentials; supplied
/// certificate material that decodes is injected as an extra trusted root;
/// validation is relaxed only for a proxied request without an accepted
/// certificate; a fixed bounded timeout applies to everything.
pub fn plan_client(route: Route, certificate: &Option<String>, ident: &Identity) -> (p: ClientPlan)
    ensures
        p.proxied == (route is Proxied),
        p.timeout_secs == request_timeout_secs(),
        p.socks_port == ident.port,
        p.socks_username@ == ident.username@,
        p.socks_password@ == ident.password@,
        match opt_str_view(*certificate) {
            Some(c) => (match p.cert {
                Some(d) => cert_decision(c) == Some(d.source),
                None => cert_decision(c) is None,
            }),
            None => p.cert is None,
        },
        p.accept_invalid_certs == (route is Proxied && p.cert is None),
{
    let cert = match certificate {
        Some(c) => decode_certificate(c.as_str()),
        None => None,
    };
    let proxied = match route {
        Route::Proxied => true,
        Route::Direct => false,
    };
    let accept_invalid_certs = proxied && cert.is_none();
    ClientPlan {
        proxied,
        cert,
        accept_invalid_certs,
        timeout_secs: 75,
        socks_port: ident.port,
        socks_username: ident.username.clone(),
        socks_password: ident.password.clone(),
    }
}

/// Builds the HTTP client the plan calls for. Every failure is a transport
/// error from the HTTP layer. Must not be called from within an async
/// runtime: the blocking client's build panics there (see `builder_build`).
pub fn build_client(plan: ClientPlan) -> (r: Result<reqwest::blocking::Client, ReqError>)
    ensures
        r matches Err(e) ==> e is ClientError,
{
    let mut b = new_client_builder();
    b = builder_timeout_secs(b, plan.timeout_secs);
    match plan.cert {
        Some(d) => {
            b = builder_add_root_certificate(b, d.cert);
        },
        None => (),
    }
    if plan.accept_invalid_certs {
        b = builder_accept_invalid_certs(b, true);
    }
    if plan.proxied {
        let endpoint = socks_url(plan.socks_port);
        let p = match proxy_all(endpoint.as_str()) {
            Ok(p) => p,
            Err(e) => {
                return Err(ReqError::ClientError(e));
            },
        };
        let p = proxy_with_basic_auth(
            p,
            plan.socks_username.as_str(),
            plan.socks_password.as_str(),
        );
        b = builder_proxy(b, p);
    }
    match builder_build(b) {
        Ok(c) => Ok(c),
        Err(e) => Err(ReqError::ClientError(e)),
    }
}

/// What the dispatcher does next with a classified request.
#[derive(Clone, Copy, Debug, PartialEq, Eq, Structural)]
pub enum RoutePlan {
    /// The URL did not parse: answer with an error reply.
    BadUrl,
    /// The client can be built and the request sent now.
    SendNow { route: Route },
    /// The request is proxied and the proxy is not ready yet: wait for
    /// readiness first; `launch` says whether this call claimed the launch
    /// and must spawn the subprocess.
    AwaitProxy { launch: bool },
}

/// Classifies the destination and brings the proxy state along: a proxied
/// request launches the proxy if nobody has yet, and waits unless the proxy
/// is already ready.
pub fn route_request_step(st: &mut BridgeState, url: &str) -> (r: RoutePlan)
    ensures
        match route_of(url_domain_of(url@)) {
            None => r == RoutePlan::BadUrl && *final(st) == *old(st),
            Some(Route::Direct) => r == (RoutePlan::SendNow { route: Route::Direct }) && *final(st)
                == *old(st),
            Some(Route::Proxied) => {
                if old(st).tor_ready {
                    r == (RoutePlan::SendNow { route: Route::Proxied }) && *final(st) == *old(st)
                } else {
                    &&& r == (RoutePlan::AwaitProxy { launch: !old(st).tor_started })
                    &&& final(st).tor_started
                    &&& final(st).tor_ready == old(st).tor_ready
                    &&& final(st).debug_mode == old(st).debug_mode
                }
            },
        },
{
    match classify_url(url) {
        None => RoutePlan::BadUrl,
        Some(Route::Direct) => RoutePlan::SendNow { route: Route::Direct },
        Some(Route::Proxied) => {
            if crate::state::is_tor_ready(st) {
                RoutePlan::SendNow { route: Route::Proxied }
            } else {
                let launch = crate::state::try_begin_launch(st);
                RoutePlan::AwaitProxy { launch }
            }
        },
    }
}

/// The HTTP methods a caller may ask for; anything unrecognized degrades to
/// OPTIONS.
#[derive(Clone, Copy, Debug, PartialEq, Eq, Structural)]
pub enum HttpMethod {
    Get,
    Post,
    Put,
    Delete,
    Options,
}

/// Which method a request's method string names.
pub open spec fn method_of(s: Seq<char>) -> HttpMethod {
    if s == "GET"@ {
        HttpMethod::Get
    } else if s == "POST"@ {
        HttpMethod::Post
    } else if s == "PUT"@ {
        HttpMethod::Put
    } else if s == "DELETE"@ {
        HttpMethod::Delete
    } else {
        HttpMethod::Options
    }
}

/// Maps the caller's method string onto a method.
pub fn parse_method(s: &str) -> (r: HttpMethod)
    ensures
        r == method_of(s@),
{
    if crate::text::str_eq(s, "GET") {
        HttpMethod::Get
    } else if crate::text::str_eq(s, "POST") {
        HttpMethod::Post
    } else if crate::text::str_eq(s, "PUT") {
        HttpMethod::Put
    } else if crate::text::str_eq(s, "DELETE") {
        HttpMethod::Delete
    } else {
        HttpMethod::Options
    }
}

/// The log line for header material that did not convert.
pub open spec fn header_warning_view(id: Seq<char>) -> Seq<char> {
    "["@ + id + "] headers were not parsed"@
}

/// What the dispatcher does with the caller's header material once conversion
/// has been attempted: converted headers are used as they are; material that
/// did not convert degrades to the empty header set plus a log line — never
/// an error.
pub fn degrade_headers<T>(converted: Option<T>, empty: T, id: &str) -> (r: (T, Option<String>))
    ensures
        match converted {
            Some(h) => r.0 == h && r.1 is None,
            None => r.0 == empty && (r.1 matches Some(l) && l@ == header_warning_view(id@)),
        },
{
    match converted {
        Some(h) => (h, None),
        None => {
            let mut line = "[".to_owned();
            line.append(id);
            line.append("] headers were not parsed");
            (empty, Some(line))
        },
    }
}

/// The error for a destination URL that did not parse, tagged with the
/// request id it belongs to.
pub fn bad_url_error(id: &str) -> (r: ReqError)
    ensures
        r matches ReqError::Message(m) && m@ == "["@ + id@ + "] Can not parse URL"@,
{
    let mut s = "[".to_owned();
    s.append(id);
    s.append("] Can not parse URL");
    ReqError::Message(s)
}

/// The reply for a request the upstream answered: status, headers and body
/// are copied over, and the caller's id is echoed back unchanged.
pub fn response_to_msg(
    id: String,
    status: u16,
    headers: Vec<(String, String)>,
    body: String,
) -> (r: ResMessage)
    ensures
        r.id@ == id@,
        r.status == status,
        r.headers@ == headers@,
        r.body@ == body@,
{
    ResMessage { id, status, body, headers }
}

} // verus!
