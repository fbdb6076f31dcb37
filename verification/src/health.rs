//! The liveness probe: what to ask of a candidate URL, and how to read the
//! answer.
//!
//! A probe is one `GET` of the health path under the candidate URL, with a
//! short timeout. A server on the loopback interface is asked directly,
//! whatever proxy the environment configures. Every failure counts as "not
//! healthy": a URL that cannot be parsed, a request that was not answered,
//! an answer that is no success.

use crate::text::{eq_ignore_ascii_case, same_ignoring_ascii_case};
use vstd::prelude::*;
use vstd::string::StringExecFns;

verus! {

/// The path of the health endpoint.
pub const HEALTH_PATH: &'static str = "/global/health";

/// How many seconds one probe may take.
pub const HEALTH_TIMEOUT_SECS: u64 = 3;

/// The user name that goes with a generated credential.
pub const SERVER_USERNAME: &'static str = "opencode";

/// The host of a parsed URL.
#[derive(Debug, PartialEq, Eq)]
pub enum UrlHost {
    /// The URL has no host.
    Absent,
    /// A domain name.
    Domain(String),
    /// An IPv4 address, by its four octets.
    Ipv4([u8; 4]),
    /// An IPv6 address, by its eight 16-bit segments.
    Ipv6([u16; 8]),
}

/// The mathematical value of a [`UrlHost`].
pub enum UrlHostView {
    Absent,
    Domain(Seq<char>),
    Ipv4([u8; 4]),
    Ipv6([u16; 8]),
}

impl View for UrlHost {
    type V = UrlHostView;

    open spec fn view(&self) -> UrlHostView {
        match self {
            UrlHost::Absent => UrlHostView::Absent,
            UrlHost::Domain(name) => UrlHostView::Domain(name@),
            UrlHost::Ipv4(octets) => UrlHostView::Ipv4(*octets),
            UrlHost::Ipv6(segments) => UrlHostView::Ipv6(*segments),
        }
    }
}

/// The host of the absolute URL that `url` is parsed to; `None` where
/// `url` is not parsed to an absolute URL.
pub uninterp spec fn url_host(url: Seq<char>) -> Option<UrlHostView>;

/// The text of the URL that `reference` resolves to against the absolute
/// URL that `base` is parsed to; `None` where either step fails.
pub uninterp spec fn url_join(base: Seq<char>, reference: Seq<char>) -> Option<Seq<char>>;

/// Parses `url` with `reqwest::Url::parse` and hands out the result of
/// `Url::host` in this library's type, variant by variant: the domain's
/// text, the octets of an IPv4 address, the segments of an IPv6 address.
/// The contract only names that result.
#[verifier::external_body]
fn parse_url_host(url: &str) -> (host: Option<UrlHost>)
    ensures
        match host {
            Some(h) => url_host(url@) == Some(h@),
            None => url_host(url@) is None,
        },
{
    let parsed = reqwest::Url::parse(url).ok()?;
    Some(
        match parsed.host() {
            None => UrlHost::Absent,
            Some(url::Host::Domain(name)) => UrlHost::Domain(name.to_string()),
            Some(url::Host::Ipv4(address)) => UrlHost::Ipv4(address.octets()),
            Some(url::Host::Ipv6(address)) => UrlHost::Ipv6(address.segments()),
        },
    )
}

/// Parses `base` with `reqwest::Url::parse`, resolves `reference` against
/// it with `Url::join` and hands out the text of the URL that comes out.
/// The contract only names that result.
#[verifier::external_body]
fn join_url(base: &str, reference: &str) -> (joined: Option<String>)
    ensures
        match joined {
            Some(text) => url_join(base@, reference@) == Some(text@),
            None => url_join(base@, reference@) is None,
        },
{
    let joined = reqwest::Url::parse(base).ok()?.join(reference).ok()?;
    Some(String::from(joined))
}

/// Whether a host is this machine: the name `localhost` in any case, an
/// IPv4 address in `127.0.0.0/8`, or the IPv6 address `::1`.
pub open spec fn is_local_host(host: UrlHostView) -> bool {
    match host {
        UrlHostView::Absent => false,
        UrlHostView::Domain(name) => same_ignoring_ascii_case(name, "localhost"@),
        UrlHostView::Ipv4(octets) => octets[0] == 127,
        UrlHostView::Ipv6(segments) => {
            &&& segments[0] == 0
            &&& segments[1] == 0
            &&& segments[2] == 0
            &&& segments[3] == 0
            &&& segments[4] == 0
            &&& segments[5] == 0
            &&& segments[6] == 0
            &&& segments[7] == 1
        },
    }
}

/// Tells whether the host of a URL is this machine, so that a request to
/// it must not go through a proxy.
pub fn url_is_localhost(host: &UrlHost) -> (local: bool)
    ensures
        local == is_local_host(host@),
{
    match host {
        UrlHost::Absent => false,
        UrlHost::Domain(name) => eq_ignore_ascii_case(name.as_str(), "localhost"),
        UrlHost::Ipv4(octets) => octets[0] == 127,
        UrlHost::Ipv6(segments) => segments[0] == 0 && segments[1] == 0 && segments[2] == 0
            && segments[3] == 0 && segments[4] == 0 && segments[5] == 0 && segments[6] == 0
            && segments[7] == 1,
    }
}

/// One liveness request, ready to be sent.
#[derive(Debug, PartialEq, Eq)]
pub struct HealthCheck {
    /// The URL to `GET`.
    pub url: String,
    /// Whether the request must ignore the proxies of the environment.
    pub bypass_proxy: bool,
    /// The password for basic authentication under [`SERVER_USERNAME`], if
    /// the request carries a credential.
    pub password: Option<String>,
    /// After how many seconds the request is given up.
    pub timeout_secs: u64,
}

/// The mathematical value of a [`HealthCheck`].
pub struct HealthCheckView {
    pub url: Seq<char>,
    pub bypass_proxy: bool,
    pub password: Option<Seq<char>>,
    pub timeout_secs: u64,
}

impl View for HealthCheck {
    type V = HealthCheckView;

    open spec fn view(&self) -> HealthCheckView {
        HealthCheckView {
            url: self.url@,
            bypass_proxy: self.bypass_proxy,
            password: match self.password {
                Some(p) => Some(p@),
                None => None,
            },
            timeout_secs: self.timeout_secs,
        }
    }
}

/// The view of an optional string slice.
pub open spec fn opt_str_view(text: Option<&str>) -> Option<Seq<char>> {
    match text {
        Some(t) => Some(t@),
        None => None,
    }
}

/// The request that probes a server whose URL was parsed to `host` and
/// whose health endpoint is at `health_url`.
pub open spec fn health_check_for(
    host: UrlHostView,
    health_url: Seq<char>,
    password: Option<Seq<char>>,
) -> HealthCheckView {
    HealthCheckView {
        url: health_url,
        bypass_proxy: is_local_host(host),
        password,
        timeout_secs: HEALTH_TIMEOUT_SECS,
    }
}

/// The request that probes `url`, given what parsing `url` and resolving
/// the health path against it gave: none if either failed.
pub open spec fn planned_health_check(
    host: Option<UrlHostView>,
    health_url: Option<Seq<char>>,
    password: Option<Seq<char>>,
) -> Option<HealthCheckView> {
    match (host, health_url) {
        (Some(h), Some(u)) => Some(health_check_for(h, u, password)),
        _ => None,
    }
}

/// Puts a liveness request together from what parsing gave.
pub fn build_health_check(
    host: Option<UrlHost>,
    health_url: Option<String>,
    password: Option<&str>,
) -> (check: Option<HealthCheck>)
    ensures
        match check {
            Some(c) => planned_health_check(
                match host {
                    Some(h) => Some(h@),
                    None => None,
                },
                match health_url {
                    Some(u) => Some(u@),
                    None => None,
                },
                opt_str_view(password),
            ) == Some(c@),
            None => host is None || health_url is None,
        },
{
    match (host, health_url) {
        (Some(h), Some(u)) => {
            let bypass_proxy = url_is_localhost(&h);
            let password = match password {
                Some(p) => Some(String::from_str(p)),
                None => None,
            };
            Some(HealthCheck { url: u, bypass_proxy, password, timeout_secs: HEALTH_TIMEOUT_SECS })
        },
        _ => None,
    }
}

/// The liveness request for a candidate URL, or none if the URL cannot be
/// probed: if it is not parsed to an absolute URL, or the health path does
/// not resolve against it.
pub fn plan_health_check(url: &str, password: Option<&str>) -> (check: Option<HealthCheck>)
    ensures
        match check {
            Some(c) => planned_health_check(
                url_host(url@),
                url_join(url@, HEALTH_PATH@),
                opt_str_view(password),
            ) == Some(c@),
            None => url_host(url@) is None || url_join(url@, HEALTH_PATH@) is None,
        },
{
    let host = parse_url_host(url);
    let health_url = join_url(url, HEALTH_PATH);
    build_health_check(host, health_url, password)
}

/// Whether an HTTP status code is a success.
pub open spec fn status_is_success(status: u16) -> bool {
    200 <= status < 300
}

/// Whether the answer to a probe shows a healthy server: `response` is the
/// status code of the answer, or `None` if the request failed.
pub open spec fn is_healthy(response: Option<u16>) -> bool {
    match response {
        Some(status) => status_is_success(status),
        None => false,
    }
}

/// Reads the answer to a probe: healthy on a success status, not healthy
/// on any other status and on a request that failed.
pub fn probe_result(response: Option<u16>) -> (healthy: bool)
    ensures
        healthy == is_healthy(response),
{
    match response {
        Some(status) => 200 <= status && status < 300,
        None => false,
    }
}

} // verus!
