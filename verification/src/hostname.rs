//! Host names and the URLs built from them.
//!
//! A server may be configured with an address to bind to. The wildcard
//! addresses are no place to connect to, and an IPv6 literal needs brackets
//! inside a URL, so a configured host name is normalized before it is used.

use crate::text::{contains_char, decimal, push_decimal, starts_with_char, str_eq};
use vstd::prelude::*;
use vstd::string::StringExecFns;

verus! {

/// The loopback host that a local server is reached at.
pub const LOCAL_HOSTNAME: &'static str = "127.0.0.1";

/// The `server` section of the configuration that the supervised program
/// reports.
#[derive(Debug)]
pub struct ServerConfig {
    pub hostname: Option<String>,
    pub port: Option<u32>,
}

/// The configuration that the supervised program reports, as far as it
/// matters here.
#[derive(Debug)]
pub struct Config {
    pub server: Option<ServerConfig>,
}

/// The mathematical value of a [`ServerConfig`].
pub struct ServerConfigView {
    pub hostname: Option<Seq<char>>,
    pub port: Option<u32>,
}

/// The mathematical value of a [`Config`].
pub struct ConfigView {
    pub server: Option<ServerConfigView>,
}

impl View for ServerConfig {
    type V = ServerConfigView;

    open spec fn view(&self) -> ServerConfigView {
        ServerConfigView {
            hostname: match self.hostname {
                Some(h) => Some(h@),
                None => None,
            },
            port: self.port,
        }
    }
}

impl View for Config {
    type V = ConfigView;

    open spec fn view(&self) -> ConfigView {
        ConfigView {
            server: match self.server {
                Some(s) => Some(s@),
                None => None,
            },
        }
    }
}

/// Whether a host name is written in brackets already.
pub open spec fn is_bracketed(hostname: Seq<char>) -> bool {
    hostname.len() > 0 && hostname[0] == '['
}

/// The host to put into a URL for a configured host name: the IPv4 wildcard
/// becomes the IPv4 loopback address, the IPv6 wildcard the bracketed IPv6
/// loopback address, any other name with a colon in it is put in brackets
/// unless it starts with one, and everything else stays.
pub open spec fn normalized_hostname(hostname: Seq<char>) -> Seq<char> {
    if hostname == "0.0.0.0"@ {
        "127.0.0.1"@
    } else if hostname == "::"@ {
        "[::1]"@
    } else if hostname.contains(':') && !is_bracketed(hostname) {
        seq!['['] + hostname + seq![']']
    } else {
        hostname
    }
}

/// The base URL of an HTTP server at the given host and port.
pub open spec fn http_url(host: Seq<char>, port: u32) -> Seq<char> {
    "http://"@ + host + seq![':'] + decimal(port as nat)
}

/// The URL that a configuration asks for, if it names a port: the
/// normalized host name, or the loopback address where it names no host.
pub open spec fn configured_url(config: ConfigView) -> Option<Seq<char>> {
    match config.server {
        Some(server) => match server.port {
            Some(port) => Some(
                http_url(
                    match server.hostname {
                        Some(h) => normalized_hostname(h),
                        None => LOCAL_HOSTNAME@,
                    },
                    port,
                ),
            ),
            None => None,
        },
        None => None,
    }
}

/// Turns a host name to bind to into a host to connect to, as it is
/// written inside a URL.
pub fn normalize_hostname_for_url(hostname: &str) -> (host: String)
    ensures
        host@ == normalized_hostname(hostname@),
{
    if str_eq(hostname, "0.0.0.0") {
        return String::from_str("127.0.0.1");
    }
    if str_eq(hostname, "::") {
        return String::from_str("[::1]");
    }
    if contains_char(hostname, ':') && !starts_with_char(hostname, '[') {
        let mut host = String::from_str("[");
        host.append(hostname);
        host.append("]");
        proof {
            reveal_strlit("[");
            reveal_strlit("]");
            assert("["@ =~= seq!['[']);
            assert("]"@ =~= seq![']']);
        }
        return host;
    }
    String::from_str(hostname)
}

/// Builds the base URL of an HTTP server at the given host and port.
pub fn make_http_url(host: &str, port: u32) -> (url: String)
    ensures
        url@ == http_url(host@, port),
{
    let mut url = String::from_str("http://");
    url.append(host);
    url.append(":");
    proof {
        reveal_strlit(":");
        assert(":"@ =~= seq![':']);
    }
    push_decimal(&mut url, port as u64);
    url
}

/// The URL of a local server on the given port.
pub fn local_server_url(port: u32) -> (url: String)
    ensures
        url@ == http_url(LOCAL_HOSTNAME@, port),
{
    make_http_url(LOCAL_HOSTNAME, port)
}

/// The server URL that the reported configuration asks for, if any.
pub fn get_server_url_from_config(config: &Config) -> (url: Option<String>)
    ensures
        match url {
            Some(u) => configured_url(config@) == Some(u@),
            None => configured_url(config@) is None,
        },
{
    match &config.server {
        Some(server) => match server.port {
            Some(port) => {
                let host = match &server.hostname {
                    Some(h) => normalize_hostname_for_url(h.as_str()),
                    None => String::from_str(LOCAL_HOSTNAME),
                };
                Some(make_http_url(host.as_str(), port))
            },
            None => None,
        },
        None => None,
    }
}

/// A host name that is in brackets already is left as it is.
pub proof fn lemma_bracketed_hostname_unchanged(hostname: Seq<char>)
    requires
        is_bracketed(hostname),
    ensures
        normalized_hostname(hostname) == hostname,
{
    reveal_strlit("0.0.0.0");
    reveal_strlit("::");
}

/// Normalizing twice gives what normalizing once gives: no host ends up
/// in two pairs of brackets.
pub proof fn lemma_normalized_hostname_idempotent(hostname: Seq<char>)
    ensures
        normalized_hostname(normalized_hostname(hostname)) == normalized_hostname(hostname),
{
    reveal_strlit("0.0.0.0");
    reveal_strlit("::");
    reveal_strlit("127.0.0.1");
    reveal_strlit("[::1]");
    let once = normalized_hostname(hostname);
    if hostname == "0.0.0.0"@ {
        assert(!once.contains(':')) by {
            if once.contains(':') {
                let i = choose|i: int| 0 <= i < once.len() && once[i] == ':';
                assert(once[i] == ':');
            }
        }
    } else if hostname == "::"@ {
        assert(is_bracketed(once));
    } else if hostname.contains(':') && !is_bracketed(hostname) {
        assert(is_bracketed(once));
        assert(once.len() == hostname.len() + 2);
    } else {
    }
}

} // verus!
