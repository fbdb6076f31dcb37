use sidecar_supervisor::hostname::{
    get_server_url_from_config, local_server_url, make_http_url, normalize_hostname_for_url,
    Config, ServerConfig, LOCAL_HOSTNAME,
};

#[test]
fn wildcard_ipv4_becomes_loopback() {
    assert_eq!(normalize_hostname_for_url("0.0.0.0"), "127.0.0.1");
}

#[test]
fn wildcard_ipv6_becomes_bracketed_loopback() {
    assert_eq!(normalize_hostname_for_url("::"), "[::1]");
}

#[test]
fn bare_ipv6_is_bracketed() {
    assert_eq!(normalize_hostname_for_url("::1"), "[::1]");
    assert_eq!(normalize_hostname_for_url("fe80::1"), "[fe80::1]");
}

#[test]
fn plain_names_are_unchanged() {
    assert_eq!(normalize_hostname_for_url("example.com"), "example.com");
    assert_eq!(normalize_hostname_for_url("127.0.0.1"), "127.0.0.1");
    assert_eq!(normalize_hostname_for_url("localhost"), "localhost");
    assert_eq!(normalize_hostname_for_url(""), "");
}

#[test]
fn bracketed_literal_is_not_bracketed_again() {
    assert_eq!(normalize_hostname_for_url("[::1]"), "[::1]");
    assert_eq!(normalize_hostname_for_url("[2001:db8::7]"), "[2001:db8::7]");
}

#[test]
fn normalizing_twice_changes_nothing() {
    for host in ["0.0.0.0", "::", "::1", "example.com", "[::1]", "a:b", "[", ":"] {
        let once = normalize_hostname_for_url(host);
        assert_eq!(normalize_hostname_for_url(&once), once);
    }
}

#[test]
fn http_url_has_host_and_decimal_port() {
    assert_eq!(make_http_url("example.com", 8080), "http://example.com:8080");
    assert_eq!(make_http_url("[::1]", 0), "http://[::1]:0");
    assert_eq!(make_http_url("h", 7), "http://h:7");
    assert_eq!(make_http_url("h", 10), "http://h:10");
    assert_eq!(make_http_url("h", u32::MAX), "http://h:4294967295");
}

#[test]
fn local_url_is_on_the_loopback_address() {
    assert_eq!(LOCAL_HOSTNAME, "127.0.0.1");
    assert_eq!(local_server_url(4096), "http://127.0.0.1:4096");
    assert_eq!(local_server_url(65535), "http://127.0.0.1:65535");
}

fn config(hostname: Option<&str>, port: Option<u32>) -> Config {
    Config { server: Some(ServerConfig { hostname: hostname.map(str::to_string), port }) }
}

#[test]
fn configuration_without_server_or_port_gives_no_url() {
    assert_eq!(get_server_url_from_config(&Config { server: None }), None);
    assert_eq!(get_server_url_from_config(&config(Some("example.com"), None)), None);
    assert_eq!(get_server_url_from_config(&config(None, None)), None);
}

#[test]
fn configuration_with_port_gives_a_url() {
    assert_eq!(
        get_server_url_from_config(&config(None, Some(4096))),
        Some("http://127.0.0.1:4096".to_string())
    );
    assert_eq!(
        get_server_url_from_config(&config(Some("example.com"), Some(80))),
        Some("http://example.com:80".to_string())
    );
    assert_eq!(
        get_server_url_from_config(&config(Some("0.0.0.0"), Some(1234))),
        Some("http://127.0.0.1:1234".to_string())
    );
    assert_eq!(
        get_server_url_from_config(&config(Some("::"), Some(1234))),
        Some("http://[::1]:1234".to_string())
    );
    assert_eq!(
        get_server_url_from_config(&config(Some("::1"), Some(99999))),
        Some("http://[::1]:99999".to_string())
    );
}
