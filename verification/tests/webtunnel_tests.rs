use webtor::webtunnel::{WebTunnelBridge, WebTunnelConfig};

#[test]
fn test_config_to_wss_url() {
    let config = WebTunnelConfig::new(
        "https://example.com/secret-path".to_string(),
        "AAAA".repeat(10),
    );
    let wss = config.to_wss_url().unwrap();
    assert_eq!(wss, "wss://example.com/secret-path");
}

#[test]
fn test_config_to_wss_url_with_port() {
    let config = WebTunnelConfig::new(
        "https://example.com:8443/path".to_string(),
        "AAAA".repeat(10),
    );
    let wss = config.to_wss_url().unwrap();
    assert_eq!(wss, "wss://example.com:8443/path");
}

#[test]
fn test_config_already_wss() {
    let config = WebTunnelConfig::new("wss://example.com/path".to_string(), "AAAA".repeat(10));
    let wss = config.to_wss_url().unwrap();
    assert_eq!(wss, "wss://example.com/path");
}

#[test]
fn http_becomes_ws() {
    let config = WebTunnelConfig::new("http://example.com/p".to_string(), "AAAA".repeat(10));
    assert_eq!(config.to_wss_url().unwrap(), "ws://example.com/p");
}

#[test]
fn already_ws_unchanged() {
    let config = WebTunnelConfig::new("ws://example.com/p".to_string(), "AAAA".repeat(10));
    assert_eq!(config.to_wss_url().unwrap(), "ws://example.com/p");
}

#[test]
fn resolution_is_stable() {
    // Resolving an already resolved endpoint changes nothing.
    let config = WebTunnelConfig::new("https://example.com:8443/p".to_string(), "AAAA".repeat(10));
    let once = config.to_wss_url().unwrap();
    let again = WebTunnelConfig::new(once.clone(), "AAAA".repeat(10))
        .to_wss_url()
        .unwrap();
    assert_eq!(once, again);
}

#[test]
fn unrecognized_scheme_is_configuration_error() {
    let config = WebTunnelConfig::new("ftp://example.com/p".to_string(), "AAAA".repeat(10));
    let err = config.to_wss_url().unwrap_err();
    assert!(err.is_configuration());
}

#[test]
fn malformed_url_is_configuration_error() {
    let config = WebTunnelConfig::new("not a url at all".to_string(), "AAAA".repeat(10));
    let err = config.to_wss_url().unwrap_err();
    assert!(err.is_configuration());
}

#[test]
fn config_builders() {
    let config = WebTunnelConfig::new("https://example.com/p".to_string(), "F".repeat(40));
    assert_eq!(config.connection_timeout_ms, 30_000);
    assert!(config.server_name.is_none());
    let config = config.with_timeout(60_000);
    assert_eq!(config.connection_timeout_ms, 60_000);
    let config = config.with_server_name("other".to_string());
    // The server name is taken from the URL; the override is ignored.
    assert!(config.server_name.is_none());
    assert_eq!(config.url, "https://example.com/p");
    assert_eq!(config.fingerprint, "F".repeat(40));
}

#[test]
fn bridge_resolves_endpoint() {
    let config = WebTunnelConfig::new("https://bridge.example:444/x".to_string(), "AAAA".repeat(10));
    let bridge = WebTunnelBridge::new(config);
    assert_eq!(bridge.endpoint().unwrap(), "wss://bridge.example:444/x");
}
