use host_proxy::config::{
    alpn_protocols, BackendAddress, DynamicConfig, RouteConfig, RouteConfigUnchecked, RouteEntry,
    StaticConfig,
};
use host_proxy::error::StringError;
use host_proxy::pem::{load_key, PemEntry};

#[test]
fn string_error_keeps_its_text() {
    let error = StringError::new("Failed to load cert file: bad".to_string());
    assert_eq!(error.description(), "Failed to load cert file: bad");
    assert_eq!(error.to_string(), "Failed to load cert file: bad");
    assert_eq!(StringError::new(String::new()).to_string(), "");
}

#[test]
fn unset_settings_take_their_defaults() {
    let config = StaticConfig::load(None, None, None).unwrap();
    assert_eq!(config.config_file, "config.toml");
    assert_eq!(config.http_port, 8080);
    assert_eq!(config.https_port, 8443);
}

#[test]
fn settings_are_taken_as_given() {
    let config = StaticConfig::load(Some("/etc/proxy.toml".to_string()), Some("80"), Some("443"))
        .unwrap();
    assert_eq!(config.config_file, "/etc/proxy.toml");
    assert_eq!(config.http_port, 80);
    assert_eq!(config.https_port, 443);
    let config = StaticConfig::load(None, Some("0"), Some("65535")).unwrap();
    assert_eq!(config.http_port, 0);
    assert_eq!(config.https_port, 65535);
}

#[test]
fn invalid_plaintext_port_is_refused() {
    let error = StaticConfig::load(None, Some("eighty"), Some("443")).unwrap_err();
    assert_eq!(error.to_string(), "HTTP_PORT must be a valid port: invalid digit found in string");
    let error = StaticConfig::load(None, Some(""), None).unwrap_err();
    assert_eq!(
        error.to_string(),
        "HTTP_PORT must be a valid port: cannot parse integer from empty string"
    );
}

#[test]
fn invalid_secure_port_is_refused() {
    let error = StaticConfig::load(None, None, Some("65536")).unwrap_err();
    assert_eq!(
        error.to_string(),
        "HTTPS_PORT must be a valid port: number too large to fit in target type"
    );
}

#[test]
fn plaintext_port_is_reported_before_secure_port() {
    let error = StaticConfig::load(None, Some("-1"), Some("x")).unwrap_err();
    assert_eq!(error.to_string(), "HTTP_PORT must be a valid port: invalid digit found in string");
}

#[test]
fn parsed_settings_decide_alone() {
    let config = StaticConfig::from_parsed(None, Some(Ok(1)), None).unwrap();
    assert_eq!((config.http_port, config.https_port), (1, 8443));
    let error = StaticConfig::from_parsed(None, Some(Ok(1)), Some(Err("no".to_string())))
        .unwrap_err();
    assert_eq!(error.to_string(), "HTTPS_PORT must be a valid port: no");
}

#[test]
fn route_is_built_from_a_written_entry() {
    let written =
        RouteConfigUnchecked { host: "*.internal".to_string(), address: "10.0.0.5:8080".to_string() };
    let address = BackendAddress::V4 { bits: 0x0a00_0005, port: 8080 };
    let route = RouteConfig::try_from(written, Ok(address)).unwrap();
    assert_eq!(route.host, "*.internal");
    assert_eq!(route.address, address);
    assert!(route.matches("db.internal"));
}

#[test]
fn route_with_a_refused_address_is_an_error() {
    let written =
        RouteConfigUnchecked { host: "example.com".to_string(), address: "localhost".to_string() };
    let error =
        RouteConfig::try_from(written, Err("invalid socket address syntax".to_string())).unwrap_err();
    assert_eq!(
        error.to_string(),
        "Failed to parse address localhost: invalid socket address syntax"
    );
}

#[test]
fn route_survives_being_written_and_read_again() {
    let address = BackendAddress::V6 { segments: 1, port: 3000, flowinfo: 0, scope_id: 0 };
    let first = RouteConfig::try_from(
        RouteConfigUnchecked { host: "a?.example.*".to_string(), address: "[::1]:3000".to_string() },
        Ok(address),
    )
    .unwrap();
    let again = RouteConfig::try_from(
        RouteConfigUnchecked { host: first.host.clone(), address: "[::1]:3000".to_string() },
        Ok(first.address),
    )
    .unwrap();
    assert_eq!(again, first);
}

#[test]
fn routes_are_tried_in_their_order() {
    let route = |host: &str, port: u16| RouteConfig {
        host: host.to_string(),
        address: BackendAddress::V4 { bits: 0x7f00_0001, port },
    };
    let config = DynamicConfig {
        cert_file: String::new(),
        key_file: String::new(),
        routes: vec![route("a.test", 1), route("*.test", 2), route("b.test", 3), route("*", 4)],
    };
    assert_eq!(config.find_route("a.test"), Some(0));
    assert_eq!(config.find_route("b.test"), Some(1));
    assert_eq!(config.find_route("b.example"), Some(3));
    let empty = DynamicConfig { cert_file: String::new(), key_file: String::new(), routes: vec![] };
    assert_eq!(empty.find_route("a.test"), None);
}

#[test]
fn alpn_offers_three_protocols_in_order() {
    assert_eq!(alpn_protocols(), vec![b"h2".to_vec(), b"http/1.1".to_vec(), b"http/1.0".to_vec()]);
}

#[test]
fn first_key_block_is_taken() {
    let entries = vec![PemEntry::Other, PemEntry::Pkcs8Key, PemEntry::RsaKey];
    assert_eq!(load_key("key.pem", &entries).unwrap(), 1);
    assert_eq!(load_key("key.pem", &vec![PemEntry::RsaKey]).unwrap(), 0);
    assert_eq!(load_key("key.pem", &vec![PemEntry::Other, PemEntry::Other, PemEntry::EcKey]).unwrap(), 2);
}

#[test]
fn key_file_without_a_key_is_refused() {
    let error = load_key("key.pem", &vec![PemEntry::Other]).unwrap_err();
    assert_eq!(error.to_string(), "Expected key to exists in key file key.pem");
    let error = load_key("empty.pem", &vec![]).unwrap_err();
    assert_eq!(error.to_string(), "Expected key to exists in key file empty.pem");
}

#[test]
fn unreadable_block_before_the_key_is_an_error() {
    let entries = vec![PemEntry::Other, PemEntry::Unreadable("bad base64".to_string()), PemEntry::RsaKey];
    let error = load_key("key.pem", &entries).unwrap_err();
    assert_eq!(error.to_string(), "Failed to read key file key.pem: bad base64");
}

#[test]
fn unreadable_block_after_the_key_is_not_reached() {
    let entries = vec![PemEntry::EcKey, PemEntry::Unreadable("bad base64".to_string())];
    assert_eq!(load_key("key.pem", &entries).unwrap(), 0);
}

fn entry(host: &str, address: &str, parsed: Result<BackendAddress, &str>) -> RouteEntry {
    RouteEntry {
        written: RouteConfigUnchecked { host: host.to_string(), address: address.to_string() },
        parsed: parsed.map_err(|reason| reason.to_string()),
    }
}

#[test]
fn configuration_keeps_its_routes_in_file_order() {
    let first = BackendAddress::V4 { bits: 0x7f00_0001, port: 3000 };
    let second = BackendAddress::V4 { bits: 0x0a00_0005, port: 8080 };
    let config = DynamicConfig::load(
        "path/to/cert.pem".to_string(),
        "path/to/key.pem".to_string(),
        vec![
            entry("example.com", "127.0.0.1:3000", Ok(first)),
            entry("*.internal", "10.0.0.5:8080", Ok(second)),
        ],
    )
    .unwrap();
    assert_eq!(config.cert_file, "path/to/cert.pem");
    assert_eq!(config.key_file, "path/to/key.pem");
    assert_eq!(
        config.routes,
        vec![
            RouteConfig { host: "example.com".to_string(), address: first },
            RouteConfig { host: "*.internal".to_string(), address: second },
        ]
    );
}

#[test]
fn configuration_without_routes_is_valid() {
    let config = DynamicConfig::load("c".to_string(), "k".to_string(), vec![]).unwrap();
    assert!(config.routes.is_empty());
}

#[test]
fn first_refused_address_refuses_the_configuration() {
    let good = BackendAddress::V4 { bits: 0x7f00_0001, port: 3000 };
    let error = DynamicConfig::load(
        "c".to_string(),
        "k".to_string(),
        vec![
            entry("a.test", "127.0.0.1:3000", Ok(good)),
            entry("b.test", "backend:80", Err("invalid socket address syntax")),
            entry("c.test", "", Err("empty")),
        ],
    )
    .unwrap_err();
    assert_eq!(
        error.to_string(),
        "Failed to parse address backend:80: invalid socket address syntax"
    );
}

#[test]
fn configuration_survives_being_written_and_loaded_again() {
    let first = BackendAddress::V4 { bits: 0x7f00_0001, port: 3000 };
    let second = BackendAddress::V6 { segments: 1, port: 443, flowinfo: 0, scope_id: 0 };
    let config = DynamicConfig::load(
        "c".to_string(),
        "k".to_string(),
        vec![entry("*.a.test", "127.0.0.1:3000", Ok(first)), entry("b?", "[::1]:443", Ok(second))],
    )
    .unwrap();
    let written = config
        .routes
        .iter()
        .map(|route| RouteEntry {
            written: RouteConfigUnchecked { host: route.host.clone(), address: String::new() },
            parsed: Ok(route.address),
        })
        .collect();
    let again = DynamicConfig::load(config.cert_file.clone(), config.key_file.clone(), written).unwrap();
    assert_eq!(again, config);
}
