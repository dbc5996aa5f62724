use host_proxy::config::{BackendAddress, DynamicConfig, RouteConfig};
use host_proxy::proxy::{Disposition, Proxy};
use hyper::header::{HeaderMap, HeaderValue};

fn local(port: u16) -> BackendAddress {
    BackendAddress::V4 { bits: 0x7f00_0001, port }
}

fn table(routes: Vec<(&str, u16)>) -> DynamicConfig {
    DynamicConfig {
        cert_file: "cert.pem".to_string(),
        key_file: "key.pem".to_string(),
        routes: routes
            .into_iter()
            .map(|(host, port)| RouteConfig { host: host.to_string(), address: local(port) })
            .collect(),
    }
}

fn fields(pairs: Vec<(&'static str, &'static str)>) -> HeaderMap<HeaderValue> {
    let mut map = HeaderMap::new();
    for (name, value) in pairs {
        map.append(name, HeaderValue::from_static(value));
    }
    map
}

#[test]
fn plaintext_request_is_redirected_to_its_host() {
    let config = table(vec![("example.com", 9000)]);
    let headers = fields(vec![("host", "example.com")]);
    let got = Proxy::new_unsecure().classify(None, &headers, &config);
    assert_eq!(got, Disposition::Redirect { host: "example.com".to_string() });
}

#[test]
fn plaintext_request_is_redirected_even_without_a_route() {
    let config = table(vec![]);
    let headers = fields(vec![("host", "nowhere.test")]);
    let got = Proxy::new_unsecure().classify(None, &headers, &config);
    assert_eq!(got, Disposition::Redirect { host: "nowhere.test".to_string() });
}

#[test]
fn secure_request_is_forwarded_to_its_route() {
    let config = table(vec![("example.com", 9000)]);
    let headers = fields(vec![("host", "example.com"), ("cookie", "a=1")]);
    let got = Proxy::new_secure().classify(None, &headers, &config);
    assert_eq!(got, Disposition::Forward { host: "example.com".to_string(), backend: local(9000) });
}

#[test]
fn wildcard_route_listed_first_wins() {
    let config = table(vec![("*.example.com", 9001), ("api.example.com", 9002)]);
    let headers = fields(vec![("host", "api.example.com")]);
    let got = Proxy::new_secure().classify(None, &headers, &config);
    assert_eq!(
        got,
        Disposition::Forward { host: "api.example.com".to_string(), backend: local(9001) }
    );
    assert_eq!(config.find_route("api.example.com"), Some(0));
}

#[test]
fn exact_route_listed_first_wins_over_wildcard() {
    let config = table(vec![("api.example.com", 9002), ("*.example.com", 9001)]);
    assert_eq!(config.find_route("api.example.com"), Some(0));
    assert_eq!(config.find_route("www.example.com"), Some(1));
    assert_eq!(config.find_route("example.com"), None);
}

#[test]
fn unknown_host_is_not_found() {
    let config = table(vec![("example.com", 9000)]);
    let headers = fields(vec![("host", "other.test")]);
    let got = Proxy::new_secure().classify(None, &headers, &config);
    assert_eq!(got, Disposition::NotFound);
}

#[test]
fn websocket_upgrade_is_tunnelled() {
    let config = table(vec![("example.com", 9003)]);
    let headers =
        fields(vec![("host", "example.com"), ("upgrade", "websocket"), ("connection", "Upgrade")]);
    let got = Proxy::new_secure().classify(None, &headers, &config);
    assert_eq!(got, Disposition::Upgrade { host: "example.com".to_string(), backend: local(9003) });
}

#[test]
fn repeated_agreeing_upgrade_values_are_an_upgrade() {
    let config = table(vec![("example.com", 9003)]);
    let headers =
        fields(vec![("host", "example.com"), ("upgrade", "websocket"), ("upgrade", "websocket")]);
    assert!(Proxy::wants_websocket(&headers));
    let got = Proxy::new_secure().classify(None, &headers, &config);
    assert_eq!(got, Disposition::Upgrade { host: "example.com".to_string(), backend: local(9003) });
}

#[test]
fn disagreeing_upgrade_values_degrade_to_forward() {
    let config = table(vec![("example.com", 9003)]);
    let headers =
        fields(vec![("host", "example.com"), ("upgrade", "websocket"), ("upgrade", "h2c")]);
    assert!(!Proxy::wants_websocket(&headers));
    let got = Proxy::new_secure().classify(None, &headers, &config);
    assert_eq!(got, Disposition::Forward { host: "example.com".to_string(), backend: local(9003) });
}

#[test]
fn upgrade_token_is_case_sensitive() {
    let headers = fields(vec![("upgrade", "WebSocket")]);
    assert!(!Proxy::wants_websocket(&headers));
    let none = fields(vec![]);
    assert!(!Proxy::wants_websocket(&none));
    let other = fields(vec![("upgrade", "h2c")]);
    assert!(!Proxy::wants_websocket(&other));
}

#[test]
fn upgrade_on_plaintext_side_is_still_a_redirect() {
    let config = table(vec![("example.com", 9003)]);
    let headers = fields(vec![("host", "example.com"), ("upgrade", "websocket")]);
    let got = Proxy::new_unsecure().classify(None, &headers, &config);
    assert_eq!(got, Disposition::Redirect { host: "example.com".to_string() });
}

#[test]
fn authority_takes_precedence_over_host_field() {
    let config = table(vec![("a.test", 9000), ("b.test", 9001)]);
    let headers = fields(vec![("host", "b.test")]);
    let got = Proxy::new_secure().classify(Some("a.test"), &headers, &config);
    assert_eq!(got, Disposition::Forward { host: "a.test".to_string(), backend: local(9000) });
}

#[test]
fn absent_host_is_not_found_on_both_sides() {
    let config = table(vec![("*", 9000)]);
    let headers = fields(vec![("accept", "*/*")]);
    assert_eq!(Proxy::new_secure().classify(None, &headers, &config), Disposition::NotFound);
    assert_eq!(Proxy::new_unsecure().classify(None, &headers, &config), Disposition::NotFound);
}

#[test]
fn undecodable_host_is_not_found() {
    let config = table(vec![("*", 9000)]);
    let mut headers = HeaderMap::new();
    headers.insert("host", HeaderValue::from_bytes(&[0xe9, 0x2e, 0x74]).unwrap());
    assert_eq!(Proxy::new_secure().classify(None, &headers, &config), Disposition::NotFound);
    assert_eq!(Proxy::new_unsecure().classify(None, &headers, &config), Disposition::NotFound);
}

#[test]
fn first_host_field_is_the_host() {
    let config = table(vec![("a.test", 9000), ("b.test", 9001)]);
    let headers = fields(vec![("host", "b.test"), ("host", "a.test")]);
    let got = Proxy::new_secure().classify(None, &headers, &config);
    assert_eq!(got, Disposition::Forward { host: "b.test".to_string(), backend: local(9001) });
}

#[test]
fn side_of_a_proxy_is_as_made() {
    assert!(Proxy::new_secure().is_secure());
    assert!(!Proxy::new_unsecure().is_secure());
}

#[test]
fn patterns_follow_the_wildcard_grammar() {
    let route = |pattern: &str| RouteConfig { host: pattern.to_string(), address: local(1) };
    assert!(route("example.com").matches("example.com"));
    assert!(!route("example.com").matches("Example.com"));
    assert!(!route("example.com").matches("example.com.evil"));
    assert!(!route("example.com").matches("www.example.com"));
    assert!(route("*.internal").matches("db.internal"));
    assert!(route("*.internal").matches(".internal"));
    assert!(!route("*.internal").matches("internal"));
    assert!(route("h?st").matches("host"));
    assert!(route("h?st").matches("h?st"));
    assert!(!route("h?st").matches("hst"));
    assert!(!route("h?st").matches("hoost"));
    assert!(route("*").matches(""));
    assert!(route("*").matches("anything.at.all"));
    assert!(route("").matches(""));
    assert!(!route("").matches("a"));
    assert!(route("a*b*c").matches("a1b2c"));
    assert!(route("a**c").matches("ac"));
    assert!(!route("a*b*c").matches("a1c2b"));
}
