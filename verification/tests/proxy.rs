use turbosheet::network::proxy::{parse_connect_authority, connect_target, parse_u16, UriParts};

#[test]
fn parse_connect_authority_with_scheme() {
    let uri = UriParts::parse("https://example.com:8443").unwrap();
    let (host, port) = parse_connect_authority(&uri);
    assert_eq!(host, "example.com");
    assert_eq!(port, 8443);
}

#[test]
fn parse_connect_authority_without_scheme() {
    let uri = UriParts::parse("example.com:9090").unwrap();
    let (host, port) = parse_connect_authority(&uri);
    assert_eq!(host, "example.com");
    assert_eq!(port, 9090);
}

#[test]
fn parse_connect_authority_defaults_443() {
    let uri = UriParts::parse("example.com").unwrap();
    let (host, port) = parse_connect_authority(&uri);
    assert_eq!(host, "example.com");
    assert_eq!(port, 443);
}

#[test]
fn parse_connect_authority_fallback() {
    let uri = UriParts::parse("host-without-dot:1234").unwrap();
    let (host, port) = parse_connect_authority(&uri);
    assert_eq!(host, "host-without-dot");
    assert_eq!(port, 1234);
}

#[test]
fn connect_target_prefers_the_host() {
    assert_eq!(
        connect_target(&Some("a.com".to_string()), Some(80), &Some("ignored:1".to_string())),
        ("a.com".to_string(), 80)
    );
    assert_eq!(connect_target(&Some("a.com".to_string()), None, &None), ("a.com".to_string(), 443));
}

#[test]
fn connect_target_splits_the_authority_at_its_last_colon() {
    assert_eq!(connect_target(&None, None, &Some("[::1]:8080".to_string())), ("[::1]".to_string(), 8080));
    assert_eq!(connect_target(&None, None, &Some("h:notaport".to_string())), ("h".to_string(), 443));
    assert_eq!(connect_target(&None, None, &Some("h:70000".to_string())), ("h".to_string(), 443));
    assert_eq!(connect_target(&None, None, &Some("plain".to_string())), ("plain".to_string(), 443));
}

#[test]
fn connect_target_defaults_to_localhost() {
    assert_eq!(connect_target(&None, Some(1), &None), ("localhost".to_string(), 443));
}

#[test]
fn parse_u16_agrees_with_std() {
    for s in ["0", "65535", "65536", "+42", "+", "", "-1", "12a", "007", "99999999999"] {
        let v: Vec<char> = s.chars().collect();
        assert_eq!(parse_u16(&v), s.parse::<u16>().ok(), "input {:?}", s);
    }
}

#[test]
fn uri_parts_are_read_by_http() {
    let p = UriParts::parse("https://example.com:8443/path").unwrap();
    assert_eq!(p.host.as_deref(), Some("example.com"));
    assert_eq!(p.port, Some(8443));
    assert_eq!(p.authority.as_deref(), Some("example.com:8443"));
    let q = UriParts::parse("example.com").unwrap();
    assert_eq!(q.port, None);
    assert!(UriParts::parse("not a uri").is_none());
}
