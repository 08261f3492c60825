use turbosheet::network::pattern::UrlPattern;
use turbosheet::network::route::{
    fetch_command, first_matching_route, proxy_reply, FetchCommand, ProxyReply, RouteAction, RouteContinueOptions,
    RouteFulfillOptions, RouteRequest,
};

fn request() -> RouteRequest {
    RouteRequest {
        url: "https://a.com/api/x".to_string(),
        method: "POST".to_string(),
        headers: vec![("accept".to_string(), "*/*".to_string())],
        post_data: Some(b"{}".to_vec()),
    }
}

#[test]
fn the_first_matching_route_wins() {
    let patterns = vec![
        UrlPattern::new("**/static/*").unwrap(),
        UrlPattern::new("**/api/*").unwrap(),
        UrlPattern::new("https://a.com/**").unwrap(),
    ];
    assert_eq!(first_matching_route(&patterns, "https://a.com/api/x"), Some(1));
    assert_eq!(first_matching_route(&patterns, "https://a.com/other/y"), Some(2));
    assert_eq!(first_matching_route(&patterns, "https://b.com/other"), None);
    assert_eq!(first_matching_route(&Vec::new(), "https://b.com/other"), None);
}

#[test]
fn unrouted_requests_pass_through() {
    match proxy_reply(request(), None) {
        ProxyReply::Forward { url, method, headers, body } => {
            assert_eq!(url, "https://a.com/api/x");
            assert_eq!(method, "POST");
            assert_eq!(headers, vec![("accept".to_string(), "*/*".to_string())]);
            assert_eq!(body, b"{}".to_vec());
        }
        _ => panic!("expected a forward"),
    }
    let mut r = request();
    r.post_data = None;
    match proxy_reply(r, None) {
        ProxyReply::Forward { body, .. } => assert!(body.is_empty()),
        _ => panic!("expected a forward"),
    }
}

#[test]
fn fulfilment_and_abort_answer_at_once() {
    let fulfil = RouteAction::Fulfill(RouteFulfillOptions { status: None, headers: None, body: Some(b"hi".to_vec()) });
    match proxy_reply(request(), Some(fulfil)) {
        ProxyReply::Respond { status, headers, body } => {
            assert_eq!(status, 200);
            assert!(headers.is_empty());
            assert_eq!(body, b"hi".to_vec());
        }
        _ => panic!("expected a response"),
    }
    let fulfil = RouteAction::Fulfill(RouteFulfillOptions {
        status: Some(404),
        headers: Some(vec![("x".to_string(), "y".to_string())]),
        body: None,
    });
    match proxy_reply(request(), Some(fulfil)) {
        ProxyReply::Respond { status, headers, body } => {
            assert_eq!(status, 404);
            assert_eq!(headers.len(), 1);
            assert!(body.is_empty());
        }
        _ => panic!("expected a response"),
    }
    match proxy_reply(request(), Some(RouteAction::Abort)) {
        ProxyReply::Respond { status, headers, body } => {
            assert_eq!(status, 502);
            assert!(headers.is_empty());
            assert_eq!(body, b"Aborted".to_vec());
        }
        _ => panic!("expected a response"),
    }
}

#[test]
fn continuation_overrides_what_it_sets() {
    let mut o = RouteContinueOptions::unchanged();
    o.url = Some("https://b.com/".to_string());
    o.post_data = Some(b"new".to_vec());
    match proxy_reply(request(), Some(RouteAction::Continue(o))) {
        ProxyReply::Forward { url, method, headers, body } => {
            assert_eq!(url, "https://b.com/");
            assert_eq!(method, "POST");
            assert_eq!(headers.len(), 1);
            assert_eq!(body, b"new".to_vec());
        }
        _ => panic!("expected a forward"),
    }
}

#[test]
fn fetch_commands() {
    assert!(matches!(fetch_command(None), FetchCommand::Continue { method: None, headers: None }));
    assert!(matches!(fetch_command(Some(RouteAction::Abort)), FetchCommand::Fail));
    let mut o = RouteContinueOptions::unchanged();
    o.method = Some("PUT".to_string());
    o.url = Some("ignored".to_string());
    match fetch_command(Some(RouteAction::Continue(o))) {
        FetchCommand::Continue { method, headers } => {
            assert_eq!(method.as_deref(), Some("PUT"));
            assert!(headers.is_none());
        }
        _ => panic!("expected a continuation"),
    }
    let f = RouteAction::Fulfill(RouteFulfillOptions { status: None, headers: None, body: None });
    assert!(matches!(fetch_command(Some(f)), FetchCommand::Fulfill { status: 200, body: None, .. }));
}
