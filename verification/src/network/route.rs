use vstd::prelude::*;
use crate::network::pattern::{UrlPattern, glob_to_regex_spec, regex_text_matches};

verus! {

/// A request caught by a route: its URL, method, headers and body.
pub struct RouteRequest {
    pub url: String,
    pub method: String,
    pub headers: Vec<(String, String)>,
    pub post_data: Option<Vec<u8>>,
}

/// How a route answers a request itself: the status (200 when unset),
/// the headers and the body (none when unset).
pub struct RouteFulfillOptions {
    pub status: Option<u16>,
    pub headers: Option<Vec<(String, String)>>,
    pub body: Option<Vec<u8>>,
}

/// How a route lets a request go on: each part that is set replaces the
/// request's own.
pub struct RouteContinueOptions {
    /// Override target URL (URL rewrite).
    pub url: Option<String>,
    pub method: Option<String>,
    pub headers: Option<Vec<(String, String)>>,
    pub post_data: Option<Vec<u8>>,
}

/// What a route handler decided for a request.
pub enum RouteAction {
    Fulfill(RouteFulfillOptions),
    Continue(RouteContinueOptions),
    Abort,
}

/// What the proxy does with a request.
pub enum ProxyReply {
    /// Answer at once with this status, headers and body.
    Respond { status: u16, headers: Vec<(String, String)>, body: Vec<u8> },
    /// Send this request on and pass its answer back.
    Forward { url: String, method: String, headers: Vec<(String, String)>, body: Vec<u8> },
}

impl RouteContinueOptions {
    /// Options that change nothing.
    pub fn unchanged() -> (r: Self)
        ensures
            r.url is None && r.method is None && r.headers is None && r.post_data is None,
    {
        RouteContinueOptions { url: None, method: None, headers: None, post_data: None }
    }
}

/// Whether `url` matches the route pattern `p`.
pub open spec fn route_matches(p: UrlPattern, url: Seq<char>) -> bool {
    regex_text_matches(glob_to_regex_spec(p.pattern()), url)
}

/// The first of the route patterns that `url` matches, if any.
pub fn first_matching_route(patterns: &Vec<UrlPattern>, url: &str) -> (r: Option<usize>)
    ensures
        match r {
            Some(i) => i < patterns@.len() && route_matches(patterns@[i as int], url@)
                && forall|j: int| 0 <= j < i ==> !route_matches(#[trigger] patterns@[j], url@),
            None => forall|j: int| 0 <= j < patterns@.len() ==> !route_matches(#[trigger] patterns@[j], url@),
        },
{
    let mut i: usize = 0;
    while i < patterns.len()
        invariant
            i <= patterns@.len(),
            forall|j: int| 0 <= j < i ==> !route_matches(#[trigger] patterns@[j], url@),
        decreases patterns.len() - i,
    {
        if patterns[i].matches(url) {
            return Some(i);
        }
        i = i + 1;
    }
    None
}

/// The bytes of a request's body: none when it has no body.
pub open spec fn body_bytes(post_data: Option<Vec<u8>>) -> Seq<u8> {
    match post_data {
        Some(b) => b@,
        None => Seq::empty(),
    }
}

fn take_body(post_data: Option<Vec<u8>>) -> (r: Vec<u8>)
    ensures
        r@ == body_bytes(post_data),
{
    match post_data {
        Some(b) => b,
        None => Vec::new(),
    }
}

/// What the proxy does with `request` after the route handler decided
/// `action` (`None` when no route caught it or its handler could not be
/// called): with no decision, or to continue, it is forwarded, each set
/// option replacing the request's own part; a fulfilment is answered with
/// its status (200 by default), headers and body; an abort is answered
/// with 502 and `Aborted`.
pub fn proxy_reply(request: RouteRequest, action: Option<RouteAction>) -> (r: ProxyReply)
    ensures
        match action {
            None => r matches ProxyReply::Forward { url, method, headers, body } && url == request.url
                && method == request.method && headers == request.headers && body@ == body_bytes(request.post_data),
            Some(RouteAction::Fulfill(o)) => r matches ProxyReply::Respond { status, headers, body }
                && status == (match o.status { Some(s) => s, None => 200u16 })
                && headers@ == (match o.headers { Some(h) => h@, None => Seq::empty() })
                && body@ == body_bytes(o.body),
            Some(RouteAction::Abort) => r matches ProxyReply::Respond { status, headers, body } && status == 502
                && headers@.len() == 0 && body@ == "Aborted"@.map_values(|c: char| c as u8),
            Some(RouteAction::Continue(o)) => r matches ProxyReply::Forward { url, method, headers, body }
                && url == (match o.url { Some(u) => u, None => request.url })
                && method == (match o.method { Some(m) => m, None => request.method })
                && headers == (match o.headers { Some(h) => h, None => request.headers })
                && body@ == (match o.post_data { Some(b) => b@, None => body_bytes(request.post_data) }),
        },
{
    match action {
        None => ProxyReply::Forward {
            url: request.url,
            method: request.method,
            headers: request.headers,
            body: take_body(request.post_data),
        },
        Some(RouteAction::Fulfill(o)) => {
            let status = match o.status {
                Some(s) => s,
                None => 200,
            };
            let headers = match o.headers {
                Some(h) => h,
                None => Vec::new(),
            };
            ProxyReply::Respond { status, headers, body: take_body(o.body) }
        },
        Some(RouteAction::Abort) => {
            let body: Vec<u8> = vec![65u8, 98u8, 111u8, 114u8, 116u8, 101u8, 100u8];
            proof {
                reveal_strlit("Aborted");
                assert(body@ =~= "Aborted"@.map_values(|c: char| c as u8));
            }
            ProxyReply::Respond { status: 502, headers: Vec::new(), body }
        },
        Some(RouteAction::Continue(o)) => {
            let url = match o.url {
                Some(u) => u,
                None => request.url,
            };
            let method = match o.method {
                Some(m) => m,
                None => request.method,
            };
            let headers = match o.headers {
                Some(h) => h,
                None => request.headers,
            };
            let body = match o.post_data {
                Some(b) => b,
                None => take_body(request.post_data),
            };
            ProxyReply::Forward { url, method, headers, body }
        },
    }
}

/// What a page's fetch interception sends to the browser for a paused
/// request.
pub enum FetchCommand {
    /// Answer the request with this status, headers and body.
    Fulfill { status: u16, headers: Vec<(String, String)>, body: Option<Vec<u8>> },
    /// Let the request go on, with the method and headers replaced where
    /// set.
    Continue { method: Option<String>, headers: Option<Vec<(String, String)>> },
    /// Fail the request.
    Fail,
}

/// The fetch command for the route handler's decision (`None` when the
/// handler dropped the request without deciding, which lets it go on
/// unchanged): a fulfilment keeps its status (200 by default), headers
/// and body; a continuation keeps only its method and headers; an abort
/// fails the request.
pub fn fetch_command(action: Option<RouteAction>) -> (r: FetchCommand)
    ensures
        match action {
            None => r matches FetchCommand::Continue { method, headers } && method is None && headers is None,
            Some(RouteAction::Fulfill(o)) => r matches FetchCommand::Fulfill { status, headers, body }
                && status == (match o.status { Some(s) => s, None => 200u16 })
                && headers@ == (match o.headers { Some(h) => h@, None => Seq::empty() })
                && body == o.body,
            Some(RouteAction::Continue(o)) => r matches FetchCommand::Continue { method, headers } && method == o.method
                && headers == o.headers,
            Some(RouteAction::Abort) => r is Fail,
        },
{
    match action {
        None => FetchCommand::Continue { method: None, headers: None },
        Some(RouteAction::Fulfill(o)) => {
            let status = match o.status {
                Some(s) => s,
                None => 200,
            };
            let headers = match o.headers {
                Some(h) => h,
                None => Vec::new(),
            };
            FetchCommand::Fulfill { status, headers, body: o.body }
        },
        Some(RouteAction::Continue(o)) => FetchCommand::Continue { method: o.method, headers: o.headers },
        Some(RouteAction::Abort) => FetchCommand::Fail,
    }
}

} // verus!
