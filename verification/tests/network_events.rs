use std::collections::HashMap;
use turbosheet::network::events::{name_less, request_event_json, response_event_json, sorted_by_name};

fn headers(pairs: &[(&str, &str)]) -> Vec<(String, String)> {
    pairs.iter().map(|(k, v)| (k.to_string(), v.to_string())).collect()
}

fn as_map(h: &[(String, String)]) -> HashMap<String, String> {
    h.iter().cloned().collect()
}

fn serde_request(url: &str, method: &str, h: &HashMap<String, String>, post: Option<&str>) -> String {
    let mut obj = serde_json::Map::new();
    obj.insert("url".to_string(), serde_json::Value::String(url.to_string()));
    obj.insert("method".to_string(), serde_json::Value::String(method.to_string()));
    obj.insert("headers".to_string(), serde_json::to_value(h).unwrap());
    if let Some(p) = post {
        obj.insert("postData".to_string(), serde_json::Value::String(p.to_string()));
    }
    serde_json::Value::Object(obj).to_string()
}

fn serde_response(url: &str, status: u16, h: &HashMap<String, String>) -> String {
    let mut obj = serde_json::Map::new();
    obj.insert("url".to_string(), serde_json::Value::String(url.to_string()));
    obj.insert("status".to_string(), serde_json::Value::from(status));
    obj.insert("headers".to_string(), serde_json::to_value(h).unwrap());
    serde_json::Value::Object(obj).to_string()
}

#[test]
fn names_compare_as_strings_do() {
    let words = ["", "a", "B", "b", "ab", "aB", "abc", "\u{e9}", "z", "content-type", "Content-Type", "x-\u{1f600}"];
    for a in words {
        for b in words {
            assert_eq!(name_less(a, b), a < b, "{:?} < {:?}", a, b);
        }
    }
}

#[test]
fn headers_are_ordered_by_name() {
    let h = headers(&[("x-b", "2"), ("accept", "*/*"), ("X-A", "1"), ("content-type", "text/html")]);
    let names: Vec<String> = sorted_by_name(&h).into_iter().map(|p| p.0).collect();
    assert_eq!(names, vec!["X-A", "accept", "content-type", "x-b"]);
}

#[test]
fn event_json_agrees_with_serde_json() {
    let cases = vec![
        headers(&[]),
        headers(&[("accept", "*/*")]),
        headers(&[("x-b", "2"), ("accept", "\"q\""), ("X-A", "1\n"), ("content-type", "text/html; charset=\u{e9}")]),
    ];
    for h in &cases {
        let m = as_map(h);
        assert_eq!(request_event_json("https://a.com/?q=\"x\"", "GET", h, None), serde_request("https://a.com/?q=\"x\"", "GET", &m, None));
        assert_eq!(
            request_event_json("https://a.com/", "POST", h, Some("{\"a\":1}")),
            serde_request("https://a.com/", "POST", &m, Some("{\"a\":1}"))
        );
        assert_eq!(response_event_json("https://a.com/", 404, h), serde_response("https://a.com/", 404, &m));
    }
    assert_eq!(
        response_event_json("u", 200, &headers(&[("b", "2"), ("a", "1")])),
        "{\"headers\":{\"a\":\"1\",\"b\":\"2\"},\"status\":200,\"url\":\"u\"}"
    );
}
