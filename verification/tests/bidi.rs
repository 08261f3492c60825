use turbosheet::engine::bidi::types::{bidi_message_kind, BidiMessageKind};
use turbosheet::error::TurbosheetError;
use turbosheet::engine::bidi_preprocessor::BidiPreprocessor;
use turbosheet::engine::bidi::client::{RequestKind, UrlWaiterRegistry};
use turbosheet::engine::bidi::events::BidiEventMethod;

fn make_registry() -> UrlWaiterRegistry {
    UrlWaiterRegistry::new(30_000)
}

#[test]
fn test_resolve_request() {
    let mut registry = make_registry();
    registry.register(1, "example.com".to_string(), RequestKind::Request, 0);
    let ids = registry.resolve_matching("network.beforeRequestSent", "https://example.com/page");
    assert_eq!(ids, vec![1]);
}

#[test]
fn test_resolve_response() {
    let mut registry = make_registry();
    registry.register(1, "api.example.com".to_string(), RequestKind::Response, 0);
    let ids = registry.resolve_matching("network.responseCompleted", "https://api.example.com/data");
    assert_eq!(ids, vec![1]);
}

#[test]
fn test_resolve_fetch_error() {
    let mut registry = make_registry();
    registry.register(1, "cdn.example.com".to_string(), RequestKind::Error, 0);
    let ids = registry.resolve_matching("network.fetchError", "https://cdn.example.com/broken.js");
    assert_eq!(ids, vec![1]);
}

#[test]
fn test_no_match_wrong_kind() {
    let mut registry = make_registry();
    registry.register(1, "example.com".to_string(), RequestKind::Request, 0);
    let ids = registry.resolve_matching("network.responseCompleted", "https://example.com/page");
    assert!(ids.is_empty(), "Request waiter should NOT resolve on response event");
    assert_eq!(registry.waiters.len(), 1);
}

#[test]
fn test_no_match_wrong_url() {
    let mut registry = make_registry();
    registry.register(1, "example.com".to_string(), RequestKind::Request, 0);
    let ids = registry.resolve_matching("network.beforeRequestSent", "https://other.com/page");
    assert!(ids.is_empty(), "Waiter should NOT resolve on non-matching URL");
}

#[test]
fn test_unknown_method_event_ignored() {
    let mut registry = make_registry();
    registry.register(1, "test".to_string(), RequestKind::Request, 0);
    let ids = registry.resolve_matching("browsingContext.load", "https://test.com");
    assert!(ids.is_empty());
    assert_eq!(registry.waiters.len(), 1, "Unknown event method should not resolve any waiters");
}

#[test]
fn test_url_substring_match() {
    let mut registry = make_registry();
    registry.register(1, "page/42".to_string(), RequestKind::Request, 0);
    let ids = registry.resolve_matching("network.beforeRequestSent", "https://example.com/page/42/details");
    assert_eq!(ids, vec![1], "Should match on URL substring");
}

#[test]
fn test_multiple_waiters_only_matching_removed() {
    let mut registry = make_registry();
    registry.register(1, "alpha".to_string(), RequestKind::Request, 0);
    registry.register(2, "beta".to_string(), RequestKind::Request, 0);
    let ids = registry.resolve_matching("network.beforeRequestSent", "https://beta.com/page");
    assert_eq!(ids, vec![2], "Matching waiter should resolve");
    assert_eq!(registry.waiters.len(), 1, "Only non-matching waiter should remain");
    assert_eq!(registry.waiters[0].pattern, "alpha");
}

#[test]
fn test_cleanup_expired_removes_stale() {
    let mut registry = UrlWaiterRegistry::new(1);
    registry.register(1, "test".to_string(), RequestKind::Request, 100);
    assert_eq!(registry.waiters.len(), 1, "Should still have waiter before cleanup");
    registry.cleanup_expired(110);
    assert_eq!(registry.waiters.len(), 0, "Expired waiter should be removed after cleanup");
}

#[test]
fn test_cleanup_keeps_fresh_waiters() {
    let mut registry = make_registry();
    registry.register(1, "fresh".to_string(), RequestKind::Response, 100);
    registry.cleanup_expired(100);
    assert_eq!(registry.waiters.len(), 1, "Fresh waiter should survive cleanup");
}

#[test]
fn test_registry_new_starts_empty() {
    let registry = make_registry();
    assert_eq!(registry.waiters.len(), 0, "New registry should be empty");
}

#[test]
fn all_matching_waiters_resolve_in_order() {
    let mut registry = make_registry();
    registry.register(7, "a".to_string(), RequestKind::Request, 0);
    registry.register(8, "zzz".to_string(), RequestKind::Request, 0);
    registry.register(9, "b".to_string(), RequestKind::Request, 0);
    let ids = registry.resolve_matching("network.beforeRequestSent", "https://ab.com");
    assert_eq!(ids, vec![7, 9]);
    assert_eq!(registry.waiters.len(), 1);
    assert_eq!(registry.waiters[0].id, 8);
}

#[test]
fn cleanup_keeps_waiters_when_the_clock_goes_back() {
    let mut registry = UrlWaiterRegistry::new(5);
    registry.register(1, "x".to_string(), RequestKind::Request, 100);
    registry.cleanup_expired(50);
    assert_eq!(registry.waiters.len(), 1);
    registry.cleanup_expired(105);
    assert_eq!(registry.waiters.len(), 0);
}

#[test]
fn event_methods_by_name() {
    assert_eq!(BidiEventMethod::from("network.beforeRequestSent"), BidiEventMethod::NetworkBeforeRequestSent);
    assert_eq!(BidiEventMethod::from("network.responseCompleted"), BidiEventMethod::NetworkResponseCompleted);
    assert_eq!(BidiEventMethod::from("network.fetchError"), BidiEventMethod::NetworkFetchError);
    assert_eq!(BidiEventMethod::from("script.message"), BidiEventMethod::ScriptMessage);
    assert_eq!(BidiEventMethod::from("log.entryAdded"), BidiEventMethod::Unknown("log.entryAdded".to_string()));
}

#[test]
fn preprocessor_drops_noise_and_batches_by_window() {
    let mut p: BidiPreprocessor<u32> = BidiPreprocessor::new(100, 1000);
    assert_eq!(p.process_event(Some("input.mouseMove"), 1, 5000), None);
    assert_eq!(p.process_event(Some("dom.mutation"), 2, 5000), None);
    assert_eq!(p.process_event(Some("log.entryAdded"), 3, 1050), None);
    assert_eq!(p.process_event(None, 4, 1099), None);
    assert_eq!(p.process_event(Some("network.beforeRequestSent"), 5, 1100), Some(vec![3, 4, 5]));
    assert_eq!(p.process_event(Some("input.scroll"), 6, 9000), None);
    assert_eq!(p.flush(1150), None);
    assert_eq!(p.process_event(Some("x"), 7, 1150), None);
    assert_eq!(p.flush(1160), Some(vec![7]));
    assert_eq!(p.process_event(Some("x"), 8, 1200), None);
    assert_eq!(p.process_event(Some("x"), 9, 1260), Some(vec![8, 9]));
    assert!(BidiPreprocessor::<u32>::drops_method("input.scroll"));
    assert!(!BidiPreprocessor::<u32>::drops_method("input.Scroll"));
}

fn kind_of(raw: &str) -> Result<BidiMessageKind, String> {
    match bidi_message_kind(raw) {
        Ok(k) => Ok(k),
        Err(TurbosheetError::Other(m)) => Err(m),
        Err(e) => panic!("unexpected error {:?}", e),
    }
}

#[test]
fn test_parse_command_response_with_result() {
    let raw = r#"{"id": 1, "result": {"value": "ok"}}"#;
    assert_eq!(kind_of(raw), Ok(BidiMessageKind::Command));
}

#[test]
fn test_parse_response_with_error() {
    let raw = r#"{"id": 42, "error": {"code": "invalid argument", "message": "Bad params"}}"#;
    assert_eq!(kind_of(raw), Ok(BidiMessageKind::Command));
}

#[test]
fn test_parse_event() {
    let raw = r#"{"method": "network.beforeRequestSent", "params": {"request": {"url": "https://example.com"}}}"#;
    assert_eq!(kind_of(raw), Ok(BidiMessageKind::Event));
}

#[test]
fn test_parse_invalid_json_fails() {
    let result = kind_of("not valid json");
    assert!(result.is_err(), "Should fail on malformed JSON");
    assert!(result.unwrap_err().starts_with("BiDi parse error: expected"));
}

#[test]
fn bidi_kind_of_other_json_values() {
    assert_eq!(kind_of("{}"), Ok(BidiMessageKind::Event));
    assert_eq!(kind_of("[1, 2]"), Ok(BidiMessageKind::Event));
    assert_eq!(kind_of(r#"{"id": null}"#), Ok(BidiMessageKind::Command));
    assert_eq!(kind_of("{"), Err("BiDi parse error: EOF while parsing an object at line 1 column 1".to_string()));
}
