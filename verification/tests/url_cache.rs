use turbosheet::events::{EventType, UrlCache};

#[test]
fn navigation_updates_the_cached_url() {
    let mut c = UrlCache::new();
    assert_eq!(c.get("page_1"), None);
    c.note_event("page_1", EventType::FrameNavigated, Some("https://example.com/page1"));
    assert_eq!(c.get("page_1").as_deref(), Some("https://example.com/page1"));
    c.note_event("page_1", EventType::FrameNavigated, Some("https://example.com/page2"));
    assert_eq!(c.get("page_1").as_deref(), Some("https://example.com/page2"));
}

#[test]
fn pages_are_cached_apart() {
    let mut c = UrlCache::new();
    c.note_event("a", EventType::FrameNavigated, Some("https://a/"));
    c.note_event("b", EventType::FrameNavigated, Some("https://b/"));
    assert_eq!(c.get("a").as_deref(), Some("https://a/"));
    assert_eq!(c.get("b").as_deref(), Some("https://b/"));
    c.remove("a");
    assert_eq!(c.get("a"), None);
    assert_eq!(c.get("b").as_deref(), Some("https://b/"));
    c.remove("missing");
    assert_eq!(c.get("b").as_deref(), Some("https://b/"));
}

#[test]
fn other_events_leave_the_cache_alone() {
    let mut c = UrlCache::new();
    c.note_event("p", EventType::ConsoleAPICalled, Some("https://x/"));
    c.note_event("p", EventType::FrameNavigated, None);
    assert_eq!(c.get("p"), None);
    c.set("p", "https://y/");
    c.note_event("p", EventType::LoadEventFired, Some("https://z/"));
    assert_eq!(c.get("p").as_deref(), Some("https://y/"));
}

#[test]
fn test_frame_navigated_updates_url_cache() {
    let mut c = UrlCache::new();
    c.note_event("page_1", EventType::FrameNavigated, Some("https://example.com/page1"));
    assert_eq!(c.get("page_1"), Some("https://example.com/page1".to_string()));
}

#[test]
fn test_url_cache_multiple_navigations() {
    let mut c = UrlCache::new();
    c.note_event("page_1", EventType::FrameNavigated, Some("https://a.com"));
    assert_eq!(c.get("page_1").unwrap(), "https://a.com");
    c.note_event("page_1", EventType::FrameNavigated, Some("https://b.com"));
    assert_eq!(c.get("page_1").unwrap(), "https://b.com");
}

#[test]
fn test_url_cache_per_page_isolation() {
    let mut c = UrlCache::new();
    c.note_event("page_x", EventType::FrameNavigated, Some("https://x.com"));
    c.note_event("page_y", EventType::FrameNavigated, Some("https://y.com"));
    assert_eq!(c.get("page_x").unwrap(), "https://x.com");
    assert_eq!(c.get("page_y").unwrap(), "https://y.com");
}

#[test]
fn test_url_cache_no_navigation_returns_none() {
    let c = UrlCache::new();
    assert!(c.get("unknown").is_none());
}

#[test]
fn test_nonevent_type_does_not_affect_cache() {
    let mut c = UrlCache::new();
    c.note_event("page_1", EventType::ConsoleAPICalled, None);
    assert!(c.get("page_1").is_none());
}
